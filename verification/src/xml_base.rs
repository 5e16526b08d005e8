//! Shared machinery of the XML streaming codec.
//!
//! Reading works on a forward-only cursor over the event sequence; every
//! read function consumes a well-delimited range of events or fails.  Each
//! executable function is proved equal to a specification-level parse or
//! write function; the entity codecs and the round-trip laws are stated
//! over those.

use vstd::prelude::*;

use crate::errors::{Error, ErrorView};
use crate::xml_io::{Ev, EvName, EvNameView, EvView};

verus! {

/// Maps an executable read result onto the specification plane.
pub open spec fn pres<T: DeepView>(r: Result<(T, usize), Error>) -> Result<
    (T::V, int),
    ErrorView,
> {
    match r {
        Ok((v, j)) => Ok((v.deep_view(), j as int)),
        Err(e) => Err(e.deep_view()),
    }
}

/// Maps an executable cursor-only result onto the specification plane.
pub open spec fn pres_pos(r: Result<usize, Error>) -> Result<int, ErrorView> {
    match r {
        Ok(j) => Ok(j as int),
        Err(e) => Err(e.deep_view()),
    }
}

/// The name of an element written by this engine: no namespace except where
/// one is given explicitly (the document root).
pub open spec fn noname(local: Seq<char>) -> EvNameView {
    EvNameView { ns: None, local }
}

/// A start event without attributes, as written by this engine.
pub open spec fn sx(local: Seq<char>) -> EvView {
    EvView::Start { name: noname(local), attrs: Seq::empty() }
}

/// A start event with attributes, as written by this engine.
pub open spec fn sxa(local: Seq<char>, attrs: Seq<(Seq<char>, Seq<char>)>) -> EvView {
    EvView::Start { name: noname(local), attrs }
}

/// An end event, as written by this engine.
pub open spec fn ex(local: Seq<char>) -> EvView {
    EvView::End { name: noname(local) }
}

/// The events of a leaf element holding exactly one run of text.
pub open spec fn w_text_tag(tag: Seq<char>, text: Seq<char>) -> Seq<EvView> {
    seq![sx(tag), EvView::Text(text), ex(tag)]
}

/// The events of an optional leaf element: absent values emit nothing.
pub open spec fn w_opt_text_tag(tag: Seq<char>, o: Option<Seq<char>>) -> Seq<EvView> {
    match o {
        Some(t) => w_text_tag(tag, t),
        None => Seq::empty(),
    }
}

/// A structural read error naming the element being read.
pub open spec fn unexpected(element: Seq<char>) -> ErrorView {
    ErrorView::UnexpectedElement { element }
}

/// The events of an optional boolean leaf element.
pub open spec fn w_opt_bool_tag(tag: Seq<char>, o: Option<bool>) -> Seq<EvView> {
    match o {
        Some(b) => w_text_tag(tag, crate::scalars::bool_text(b)),
        None => Seq::empty(),
    }
}

/// How one child of a repeating container is written.  `tag` is the element
/// name the container uses for each child; children whose element name is
/// fixed by their own kind ignore it.
pub trait ChildWrite {
    spec fn child_events(self, tag: Seq<char>) -> Seq<EvView>;
}

/// The events of a list of children, in order.
pub open spec fn w_children<T: ChildWrite>(s: Seq<T>, tag: Seq<char>) -> Seq<EvView>
    decreases s.len(),
{
    if s.len() == 0 {
        Seq::empty()
    } else {
        s[0].child_events(tag) + w_children(s.subrange(1, s.len() as int), tag)
    }
}

pub proof fn lemma_w_children_snoc<T: ChildWrite>(s: Seq<T>, c: T, tag: Seq<char>)
    ensures
        w_children(s.push(c), tag) == w_children(s, tag) + c.child_events(tag),
    decreases s.len(),
{
    let whole = s.push(c);
    if s.len() == 0 {
        assert(whole.subrange(1, whole.len() as int) =~= Seq::<T>::empty());
        assert(w_children(whole.subrange(1, whole.len() as int), tag) == Seq::<EvView>::empty());
        assert(whole[0] == c);
        assert(w_children(whole, tag) =~= w_children(s, tag) + c.child_events(tag));
    } else {
        assert(whole.subrange(1, whole.len() as int) =~= s.subrange(1, s.len() as int).push(c));
        lemma_w_children_snoc(s.subrange(1, s.len() as int), c, tag);
        assert(whole[0] == s[0]);
        assert(w_children(whole, tag) =~= w_children(s, tag) + c.child_events(tag));
    }
}

/// The events of a list of text-content leaf children, each named `tag`.
pub open spec fn w_text_list(s: Seq<Seq<char>>, tag: Seq<char>) -> Seq<EvView>
    decreases s.len(),
{
    if s.len() == 0 {
        Seq::empty()
    } else {
        w_text_tag(tag, s[0]) + w_text_list(s.subrange(1, s.len() as int), tag)
    }
}

pub proof fn lemma_w_text_list_snoc(s: Seq<Seq<char>>, c: Seq<char>, tag: Seq<char>)
    ensures
        w_text_list(s.push(c), tag) == w_text_list(s, tag) + w_text_tag(tag, c),
    decreases s.len(),
{
    let whole = s.push(c);
    if s.len() == 0 {
        assert(whole.subrange(1, whole.len() as int) =~= Seq::<Seq<char>>::empty());
        assert(w_text_list(whole.subrange(1, whole.len() as int), tag) == Seq::<EvView>::empty());
        assert(whole[0] == c);
        assert(w_text_list(whole, tag) =~= w_text_list(s, tag) + w_text_tag(tag, c));
    } else {
        assert(whole.subrange(1, whole.len() as int) =~= s.subrange(1, s.len() as int).push(c));
        lemma_w_text_list_snoc(s.subrange(1, s.len() as int), c, tag);
        assert(whole[0] == s[0]);
        assert(w_text_list(whole, tag) =~= w_text_list(s, tag) + w_text_tag(tag, c));
    }
}

/// An empty element named `tag` carrying one `ref` attribute.
pub open spec fn w_ref_tag(tag: Seq<char>, r: Seq<char>) -> Seq<EvView> {
    seq![sxa(tag, seq![("ref"@, r)]), ex(tag)]
}

/// The events of a list of `ref`-attribute children, each named `tag`.
pub open spec fn w_ref_list(s: Seq<Seq<char>>, tag: Seq<char>) -> Seq<EvView>
    decreases s.len(),
{
    if s.len() == 0 {
        Seq::empty()
    } else {
        w_ref_tag(tag, s[0]) + w_ref_list(s.subrange(1, s.len() as int), tag)
    }
}

pub proof fn lemma_w_ref_list_snoc(s: Seq<Seq<char>>, c: Seq<char>, tag: Seq<char>)
    ensures
        w_ref_list(s.push(c), tag) == w_ref_list(s, tag) + w_ref_tag(tag, c),
    decreases s.len(),
{
    let whole = s.push(c);
    if s.len() == 0 {
        assert(whole.subrange(1, whole.len() as int) =~= Seq::<Seq<char>>::empty());
        assert(w_ref_list(whole.subrange(1, whole.len() as int), tag) == Seq::<EvView>::empty());
        assert(whole[0] == c);
        assert(w_ref_list(whole, tag) =~= w_ref_list(s, tag) + w_ref_tag(tag, c));
    } else {
        assert(whole.subrange(1, whole.len() as int) =~= s.subrange(1, s.len() as int).push(c));
        lemma_w_ref_list_snoc(s.subrange(1, s.len() as int), c, tag);
        assert(whole[0] == s[0]);
        assert(w_ref_list(whole, tag) =~= w_ref_list(s, tag) + w_ref_tag(tag, c));
    }
}

/// Writes an empty element named `tag` carrying one `ref` attribute.
pub fn push_ref_tag(out: &mut Vec<Ev>, tag: &str, r: &String)
    ensures
        final(out).deep_view() == old(out).deep_view() + w_ref_tag(tag@, r@),
{
    let mut attrs: Vec<(String, String)> = Vec::new();
    push_attr(&mut attrs, "ref", r);
    proof {
        assert(attrs.deep_view() =~= seq![(("ref"@), r@)]);
    }
    push_start_attrs(out, tag, attrs);
    push_end(out, tag);
    proof {
        assert(final(out).deep_view() =~= old(out).deep_view() + w_ref_tag(tag@, r@));
    }
}

/// First-match lookup of an attribute by name.
pub open spec fn spec_attr(attrs: Seq<(Seq<char>, Seq<char>)>, name: Seq<char>) -> Option<
    Seq<char>,
>
    decreases attrs.len(),
{
    if attrs.len() == 0 {
        None
    } else if attrs[0].0 == name {
        Some(attrs[0].1)
    } else {
        spec_attr(attrs.subrange(1, attrs.len() as int), name)
    }
}

/// Appends one event; the specification-level sequence gains its view.
pub fn push_ev(out: &mut Vec<Ev>, e: Ev)
    ensures
        final(out).deep_view() == old(out).deep_view().push(e.deep_view()),
{
    out.push(e);
    proof {
        assert(out.deep_view() =~= old(out).deep_view().push(e.deep_view()));
    }
}

/// Appends a start event without attributes.
pub fn push_start(out: &mut Vec<Ev>, tag: &str)
    ensures
        final(out).deep_view() == old(out).deep_view().push(sx(tag@)),
{
    let e = Ev::Start { name: EvName { ns: None, local: tag.to_owned() }, attrs: Vec::new() };
    proof {
        assert(e.deep_view().arrow_Start_attrs() =~= Seq::<(Seq<char>, Seq<char>)>::empty());
    }
    push_ev(out, e);
}

/// Appends a start event with attributes.
pub fn push_start_attrs(out: &mut Vec<Ev>, tag: &str, attrs: Vec<(String, String)>)
    ensures
        final(out).deep_view() == old(out).deep_view().push(sxa(tag@, attrs.deep_view())),
{
    let e = Ev::Start { name: EvName { ns: None, local: tag.to_owned() }, attrs };
    push_ev(out, e);
}

/// Appends an end event.
pub fn push_end(out: &mut Vec<Ev>, tag: &str)
    ensures
        final(out).deep_view() == old(out).deep_view().push(ex(tag@)),
{
    push_ev(out, Ev::End { name: EvName { ns: None, local: tag.to_owned() } });
}

/// Appends a text event.
pub fn push_text(out: &mut Vec<Ev>, text: &String)
    ensures
        final(out).deep_view() == old(out).deep_view().push(EvView::Text(text@)),
{
    push_ev(out, Ev::Text(text.clone()));
}

/// Appends a whole leaf element holding one run of text.
pub fn push_text_tag(out: &mut Vec<Ev>, tag: &str, text: &String)
    ensures
        final(out).deep_view() == old(out).deep_view() + w_text_tag(tag@, text@),
{
    push_start(out, tag);
    push_text(out, text);
    push_end(out, tag);
    proof {
        assert(out.deep_view() =~= old(out).deep_view() + w_text_tag(tag@, text@));
    }
}

/// Appends an optional leaf element; absent values emit nothing.
pub fn push_opt_text_tag(out: &mut Vec<Ev>, tag: &str, text: &Option<String>)
    ensures
        final(out).deep_view() == old(out).deep_view() + w_opt_text_tag(tag@, text.deep_view()),
{
    match text {
        Some(t) => push_text_tag(out, tag, t),
        None => {
            proof {
                assert(out.deep_view() =~= old(out).deep_view() + Seq::<EvView>::empty());
            }
        },
    }
}

/// Appends an optional boolean leaf element; absent values emit nothing.
pub fn push_opt_bool_tag(out: &mut Vec<Ev>, tag: &str, o: &Option<bool>)
    ensures
        final(out).deep_view() == old(out).deep_view() + w_opt_bool_tag(tag@, *o),
{
    match o {
        Some(b) => {
            let t: String = crate::scalars::bool_to_str(*b).to_owned();
            push_text_tag(out, tag, &t);
        },
        None => {
            proof {
                assert(out.deep_view() =~= old(out).deep_view() + Seq::<EvView>::empty());
            }
        },
    }
}

/// Appends one attribute to an attribute list under construction.
pub fn push_attr(out: &mut Vec<(String, String)>, name: &str, value: &String)
    ensures
        final(out).deep_view() == old(out).deep_view().push((name@, value@)),
{
    out.push((name.to_owned(), value.clone()));
    proof {
        assert(out.deep_view() =~= old(out).deep_view().push((name@, value@)));
    }
}

/// Equality of qualified names, at the view level.
pub fn evname_eq(a: &EvName, b: &EvName) -> (r: bool)
    ensures
        r == (a.deep_view() == b.deep_view()),
{
    let ns_eq = match (&a.ns, &b.ns) {
        (None, None) => true,
        (Some(x), Some(y)) => crate::scalars::string_eq(x, y.as_str()),
        _ => false,
    };
    let loc_eq = crate::scalars::string_eq(&a.local, b.local.as_str());
    let r = ns_eq && loc_eq;
    proof {
        assert(a.deep_view().ns == a.ns.deep_view());
        assert(b.deep_view().ns == b.ns.deep_view());
        if r {
            assert(a.deep_view().ns == b.deep_view().ns);
            assert(a.deep_view() == b.deep_view());
        } else if a.deep_view() == b.deep_view() {
            assert(a.deep_view().ns == b.deep_view().ns);
            assert(a.deep_view().local == b.deep_view().local);
            assert(false);
        }
    }
    r
}

/// Whether the local name of `a` is `lit`.
pub fn local_is(a: &EvName, lit: &str) -> (r: bool)
    ensures
        r == (a.deep_view().local == lit@),
{
    crate::scalars::string_eq(&a.local, lit)
}

/// First-match lookup of an attribute by name.
pub fn find_attr<'a>(attrs: &'a Vec<(String, String)>, name: &str) -> (r: Option<&'a String>)
    ensures
        match r {
            Some(v) => spec_attr(attrs.deep_view(), name@) == Some(v@),
            None => spec_attr(attrs.deep_view(), name@) is None,
        },
{
    let ghost full = attrs.deep_view();
    proof {
        assert(full.subrange(0, full.len() as int) =~= full);
    }
    let n = attrs.len();
    let mut i: usize = 0;
    while i < n
        invariant
            0 <= i <= n,
            n == attrs@.len(),
            full == attrs.deep_view(),
            spec_attr(full, name@) == spec_attr(
                full.subrange(i as int, full.len() as int),
                name@,
            ),
        decreases n - i,
    {
        let ghost rest = full.subrange(i as int, full.len() as int);
        proof {
            assert(rest[0] == full[i as int]);
            assert(rest.subrange(1, rest.len() as int) =~= full.subrange(
                i + 1,
                full.len() as int,
            ));
        }
        if crate::scalars::string_eq(&attrs[i].0, name) {
            return Some(&attrs[i].1);
        }
        i = i + 1;
    }
    proof {
        assert(full.subrange(n as int, full.len() as int) =~= Seq::<
            (Seq<char>, Seq<char>),
        >::empty());
    }
    None
}

/// Looks up a required attribute: its absence is a required-data error
/// naming the attribute and the element.
pub fn find_req_attr(attrs: &Vec<(String, String)>, name: &str, element: &str) -> (r: Result<
    String,
    Error,
>)
    ensures
        match r {
            Ok(v) => spec_attr(attrs.deep_view(), name@) == Some(v@),
            Err(e) => spec_attr(attrs.deep_view(), name@) is None && e.deep_view()
                == (ErrorView::RequiredDataMissing { required_field: name@, element: element@ }),
        },
{
    match find_attr(attrs, name) {
        Some(v) => Ok(v.clone()),
        None => Err(
            Error::RequiredDataMissing {
                required_field: name.to_owned(),
                element: element.to_owned(),
            },
        ),
    }
}

/// What reading a text-content leaf element yields: exactly one text event,
/// then the matching end tag; any other event sequence is a read error.
pub open spec fn p_text_tag(evs: Seq<EvView>, i: int, open: EvNameView) -> Result<
    (Seq<char>, int),
    ErrorView,
> {
    if i < 0 || i >= evs.len() {
        Err(unexpected(open.local))
    } else {
        match evs[i] {
            EvView::Text(t) => {
                if i + 1 >= evs.len() {
                    Err(unexpected(open.local))
                } else {
                    match evs[i + 1] {
                        EvView::End { name } => {
                            if name == open {
                                Ok((t, i + 2))
                            } else {
                                Err(unexpected(open.local))
                            }
                        },
                        _ => Err(unexpected(open.local)),
                    }
                }
            },
            _ => Err(unexpected(open.local)),
        }
    }
}

/// Reads a text-content leaf element whose start event is already consumed.
pub fn read_text_tag(evs: &Vec<Ev>, i: usize, open: &EvName) -> (r: Result<(String, usize), Error>)
    ensures
        pres(r) == p_text_tag(evs.deep_view(), i as int, open.deep_view()),
        r matches Ok((_, j)) ==> i < j <= evs.len(),
{
    if i >= evs.len() {
        return Err(Error::UnexpectedElement { element: open.local.clone() });
    }
    match &evs[i] {
        Ev::Text(t) => {
            if i + 1 >= evs.len() {
                return Err(Error::UnexpectedElement { element: open.local.clone() });
            }
            match &evs[i + 1] {
                Ev::End { name } => {
                    if evname_eq(name, open) {
                        Ok((t.clone(), i + 2))
                    } else {
                        Err(Error::UnexpectedElement { element: open.local.clone() })
                    }
                },
                _ => Err(Error::UnexpectedElement { element: open.local.clone() }),
            }
        },
        _ => Err(Error::UnexpectedElement { element: open.local.clone() }),
    }
}

/// What lax skipping yields: starting inside the elements whose names are on
/// `stack`, events are consumed — descending into nested elements, passing
/// text — until every open element is closed by its matching end tag.  Only
/// a truncated document, a mismatched end tag, or a non-element event kind
/// fails.
pub open spec fn p_skip(evs: Seq<EvView>, i: int, stack: Seq<EvNameView>) -> Result<
    int,
    ErrorView,
>
    decreases evs.len() - i,
{
    if stack.len() == 0 {
        Ok(i)
    } else if i < 0 || i >= evs.len() {
        Err(unexpected(stack.last().local))
    } else {
        match evs[i] {
            EvView::Start { name, attrs } => p_skip(evs, i + 1, stack.push(name)),
            EvView::End { name } => {
                if name == stack.last() {
                    p_skip(evs, i + 1, stack.drop_last())
                } else {
                    Err(unexpected(stack.last().local))
                }
            },
            EvView::Text(_) => p_skip(evs, i + 1, stack),
            _ => Err(unexpected(stack.last().local)),
        }
    }
}

/// Skips one unrecognized element whose start event is already consumed:
/// the lax-validation tolerance for foreign and unknown elements.
pub fn skip_element<'a>(evs: &'a Vec<Ev>, i: usize, open: &'a EvName) -> (r: Result<usize, Error>)
    requires
        i <= evs@.len(),
    ensures
        pres_pos(r) == p_skip(evs.deep_view(), i as int, seq![open.deep_view()]),
        r matches Ok(j) ==> i < j <= evs.len(),
{
    let ghost dv = evs.deep_view();
    let mut stack: Vec<&'a EvName> = Vec::new();
    stack.push(open);
    proof {
        assert(stack.deep_view() =~= seq![open.deep_view()]);
    }
    let mut cur = i;
    while stack.len() != 0
        invariant
            i <= cur <= evs@.len(),
            dv == evs.deep_view(),
            dv.len() == evs@.len(),
            p_skip(dv, i as int, seq![open.deep_view()]) == p_skip(
                dv,
                cur as int,
                stack.deep_view(),
            ),
            stack.len() == 0 ==> i < cur,
        decreases evs@.len() - cur,
    {
        let top_ix = stack.len() - 1;
        if cur >= evs.len() {
            return Err(Error::UnexpectedElement { element: stack[top_ix].local.clone() });
        }
        match &evs[cur] {
            Ev::Start { name, .. } => {
                let ghost old_stack = stack.deep_view();
                stack.push(name);
                proof {
                    assert(stack.deep_view() =~= old_stack.push(name.deep_view()));
                }
                cur = cur + 1;
            },
            Ev::End { name } => {
                let top = stack[top_ix];
                if evname_eq(name, top) {
                    let ghost old_stack = stack.deep_view();
                    stack.pop();
                    proof {
                        assert(stack.deep_view() =~= old_stack.drop_last());
                    }
                    cur = cur + 1;
                } else {
                    return Err(Error::UnexpectedElement { element: top.local.clone() });
                }
            },
            Ev::Text(_) => {
                cur = cur + 1;
            },
            _ => {
                return Err(Error::UnexpectedElement { element: stack[top_ix].local.clone() });
            },
        }
    }
    Ok(cur)
}

} // verus!
