//! Generic machinery for repeating containers: elements whose children are
//! all of one kind (`properties`, `hashes`, `tools`, `components`, ...).
//!
//! A container accepts any number of children under the expected tag and is
//! closed by its matching end tag; unrecognized child elements are
//! lax-skipped, stray text or document tokens are structural errors.
//! Three child shapes cover the schema: structured children (a trait),
//! text-content children, and empty `ref`-attribute children.

use vstd::prelude::*;

use crate::errors::{Error, ErrorView};
use crate::xml_base::{
    evname_eq, ex, find_attr, local_is, p_skip, p_text_tag, pres, push_end, push_ref_tag,
    push_start, push_text_tag, read_text_tag, skip_element, spec_attr, sx, unexpected,
    w_children, w_ref_list, w_ref_tag, w_text_list, w_text_tag, ChildWrite,
};
use crate::xml_io::{Ev, EvName, EvNameView, EvView};

verus! {

/// A structured child of a repeating container: how it is read, tied to the
/// specification-level parse function.
pub trait ChildRead: Sized + DeepView {
    /// What reading one child yields, given its already consumed start tag
    /// and attributes.  `sig_ok` says whether elements that entered the
    /// schema with version 1.4 (enveloped signatures) are recognized;
    /// children without such elements ignore it.
    spec fn p_child(
        evs: Seq<EvView>,
        i: int,
        open: EvNameView,
        attrs: Seq<(Seq<char>, Seq<char>)>,
        sig_ok: bool,
    ) -> Result<(Self::V, int), ErrorView>;

    /// Reads one child whose start event is already consumed.
    fn read_child(
        evs: &Vec<Ev>,
        i: usize,
        open: &EvName,
        attrs: &Vec<(String, String)>,
        sig_ok: bool,
    ) -> (r: Result<(Self, usize), Error>)
        requires
            i <= evs@.len(),
        ensures
            pres(r) == Self::p_child(
                evs.deep_view(),
                i as int,
                open.deep_view(),
                attrs.deep_view(),
                sig_ok,
            ),
            r matches Ok((_, j)) ==> i < j <= evs.len(),
    ;
}

/// A structured child of a repeating container: how it is written, tied to
/// its `ChildWrite` events.
pub trait PushChild: Sized + DeepView where Self::V: ChildWrite {
    /// Writes one child under the container's child tag.
    fn push_child(out: &mut Vec<Ev>, c: &Self, tag: &str)
        ensures
            final(out).deep_view() == old(out).deep_view() + c.deep_view().child_events(tag@),
    ;
}

/// What reading the children of a repeating container yields: children under
/// `tag`, then the matching end tag.
pub open spec fn p_list<T: ChildRead>(
    evs: Seq<EvView>,
    i: int,
    open: EvNameView,
    tag: Seq<char>,
    acc: Seq<T::V>,
    sig_ok: bool,
) -> Result<(Seq<T::V>, int), ErrorView>
    decreases evs.len() - i,
{
    if i < 0 || i >= evs.len() {
        Err(unexpected(open.local))
    } else {
        match evs[i] {
            EvView::Start { name, attrs } => {
                if name.local == tag {
                    match T::p_child(evs, i + 1, name, attrs, sig_ok) {
                        Ok((c, j)) => {
                            if i < j <= evs.len() {
                                p_list::<T>(evs, j, open, tag, acc.push(c), sig_ok)
                            } else {
                                Err(unexpected(open.local))
                            }
                        },
                        Err(e) => Err(e),
                    }
                } else {
                    match p_skip(evs, i + 1, seq![name]) {
                        Ok(j) => {
                            if i < j <= evs.len() {
                                p_list::<T>(evs, j, open, tag, acc, sig_ok)
                            } else {
                                Err(unexpected(open.local))
                            }
                        },
                        Err(e) => Err(e),
                    }
                }
            },
            EvView::End { name } => {
                if name == open {
                    Ok((acc, i + 1))
                } else {
                    Err(unexpected(open.local))
                }
            },
            _ => Err(unexpected(open.local)),
        }
    }
}

/// Reads a repeating container of structured children whose start event is
/// already consumed.
pub fn read_list<T: ChildRead>(
    evs: &Vec<Ev>,
    i: usize,
    open: &EvName,
    tag: &str,
    sig_ok: bool,
) -> (r: Result<(Vec<T>, usize), Error>)
    requires
        i <= evs@.len(),
    ensures
        pres(r) == p_list::<T>(
            evs.deep_view(),
            i as int,
            open.deep_view(),
            tag@,
            Seq::empty(),
            sig_ok,
        ),
        r matches Ok((_, j)) ==> i < j <= evs.len(),
{
    let ghost dv = evs.deep_view();
    let mut items: Vec<T> = Vec::new();
    proof {
        assert(items.deep_view() =~= Seq::<T::V>::empty());
    }
    let mut cur = i;
    loop
        invariant
            i <= cur <= evs@.len(),
            dv == evs.deep_view(),
            dv.len() == evs@.len(),
            p_list::<T>(dv, i as int, open.deep_view(), tag@, Seq::empty(), sig_ok)
                == p_list::<T>(
                dv,
                cur as int,
                open.deep_view(),
                tag@,
                items.deep_view(),
                sig_ok,
            ),
        decreases evs@.len() - cur,
    {
        if cur >= evs.len() {
            return Err(Error::UnexpectedElement { element: open.local.clone() });
        }
        match &evs[cur] {
            Ev::Start { name, attrs } => {
                if local_is(name, tag) {
                    match T::read_child(evs, cur + 1, name, attrs, sig_ok) {
                        Ok((c, j)) => {
                            let ghost pre = items.deep_view();
                            items.push(c);
                            proof {
                                assert(items.deep_view() =~= pre.push(c.deep_view()));
                            }
                            cur = j;
                        },
                        Err(e) => {
                            return Err(e);
                        },
                    }
                } else {
                    match skip_element(evs, cur + 1, name) {
                        Ok(j) => {
                            cur = j;
                        },
                        Err(e) => {
                            return Err(e);
                        },
                    }
                }
            },
            Ev::End { name } => {
                if evname_eq(name, open) {
                    return Ok((items, cur + 1));
                } else {
                    return Err(Error::UnexpectedElement { element: open.local.clone() });
                }
            },
            _ => {
                return Err(Error::UnexpectedElement { element: open.local.clone() });
            },
        }
    }
}

/// Writes the children of a repeating container.
pub fn push_children<T: PushChild>(out: &mut Vec<Ev>, items: &Vec<T>, tag: &str) where
    T::V: ChildWrite
    ensures
        final(out).deep_view() == old(out).deep_view() + w_children(items.deep_view(), tag@),
{
    let ghost mid = out.deep_view();
    let n = items.len();
    let mut k: usize = 0;
    proof {
        assert(items.deep_view().subrange(0, 0) =~= Seq::<T::V>::empty());
        assert(out.deep_view() =~= mid + w_children(
            items.deep_view().subrange(0, 0),
            tag@,
        ));
    }
    while k < n
        invariant
            0 <= k <= n,
            n == items@.len(),
            out.deep_view() == mid + w_children(items.deep_view().subrange(0, k as int), tag@),
        decreases n - k,
    {
        let ghost pre = items.deep_view().subrange(0, k as int);
        T::push_child(out, &items[k], tag);
        proof {
            assert(items.deep_view().subrange(0, k + 1) =~= pre.push(
                items[k as int].deep_view(),
            ));
            crate::xml_base::lemma_w_children_snoc(pre, items[k as int].deep_view(), tag@);
            assert(out.deep_view() =~= mid + w_children(
                items.deep_view().subrange(0, k + 1),
                tag@,
            ));
        }
        k = k + 1;
    }
    proof {
        assert(items.deep_view().subrange(0, n as int) =~= items.deep_view());
    }
}

/// The events of a whole container element: start tag, children, end tag.
pub open spec fn w_wrapped<T: ChildWrite>(
    container: Seq<char>,
    tag: Seq<char>,
    s: Seq<T>,
) -> Seq<EvView> {
    seq![sx(container)] + w_children(s, tag) + seq![ex(container)]
}

/// Writes a whole container element of structured children.
pub fn push_wrapped<T: PushChild>(
    out: &mut Vec<Ev>,
    container: &str,
    tag: &str,
    items: &Vec<T>,
) where T::V: ChildWrite
    ensures
        final(out).deep_view() == old(out).deep_view() + w_wrapped(
            container@,
            tag@,
            items.deep_view(),
        ),
{
    push_start(out, container);
    push_children(out, items, tag);
    push_end(out, container);
    proof {
        assert(final(out).deep_view() =~= old(out).deep_view() + w_wrapped(
            container@,
            tag@,
            items.deep_view(),
        ));
    }
}

/// The events of an optional container element: absent values emit nothing,
/// a present empty list emits an empty container.
pub open spec fn w_opt_wrapped<T: ChildWrite>(
    container: Seq<char>,
    tag: Seq<char>,
    o: Option<Seq<T>>,
) -> Seq<EvView> {
    match o {
        Some(s) => w_wrapped(container, tag, s),
        None => Seq::empty(),
    }
}

/// Writes an optional container element; absent values emit nothing.
pub fn push_opt_wrapped<T: PushChild>(
    out: &mut Vec<Ev>,
    container: &str,
    tag: &str,
    o: &Option<Vec<T>>,
) where T::V: ChildWrite
    ensures
        final(out).deep_view() == old(out).deep_view() + w_opt_wrapped(
            container@,
            tag@,
            o.deep_view(),
        ),
{
    match o {
        Some(items) => push_wrapped(out, container, tag, items),
        None => {
            proof {
                assert(out.deep_view() =~= old(out).deep_view() + Seq::<EvView>::empty());
            }
        },
    }
}

/// What reading a container of text-content children yields.
pub open spec fn p_text_items(
    evs: Seq<EvView>,
    i: int,
    open: EvNameView,
    tag: Seq<char>,
    acc: Seq<Seq<char>>,
) -> Result<(Seq<Seq<char>>, int), ErrorView>
    decreases evs.len() - i,
{
    if i < 0 || i >= evs.len() {
        Err(unexpected(open.local))
    } else {
        match evs[i] {
            EvView::Start { name, attrs } => {
                if name.local == tag {
                    match p_text_tag(evs, i + 1, name) {
                        Ok((t, j)) => {
                            if i < j <= evs.len() {
                                p_text_items(evs, j, open, tag, acc.push(t))
                            } else {
                                Err(unexpected(open.local))
                            }
                        },
                        Err(e) => Err(e),
                    }
                } else {
                    match p_skip(evs, i + 1, seq![name]) {
                        Ok(j) => {
                            if i < j <= evs.len() {
                                p_text_items(evs, j, open, tag, acc)
                            } else {
                                Err(unexpected(open.local))
                            }
                        },
                        Err(e) => Err(e),
                    }
                }
            },
            EvView::End { name } => {
                if name == open {
                    Ok((acc, i + 1))
                } else {
                    Err(unexpected(open.local))
                }
            },
            _ => Err(unexpected(open.local)),
        }
    }
}

/// Reads a container of text-content children whose start event is already
/// consumed.
pub fn read_text_items(evs: &Vec<Ev>, i: usize, open: &EvName, tag: &str) -> (r: Result<
    (Vec<String>, usize),
    Error,
>)
    requires
        i <= evs@.len(),
    ensures
        pres(r) == p_text_items(evs.deep_view(), i as int, open.deep_view(), tag@, Seq::empty()),
        r matches Ok((_, j)) ==> i < j <= evs.len(),
{
    let ghost dv = evs.deep_view();
    let mut items: Vec<String> = Vec::new();
    proof {
        assert(items.deep_view() =~= Seq::<Seq<char>>::empty());
    }
    let mut cur = i;
    loop
        invariant
            i <= cur <= evs@.len(),
            dv == evs.deep_view(),
            dv.len() == evs@.len(),
            p_text_items(dv, i as int, open.deep_view(), tag@, Seq::empty()) == p_text_items(
                dv,
                cur as int,
                open.deep_view(),
                tag@,
                items.deep_view(),
            ),
        decreases evs@.len() - cur,
    {
        if cur >= evs.len() {
            return Err(Error::UnexpectedElement { element: open.local.clone() });
        }
        match &evs[cur] {
            Ev::Start { name, .. } => {
                if local_is(name, tag) {
                    match read_text_tag(evs, cur + 1, name) {
                        Ok((t, j)) => {
                            let ghost pre = items.deep_view();
                            items.push(t);
                            proof {
                                assert(items.deep_view() =~= pre.push(items@[pre.len() as int]@));
                            }
                            cur = j;
                        },
                        Err(e) => {
                            return Err(e);
                        },
                    }
                } else {
                    match skip_element(evs, cur + 1, name) {
                        Ok(j) => {
                            cur = j;
                        },
                        Err(e) => {
                            return Err(e);
                        },
                    }
                }
            },
            Ev::End { name } => {
                if evname_eq(name, open) {
                    return Ok((items, cur + 1));
                } else {
                    return Err(Error::UnexpectedElement { element: open.local.clone() });
                }
            },
            _ => {
                return Err(Error::UnexpectedElement { element: open.local.clone() });
            },
        }
    }
}

/// Writes a run of text-content leaf elements, with no surrounding
/// container.
pub fn push_text_list(out: &mut Vec<Ev>, tag: &str, items: &Vec<String>)
    ensures
        final(out).deep_view() == old(out).deep_view() + w_text_list(items.deep_view(), tag@),
{
    let ghost mid = out.deep_view();
    let n = items.len();
    let mut k: usize = 0;
    proof {
        assert(items.deep_view().subrange(0, 0) =~= Seq::<Seq<char>>::empty());
        assert(out.deep_view() =~= mid + w_text_list(items.deep_view().subrange(0, 0), tag@));
    }
    while k < n
        invariant
            0 <= k <= n,
            n == items@.len(),
            out.deep_view() == mid + w_text_list(items.deep_view().subrange(0, k as int), tag@),
        decreases n - k,
    {
        let ghost pre = items.deep_view().subrange(0, k as int);
        push_text_tag(out, tag, &items[k]);
        proof {
            assert(items.deep_view().subrange(0, k + 1) =~= pre.push(
                items[k as int].deep_view(),
            ));
            crate::xml_base::lemma_w_text_list_snoc(pre, items[k as int].deep_view(), tag@);
            assert(out.deep_view() =~= mid + w_text_list(
                items.deep_view().subrange(0, k + 1),
                tag@,
            ));
        }
        k = k + 1;
    }
    proof {
        assert(items.deep_view().subrange(0, n as int) =~= items.deep_view());
    }
}

/// Writes a whole container element of text-content children.
pub fn push_text_items(out: &mut Vec<Ev>, container: &str, tag: &str, items: &Vec<String>)
    ensures
        final(out).deep_view() == old(out).deep_view() + seq![sx(container@)] + w_text_list(
            items.deep_view(),
            tag@,
        ) + seq![ex(container@)],
{
    push_start(out, container);
    let ghost mid = out.deep_view();
    let n = items.len();
    let mut k: usize = 0;
    proof {
        assert(items.deep_view().subrange(0, 0) =~= Seq::<Seq<char>>::empty());
        assert(out.deep_view() =~= mid + w_text_list(items.deep_view().subrange(0, 0), tag@));
    }
    while k < n
        invariant
            0 <= k <= n,
            n == items@.len(),
            out.deep_view() == mid + w_text_list(items.deep_view().subrange(0, k as int), tag@),
        decreases n - k,
    {
        let ghost pre = items.deep_view().subrange(0, k as int);
        push_text_tag(out, tag, &items[k]);
        proof {
            assert(items.deep_view().subrange(0, k + 1) =~= pre.push(
                items[k as int].deep_view(),
            ));
            crate::xml_base::lemma_w_text_list_snoc(pre, items[k as int].deep_view(), tag@);
            assert(out.deep_view() =~= mid + w_text_list(
                items.deep_view().subrange(0, k + 1),
                tag@,
            ));
        }
        k = k + 1;
    }
    proof {
        assert(items.deep_view().subrange(0, n as int) =~= items.deep_view());
    }
    push_end(out, container);
    proof {
        assert(final(out).deep_view() =~= old(out).deep_view() + seq![sx(container@)]
            + w_text_list(items.deep_view(), tag@) + seq![ex(container@)]);
    }
}

/// The events of an optional container of text-content children.
pub open spec fn w_opt_text_items(
    container: Seq<char>,
    tag: Seq<char>,
    o: Option<Seq<Seq<char>>>,
) -> Seq<EvView> {
    match o {
        Some(s) => seq![sx(container)] + w_text_list(s, tag) + seq![ex(container)],
        None => Seq::empty(),
    }
}

/// Writes an optional container of text-content children; absent values
/// emit nothing.
pub fn push_opt_text_items(
    out: &mut Vec<Ev>,
    container: &str,
    tag: &str,
    o: &Option<Vec<String>>,
)
    ensures
        final(out).deep_view() == old(out).deep_view() + w_opt_text_items(
            container@,
            tag@,
            o.deep_view(),
        ),
{
    match o {
        Some(items) => {
            push_text_items(out, container, tag, items);
            proof {
                assert(final(out).deep_view() =~= old(out).deep_view() + w_opt_text_items(
                    container@,
                    tag@,
                    o.deep_view(),
                ));
            }
        },
        None => {
            proof {
                assert(out.deep_view() =~= old(out).deep_view() + Seq::<EvView>::empty());
            }
        },
    }
}

/// What reading a container of empty `ref`-attribute children yields: each
/// child must carry a `ref` attribute and close immediately.
pub open spec fn p_ref_items(
    evs: Seq<EvView>,
    i: int,
    open: EvNameView,
    tag: Seq<char>,
    acc: Seq<Seq<char>>,
) -> Result<(Seq<Seq<char>>, int), ErrorView>
    decreases evs.len() - i,
{
    if i < 0 || i >= evs.len() {
        Err(unexpected(open.local))
    } else {
        match evs[i] {
            EvView::Start { name, attrs } => {
                if name.local == tag {
                    match spec_attr(attrs, "ref"@) {
                        Some(r) => {
                            if i + 1 < evs.len() && evs[i + 1] == (EvView::End { name }) {
                                p_ref_items(evs, i + 2, open, tag, acc.push(r))
                            } else {
                                Err(unexpected(tag))
                            }
                        },
                        None => Err(
                            ErrorView::RequiredDataMissing {
                                required_field: "ref"@,
                                element: tag,
                            },
                        ),
                    }
                } else {
                    match p_skip(evs, i + 1, seq![name]) {
                        Ok(j) => {
                            if i < j <= evs.len() {
                                p_ref_items(evs, j, open, tag, acc)
                            } else {
                                Err(unexpected(open.local))
                            }
                        },
                        Err(e) => Err(e),
                    }
                }
            },
            EvView::End { name } => {
                if name == open {
                    Ok((acc, i + 1))
                } else {
                    Err(unexpected(open.local))
                }
            },
            _ => Err(unexpected(open.local)),
        }
    }
}

/// Reads a container of empty `ref`-attribute children whose start event is
/// already consumed.
pub fn read_ref_items(evs: &Vec<Ev>, i: usize, open: &EvName, tag: &str) -> (r: Result<
    (Vec<String>, usize),
    Error,
>)
    requires
        i <= evs@.len(),
    ensures
        pres(r) == p_ref_items(evs.deep_view(), i as int, open.deep_view(), tag@, Seq::empty()),
        r matches Ok((_, j)) ==> i < j <= evs.len(),
{
    let ghost dv = evs.deep_view();
    let mut items: Vec<String> = Vec::new();
    proof {
        assert(items.deep_view() =~= Seq::<Seq<char>>::empty());
    }
    let mut cur = i;
    loop
        invariant
            i <= cur <= evs@.len(),
            dv == evs.deep_view(),
            dv.len() == evs@.len(),
            p_ref_items(dv, i as int, open.deep_view(), tag@, Seq::empty()) == p_ref_items(
                dv,
                cur as int,
                open.deep_view(),
                tag@,
                items.deep_view(),
            ),
        decreases evs@.len() - cur,
    {
        if cur >= evs.len() {
            return Err(Error::UnexpectedElement { element: open.local.clone() });
        }
        match &evs[cur] {
            Ev::Start { name, attrs } => {
                if local_is(name, tag) {
                    match find_attr(attrs, "ref") {
                        Some(r) => {
                            if cur + 1 < evs.len() {
                                let closes = match &evs[cur + 1] {
                                    Ev::End { name: en } => evname_eq(en, name),
                                    _ => false,
                                };
                                if closes {
                                    let ghost pre = items.deep_view();
                                    let rr = r.clone();
                                    items.push(rr);
                                    proof {
                                        assert(items.deep_view() =~= pre.push(
                                            items@[pre.len() as int]@,
                                        ));
                                    }
                                    cur = cur + 2;
                                } else {
                                    return Err(
                                        Error::UnexpectedElement { element: tag.to_owned() },
                                    );
                                }
                            } else {
                                return Err(Error::UnexpectedElement { element: tag.to_owned() });
                            }
                        },
                        None => {
                            return Err(
                                Error::RequiredDataMissing {
                                    required_field: "ref".to_owned(),
                                    element: tag.to_owned(),
                                },
                            );
                        },
                    }
                } else {
                    match skip_element(evs, cur + 1, name) {
                        Ok(j) => {
                            cur = j;
                        },
                        Err(e) => {
                            return Err(e);
                        },
                    }
                }
            },
            Ev::End { name } => {
                if evname_eq(name, open) {
                    return Ok((items, cur + 1));
                } else {
                    return Err(Error::UnexpectedElement { element: open.local.clone() });
                }
            },
            _ => {
                return Err(Error::UnexpectedElement { element: open.local.clone() });
            },
        }
    }
}

/// Writes a run of empty `ref`-attribute elements, with no surrounding
/// container.
pub fn push_ref_list_inline(out: &mut Vec<Ev>, tag: &str, items: &Vec<String>)
    ensures
        final(out).deep_view() == old(out).deep_view() + w_ref_list(items.deep_view(), tag@),
{
    let ghost mid = out.deep_view();
    let n = items.len();
    let mut k: usize = 0;
    proof {
        assert(items.deep_view().subrange(0, 0) =~= Seq::<Seq<char>>::empty());
        assert(out.deep_view() =~= mid + w_ref_list(items.deep_view().subrange(0, 0), tag@));
    }
    while k < n
        invariant
            0 <= k <= n,
            n == items@.len(),
            out.deep_view() == mid + w_ref_list(items.deep_view().subrange(0, k as int), tag@),
        decreases n - k,
    {
        let ghost pre = items.deep_view().subrange(0, k as int);
        push_ref_tag(out, tag, &items[k]);
        proof {
            assert(items.deep_view().subrange(0, k + 1) =~= pre.push(
                items[k as int].deep_view(),
            ));
            crate::xml_base::lemma_w_ref_list_snoc(pre, items[k as int].deep_view(), tag@);
            assert(out.deep_view() =~= mid + w_ref_list(
                items.deep_view().subrange(0, k + 1),
                tag@,
            ));
        }
        k = k + 1;
    }
    proof {
        assert(items.deep_view().subrange(0, n as int) =~= items.deep_view());
    }
}

/// Writes a whole container element of empty `ref`-attribute children.
pub fn push_ref_items(out: &mut Vec<Ev>, container: &str, tag: &str, items: &Vec<String>)
    ensures
        final(out).deep_view() == old(out).deep_view() + seq![sx(container@)] + w_ref_list(
            items.deep_view(),
            tag@,
        ) + seq![ex(container@)],
{
    push_start(out, container);
    let ghost mid = out.deep_view();
    let n = items.len();
    let mut k: usize = 0;
    proof {
        assert(items.deep_view().subrange(0, 0) =~= Seq::<Seq<char>>::empty());
        assert(out.deep_view() =~= mid + w_ref_list(items.deep_view().subrange(0, 0), tag@));
    }
    while k < n
        invariant
            0 <= k <= n,
            n == items@.len(),
            out.deep_view() == mid + w_ref_list(items.deep_view().subrange(0, k as int), tag@),
        decreases n - k,
    {
        let ghost pre = items.deep_view().subrange(0, k as int);
        push_ref_tag(out, tag, &items[k]);
        proof {
            assert(items.deep_view().subrange(0, k + 1) =~= pre.push(
                items[k as int].deep_view(),
            ));
            crate::xml_base::lemma_w_ref_list_snoc(pre, items[k as int].deep_view(), tag@);
            assert(out.deep_view() =~= mid + w_ref_list(
                items.deep_view().subrange(0, k + 1),
                tag@,
            ));
        }
        k = k + 1;
    }
    proof {
        assert(items.deep_view().subrange(0, n as int) =~= items.deep_view());
    }
    push_end(out, container);
    proof {
        assert(final(out).deep_view() =~= old(out).deep_view() + seq![sx(container@)]
            + w_ref_list(items.deep_view(), tag@) + seq![ex(container@)]);
    }
}

} // verus!
