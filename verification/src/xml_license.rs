//! XML codec for the license family: `licenses`, `license`/`expression`,
//! the `id`/`name` identifier pair, and attached text.
//!
//! A `license` element must contain exactly one of `id` and `name`: a second
//! occurrence is a duplicate-element error, absence of both is a
//! required-data error.  Unrecognized child elements of both `licenses` and
//! `license` are lax-skipped, the general tolerance for producer extensions.

use vstd::prelude::*;

use crate::errors::{Error, ErrorView};
use crate::model::{
    AttachedText, AttachedTextView, License, LicenseChoice, LicenseChoiceView,
    LicenseIdentifier, LicenseIdentifierView, LicenseView, Licenses, LicensesView,
};
use crate::xml_base::{
    evname_eq, ex, find_attr, local_is, p_skip, p_text_tag, pres, push_end, push_ev,
    push_start, push_start_attrs, push_text, push_text_tag, read_text_tag, skip_element,
    spec_attr, sx, sxa, unexpected, w_opt_text_tag, w_text_tag,
};
use crate::xml_io::{Ev, EvName, EvNameView, EvView};

verus! {

/// An optional attribute: absent values contribute nothing.
pub open spec fn opt_attr(name: Seq<char>, o: Option<Seq<char>>) -> Seq<(Seq<char>, Seq<char>)> {
    match o {
        Some(v) => seq![(name, v)],
        None => Seq::empty(),
    }
}

/// The attributes of an attached-text element.
pub open spec fn attached_text_attrs(t: AttachedTextView) -> Seq<(Seq<char>, Seq<char>)> {
    opt_attr("content-type"@, t.content_type) + opt_attr("encoding"@, t.encoding)
}

/// The events of an attached-text element named `tag`.
pub open spec fn w_attached_text(tag: Seq<char>, t: AttachedTextView) -> Seq<EvView> {
    seq![sxa(tag, attached_text_attrs(t))] + seq![EvView::Text(t.content)] + seq![ex(tag)]
}

/// The events of a license identifier: an `id` or a `name` leaf element.
pub open spec fn w_license_identifier(v: LicenseIdentifierView) -> Seq<EvView> {
    match v {
        LicenseIdentifierView::SpdxId(s) => w_text_tag("id"@, s),
        LicenseIdentifierView::Name(s) => w_text_tag("name"@, s),
    }
}

/// The events of a `license` element: the identifier, then present optional
/// children in schema order.
pub open spec fn w_license(l: LicenseView) -> Seq<EvView> {
    seq![sx("license"@)] + w_license_identifier(l.license_identifier) + (match l.text {
        Some(t) => w_attached_text("text"@, t),
        None => Seq::empty(),
    }) + w_opt_text_tag("url"@, l.url) + seq![ex("license"@)]
}

/// The events of one license choice: a `license` element or an `expression`
/// leaf.
pub open spec fn w_license_choice(c: LicenseChoiceView) -> Seq<EvView> {
    match c {
        LicenseChoiceView::License(l) => w_license(l),
        LicenseChoiceView::Expression(e) => w_text_tag("expression"@, e),
    }
}

impl crate::xml_base::ChildWrite for LicenseChoiceView {
    /// A license choice writes itself under its own element name; the
    /// container's tag is ignored.
    open spec fn child_events(self, tag: Seq<char>) -> Seq<EvView> {
        w_license_choice(self)
    }
}

/// The events of a `licenses` element and its choices, in order.
pub open spec fn w_licenses(ls: LicensesView) -> Seq<EvView> {
    seq![sx("licenses"@)] + crate::xml_base::w_children(ls.0, "license"@) + seq![
        ex("licenses"@),
    ]
}

/// Writes an attached-text element named `tag`.
pub fn push_attached_text(out: &mut Vec<Ev>, tag: &str, t: &AttachedText)
    ensures
        final(out).deep_view() == old(out).deep_view() + w_attached_text(tag@, t.deep_view()),
{
    let mut attrs: Vec<(String, String)> = Vec::new();
    if let Some(ct) = &t.content_type {
        crate::xml_base::push_attr(&mut attrs, "content-type", ct);
    }
    if let Some(enc) = &t.encoding {
        crate::xml_base::push_attr(&mut attrs, "encoding", enc);
    }
    proof {
        assert(attrs.deep_view() =~= attached_text_attrs(t.deep_view()));
    }
    push_start_attrs(out, tag, attrs);
    push_text(out, &t.content);
    push_end(out, tag);
    proof {
        assert(final(out).deep_view() =~= old(out).deep_view() + w_attached_text(
            tag@,
            t.deep_view(),
        ));
    }
}

/// Writes a license identifier.
pub fn push_license_identifier(out: &mut Vec<Ev>, v: &LicenseIdentifier)
    ensures
        final(out).deep_view() == old(out).deep_view() + w_license_identifier(v.deep_view()),
{
    match v {
        LicenseIdentifier::SpdxId(s) => push_text_tag(out, "id", s),
        LicenseIdentifier::Name(s) => push_text_tag(out, "name", s),
    }
}

/// Writes a `license` element.
pub fn push_license(out: &mut Vec<Ev>, l: &License)
    ensures
        final(out).deep_view() == old(out).deep_view() + w_license(l.deep_view()),
{
    push_start(out, "license");
    push_license_identifier(out, &l.license_identifier);
    if let Some(t) = &l.text {
        push_attached_text(out, "text", t);
    }
    crate::xml_base::push_opt_text_tag(out, "url", &l.url);
    push_end(out, "license");
    proof {
        assert(final(out).deep_view() =~= old(out).deep_view() + w_license(l.deep_view()));
    }
}

/// Writes one license choice.
pub fn push_license_choice(out: &mut Vec<Ev>, c: &LicenseChoice)
    ensures
        final(out).deep_view() == old(out).deep_view() + w_license_choice(c.deep_view()),
{
    match c {
        LicenseChoice::License(l) => push_license(out, l),
        LicenseChoice::Expression(e) => push_text_tag(out, "expression", e),
    }
}

/// Writes a `licenses` element with all its choices.
pub fn push_licenses(out: &mut Vec<Ev>, ls: &Licenses)
    ensures
        final(out).deep_view() == old(out).deep_view() + w_licenses(ls.deep_view()),
{
    push_start(out, "licenses");
    let ghost mid = out.deep_view();
    let n = ls.0.len();
    let mut k: usize = 0;
    while k < n
        invariant
            0 <= k <= n,
            n == ls.0@.len(),
            out.deep_view() == mid + crate::xml_base::w_children(
                ls.0.deep_view().subrange(0, k as int),
                "license"@,
            ),
        decreases n - k,
    {
        let ghost pre = ls.0.deep_view().subrange(0, k as int);
        push_license_choice(out, &ls.0[k]);
        proof {
            assert(ls.0.deep_view().subrange(0, k + 1) =~= pre.push(ls.0[k as int].deep_view()));
            crate::xml_base::lemma_w_children_snoc(pre, ls.0[k as int].deep_view(), "license"@);
            assert(out.deep_view() =~= mid + crate::xml_base::w_children(
                ls.0.deep_view().subrange(0, k + 1),
                "license"@,
            ));
        }
        k = k + 1;
    }
    proof {
        assert(ls.0.deep_view().subrange(0, n as int) =~= ls.0.deep_view());
    }
    push_end(out, "licenses");
    proof {
        assert(final(out).deep_view() =~= old(out).deep_view() + w_licenses(ls.deep_view()));
    }
}

/// What reading an attached-text element yields: the `content-type` and
/// `encoding` attributes, then exactly the inner text.
pub open spec fn p_attached_text(
    evs: Seq<EvView>,
    i: int,
    open: EvNameView,
    attrs: Seq<(Seq<char>, Seq<char>)>,
) -> Result<(AttachedTextView, int), ErrorView> {
    match p_text_tag(evs, i, open) {
        Ok((t, j)) => Ok(
            (
                AttachedTextView {
                    content_type: spec_attr(attrs, "content-type"@),
                    encoding: spec_attr(attrs, "encoding"@),
                    content: t,
                },
                j,
            ),
        ),
        Err(e) => Err(e),
    }
}

/// Reads an attached-text element whose start event is already consumed.
pub fn read_attached_text(
    evs: &Vec<Ev>,
    i: usize,
    open: &EvName,
    attrs: &Vec<(String, String)>,
) -> (r: Result<(AttachedText, usize), Error>)
    ensures
        pres(r) == p_attached_text(
            evs.deep_view(),
            i as int,
            open.deep_view(),
            attrs.deep_view(),
        ),
        r matches Ok((_, j)) ==> i < j <= evs.len(),
{
    let content_type = match find_attr(attrs, "content-type") {
        Some(v) => Some(v.clone()),
        None => None,
    };
    let encoding = match find_attr(attrs, "encoding") {
        Some(v) => Some(v.clone()),
        None => None,
    };
    match read_text_tag(evs, i, open) {
        Ok((content, j)) => Ok((AttachedText { content_type, encoding, content }, j)),
        Err(e) => Err(e),
    }
}

/// What reading a license identifier yields, dispatched on the already
/// consumed `id` or `name` start tag.
pub open spec fn p_license_identifier(evs: Seq<EvView>, i: int, open: EvNameView) -> Result<
    (LicenseIdentifierView, int),
    ErrorView,
> {
    if open.local == "id"@ {
        match p_text_tag(evs, i, open) {
            Ok((t, j)) => Ok((LicenseIdentifierView::SpdxId(t), j)),
            Err(e) => Err(e),
        }
    } else if open.local == "name"@ {
        match p_text_tag(evs, i, open) {
            Ok((t, j)) => Ok((LicenseIdentifierView::Name(t), j)),
            Err(e) => Err(e),
        }
    } else {
        Err(unexpected("license identifier"@))
    }
}

/// Reads a license identifier whose start event is already consumed.
pub fn read_license_identifier(evs: &Vec<Ev>, i: usize, open: &EvName) -> (r: Result<
    (LicenseIdentifier, usize),
    Error,
>)
    ensures
        pres(r) == p_license_identifier(evs.deep_view(), i as int, open.deep_view()),
        r matches Ok((_, j)) ==> i < j <= evs.len(),
{
    if local_is(open, "id") {
        match read_text_tag(evs, i, open) {
            Ok((t, j)) => Ok((LicenseIdentifier::SpdxId(t), j)),
            Err(e) => Err(e),
        }
    } else if local_is(open, "name") {
        match read_text_tag(evs, i, open) {
            Ok((t, j)) => Ok((LicenseIdentifier::Name(t), j)),
            Err(e) => Err(e),
        }
    } else {
        Err(Error::UnexpectedElement { element: "license identifier".to_owned() })
    }
}

/// What reading the children of a `license` element yields, given the fields
/// collected so far.  `id` and `name` fill the one identifier slot and may
/// appear only once between them; `text` and `url` fill their fields;
/// unrecognized elements are lax-skipped; the matching end tag closes the
/// element, which must by then have its identifier.
pub open spec fn p_license_fields(
    evs: Seq<EvView>,
    i: int,
    open: EvNameView,
    ident: Option<LicenseIdentifierView>,
    text: Option<AttachedTextView>,
    url: Option<Seq<char>>,
) -> Result<(LicenseView, int), ErrorView>
    decreases evs.len() - i,
{
    if i < 0 || i >= evs.len() {
        Err(unexpected("license"@))
    } else {
        match evs[i] {
            EvView::Start { name, attrs } => {
                if name.local == "id"@ || name.local == "name"@ {
                    if ident is Some {
                        Err(ErrorView::DuplicateElement { element: "license"@ })
                    } else {
                        match p_license_identifier(evs, i + 1, name) {
                            Ok((v, j)) => {
                                if i < j <= evs.len() {
                                    p_license_fields(evs, j, open, Some(v), text, url)
                                } else {
                                    Err(unexpected("license"@))
                                }
                            },
                            Err(e) => Err(e),
                        }
                    }
                } else if name.local == "text"@ {
                    match p_attached_text(evs, i + 1, name, attrs) {
                        Ok((t, j)) => {
                            if i < j <= evs.len() {
                                p_license_fields(evs, j, open, ident, Some(t), url)
                            } else {
                                Err(unexpected("license"@))
                            }
                        },
                        Err(e) => Err(e),
                    }
                } else if name.local == "url"@ {
                    match p_text_tag(evs, i + 1, name) {
                        Ok((t, j)) => {
                            if i < j <= evs.len() {
                                p_license_fields(evs, j, open, ident, text, Some(t))
                            } else {
                                Err(unexpected("license"@))
                            }
                        },
                        Err(e) => Err(e),
                    }
                } else {
                    match p_skip(evs, i + 1, seq![name]) {
                        Ok(j) => {
                            if i < j <= evs.len() {
                                p_license_fields(evs, j, open, ident, text, url)
                            } else {
                                Err(unexpected("license"@))
                            }
                        },
                        Err(e) => Err(e),
                    }
                }
            },
            EvView::End { name } => {
                if name == open {
                    match ident {
                        Some(v) => Ok(
                            (LicenseView { license_identifier: v, text, url }, i + 1),
                        ),
                        None => Err(
                            ErrorView::RequiredDataMissing {
                                required_field: "id or name"@,
                                element: "license"@,
                            },
                        ),
                    }
                } else {
                    Err(unexpected("license"@))
                }
            },
            _ => Err(unexpected("license"@)),
        }
    }
}

/// Reads a `license` element whose start event is already consumed.
pub fn read_license(evs: &Vec<Ev>, i: usize, open: &EvName) -> (r: Result<
    (License, usize),
    Error,
>)
    requires
        i <= evs@.len(),
    ensures
        pres(r) == p_license_fields(
            evs.deep_view(),
            i as int,
            open.deep_view(),
            None,
            None,
            None,
        ),
        r matches Ok((_, j)) ==> i < j <= evs.len(),
{
    let ghost dv = evs.deep_view();
    let mut ident: Option<LicenseIdentifier> = None;
    let mut text: Option<AttachedText> = None;
    let mut url: Option<String> = None;
    let mut cur = i;
    loop
        invariant
            i <= cur <= evs@.len(),
            dv == evs.deep_view(),
            dv.len() == evs@.len(),
            p_license_fields(dv, i as int, open.deep_view(), None, None, None)
                == p_license_fields(
                dv,
                cur as int,
                open.deep_view(),
                ident.deep_view(),
                text.deep_view(),
                url.deep_view(),
            ),
        decreases evs@.len() - cur,
    {
        if cur >= evs.len() {
            return Err(Error::UnexpectedElement { element: "license".to_owned() });
        }
        match &evs[cur] {
            Ev::Start { name, attrs } => {
                if local_is(name, "id") || local_is(name, "name") {
                    if ident.is_some() {
                        return Err(Error::DuplicateElement { element: "license".to_owned() });
                    }
                    match read_license_identifier(evs, cur + 1, name) {
                        Ok((v, j)) => {
                            ident = Some(v);
                            cur = j;
                        },
                        Err(e) => {
                            return Err(e);
                        },
                    }
                } else if local_is(name, "text") {
                    match read_attached_text(evs, cur + 1, name, attrs) {
                        Ok((t, j)) => {
                            text = Some(t);
                            cur = j;
                        },
                        Err(e) => {
                            return Err(e);
                        },
                    }
                } else if local_is(name, "url") {
                    match read_text_tag(evs, cur + 1, name) {
                        Ok((t, j)) => {
                            url = Some(t);
                            cur = j;
                        },
                        Err(e) => {
                            return Err(e);
                        },
                    }
                } else {
                    match skip_element(evs, cur + 1, name) {
                        Ok(j) => {
                            cur = j;
                        },
                        Err(e) => {
                            return Err(e);
                        },
                    }
                }
            },
            Ev::End { name } => {
                if evname_eq(name, open) {
                    match ident {
                        Some(v) => {
                            return Ok(
                                (License { license_identifier: v, text, url }, cur + 1),
                            );
                        },
                        None => {
                            return Err(
                                Error::RequiredDataMissing {
                                    required_field: "id or name".to_owned(),
                                    element: "license".to_owned(),
                                },
                            );
                        },
                    }
                } else {
                    return Err(Error::UnexpectedElement { element: "license".to_owned() });
                }
            },
            _ => {
                return Err(Error::UnexpectedElement { element: "license".to_owned() });
            },
        }
    }
}

/// What reading one license choice yields, dispatched on the already
/// consumed `license` or `expression` start tag.
pub open spec fn p_license_choice(evs: Seq<EvView>, i: int, open: EvNameView) -> Result<
    (LicenseChoiceView, int),
    ErrorView,
> {
    if open.local == "license"@ {
        match p_license_fields(evs, i, open, None, None, None) {
            Ok((l, j)) => Ok((LicenseChoiceView::License(l), j)),
            Err(e) => Err(e),
        }
    } else if open.local == "expression"@ {
        match p_text_tag(evs, i, open) {
            Ok((t, j)) => Ok((LicenseChoiceView::Expression(t), j)),
            Err(e) => Err(e),
        }
    } else {
        Err(unexpected("LicenseChoice"@))
    }
}

/// Reads one license choice whose start event is already consumed.
pub fn read_license_choice(evs: &Vec<Ev>, i: usize, open: &EvName) -> (r: Result<
    (LicenseChoice, usize),
    Error,
>)
    requires
        i <= evs@.len(),
    ensures
        pres(r) == p_license_choice(evs.deep_view(), i as int, open.deep_view()),
        r matches Ok((_, j)) ==> i < j <= evs.len(),
{
    if local_is(open, "license") {
        match read_license(evs, i, open) {
            Ok((l, j)) => Ok((LicenseChoice::License(l), j)),
            Err(e) => Err(e),
        }
    } else if local_is(open, "expression") {
        match read_text_tag(evs, i, open) {
            Ok((t, j)) => Ok((LicenseChoice::Expression(t), j)),
            Err(e) => Err(e),
        }
    } else {
        Err(Error::UnexpectedElement { element: "LicenseChoice".to_owned() })
    }
}

/// What reading the children of a `licenses` element yields: any number of
/// `license` and `expression` children, closed by the matching end tag.
/// Unrecognized child elements are lax-skipped.
pub open spec fn p_license_choices(
    evs: Seq<EvView>,
    i: int,
    open: EvNameView,
    acc: Seq<LicenseChoiceView>,
) -> Result<(Seq<LicenseChoiceView>, int), ErrorView>
    decreases evs.len() - i,
{
    if i < 0 || i >= evs.len() {
        Err(unexpected(open.local))
    } else {
        match evs[i] {
            EvView::Start { name, attrs } => {
                if name.local == "license"@ || name.local == "expression"@ {
                    match p_license_choice(evs, i + 1, name) {
                        Ok((c, j)) => {
                            if i < j <= evs.len() {
                                p_license_choices(evs, j, open, acc.push(c))
                            } else {
                                Err(unexpected(open.local))
                            }
                        },
                        Err(e) => Err(e),
                    }
                } else {
                    match p_skip(evs, i + 1, seq![name]) {
                        Ok(j) => {
                            if i < j <= evs.len() {
                                p_license_choices(evs, j, open, acc)
                            } else {
                                Err(unexpected(open.local))
                            }
                        },
                        Err(e) => Err(e),
                    }
                }
            },
            EvView::End { name } => {
                if name == open {
                    Ok((acc, i + 1))
                } else {
                    Err(unexpected(open.local))
                }
            },
            _ => Err(unexpected(open.local)),
        }
    }
}

/// What reading a `licenses` element yields.
pub open spec fn p_licenses(evs: Seq<EvView>, i: int, open: EvNameView) -> Result<
    (LicensesView, int),
    ErrorView,
> {
    match p_license_choices(evs, i, open, Seq::empty()) {
        Ok((s, j)) => Ok((LicensesView(s), j)),
        Err(e) => Err(e),
    }
}

/// Reads a `licenses` element whose start event is already consumed.
pub fn read_licenses(evs: &Vec<Ev>, i: usize, open: &EvName) -> (r: Result<
    (Licenses, usize),
    Error,
>)
    requires
        i <= evs@.len(),
    ensures
        pres(r) == p_licenses(evs.deep_view(), i as int, open.deep_view()),
        r matches Ok((_, j)) ==> i < j <= evs.len(),
{
    let ghost dv = evs.deep_view();
    let mut items: Vec<LicenseChoice> = Vec::new();
    proof {
        assert(items.deep_view() =~= Seq::<LicenseChoiceView>::empty());
    }
    let mut cur = i;
    loop
        invariant
            i <= cur <= evs@.len(),
            dv == evs.deep_view(),
            dv.len() == evs@.len(),
            p_license_choices(dv, i as int, open.deep_view(), Seq::empty())
                == p_license_choices(dv, cur as int, open.deep_view(), items.deep_view()),
        decreases evs@.len() - cur,
    {
        if cur >= evs.len() {
            return Err(Error::UnexpectedElement { element: open.local.clone() });
        }
        match &evs[cur] {
            Ev::Start { name, .. } => {
                if local_is(name, "license") || local_is(name, "expression") {
                    match read_license_choice(evs, cur + 1, name) {
                        Ok((c, j)) => {
                            let ghost pre = items.deep_view();
                            items.push(c);
                            proof {
                                assert(items.deep_view() =~= pre.push(c.deep_view()));
                            }
                            cur = j;
                        },
                        Err(e) => {
                            return Err(e);
                        },
                    }
                } else {
                    match skip_element(evs, cur + 1, name) {
                        Ok(j) => {
                            cur = j;
                        },
                        Err(e) => {
                            return Err(e);
                        },
                    }
                }
            },
            Ev::End { name } => {
                if evname_eq(name, open) {
                    return Ok((Licenses(items), cur + 1));
                } else {
                    return Err(Error::UnexpectedElement { element: open.local.clone() });
                }
            },
            _ => {
                return Err(Error::UnexpectedElement { element: open.local.clone() });
            },
        }
    }
}

} // verus!

verus! {

/// What reading the children of an element wrapping a single license
/// yields, given the license collected so far: each `license` child parses
/// in full (the last occurrence wins), unrecognized children are
/// lax-skipped, and the matching end tag requires a license to have been
/// read.
pub open spec fn p_wrapped_license_fields(
    evs: Seq<EvView>,
    i: int,
    open: EvNameView,
    lic: Option<LicenseView>,
) -> Result<(LicenseView, int), ErrorView>
    decreases evs.len() - i,
{
    if i < 0 || i >= evs.len() {
        Err(unexpected(open.local))
    } else {
        match evs[i] {
            EvView::Start { name, attrs } => {
                if name.local == "license"@ {
                    match p_license_fields(evs, i + 1, name, None, None, None) {
                        Ok((l, j)) => {
                            if i < j <= evs.len() {
                                p_wrapped_license_fields(evs, j, open, Some(l))
                            } else {
                                Err(unexpected(open.local))
                            }
                        },
                        Err(e) => Err(e),
                    }
                } else {
                    match p_skip(evs, i + 1, seq![name]) {
                        Ok(j) => {
                            if i < j <= evs.len() {
                                p_wrapped_license_fields(evs, j, open, lic)
                            } else {
                                Err(unexpected(open.local))
                            }
                        },
                        Err(e) => Err(e),
                    }
                }
            },
            EvView::End { name } => {
                if name == open {
                    match lic {
                        Some(l) => Ok((l, i + 1)),
                        None => Err(
                            ErrorView::RequiredDataMissing {
                                required_field: "license"@,
                                element: open.local,
                            },
                        ),
                    }
                } else {
                    Err(unexpected(open.local))
                }
            },
            _ => Err(unexpected(open.local)),
        }
    }
}

/// What reading an element wrapping a single license yields.
pub open spec fn p_wrapped_license(evs: Seq<EvView>, i: int, open: EvNameView) -> Result<
    (LicenseView, int),
    ErrorView,
> {
    p_wrapped_license_fields(evs, i, open, None)
}

/// Reads an element wrapping a single `license` child, its start event
/// already consumed.
pub fn read_wrapped_license(evs: &Vec<Ev>, i: usize, open: &EvName) -> (r: Result<
    (License, usize),
    Error,
>)
    requires
        i <= evs@.len(),
    ensures
        pres(r) == p_wrapped_license(evs.deep_view(), i as int, open.deep_view()),
        r matches Ok((_, j)) ==> i < j <= evs.len(),
{
    let ghost dv = evs.deep_view();
    let mut lic: Option<License> = None;
    let mut cur = i;
    loop
        invariant
            i <= cur <= evs@.len(),
            dv == evs.deep_view(),
            dv.len() == evs@.len(),
            p_wrapped_license_fields(dv, i as int, open.deep_view(), None)
                == p_wrapped_license_fields(dv, cur as int, open.deep_view(), lic.deep_view()),
        decreases evs@.len() - cur,
    {
        if cur >= evs.len() {
            return Err(Error::UnexpectedElement { element: open.local.clone() });
        }
        match &evs[cur] {
            Ev::Start { name, .. } => {
                if local_is(name, "license") {
                    match read_license(evs, cur + 1, name) {
                        Ok((l, j)) => {
                            lic = Some(l);
                            cur = j;
                        },
                        Err(e) => {
                            return Err(e);
                        },
                    }
                } else {
                    match skip_element(evs, cur + 1, name) {
                        Ok(j) => {
                            cur = j;
                        },
                        Err(e) => {
                            return Err(e);
                        },
                    }
                }
            },
            Ev::End { name } => {
                if evname_eq(name, open) {
                    match lic {
                        Some(l) => {
                            return Ok((l, cur + 1));
                        },
                        None => {
                            return Err(
                                Error::RequiredDataMissing {
                                    required_field: "license".to_owned(),
                                    element: open.local.clone(),
                                },
                            );
                        },
                    }
                } else {
                    return Err(Error::UnexpectedElement { element: open.local.clone() });
                }
            },
            _ => {
                return Err(Error::UnexpectedElement { element: open.local.clone() });
            },
        }
    }
}

/// What reading the children of an element wrapping a single SPDX
/// expression yields, given the expression collected so far.
pub open spec fn p_wrapped_expression_fields(
    evs: Seq<EvView>,
    i: int,
    open: EvNameView,
    expr: Option<Seq<char>>,
) -> Result<(Seq<char>, int), ErrorView>
    decreases evs.len() - i,
{
    if i < 0 || i >= evs.len() {
        Err(unexpected(open.local))
    } else {
        match evs[i] {
            EvView::Start { name, attrs } => {
                if name.local == "expression"@ {
                    match p_text_tag(evs, i + 1, name) {
                        Ok((t, j)) => {
                            if i < j <= evs.len() {
                                p_wrapped_expression_fields(evs, j, open, Some(t))
                            } else {
                                Err(unexpected(open.local))
                            }
                        },
                        Err(e) => Err(e),
                    }
                } else {
                    match p_skip(evs, i + 1, seq![name]) {
                        Ok(j) => {
                            if i < j <= evs.len() {
                                p_wrapped_expression_fields(evs, j, open, expr)
                            } else {
                                Err(unexpected(open.local))
                            }
                        },
                        Err(e) => Err(e),
                    }
                }
            },
            EvView::End { name } => {
                if name == open {
                    match expr {
                        Some(t) => Ok((t, i + 1)),
                        None => Err(
                            ErrorView::RequiredDataMissing {
                                required_field: "expression"@,
                                element: open.local,
                            },
                        ),
                    }
                } else {
                    Err(unexpected(open.local))
                }
            },
            _ => Err(unexpected(open.local)),
        }
    }
}

/// What reading an element wrapping a single SPDX expression yields.
pub open spec fn p_wrapped_expression(evs: Seq<EvView>, i: int, open: EvNameView) -> Result<
    (Seq<char>, int),
    ErrorView,
> {
    p_wrapped_expression_fields(evs, i, open, None)
}

/// Reads an element wrapping a single `expression` leaf, its start event
/// already consumed.
pub fn read_wrapped_expression(evs: &Vec<Ev>, i: usize, open: &EvName) -> (r: Result<
    (String, usize),
    Error,
>)
    requires
        i <= evs@.len(),
    ensures
        pres(r) == p_wrapped_expression(evs.deep_view(), i as int, open.deep_view()),
        r matches Ok((_, j)) ==> i < j <= evs.len(),
{
    let ghost dv = evs.deep_view();
    let mut expr: Option<String> = None;
    let mut cur = i;
    loop
        invariant
            i <= cur <= evs@.len(),
            dv == evs.deep_view(),
            dv.len() == evs@.len(),
            p_wrapped_expression_fields(dv, i as int, open.deep_view(), None)
                == p_wrapped_expression_fields(
                dv,
                cur as int,
                open.deep_view(),
                expr.deep_view(),
            ),
        decreases evs@.len() - cur,
    {
        if cur >= evs.len() {
            return Err(Error::UnexpectedElement { element: open.local.clone() });
        }
        match &evs[cur] {
            Ev::Start { name, .. } => {
                if local_is(name, "expression") {
                    match read_text_tag(evs, cur + 1, name) {
                        Ok((t, j)) => {
                            expr = Some(t);
                            cur = j;
                        },
                        Err(e) => {
                            return Err(e);
                        },
                    }
                } else {
                    match skip_element(evs, cur + 1, name) {
                        Ok(j) => {
                            cur = j;
                        },
                        Err(e) => {
                            return Err(e);
                        },
                    }
                }
            },
            Ev::End { name } => {
                if evname_eq(name, open) {
                    match expr {
                        Some(t) => {
                            return Ok((t, cur + 1));
                        },
                        None => {
                            return Err(
                                Error::RequiredDataMissing {
                                    required_field: "expression".to_owned(),
                                    element: open.local.clone(),
                                },
                            );
                        },
                    }
                } else {
                    return Err(Error::UnexpectedElement { element: open.local.clone() });
                }
            },
            _ => {
                return Err(Error::UnexpectedElement { element: open.local.clone() });
            },
        }
    }
}

} // verus!
