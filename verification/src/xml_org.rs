//! XML codec for organizational entities, contacts, tools and external
//! references.
//!
//! Contacts and organizational entities take their element name from the
//! context that holds them (`author`, `contact`, `supplier`, `manufacture`,
//! `provider`); the codec is parameterized by that tag.

use vstd::prelude::*;

use crate::errors::{Error, ErrorView};
use crate::model::{
    ExternalReference, ExternalReferenceView, HashView, OrganizationalContact,
    OrganizationalContactView, OrganizationalEntity, OrganizationalEntityView, Tool, ToolView,
};
use crate::xml_base::{
    evname_eq, ex, find_req_attr, local_is, p_skip, p_text_tag, pres, push_attr, push_end,
    push_start, push_start_attrs, read_text_tag, skip_element, spec_attr, sx, sxa, unexpected,
    w_opt_text_tag, w_text_list, w_text_tag, ChildWrite,
};
use crate::xml_io::{Ev, EvName, EvNameView, EvView};
use crate::xml_list::{
    p_list, push_opt_wrapped, read_list, w_opt_wrapped, ChildRead, PushChild,
};

verus! {

/// The events of a contact element named `tag`.
pub open spec fn w_contact(tag: Seq<char>, c: OrganizationalContactView) -> Seq<EvView> {
    seq![sx(tag)] + w_opt_text_tag("name"@, c.name) + w_opt_text_tag("email"@, c.email)
        + w_opt_text_tag("phone"@, c.phone) + seq![ex(tag)]
}

impl ChildWrite for OrganizationalContactView {
    open spec fn child_events(self, tag: Seq<char>) -> Seq<EvView> {
        w_contact(tag, self)
    }
}

/// Writes a contact element named `tag`.
pub fn push_contact(out: &mut Vec<Ev>, tag: &str, c: &OrganizationalContact)
    ensures
        final(out).deep_view() == old(out).deep_view() + w_contact(tag@, c.deep_view()),
{
    push_start(out, tag);
    crate::xml_base::push_opt_text_tag(out, "name", &c.name);
    crate::xml_base::push_opt_text_tag(out, "email", &c.email);
    crate::xml_base::push_opt_text_tag(out, "phone", &c.phone);
    push_end(out, tag);
    proof {
        assert(final(out).deep_view() =~= old(out).deep_view() + w_contact(tag@, c.deep_view()));
    }
}

impl PushChild for OrganizationalContact {
    fn push_child(out: &mut Vec<Ev>, c: &Self, tag: &str) {
        push_contact(out, tag, c);
    }
}

/// What reading the children of a contact element yields: `name`, `email`
/// and `phone` leaves (the last occurrence wins), unrecognized children
/// lax-skipped.
pub open spec fn p_contact_fields(
    evs: Seq<EvView>,
    i: int,
    open: EvNameView,
    name: Option<Seq<char>>,
    email: Option<Seq<char>>,
    phone: Option<Seq<char>>,
) -> Result<(OrganizationalContactView, int), ErrorView>
    decreases evs.len() - i,
{
    if i < 0 || i >= evs.len() {
        Err(unexpected(open.local))
    } else {
        match evs[i] {
            EvView::Start { name: nm, attrs } => {
                if nm.local == "name"@ {
                    match p_text_tag(evs, i + 1, nm) {
                        Ok((t, j)) => {
                            if i < j <= evs.len() {
                                p_contact_fields(evs, j, open, Some(t), email, phone)
                            } else {
                                Err(unexpected(open.local))
                            }
                        },
                        Err(e) => Err(e),
                    }
                } else if nm.local == "email"@ {
                    match p_text_tag(evs, i + 1, nm) {
                        Ok((t, j)) => {
                            if i < j <= evs.len() {
                                p_contact_fields(evs, j, open, name, Some(t), phone)
                            } else {
                                Err(unexpected(open.local))
                            }
                        },
                        Err(e) => Err(e),
                    }
                } else if nm.local == "phone"@ {
                    match p_text_tag(evs, i + 1, nm) {
                        Ok((t, j)) => {
                            if i < j <= evs.len() {
                                p_contact_fields(evs, j, open, name, email, Some(t))
                            } else {
                                Err(unexpected(open.local))
                            }
                        },
                        Err(e) => Err(e),
                    }
                } else {
                    match p_skip(evs, i + 1, seq![nm]) {
                        Ok(j) => {
                            if i < j <= evs.len() {
                                p_contact_fields(evs, j, open, name, email, phone)
                            } else {
                                Err(unexpected(open.local))
                            }
                        },
                        Err(e) => Err(e),
                    }
                }
            },
            EvView::End { name: nm } => {
                if nm == open {
                    Ok((OrganizationalContactView { name, email, phone }, i + 1))
                } else {
                    Err(unexpected(open.local))
                }
            },
            _ => Err(unexpected(open.local)),
        }
    }
}

/// Reads a contact element whose start event is already consumed.
pub fn read_contact(evs: &Vec<Ev>, i: usize, open: &EvName) -> (r: Result<
    (OrganizationalContact, usize),
    Error,
>)
    requires
        i <= evs@.len(),
    ensures
        pres(r) == p_contact_fields(
            evs.deep_view(),
            i as int,
            open.deep_view(),
            None,
            None,
            None,
        ),
        r matches Ok((_, j)) ==> i < j <= evs.len(),
{
    let ghost dv = evs.deep_view();
    let mut name: Option<String> = None;
    let mut email: Option<String> = None;
    let mut phone: Option<String> = None;
    let mut cur = i;
    loop
        invariant
            i <= cur <= evs@.len(),
            dv == evs.deep_view(),
            dv.len() == evs@.len(),
            p_contact_fields(dv, i as int, open.deep_view(), None, None, None)
                == p_contact_fields(
                dv,
                cur as int,
                open.deep_view(),
                name.deep_view(),
                email.deep_view(),
                phone.deep_view(),
            ),
        decreases evs@.len() - cur,
    {
        if cur >= evs.len() {
            return Err(Error::UnexpectedElement { element: open.local.clone() });
        }
        match &evs[cur] {
            Ev::Start { name: nm, .. } => {
                if local_is(nm, "name") {
                    match read_text_tag(evs, cur + 1, nm) {
                        Ok((t, j)) => {
                            name = Some(t);
                            cur = j;
                        },
                        Err(e) => {
                            return Err(e);
                        },
                    }
                } else if local_is(nm, "email") {
                    match read_text_tag(evs, cur + 1, nm) {
                        Ok((t, j)) => {
                            email = Some(t);
                            cur = j;
                        },
                        Err(e) => {
                            return Err(e);
                        },
                    }
                } else if local_is(nm, "phone") {
                    match read_text_tag(evs, cur + 1, nm) {
                        Ok((t, j)) => {
                            phone = Some(t);
                            cur = j;
                        },
                        Err(e) => {
                            return Err(e);
                        },
                    }
                } else {
                    match skip_element(evs, cur + 1, nm) {
                        Ok(j) => {
                            cur = j;
                        },
                        Err(e) => {
                            return Err(e);
                        },
                    }
                }
            },
            Ev::End { name: nm } => {
                if evname_eq(nm, open) {
                    return Ok((OrganizationalContact { name, email, phone }, cur + 1));
                } else {
                    return Err(Error::UnexpectedElement { element: open.local.clone() });
                }
            },
            _ => {
                return Err(Error::UnexpectedElement { element: open.local.clone() });
            },
        }
    }
}

impl ChildRead for OrganizationalContact {
    open spec fn p_child(
        evs: Seq<EvView>,
        i: int,
        open: EvNameView,
        attrs: Seq<(Seq<char>, Seq<char>)>,
        sig_ok: bool,
    ) -> Result<(OrganizationalContactView, int), ErrorView> {
        p_contact_fields(evs, i, open, None, None, None)
    }

    fn read_child(
        evs: &Vec<Ev>,
        i: usize,
        open: &EvName,
        attrs: &Vec<(String, String)>,
        sig_ok: bool,
    ) -> (r: Result<(OrganizationalContact, usize), Error>) {
        read_contact(evs, i, open)
    }
}

/// The events of an organizational entity element named `tag`: its name,
/// then every URL, then every contact.
pub open spec fn w_entity(tag: Seq<char>, e: OrganizationalEntityView) -> Seq<EvView> {
    seq![sx(tag)] + w_opt_text_tag("name"@, e.name) + w_text_list(e.urls, "url"@)
        + crate::xml_base::w_children(e.contacts, "contact"@) + seq![ex(tag)]
}

impl ChildWrite for OrganizationalEntityView {
    open spec fn child_events(self, tag: Seq<char>) -> Seq<EvView> {
        w_entity(tag, self)
    }
}

/// Writes an organizational entity element named `tag`.
pub fn push_entity(out: &mut Vec<Ev>, tag: &str, e: &OrganizationalEntity)
    ensures
        final(out).deep_view() == old(out).deep_view() + w_entity(tag@, e.deep_view()),
{
    push_start(out, tag);
    crate::xml_base::push_opt_text_tag(out, "name", &e.name);
    crate::xml_list::push_text_list(out, "url", &e.urls);
    crate::xml_list::push_children(out, &e.contacts, "contact");
    push_end(out, tag);
    proof {
        assert(final(out).deep_view() =~= old(out).deep_view() + w_entity(tag@, e.deep_view()));
    }
}

impl PushChild for OrganizationalEntity {
    fn push_child(out: &mut Vec<Ev>, c: &Self, tag: &str) {
        push_entity(out, tag, c);
    }
}

/// What reading the children of an organizational entity yields: a `name`
/// leaf (the last occurrence wins), repeated `url` leaves and `contact`
/// children in order, unrecognized children lax-skipped.
pub open spec fn p_entity_fields(
    evs: Seq<EvView>,
    i: int,
    open: EvNameView,
    name: Option<Seq<char>>,
    urls: Seq<Seq<char>>,
    contacts: Seq<OrganizationalContactView>,
) -> Result<(OrganizationalEntityView, int), ErrorView>
    decreases evs.len() - i,
{
    if i < 0 || i >= evs.len() {
        Err(unexpected(open.local))
    } else {
        match evs[i] {
            EvView::Start { name: nm, attrs } => {
                if nm.local == "name"@ {
                    match p_text_tag(evs, i + 1, nm) {
                        Ok((t, j)) => {
                            if i < j <= evs.len() {
                                p_entity_fields(evs, j, open, Some(t), urls, contacts)
                            } else {
                                Err(unexpected(open.local))
                            }
                        },
                        Err(e) => Err(e),
                    }
                } else if nm.local == "url"@ {
                    match p_text_tag(evs, i + 1, nm) {
                        Ok((t, j)) => {
                            if i < j <= evs.len() {
                                p_entity_fields(evs, j, open, name, urls.push(t), contacts)
                            } else {
                                Err(unexpected(open.local))
                            }
                        },
                        Err(e) => Err(e),
                    }
                } else if nm.local == "contact"@ {
                    match p_contact_fields(evs, i + 1, nm, None, None, None) {
                        Ok((c, j)) => {
                            if i < j <= evs.len() {
                                p_entity_fields(evs, j, open, name, urls, contacts.push(c))
                            } else {
                                Err(unexpected(open.local))
                            }
                        },
                        Err(e) => Err(e),
                    }
                } else {
                    match p_skip(evs, i + 1, seq![nm]) {
                        Ok(j) => {
                            if i < j <= evs.len() {
                                p_entity_fields(evs, j, open, name, urls, contacts)
                            } else {
                                Err(unexpected(open.local))
                            }
                        },
                        Err(e) => Err(e),
                    }
                }
            },
            EvView::End { name: nm } => {
                if nm == open {
                    Ok((OrganizationalEntityView { name, urls, contacts }, i + 1))
                } else {
                    Err(unexpected(open.local))
                }
            },
            _ => Err(unexpected(open.local)),
        }
    }
}

/// Reads an organizational entity element whose start event is already
/// consumed.
pub fn read_entity(evs: &Vec<Ev>, i: usize, open: &EvName) -> (r: Result<
    (OrganizationalEntity, usize),
    Error,
>)
    requires
        i <= evs@.len(),
    ensures
        pres(r) == p_entity_fields(
            evs.deep_view(),
            i as int,
            open.deep_view(),
            None,
            Seq::empty(),
            Seq::empty(),
        ),
        r matches Ok((_, j)) ==> i < j <= evs.len(),
{
    let ghost dv = evs.deep_view();
    let mut name: Option<String> = None;
    let mut urls: Vec<String> = Vec::new();
    let mut contacts: Vec<OrganizationalContact> = Vec::new();
    proof {
        assert(urls.deep_view() =~= Seq::<Seq<char>>::empty());
        assert(contacts.deep_view() =~= Seq::<OrganizationalContactView>::empty());
    }
    let mut cur = i;
    loop
        invariant
            i <= cur <= evs@.len(),
            dv == evs.deep_view(),
            dv.len() == evs@.len(),
            p_entity_fields(dv, i as int, open.deep_view(), None, Seq::empty(), Seq::empty())
                == p_entity_fields(
                dv,
                cur as int,
                open.deep_view(),
                name.deep_view(),
                urls.deep_view(),
                contacts.deep_view(),
            ),
        decreases evs@.len() - cur,
    {
        if cur >= evs.len() {
            return Err(Error::UnexpectedElement { element: open.local.clone() });
        }
        match &evs[cur] {
            Ev::Start { name: nm, .. } => {
                if local_is(nm, "name") {
                    match read_text_tag(evs, cur + 1, nm) {
                        Ok((t, j)) => {
                            name = Some(t);
                            cur = j;
                        },
                        Err(e) => {
                            return Err(e);
                        },
                    }
                } else if local_is(nm, "url") {
                    match read_text_tag(evs, cur + 1, nm) {
                        Ok((t, j)) => {
                            let ghost pre = urls.deep_view();
                            urls.push(t);
                            proof {
                                assert(urls.deep_view() =~= pre.push(urls@[pre.len() as int]@));
                            }
                            cur = j;
                        },
                        Err(e) => {
                            return Err(e);
                        },
                    }
                } else if local_is(nm, "contact") {
                    match read_contact(evs, cur + 1, nm) {
                        Ok((c, j)) => {
                            let ghost pre = contacts.deep_view();
                            contacts.push(c);
                            proof {
                                assert(contacts.deep_view() =~= pre.push(
                                    contacts@[pre.len() as int].deep_view(),
                                ));
                            }
                            cur = j;
                        },
                        Err(e) => {
                            return Err(e);
                        },
                    }
                } else {
                    match skip_element(evs, cur + 1, nm) {
                        Ok(j) => {
                            cur = j;
                        },
                        Err(e) => {
                            return Err(e);
                        },
                    }
                }
            },
            Ev::End { name: nm } => {
                if evname_eq(nm, open) {
                    return Ok((OrganizationalEntity { name, urls, contacts }, cur + 1));
                } else {
                    return Err(Error::UnexpectedElement { element: open.local.clone() });
                }
            },
            _ => {
                return Err(Error::UnexpectedElement { element: open.local.clone() });
            },
        }
    }
}

impl ChildRead for OrganizationalEntity {
    open spec fn p_child(
        evs: Seq<EvView>,
        i: int,
        open: EvNameView,
        attrs: Seq<(Seq<char>, Seq<char>)>,
        sig_ok: bool,
    ) -> Result<(OrganizationalEntityView, int), ErrorView> {
        p_entity_fields(evs, i, open, None, Seq::empty(), Seq::empty())
    }

    fn read_child(
        evs: &Vec<Ev>,
        i: usize,
        open: &EvName,
        attrs: &Vec<(String, String)>,
        sig_ok: bool,
    ) -> (r: Result<(OrganizationalEntity, usize), Error>) {
        read_entity(evs, i, open)
    }
}

/// The events of a `tool` element.
pub open spec fn w_tool(t: ToolView) -> Seq<EvView> {
    seq![sx("tool"@)] + w_opt_text_tag("vendor"@, t.vendor) + w_opt_text_tag("name"@, t.name)
        + w_opt_text_tag("version"@, t.version) + w_opt_wrapped("hashes"@, "hash"@, t.hashes)
        + seq![ex("tool"@)]
}

impl ChildWrite for ToolView {
    open spec fn child_events(self, tag: Seq<char>) -> Seq<EvView> {
        w_tool(self)
    }
}

/// Writes a `tool` element.
pub fn push_tool(out: &mut Vec<Ev>, t: &Tool)
    ensures
        final(out).deep_view() == old(out).deep_view() + w_tool(t.deep_view()),
{
    push_start(out, "tool");
    crate::xml_base::push_opt_text_tag(out, "vendor", &t.vendor);
    crate::xml_base::push_opt_text_tag(out, "name", &t.name);
    crate::xml_base::push_opt_text_tag(out, "version", &t.version);
    push_opt_wrapped(out, "hashes", "hash", &t.hashes);
    push_end(out, "tool");
    proof {
        assert(final(out).deep_view() =~= old(out).deep_view() + w_tool(t.deep_view()));
    }
}

impl PushChild for Tool {
    fn push_child(out: &mut Vec<Ev>, c: &Self, tag: &str) {
        push_tool(out, c);
    }
}

/// What reading the children of a `tool` element yields.
pub open spec fn p_tool_fields(
    evs: Seq<EvView>,
    i: int,
    open: EvNameView,
    vendor: Option<Seq<char>>,
    name: Option<Seq<char>>,
    version: Option<Seq<char>>,
    hashes: Option<Seq<HashView>>,
) -> Result<(ToolView, int), ErrorView>
    decreases evs.len() - i,
{
    if i < 0 || i >= evs.len() {
        Err(unexpected("tool"@))
    } else {
        match evs[i] {
            EvView::Start { name: nm, attrs } => {
                if nm.local == "vendor"@ {
                    match p_text_tag(evs, i + 1, nm) {
                        Ok((t, j)) => {
                            if i < j <= evs.len() {
                                p_tool_fields(evs, j, open, Some(t), name, version, hashes)
                            } else {
                                Err(unexpected("tool"@))
                            }
                        },
                        Err(e) => Err(e),
                    }
                } else if nm.local == "name"@ {
                    match p_text_tag(evs, i + 1, nm) {
                        Ok((t, j)) => {
                            if i < j <= evs.len() {
                                p_tool_fields(evs, j, open, vendor, Some(t), version, hashes)
                            } else {
                                Err(unexpected("tool"@))
                            }
                        },
                        Err(e) => Err(e),
                    }
                } else if nm.local == "version"@ {
                    match p_text_tag(evs, i + 1, nm) {
                        Ok((t, j)) => {
                            if i < j <= evs.len() {
                                p_tool_fields(evs, j, open, vendor, name, Some(t), hashes)
                            } else {
                                Err(unexpected("tool"@))
                            }
                        },
                        Err(e) => Err(e),
                    }
                } else if nm.local == "hashes"@ {
                    match p_list::<crate::model::Hash>(evs, i + 1, nm, "hash"@, Seq::empty(), true) {
                        Ok((hs, j)) => {
                            if i < j <= evs.len() {
                                p_tool_fields(evs, j, open, vendor, name, version, Some(hs))
                            } else {
                                Err(unexpected("tool"@))
                            }
                        },
                        Err(e) => Err(e),
                    }
                } else {
                    match p_skip(evs, i + 1, seq![nm]) {
                        Ok(j) => {
                            if i < j <= evs.len() {
                                p_tool_fields(evs, j, open, vendor, name, version, hashes)
                            } else {
                                Err(unexpected("tool"@))
                            }
                        },
                        Err(e) => Err(e),
                    }
                }
            },
            EvView::End { name: nm } => {
                if nm == open {
                    Ok((ToolView { vendor, name, version, hashes }, i + 1))
                } else {
                    Err(unexpected("tool"@))
                }
            },
            _ => Err(unexpected("tool"@)),
        }
    }
}

/// Reads a `tool` element whose start event is already consumed.
pub fn read_tool(evs: &Vec<Ev>, i: usize, open: &EvName) -> (r: Result<(Tool, usize), Error>)
    requires
        i <= evs@.len(),
    ensures
        pres(r) == p_tool_fields(
            evs.deep_view(),
            i as int,
            open.deep_view(),
            None,
            None,
            None,
            None,
        ),
        r matches Ok((_, j)) ==> i < j <= evs.len(),
{
    let ghost dv = evs.deep_view();
    let mut vendor: Option<String> = None;
    let mut name: Option<String> = None;
    let mut version: Option<String> = None;
    let mut hashes: Option<Vec<crate::model::Hash>> = None;
    let mut cur = i;
    loop
        invariant
            i <= cur <= evs@.len(),
            dv == evs.deep_view(),
            dv.len() == evs@.len(),
            p_tool_fields(dv, i as int, open.deep_view(), None, None, None, None)
                == p_tool_fields(
                dv,
                cur as int,
                open.deep_view(),
                vendor.deep_view(),
                name.deep_view(),
                version.deep_view(),
                hashes.deep_view(),
            ),
        decreases evs@.len() - cur,
    {
        if cur >= evs.len() {
            return Err(Error::UnexpectedElement { element: "tool".to_owned() });
        }
        match &evs[cur] {
            Ev::Start { name: nm, .. } => {
                if local_is(nm, "vendor") {
                    match read_text_tag(evs, cur + 1, nm) {
                        Ok((t, j)) => {
                            vendor = Some(t);
                            cur = j;
                        },
                        Err(e) => {
                            return Err(e);
                        },
                    }
                } else if local_is(nm, "name") {
                    match read_text_tag(evs, cur + 1, nm) {
                        Ok((t, j)) => {
                            name = Some(t);
                            cur = j;
                        },
                        Err(e) => {
                            return Err(e);
                        },
                    }
                } else if local_is(nm, "version") {
                    match read_text_tag(evs, cur + 1, nm) {
                        Ok((t, j)) => {
                            version = Some(t);
                            cur = j;
                        },
                        Err(e) => {
                            return Err(e);
                        },
                    }
                } else if local_is(nm, "hashes") {
                    match read_list::<crate::model::Hash>(evs, cur + 1, nm, "hash", true) {
                        Ok((hs, j)) => {
                            hashes = Some(hs);
                            cur = j;
                        },
                        Err(e) => {
                            return Err(e);
                        },
                    }
                } else {
                    match skip_element(evs, cur + 1, nm) {
                        Ok(j) => {
                            cur = j;
                        },
                        Err(e) => {
                            return Err(e);
                        },
                    }
                }
            },
            Ev::End { name: nm } => {
                if evname_eq(nm, open) {
                    return Ok((Tool { vendor, name, version, hashes }, cur + 1));
                } else {
                    return Err(Error::UnexpectedElement { element: "tool".to_owned() });
                }
            },
            _ => {
                return Err(Error::UnexpectedElement { element: "tool".to_owned() });
            },
        }
    }
}

impl ChildRead for Tool {
    open spec fn p_child(
        evs: Seq<EvView>,
        i: int,
        open: EvNameView,
        attrs: Seq<(Seq<char>, Seq<char>)>,
        sig_ok: bool,
    ) -> Result<(ToolView, int), ErrorView> {
        p_tool_fields(evs, i, open, None, None, None, None)
    }

    fn read_child(
        evs: &Vec<Ev>,
        i: usize,
        open: &EvName,
        attrs: &Vec<(String, String)>,
        sig_ok: bool,
    ) -> (r: Result<(Tool, usize), Error>) {
        read_tool(evs, i, open)
    }
}

/// The events of a `reference` element: the `type` attribute, the required
/// `url`, then present optional children.
pub open spec fn w_external_reference(r: ExternalReferenceView) -> Seq<EvView> {
    seq![sxa("reference"@, seq![("type"@, r.external_reference_type)])] + w_text_tag(
        "url"@,
        r.url,
    ) + w_opt_text_tag("comment"@, r.comment) + w_opt_wrapped("hashes"@, "hash"@, r.hashes)
        + seq![ex("reference"@)]
}

impl ChildWrite for ExternalReferenceView {
    open spec fn child_events(self, tag: Seq<char>) -> Seq<EvView> {
        w_external_reference(self)
    }
}

/// Writes a `reference` element.
pub fn push_external_reference(out: &mut Vec<Ev>, r: &ExternalReference)
    ensures
        final(out).deep_view() == old(out).deep_view() + w_external_reference(r.deep_view()),
{
    let mut attrs: Vec<(String, String)> = Vec::new();
    push_attr(&mut attrs, "type", &r.external_reference_type);
    proof {
        assert(attrs.deep_view() =~= seq![(("type"@), r.external_reference_type@)]);
    }
    push_start_attrs(out, "reference", attrs);
    crate::xml_base::push_text_tag(out, "url", &r.url);
    crate::xml_base::push_opt_text_tag(out, "comment", &r.comment);
    push_opt_wrapped(out, "hashes", "hash", &r.hashes);
    push_end(out, "reference");
    proof {
        assert(final(out).deep_view() =~= old(out).deep_view() + w_external_reference(
            r.deep_view(),
        ));
    }
}

impl PushChild for ExternalReference {
    fn push_child(out: &mut Vec<Ev>, c: &Self, tag: &str) {
        push_external_reference(out, c);
    }
}

/// What reading the children of a `reference` element yields, given its
/// required `type` attribute; `url` must be present by the end tag.
pub open spec fn p_external_reference_fields(
    evs: Seq<EvView>,
    i: int,
    open: EvNameView,
    rtype: Seq<char>,
    url: Option<Seq<char>>,
    comment: Option<Seq<char>>,
    hashes: Option<Seq<HashView>>,
) -> Result<(ExternalReferenceView, int), ErrorView>
    decreases evs.len() - i,
{
    if i < 0 || i >= evs.len() {
        Err(unexpected("reference"@))
    } else {
        match evs[i] {
            EvView::Start { name: nm, attrs } => {
                if nm.local == "url"@ {
                    match p_text_tag(evs, i + 1, nm) {
                        Ok((t, j)) => {
                            if i < j <= evs.len() {
                                p_external_reference_fields(
                                    evs,
                                    j,
                                    open,
                                    rtype,
                                    Some(t),
                                    comment,
                                    hashes,
                                )
                            } else {
                                Err(unexpected("reference"@))
                            }
                        },
                        Err(e) => Err(e),
                    }
                } else if nm.local == "comment"@ {
                    match p_text_tag(evs, i + 1, nm) {
                        Ok((t, j)) => {
                            if i < j <= evs.len() {
                                p_external_reference_fields(
                                    evs,
                                    j,
                                    open,
                                    rtype,
                                    url,
                                    Some(t),
                                    hashes,
                                )
                            } else {
                                Err(unexpected("reference"@))
                            }
                        },
                        Err(e) => Err(e),
                    }
                } else if nm.local == "hashes"@ {
                    match p_list::<crate::model::Hash>(evs, i + 1, nm, "hash"@, Seq::empty(), true) {
                        Ok((hs, j)) => {
                            if i < j <= evs.len() {
                                p_external_reference_fields(
                                    evs,
                                    j,
                                    open,
                                    rtype,
                                    url,
                                    comment,
                                    Some(hs),
                                )
                            } else {
                                Err(unexpected("reference"@))
                            }
                        },
                        Err(e) => Err(e),
                    }
                } else {
                    match p_skip(evs, i + 1, seq![nm]) {
                        Ok(j) => {
                            if i < j <= evs.len() {
                                p_external_reference_fields(
                                    evs,
                                    j,
                                    open,
                                    rtype,
                                    url,
                                    comment,
                                    hashes,
                                )
                            } else {
                                Err(unexpected("reference"@))
                            }
                        },
                        Err(e) => Err(e),
                    }
                }
            },
            EvView::End { name: nm } => {
                if nm == open {
                    match url {
                        Some(u) => Ok(
                            (
                                ExternalReferenceView {
                                    external_reference_type: rtype,
                                    url: u,
                                    comment,
                                    hashes,
                                },
                                i + 1,
                            ),
                        ),
                        None => Err(
                            ErrorView::RequiredDataMissing {
                                required_field: "url"@,
                                element: "reference"@,
                            },
                        ),
                    }
                } else {
                    Err(unexpected("reference"@))
                }
            },
            _ => Err(unexpected("reference"@)),
        }
    }
}

/// What reading a whole `reference` element yields: the `type` attribute is
/// required up front.
pub open spec fn p_external_reference(
    evs: Seq<EvView>,
    i: int,
    open: EvNameView,
    attrs: Seq<(Seq<char>, Seq<char>)>,
) -> Result<(ExternalReferenceView, int), ErrorView> {
    match spec_attr(attrs, "type"@) {
        None => Err(
            ErrorView::RequiredDataMissing { required_field: "type"@, element: "reference"@ },
        ),
        Some(rtype) => p_external_reference_fields(evs, i, open, rtype, None, None, None),
    }
}

/// Reads a `reference` element whose start event is already consumed.
pub fn read_external_reference(
    evs: &Vec<Ev>,
    i: usize,
    open: &EvName,
    attrs: &Vec<(String, String)>,
) -> (r: Result<(ExternalReference, usize), Error>)
    requires
        i <= evs@.len(),
    ensures
        pres(r) == p_external_reference(
            evs.deep_view(),
            i as int,
            open.deep_view(),
            attrs.deep_view(),
        ),
        r matches Ok((_, j)) ==> i < j <= evs.len(),
{
    let ghost dv = evs.deep_view();
    let rtype = match find_req_attr(attrs, "type", "reference") {
        Ok(v) => v,
        Err(e) => {
            return Err(e);
        },
    };
    let mut url: Option<String> = None;
    let mut comment: Option<String> = None;
    let mut hashes: Option<Vec<crate::model::Hash>> = None;
    let mut cur = i;
    loop
        invariant
            i <= cur <= evs@.len(),
            dv == evs.deep_view(),
            dv.len() == evs@.len(),
            spec_attr(attrs.deep_view(), "type"@) == Some(rtype@),
            p_external_reference_fields(
                dv,
                i as int,
                open.deep_view(),
                rtype@,
                None,
                None,
                None,
            ) == p_external_reference_fields(
                dv,
                cur as int,
                open.deep_view(),
                rtype@,
                url.deep_view(),
                comment.deep_view(),
                hashes.deep_view(),
            ),
        decreases evs@.len() - cur,
    {
        if cur >= evs.len() {
            return Err(Error::UnexpectedElement { element: "reference".to_owned() });
        }
        match &evs[cur] {
            Ev::Start { name: nm, .. } => {
                if local_is(nm, "url") {
                    match read_text_tag(evs, cur + 1, nm) {
                        Ok((t, j)) => {
                            url = Some(t);
                            cur = j;
                        },
                        Err(e) => {
                            return Err(e);
                        },
                    }
                } else if local_is(nm, "comment") {
                    match read_text_tag(evs, cur + 1, nm) {
                        Ok((t, j)) => {
                            comment = Some(t);
                            cur = j;
                        },
                        Err(e) => {
                            return Err(e);
                        },
                    }
                } else if local_is(nm, "hashes") {
                    match read_list::<crate::model::Hash>(evs, cur + 1, nm, "hash", true) {
                        Ok((hs, j)) => {
                            hashes = Some(hs);
                            cur = j;
                        },
                        Err(e) => {
                            return Err(e);
                        },
                    }
                } else {
                    match skip_element(evs, cur + 1, nm) {
                        Ok(j) => {
                            cur = j;
                        },
                        Err(e) => {
                            return Err(e);
                        },
                    }
                }
            },
            Ev::End { name: nm } => {
                if evname_eq(nm, open) {
                    match url {
                        Some(u) => {
                            return Ok(
                                (
                                    ExternalReference {
                                        external_reference_type: rtype,
                                        url: u,
                                        comment,
                                        hashes,
                                    },
                                    cur + 1,
                                ),
                            );
                        },
                        None => {
                            return Err(
                                Error::RequiredDataMissing {
                                    required_field: "url".to_owned(),
                                    element: "reference".to_owned(),
                                },
                            );
                        },
                    }
                } else {
                    return Err(Error::UnexpectedElement { element: "reference".to_owned() });
                }
            },
            _ => {
                return Err(Error::UnexpectedElement { element: "reference".to_owned() });
            },
        }
    }
}

impl ChildRead for ExternalReference {
    open spec fn p_child(
        evs: Seq<EvView>,
        i: int,
        open: EvNameView,
        attrs: Seq<(Seq<char>, Seq<char>)>,
        sig_ok: bool,
    ) -> Result<(ExternalReferenceView, int), ErrorView> {
        p_external_reference(evs, i, open, attrs)
    }

    fn read_child(
        evs: &Vec<Ev>,
        i: usize,
        open: &EvName,
        attrs: &Vec<(String, String)>,
        sig_ok: bool,
    ) -> (r: Result<(ExternalReference, usize), Error>) {
        read_external_reference(evs, i, open, attrs)
    }
}

} // verus!
