//! XML codec for the document-level `metadata` element.

use vstd::prelude::*;

use crate::errors::{Error, ErrorView};
use crate::model::{
    ComponentView, LicensesView, Metadata, MetadataView, OrganizationalContact,
    OrganizationalContactView, OrganizationalEntityView, PropertyView, Tool, ToolView,
};
use crate::xml_base::{
    evname_eq, ex, local_is, p_skip, p_text_tag, pres, push_end, push_opt_text_tag, push_start,
    read_text_tag, skip_element, sx, unexpected, w_opt_text_tag,
};
use crate::xml_comp::{p_component, push_component, read_component, w_component};
use crate::xml_io::{Ev, EvName, EvNameView, EvView};
use crate::xml_license::{p_licenses, push_licenses, w_licenses};
use crate::xml_list::{p_list, push_opt_wrapped, read_list, w_opt_wrapped};
use crate::xml_org::{p_contact_fields, p_entity_fields, push_entity, read_entity, w_entity};

verus! {

/// The provenance half of a metadata element's events: timestamp, tools and
/// authors.
pub open spec fn w_meta_head(m: MetadataView) -> Seq<EvView> {
    w_opt_text_tag("timestamp"@, m.timestamp) + w_opt_wrapped("tools"@, "tool"@, m.tools)
        + w_opt_wrapped("authors"@, "author"@, m.authors)
}

/// The subject half of a metadata element's events: the primary component,
/// the organizations, licenses and properties.
pub open spec fn w_meta_tail(m: MetadataView) -> Seq<EvView> {
    (match m.component {
        Some(c) => w_component(c),
        None => Seq::empty(),
    }) + (match m.manufacture {
        Some(e) => w_entity("manufacture"@, e),
        None => Seq::empty(),
    }) + (match m.supplier {
        Some(e) => w_entity("supplier"@, e),
        None => Seq::empty(),
    }) + (match m.licenses {
        Some(l) => w_licenses(l),
        None => Seq::empty(),
    }) + w_opt_wrapped("properties"@, "property"@, m.properties)
}

/// The events of a `metadata` element.
pub open spec fn w_metadata(m: MetadataView) -> Seq<EvView> {
    seq![sx("metadata"@)] + w_meta_head(m) + w_meta_tail(m) + seq![ex("metadata"@)]
}

/// Writes the provenance half of a metadata element.
#[verifier::rlimit(100)]
fn push_meta_head(out: &mut Vec<Ev>, m: &Metadata)
    ensures
        final(out).deep_view() == old(out).deep_view() + w_meta_head(m.deep_view()),
{
    push_opt_text_tag(out, "timestamp", &m.timestamp);
    push_opt_wrapped(out, "tools", "tool", &m.tools);
    push_opt_wrapped(out, "authors", "author", &m.authors);
    proof {
        assert(final(out).deep_view() =~= old(out).deep_view() + w_meta_head(m.deep_view()));
    }
}

/// Writes the subject half of a metadata element.
#[verifier::rlimit(100)]
fn push_meta_tail(out: &mut Vec<Ev>, m: &Metadata)
    ensures
        final(out).deep_view() == old(out).deep_view() + w_meta_tail(m.deep_view()),
{
    if let Some(c) = &m.component {
        push_component(out, c);
    }
    if let Some(e) = &m.manufacture {
        push_entity(out, "manufacture", e);
    }
    if let Some(e) = &m.supplier {
        push_entity(out, "supplier", e);
    }
    if let Some(l) = &m.licenses {
        push_licenses(out, l);
    }
    push_opt_wrapped(out, "properties", "property", &m.properties);
    proof {
        assert(final(out).deep_view() =~= old(out).deep_view() + w_meta_tail(m.deep_view()));
    }
}

/// Writes a `metadata` element.
pub fn push_metadata(out: &mut Vec<Ev>, m: &Metadata)
    ensures
        final(out).deep_view() == old(out).deep_view() + w_metadata(m.deep_view()),
{
    push_start(out, "metadata");
    push_meta_head(out, m);
    push_meta_tail(out, m);
    push_end(out, "metadata");
    proof {
        assert(final(out).deep_view() =~= old(out).deep_view() + w_metadata(m.deep_view()));
    }
}

/// What reading the children of a `metadata` element yields.  Every field is
/// optional; unrecognized children are lax-skipped; the primary component
/// carries its own required attributes and fields.
pub open spec fn p_metadata_fields(
    evs: Seq<EvView>,
    i: int,
    open: EvNameView,
    timestamp: Option<Seq<char>>,
    tools: Option<Seq<ToolView>>,
    authors: Option<Seq<OrganizationalContactView>>,
    component: Option<ComponentView>,
    manufacture: Option<OrganizationalEntityView>,
    supplier: Option<OrganizationalEntityView>,
    licenses: Option<LicensesView>,
    properties: Option<Seq<PropertyView>>,
    sig_ok: bool,
) -> Result<(MetadataView, int), ErrorView>
    decreases evs.len() - i,
{
    if i < 0 || i >= evs.len() {
        Err(unexpected("metadata"@))
    } else {
        match evs[i] {
            EvView::Start { name: nm, attrs } => {
                if nm.local == "timestamp"@ {
                    match p_text_tag(evs, i + 1, nm) {
                        Ok((t, j)) => {
                            if i < j <= evs.len() {
                                p_metadata_fields(evs, j, open, Some(t), tools, authors,
                                component, manufacture, supplier, licenses, properties, sig_ok)
                            } else {
                                Err(unexpected("metadata"@))
                            }
                        },
                        Err(e) => Err(e),
                    }
                } else if nm.local == "tools"@ {
                    match p_list::<Tool>(evs, i + 1, nm, "tool"@, Seq::empty(), sig_ok) {
                        Ok((s, j)) => {
                            if i < j <= evs.len() {
                                p_metadata_fields(evs, j, open, timestamp, Some(s), authors,
                                component, manufacture, supplier, licenses, properties, sig_ok)
                            } else {
                                Err(unexpected("metadata"@))
                            }
                        },
                        Err(e) => Err(e),
                    }
                } else if nm.local == "authors"@ {
                    match p_list::<OrganizationalContact>(evs, i + 1, nm, "author"@,
                    Seq::empty(), sig_ok) {
                        Ok((s, j)) => {
                            if i < j <= evs.len() {
                                p_metadata_fields(evs, j, open, timestamp, tools, Some(s),
                                component, manufacture, supplier, licenses, properties, sig_ok)
                            } else {
                                Err(unexpected("metadata"@))
                            }
                        },
                        Err(e) => Err(e),
                    }
                } else if nm.local == "component"@ {
                    match p_component(evs, i + 1, nm, attrs, sig_ok) {
                        Ok((c, j)) => {
                            if i < j <= evs.len() {
                                p_metadata_fields(evs, j, open, timestamp, tools, authors,
                                Some(c), manufacture, supplier, licenses, properties, sig_ok)
                            } else {
                                Err(unexpected("metadata"@))
                            }
                        },
                        Err(e) => Err(e),
                    }
                } else if nm.local == "manufacture"@ {
                    match p_entity_fields(evs, i + 1, nm, None, Seq::empty(), Seq::empty()) {
                        Ok((s, j)) => {
                            if i < j <= evs.len() {
                                p_metadata_fields(evs, j, open, timestamp, tools, authors,
                                component, Some(s), supplier, licenses, properties, sig_ok)
                            } else {
                                Err(unexpected("metadata"@))
                            }
                        },
                        Err(e) => Err(e),
                    }
                } else if nm.local == "supplier"@ {
                    match p_entity_fields(evs, i + 1, nm, None, Seq::empty(), Seq::empty()) {
                        Ok((s, j)) => {
                            if i < j <= evs.len() {
                                p_metadata_fields(evs, j, open, timestamp, tools, authors,
                                component, manufacture, Some(s), licenses, properties, sig_ok)
                            } else {
                                Err(unexpected("metadata"@))
                            }
                        },
                        Err(e) => Err(e),
                    }
                } else if nm.local == "licenses"@ {
                    match p_licenses(evs, i + 1, nm) {
                        Ok((l, j)) => {
                            if i < j <= evs.len() {
                                p_metadata_fields(evs, j, open, timestamp, tools, authors,
                                component, manufacture, supplier, Some(l), properties, sig_ok)
                            } else {
                                Err(unexpected("metadata"@))
                            }
                        },
                        Err(e) => Err(e),
                    }
                } else if nm.local == "properties"@ {
                    match p_list::<crate::model::Property>(evs, i + 1, nm, "property"@,
                    Seq::empty(), sig_ok) {
                        Ok((s, j)) => {
                            if i < j <= evs.len() {
                                p_metadata_fields(evs, j, open, timestamp, tools, authors,
                                component, manufacture, supplier, licenses, Some(s), sig_ok)
                            } else {
                                Err(unexpected("metadata"@))
                            }
                        },
                        Err(e) => Err(e),
                    }
                } else {
                    match p_skip(evs, i + 1, seq![nm]) {
                        Ok(j) => {
                            if i < j <= evs.len() {
                                p_metadata_fields(evs, j, open, timestamp, tools, authors,
                                component, manufacture, supplier, licenses, properties, sig_ok)
                            } else {
                                Err(unexpected("metadata"@))
                            }
                        },
                        Err(e) => Err(e),
                    }
                }
            },
            EvView::End { name: nm } => {
                if nm == open {
                    Ok(
                        (
                            MetadataView {
                                timestamp,
                                tools,
                                authors,
                                component,
                                manufacture,
                                supplier,
                                licenses,
                                properties,
                            },
                            i + 1,
                        ),
                    )
                } else {
                    Err(unexpected("metadata"@))
                }
            },
            _ => Err(unexpected("metadata"@)),
        }
    }
}

/// Reads a `metadata` element whose start event is already consumed.
#[verifier::rlimit(100)]
pub fn read_metadata(evs: &Vec<Ev>, i: usize, open: &EvName, sig_ok: bool) -> (r: Result<
    (Metadata, usize),
    Error,
>)
    requires
        i <= evs@.len(),
    ensures
        pres(r) == p_metadata_fields(
            evs.deep_view(),
            i as int,
            open.deep_view(),
            None,
            None,
            None,
            None,
            None,
            None,
            None,
            None,
            sig_ok,
        ),
        r matches Ok((_, j)) ==> i < j <= evs.len(),
{
    let ghost dv = evs.deep_view();
    let mut timestamp: Option<String> = None;
    let mut tools: Option<Vec<Tool>> = None;
    let mut authors: Option<Vec<OrganizationalContact>> = None;
    let mut component: Option<crate::model::Component> = None;
    let mut manufacture: Option<crate::model::OrganizationalEntity> = None;
    let mut supplier: Option<crate::model::OrganizationalEntity> = None;
    let mut licenses: Option<crate::model::Licenses> = None;
    let mut properties: Option<Vec<crate::model::Property>> = None;
    let mut cur = i;
    loop
        invariant
            i <= cur <= evs@.len(),
            dv == evs.deep_view(),
            dv.len() == evs@.len(),
            p_metadata_fields(dv, i as int, open.deep_view(), None, None, None, None, None,
            None, None, None, sig_ok) == p_metadata_fields(
                dv,
                cur as int,
                open.deep_view(),
                timestamp.deep_view(),
                tools.deep_view(),
                authors.deep_view(),
                component.deep_view(),
                manufacture.deep_view(),
                supplier.deep_view(),
                licenses.deep_view(),
                properties.deep_view(),
                sig_ok,
            ),
        decreases evs@.len() - cur,
    {
        if cur >= evs.len() {
            return Err(Error::UnexpectedElement { element: "metadata".to_owned() });
        }
        match &evs[cur] {
            Ev::Start { name: nm, attrs: cattrs } => {
                if local_is(nm, "timestamp") {
                    match read_text_tag(evs, cur + 1, nm) {
                        Ok((t, j)) => {
                            timestamp = Some(t);
                            cur = j;
                        },
                        Err(e) => {
                            return Err(e);
                        },
                    }
                } else if local_is(nm, "tools") {
                    match read_list::<Tool>(evs, cur + 1, nm, "tool", sig_ok) {
                        Ok((s, j)) => {
                            tools = Some(s);
                            cur = j;
                        },
                        Err(e) => {
                            return Err(e);
                        },
                    }
                } else if local_is(nm, "authors") {
                    match read_list::<OrganizationalContact>(evs, cur + 1, nm, "author", sig_ok) {
                        Ok((s, j)) => {
                            authors = Some(s);
                            cur = j;
                        },
                        Err(e) => {
                            return Err(e);
                        },
                    }
                } else if local_is(nm, "component") {
                    match read_component(evs, cur + 1, nm, cattrs, sig_ok) {
                        Ok((c, j)) => {
                            component = Some(c);
                            cur = j;
                        },
                        Err(e) => {
                            return Err(e);
                        },
                    }
                } else if local_is(nm, "manufacture") {
                    match read_entity(evs, cur + 1, nm) {
                        Ok((s, j)) => {
                            manufacture = Some(s);
                            cur = j;
                        },
                        Err(e) => {
                            return Err(e);
                        },
                    }
                } else if local_is(nm, "supplier") {
                    match read_entity(evs, cur + 1, nm) {
                        Ok((s, j)) => {
                            supplier = Some(s);
                            cur = j;
                        },
                        Err(e) => {
                            return Err(e);
                        },
                    }
                } else if local_is(nm, "licenses") {
                    match crate::xml_license::read_licenses(evs, cur + 1, nm) {
                        Ok((l, j)) => {
                            licenses = Some(l);
                            cur = j;
                        },
                        Err(e) => {
                            return Err(e);
                        },
                    }
                } else if local_is(nm, "properties") {
                    match read_list::<crate::model::Property>(
                        evs,
                        cur + 1,
                        nm,
                        "property",
                        sig_ok,
                    ) {
                        Ok((s, j)) => {
                            properties = Some(s);
                            cur = j;
                        },
                        Err(e) => {
                            return Err(e);
                        },
                    }
                } else {
                    match skip_element(evs, cur + 1, nm) {
                        Ok(j) => {
                            cur = j;
                        },
                        Err(e) => {
                            return Err(e);
                        },
                    }
                }
            },
            Ev::End { name: nm } => {
                if evname_eq(nm, open) {
                    return Ok(
                        (
                            Metadata {
                                timestamp,
                                tools,
                                authors,
                                component,
                                manufacture,
                                supplier,
                                licenses,
                                properties,
                            },
                            cur + 1,
                        ),
                    );
                } else {
                    return Err(Error::UnexpectedElement { element: "metadata".to_owned() });
                }
            },
            _ => {
                return Err(Error::UnexpectedElement { element: "metadata".to_owned() });
            },
        }
    }
}

} // verus!
