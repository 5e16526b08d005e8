//! XML codec for components, including recursive sub-components.

use vstd::prelude::*;

use crate::errors::{Error, ErrorView};
use crate::model::{
    Component, ComponentView, ExternalReferenceView, HashView, LicensesView, PropertyView,
    SignatureView,
};
use crate::scalars::{parse_bool, parse_bool_spec};
use crate::xml_base::{
    evname_eq, ex, find_req_attr, local_is, p_skip, p_text_tag, pres, push_attr, push_end,
    push_opt_bool_tag, push_opt_text_tag, push_start, push_start_attrs, push_text_tag,
    read_text_tag, skip_element, spec_attr, sx, sxa, unexpected, w_opt_bool_tag, w_opt_text_tag,
    w_text_tag, ChildWrite,
};
use crate::xml_io::{Ev, EvName, EvNameView, EvView};
use crate::xml_license::{opt_attr, p_licenses, push_licenses, w_licenses};
use crate::xml_list::{
    p_list, push_opt_wrapped, read_list, w_opt_wrapped, ChildRead, PushChild,
};
use crate::xml_org::{p_entity_fields, push_entity, read_entity, w_entity};
use crate::xml_simple::{p_signature_fields, push_signature, read_signature, w_signature};

verus! {

/// The attributes of a `component` element: the required `type`, then
/// `mime-type` and `bom-ref` where present.
pub open spec fn component_attrs(c: ComponentView) -> Seq<(Seq<char>, Seq<char>)> {
    seq![("type"@, c.component_type)] + opt_attr("mime-type"@, c.mime_type) + opt_attr(
        "bom-ref"@,
        c.bom_ref,
    )
}

/// The identifying children of a component: supplier through version.
pub open spec fn w_comp_ident(c: ComponentView) -> Seq<EvView> {
    (match c.supplier {
        Some(s) => w_entity("supplier"@, s),
        None => Seq::empty(),
    }) + w_opt_text_tag("author"@, c.author) + w_opt_text_tag("publisher"@, c.publisher)
        + w_opt_text_tag("group"@, c.group) + w_text_tag("name"@, c.name) + w_text_tag(
        "version"@,
        c.version,
    )
}

/// The descriptive children of a component: description through purl.
pub open spec fn w_comp_detail(c: ComponentView) -> Seq<EvView> {
    w_opt_text_tag("description"@, c.description) + w_opt_text_tag("scope"@, c.scope)
        + w_opt_wrapped("hashes"@, "hash"@, c.hashes) + (match c.licenses {
        Some(l) => w_licenses(l),
        None => Seq::empty(),
    }) + w_opt_text_tag("copyright"@, c.copyright) + w_opt_text_tag("cpe"@, c.cpe)
        + w_opt_text_tag("purl"@, c.purl)
}

/// The closing children of a component: modified flag, external
/// references, properties, sub-components and signature.
pub open spec fn w_comp_tail(c: ComponentView) -> Seq<EvView>
    decreases c, 0int,
{
    w_opt_bool_tag("modified"@, c.modified) + w_opt_wrapped(
        "externalReferences"@,
        "reference"@,
        c.external_references,
    ) + w_opt_wrapped("properties"@, "property"@, c.properties) + (match c.components {
        Some(s) => seq![sx("components"@)] + w_components_list(s) + seq![ex("components"@)],
        None => Seq::empty(),
    }) + (match c.signature {
        Some(s) => w_signature(s),
        None => Seq::empty(),
    })
}

/// The events of a `component` element, sub-components included.
pub open spec fn w_component(c: ComponentView) -> Seq<EvView>
    decreases c, 1int,
{
    seq![sxa("component"@, component_attrs(c))] + w_comp_ident(c) + w_comp_detail(c)
        + w_comp_tail(c) + seq![ex("component"@)]
}

/// The events of a run of `component` children.
pub open spec fn w_components_list(s: Seq<ComponentView>) -> Seq<EvView>
    decreases s, 1int,
{
    if s.len() == 0 {
        Seq::empty()
    } else {
        w_component(s[0]) + w_components_list(s.subrange(1, s.len() as int))
    }
}

pub proof fn lemma_w_components_snoc(s: Seq<ComponentView>, c: ComponentView)
    ensures
        w_components_list(s.push(c)) == w_components_list(s) + w_component(c),
    decreases s.len(),
{
    let whole = s.push(c);
    if s.len() == 0 {
        assert(whole.subrange(1, whole.len() as int) =~= Seq::<ComponentView>::empty());
        assert(w_components_list(whole.subrange(1, whole.len() as int)) == Seq::<
            EvView,
        >::empty());
        assert(whole[0] == c);
        assert(w_components_list(whole) =~= w_components_list(s) + w_component(c));
    } else {
        assert(whole.subrange(1, whole.len() as int) =~= s.subrange(1, s.len() as int).push(c));
        lemma_w_components_snoc(s.subrange(1, s.len() as int), c);
        assert(whole[0] == s[0]);
        assert(w_components_list(whole) =~= w_components_list(s) + w_component(c));
    }
}

impl ChildWrite for ComponentView {
    open spec fn child_events(self, tag: Seq<char>) -> Seq<EvView> {
        w_component(self)
    }
}

/// Writes the identifying children of a component.
fn push_comp_ident(out: &mut Vec<Ev>, c: &Component)
    ensures
        final(out).deep_view() == old(out).deep_view() + w_comp_ident(c.deep_view()),
{
    if let Some(s) = &c.supplier {
        push_entity(out, "supplier", s);
    }
    push_opt_text_tag(out, "author", &c.author);
    push_opt_text_tag(out, "publisher", &c.publisher);
    push_opt_text_tag(out, "group", &c.group);
    push_text_tag(out, "name", &c.name);
    push_text_tag(out, "version", &c.version);
    proof {
        assert(final(out).deep_view() =~= old(out).deep_view() + w_comp_ident(c.deep_view()));
    }
}

/// Writes the descriptive children of a component.
fn push_comp_detail(out: &mut Vec<Ev>, c: &Component)
    ensures
        final(out).deep_view() == old(out).deep_view() + w_comp_detail(c.deep_view()),
{
    push_opt_text_tag(out, "description", &c.description);
    push_opt_text_tag(out, "scope", &c.scope);
    push_opt_wrapped(out, "hashes", "hash", &c.hashes);
    if let Some(l) = &c.licenses {
        push_licenses(out, l);
    }
    push_opt_text_tag(out, "copyright", &c.copyright);
    push_opt_text_tag(out, "cpe", &c.cpe);
    push_opt_text_tag(out, "purl", &c.purl);
    proof {
        assert(final(out).deep_view() =~= old(out).deep_view() + w_comp_detail(c.deep_view()));
    }
}

/// Writes the closing children of a component.
fn push_comp_tail(out: &mut Vec<Ev>, c: &Component)
    ensures
        final(out).deep_view() == old(out).deep_view() + w_comp_tail(c.deep_view()),
    decreases *c, 0int,
{
    push_opt_bool_tag(out, "modified", &c.modified);
    push_opt_wrapped(out, "externalReferences", "reference", &c.external_references);
    push_opt_wrapped(out, "properties", "property", &c.properties);
    if let Some(subs) = &c.components {
        push_start(out, "components");
        push_components_list(out, subs);
        push_end(out, "components");
    }
    if let Some(s) = &c.signature {
        push_signature(out, s);
    }
    proof {
        if c.components is Some {
            crate::model::lemma_components_deep(c.components->0);
        }
        assert(final(out).deep_view() =~= old(out).deep_view() + w_comp_tail(c.deep_view()));
    }
}

/// Writes a `component` element.
#[verifier::rlimit(100)]
pub fn push_component(out: &mut Vec<Ev>, c: &Component)
    ensures
        final(out).deep_view() == old(out).deep_view() + w_component(c.deep_view()),
    decreases *c, 1int,
{
    let mut attrs: Vec<(String, String)> = Vec::new();
    push_attr(&mut attrs, "type", &c.component_type);
    if let Some(m) = &c.mime_type {
        push_attr(&mut attrs, "mime-type", m);
    }
    if let Some(b) = &c.bom_ref {
        push_attr(&mut attrs, "bom-ref", b);
    }
    proof {
        assert(attrs.deep_view() =~= component_attrs(c.deep_view()));
    }
    push_start_attrs(out, "component", attrs);
    push_comp_ident(out, c);
    push_comp_detail(out, c);
    push_comp_tail(out, c);
    push_end(out, "component");
    proof {
        assert(final(out).deep_view() =~= old(out).deep_view() + w_component(c.deep_view()));
    }
}

/// Writes a run of `component` elements.
pub fn push_components_list(out: &mut Vec<Ev>, items: &Vec<Component>)
    ensures
        final(out).deep_view() == old(out).deep_view() + w_components_list(items.deep_view()),
    decreases *items, 1int,
{
    let ghost mid = out.deep_view();
    let n = items.len();
    let mut k: usize = 0;
    proof {
        assert(items.deep_view().subrange(0, 0) =~= Seq::<ComponentView>::empty());
        assert(out.deep_view() =~= mid + w_components_list(items.deep_view().subrange(0, 0)));
    }
    while k < n
        invariant
            0 <= k <= n,
            n == items@.len(),
            out.deep_view() == mid + w_components_list(items.deep_view().subrange(0, k as int)),
        decreases n - k,
    {
        let ghost pre = items.deep_view().subrange(0, k as int);
        push_component(out, &items[k]);
        proof {
            assert(items.deep_view().subrange(0, k + 1) =~= pre.push(
                items[k as int].deep_view(),
            ));
            lemma_w_components_snoc(pre, items[k as int].deep_view());
            assert(out.deep_view() =~= mid + w_components_list(
                items.deep_view().subrange(0, k + 1),
            ));
        }
        k = k + 1;
    }
    proof {
        assert(items.deep_view().subrange(0, n as int) =~= items.deep_view());
    }
}

impl PushChild for Component {
    fn push_child(out: &mut Vec<Ev>, c: &Self, tag: &str) {
        push_component(out, c);
    }
}

} // verus!

verus! {

/// The fields of a component collected while its children are read.
pub struct CompAcc {
    pub supplier: Option<crate::model::OrganizationalEntity>,
    pub author: Option<String>,
    pub publisher: Option<String>,
    pub group: Option<String>,
    pub name: Option<String>,
    pub version: Option<String>,
    pub description: Option<String>,
    pub scope: Option<String>,
    pub hashes: Option<Vec<crate::model::Hash>>,
    pub licenses: Option<crate::model::Licenses>,
    pub copyright: Option<String>,
    pub cpe: Option<String>,
    pub purl: Option<String>,
    pub modified: Option<bool>,
    pub external_references: Option<Vec<crate::model::ExternalReference>>,
    pub properties: Option<Vec<crate::model::Property>>,
    pub components: Option<Vec<Component>>,
    pub signature: Option<crate::model::Signature>,
}

pub struct CompAccView {
    pub supplier: Option<crate::model::OrganizationalEntityView>,
    pub author: Option<Seq<char>>,
    pub publisher: Option<Seq<char>>,
    pub group: Option<Seq<char>>,
    pub name: Option<Seq<char>>,
    pub version: Option<Seq<char>>,
    pub description: Option<Seq<char>>,
    pub scope: Option<Seq<char>>,
    pub hashes: Option<Seq<HashView>>,
    pub licenses: Option<LicensesView>,
    pub copyright: Option<Seq<char>>,
    pub cpe: Option<Seq<char>>,
    pub purl: Option<Seq<char>>,
    pub modified: Option<bool>,
    pub external_references: Option<Seq<ExternalReferenceView>>,
    pub properties: Option<Seq<PropertyView>>,
    pub components: Option<Seq<ComponentView>>,
    pub signature: Option<SignatureView>,
}

impl DeepView for CompAcc {
    type V = CompAccView;

    open spec fn deep_view(&self) -> CompAccView {
        CompAccView {
            supplier: self.supplier.deep_view(),
            author: self.author.deep_view(),
            publisher: self.publisher.deep_view(),
            group: self.group.deep_view(),
            name: self.name.deep_view(),
            version: self.version.deep_view(),
            description: self.description.deep_view(),
            scope: self.scope.deep_view(),
            hashes: self.hashes.deep_view(),
            licenses: self.licenses.deep_view(),
            copyright: self.copyright.deep_view(),
            cpe: self.cpe.deep_view(),
            purl: self.purl.deep_view(),
            modified: self.modified,
            external_references: self.external_references.deep_view(),
            properties: self.properties.deep_view(),
            components: match &self.components {
                Some(v) => Some(crate::model::components_view(v@)),
                None => None,
            },
            signature: self.signature.deep_view(),
        }
    }
}

/// Whether `local` is one of the text-content leaf children of `component`.
pub open spec fn is_comp_text_field(local: Seq<char>) -> bool {
    ||| local == "author"@
    ||| local == "publisher"@
    ||| local == "group"@
    ||| local == "name"@
    ||| local == "version"@
    ||| local == "description"@
    ||| local == "scope"@
    ||| local == "copyright"@
    ||| local == "cpe"@
    ||| local == "purl"@
}

/// The accumulator with the named text-content field set to `t`.
pub open spec fn comp_set_text(acc: CompAccView, local: Seq<char>, t: Seq<char>) -> CompAccView {
    if local == "author"@ {
        CompAccView { author: Some(t), ..acc }
    } else if local == "publisher"@ {
        CompAccView { publisher: Some(t), ..acc }
    } else if local == "group"@ {
        CompAccView { group: Some(t), ..acc }
    } else if local == "name"@ {
        CompAccView { name: Some(t), ..acc }
    } else if local == "version"@ {
        CompAccView { version: Some(t), ..acc }
    } else if local == "description"@ {
        CompAccView { description: Some(t), ..acc }
    } else if local == "scope"@ {
        CompAccView { scope: Some(t), ..acc }
    } else if local == "copyright"@ {
        CompAccView { copyright: Some(t), ..acc }
    } else if local == "cpe"@ {
        CompAccView { cpe: Some(t), ..acc }
    } else {
        CompAccView { purl: Some(t), ..acc }
    }
}

/// The component a finished accumulator denotes, once `name` and `version`
/// are known to be present.
pub open spec fn comp_of_acc(
    ctype: Seq<char>,
    mime_type: Option<Seq<char>>,
    bom_ref: Option<Seq<char>>,
    acc: CompAccView,
) -> ComponentView {
    ComponentView {
        component_type: ctype,
        mime_type,
        bom_ref,
        supplier: acc.supplier,
        author: acc.author,
        publisher: acc.publisher,
        group: acc.group,
        name: acc.name->0,
        version: acc.version->0,
        description: acc.description,
        scope: acc.scope,
        hashes: acc.hashes,
        licenses: acc.licenses,
        copyright: acc.copyright,
        cpe: acc.cpe,
        purl: acc.purl,
        modified: acc.modified,
        external_references: acc.external_references,
        properties: acc.properties,
        components: acc.components,
        signature: acc.signature,
    }
}

/// The empty accumulator.
pub open spec fn comp_acc_empty() -> CompAccView {
    CompAccView {
        supplier: None,
        author: None,
        publisher: None,
        group: None,
        name: None,
        version: None,
        description: None,
        scope: None,
        hashes: None,
        licenses: None,
        copyright: None,
        cpe: None,
        purl: None,
        modified: None,
        external_references: None,
        properties: None,
        components: None,
        signature: None,
    }
}

/// What reading the children of a `component` element yields, given its
/// attributes and the fields collected so far.  `name` and `version` are
/// required by the end tag; children the model does not carry are
/// lax-skipped; `signature` is recognized only from schema version 1.4 on.
#[verifier::opaque]
pub open spec fn p_component_fields(
    evs: Seq<EvView>,
    i: int,
    open: EvNameView,
    ctype: Seq<char>,
    mime_type: Option<Seq<char>>,
    bom_ref: Option<Seq<char>>,
    acc: CompAccView,
    sig_ok: bool,
) -> Result<(ComponentView, int), ErrorView>
    decreases evs.len() - i, 1int,
{
    if i < 0 || i >= evs.len() {
        Err(unexpected("component"@))
    } else {
        match evs[i] {
            EvView::Start { name: nm, attrs } => {
                if is_comp_text_field(nm.local) {
                    match p_text_tag(evs, i + 1, nm) {
                        Ok((t, j)) => {
                            if i < j <= evs.len() {
                                p_component_fields(evs, j, open, ctype, mime_type, bom_ref,
                                comp_set_text(acc, nm.local, t), sig_ok)
                            } else {
                                Err(unexpected("component"@))
                            }
                        },
                        Err(e) => Err(e),
                    }
                } else if nm.local == "supplier"@ {
                    match p_entity_fields(evs, i + 1, nm, None, Seq::empty(), Seq::empty()) {
                        Ok((s, j)) => {
                            if i < j <= evs.len() {
                                p_component_fields(evs, j, open, ctype, mime_type, bom_ref,
                                CompAccView { supplier: Some(s), ..acc }, sig_ok)
                            } else {
                                Err(unexpected("component"@))
                            }
                        },
                        Err(e) => Err(e),
                    }
                } else if nm.local == "hashes"@ {
                    match p_list::<crate::model::Hash>(evs, i + 1, nm, "hash"@, Seq::empty(),
                    sig_ok) {
                        Ok((s, j)) => {
                            if i < j <= evs.len() {
                                p_component_fields(evs, j, open, ctype, mime_type, bom_ref,
                                CompAccView { hashes: Some(s), ..acc }, sig_ok)
                            } else {
                                Err(unexpected("component"@))
                            }
                        },
                        Err(e) => Err(e),
                    }
                } else if nm.local == "licenses"@ {
                    match p_licenses(evs, i + 1, nm) {
                        Ok((l, j)) => {
                            if i < j <= evs.len() {
                                p_component_fields(evs, j, open, ctype, mime_type, bom_ref,
                                CompAccView { licenses: Some(l), ..acc }, sig_ok)
                            } else {
                                Err(unexpected("component"@))
                            }
                        },
                        Err(e) => Err(e),
                    }
                } else if nm.local == "modified"@ {
                    match p_text_tag(evs, i + 1, nm) {
                        Ok((t, j)) => match parse_bool_spec(t) {
                            Some(b) => {
                                if i < j <= evs.len() {
                                    p_component_fields(evs, j, open, ctype, mime_type, bom_ref,
                                    CompAccView { modified: Some(b), ..acc }, sig_ok)
                                } else {
                                    Err(unexpected("component"@))
                                }
                            },
                            None => Err(ErrorView::ValueParse { field: "modified"@, text: t }),
                        },
                        Err(e) => Err(e),
                    }
                } else if nm.local == "externalReferences"@ {
                    match p_list::<crate::model::ExternalReference>(evs, i + 1, nm, "reference"@,
                    Seq::empty(), sig_ok) {
                        Ok((s, j)) => {
                            if i < j <= evs.len() {
                                p_component_fields(evs, j, open, ctype, mime_type, bom_ref,
                                CompAccView { external_references: Some(s), ..acc }, sig_ok)
                            } else {
                                Err(unexpected("component"@))
                            }
                        },
                        Err(e) => Err(e),
                    }
                } else if nm.local == "properties"@ {
                    match p_list::<crate::model::Property>(evs, i + 1, nm, "property"@,
                    Seq::empty(), sig_ok) {
                        Ok((s, j)) => {
                            if i < j <= evs.len() {
                                p_component_fields(evs, j, open, ctype, mime_type, bom_ref,
                                CompAccView { properties: Some(s), ..acc }, sig_ok)
                            } else {
                                Err(unexpected("component"@))
                            }
                        },
                        Err(e) => Err(e),
                    }
                } else if nm.local == "components"@ {
                    match p_components_items(evs, i + 1, nm, Seq::empty(), sig_ok) {
                        Ok((s, j)) => {
                            if i < j <= evs.len() {
                                p_component_fields(evs, j, open, ctype, mime_type, bom_ref,
                                CompAccView { components: Some(s), ..acc }, sig_ok)
                            } else {
                                Err(unexpected("component"@))
                            }
                        },
                        Err(e) => Err(e),
                    }
                } else if nm.local == "signature"@ && sig_ok {
                    match p_signature_fields(evs, i + 1, nm, None, None) {
                        Ok((s, j)) => {
                            if i < j <= evs.len() {
                                p_component_fields(evs, j, open, ctype, mime_type, bom_ref,
                                CompAccView { signature: Some(s), ..acc }, sig_ok)
                            } else {
                                Err(unexpected("component"@))
                            }
                        },
                        Err(e) => Err(e),
                    }
                } else {
                    match p_skip(evs, i + 1, seq![nm]) {
                        Ok(j) => {
                            if i < j <= evs.len() {
                                p_component_fields(evs, j, open, ctype, mime_type, bom_ref, acc,
                                sig_ok)
                            } else {
                                Err(unexpected("component"@))
                            }
                        },
                        Err(e) => Err(e),
                    }
                }
            },
            EvView::End { name: nm } => {
                if nm == open {
                    if acc.name is None {
                        Err(
                            ErrorView::RequiredDataMissing {
                                required_field: "name"@,
                                element: "component"@,
                            },
                        )
                    } else if acc.version is None {
                        Err(
                            ErrorView::RequiredDataMissing {
                                required_field: "version"@,
                                element: "component"@,
                            },
                        )
                    } else {
                        Ok((comp_of_acc(ctype, mime_type, bom_ref, acc), i + 1))
                    }
                } else {
                    Err(unexpected("component"@))
                }
            },
            _ => Err(unexpected("component"@)),
        }
    }
}

/// What reading the children of a `components` container yields: `component`
/// children, each with a required `type` attribute, closed by the matching
/// end tag.
pub open spec fn p_components_items(
    evs: Seq<EvView>,
    i: int,
    open: EvNameView,
    acc: Seq<ComponentView>,
    sig_ok: bool,
) -> Result<(Seq<ComponentView>, int), ErrorView>
    decreases evs.len() - i, 0int,
{
    if i < 0 || i >= evs.len() {
        Err(unexpected(open.local))
    } else {
        match evs[i] {
            EvView::Start { name: nm, attrs } => {
                if nm.local == "component"@ {
                    match spec_attr(attrs, "type"@) {
                        None => Err(
                            ErrorView::RequiredDataMissing {
                                required_field: "type"@,
                                element: "component"@,
                            },
                        ),
                        Some(ct) => match p_component_fields(
                            evs,
                            i + 1,
                            nm,
                            ct,
                            spec_attr(attrs, "mime-type"@),
                            spec_attr(attrs, "bom-ref"@),
                            comp_acc_empty(),
                            sig_ok,
                        ) {
                            Ok((c, j)) => {
                                if i < j <= evs.len() {
                                    p_components_items(evs, j, open, acc.push(c), sig_ok)
                                } else {
                                    Err(unexpected(open.local))
                                }
                            },
                            Err(e) => Err(e),
                        },
                    }
                } else {
                    match p_skip(evs, i + 1, seq![nm]) {
                        Ok(j) => {
                            if i < j <= evs.len() {
                                p_components_items(evs, j, open, acc, sig_ok)
                            } else {
                                Err(unexpected(open.local))
                            }
                        },
                        Err(e) => Err(e),
                    }
                }
            },
            EvView::End { name: nm } => {
                if nm == open {
                    Ok((acc, i + 1))
                } else {
                    Err(unexpected(open.local))
                }
            },
            _ => Err(unexpected(open.local)),
        }
    }
}

/// What reading a whole `component` element yields: the `type` attribute is
/// required up front.
pub open spec fn p_component(
    evs: Seq<EvView>,
    i: int,
    open: EvNameView,
    attrs: Seq<(Seq<char>, Seq<char>)>,
    sig_ok: bool,
) -> Result<(ComponentView, int), ErrorView> {
    match spec_attr(attrs, "type"@) {
        None => Err(
            ErrorView::RequiredDataMissing { required_field: "type"@, element: "component"@ },
        ),
        Some(ct) => p_component_fields(
            evs,
            i,
            open,
            ct,
            spec_attr(attrs, "mime-type"@),
            spec_attr(attrs, "bom-ref"@),
            comp_acc_empty(),
            sig_ok,
        ),
    }
}

} // verus!

verus! {

/// Unfolds the component field parser at a position past the event list.
proof fn lemma_p_cf_oob(
    evs: Seq<EvView>,
    i: int,
    open: EvNameView,
    ctype: Seq<char>,
    mime_type: Option<Seq<char>>,
    bom_ref: Option<Seq<char>>,
    acc: CompAccView,
    sig_ok: bool,
)
    requires
        i >= evs.len(),
    ensures
        p_component_fields(evs, i, open, ctype, mime_type, bom_ref, acc, sig_ok) == Err::<
            (ComponentView, int),
            ErrorView,
        >(unexpected("component"@)),
{
    reveal(p_component_fields);
}

/// Unfolds the component field parser at an end tag.
proof fn lemma_p_cf_end(
    evs: Seq<EvView>,
    i: int,
    open: EvNameView,
    ctype: Seq<char>,
    mime_type: Option<Seq<char>>,
    bom_ref: Option<Seq<char>>,
    acc: CompAccView,
    sig_ok: bool,
    nm: EvNameView,
)
    requires
        0 <= i < evs.len(),
        evs[i] == (EvView::End { name: nm }),
    ensures
        p_component_fields(evs, i, open, ctype, mime_type, bom_ref, acc, sig_ok) == (if nm
            == open {
            if acc.name is None {
                Err::<(ComponentView, int), ErrorView>(
                    ErrorView::RequiredDataMissing {
                        required_field: "name"@,
                        element: "component"@,
                    },
                )
            } else if acc.version is None {
                Err(
                    ErrorView::RequiredDataMissing {
                        required_field: "version"@,
                        element: "component"@,
                    },
                )
            } else {
                Ok((comp_of_acc(ctype, mime_type, bom_ref, acc), i + 1))
            }
        } else {
            Err(unexpected("component"@))
        }),
{
    reveal(p_component_fields);
}

/// Unfolds the component field parser at a non-element event.
proof fn lemma_p_cf_other(
    evs: Seq<EvView>,
    i: int,
    open: EvNameView,
    ctype: Seq<char>,
    mime_type: Option<Seq<char>>,
    bom_ref: Option<Seq<char>>,
    acc: CompAccView,
    sig_ok: bool,
)
    requires
        0 <= i < evs.len(),
        !(evs[i] is Start),
        !(evs[i] is End),
    ensures
        p_component_fields(evs, i, open, ctype, mime_type, bom_ref, acc, sig_ok) == Err::<
            (ComponentView, int),
            ErrorView,
        >(unexpected("component"@)),
{
    reveal(p_component_fields);
}

/// Handles one recognized or unrecognized child of a `component`, advancing
/// the cursor and updating the collected fields.
#[verifier::rlimit(100)]
fn read_component_child(
    evs: &Vec<Ev>,
    cur: usize,
    nm: &EvName,
    cattrs: &Vec<(String, String)>,
    acc: &mut CompAcc,
    sig_ok: bool,
    Ghost(open): Ghost<EvNameView>,
    Ghost(ctype): Ghost<Seq<char>>,
    Ghost(mime_type): Ghost<Option<Seq<char>>>,
    Ghost(bom_ref): Ghost<Option<Seq<char>>>,
) -> (r: Result<usize, Error>)
    requires
        cur < evs@.len(),
        evs.deep_view()[cur as int] == (EvView::Start {
            name: nm.deep_view(),
            attrs: cattrs.deep_view(),
        }),
    ensures
        match r {
            Ok(j) => cur < j <= evs@.len() && p_component_fields(
                evs.deep_view(),
                cur as int,
                open,
                ctype,
                mime_type,
                bom_ref,
                old(acc).deep_view(),
                sig_ok,
            ) == p_component_fields(
                evs.deep_view(),
                j as int,
                open,
                ctype,
                mime_type,
                bom_ref,
                final(acc).deep_view(),
                sig_ok,
            ),
            Err(e) => p_component_fields(
                evs.deep_view(),
                cur as int,
                open,
                ctype,
                mime_type,
                bom_ref,
                old(acc).deep_view(),
                sig_ok,
            ) == Err::<(ComponentView, int), ErrorView>(e.deep_view()),
        },
    decreases evs@.len() - cur, 0int,
{
    proof {
        reveal(p_component_fields);
        reveal(p_components_items);
    }
    let n = evs.len();
    let is_text = local_is(nm, "author") || local_is(nm, "publisher") || local_is(nm, "group")
        || local_is(nm, "name") || local_is(nm, "version") || local_is(nm, "description")
        || local_is(nm, "scope") || local_is(nm, "copyright") || local_is(nm, "cpe")
        || local_is(nm, "purl");
    if is_text {
        match read_text_tag(evs, cur + 1, nm) {
            Ok((t, j)) => {
                if local_is(nm, "author") {
                    acc.author = Some(t);
                } else if local_is(nm, "publisher") {
                    acc.publisher = Some(t);
                } else if local_is(nm, "group") {
                    acc.group = Some(t);
                } else if local_is(nm, "name") {
                    acc.name = Some(t);
                } else if local_is(nm, "version") {
                    acc.version = Some(t);
                } else if local_is(nm, "description") {
                    acc.description = Some(t);
                } else if local_is(nm, "scope") {
                    acc.scope = Some(t);
                } else if local_is(nm, "copyright") {
                    acc.copyright = Some(t);
                } else if local_is(nm, "cpe") {
                    acc.cpe = Some(t);
                } else {
                    acc.purl = Some(t);
                }
                Ok(j)
            },
            Err(e) => Err(e),
        }
    } else if local_is(nm, "supplier") {
        match read_entity(evs, cur + 1, nm) {
            Ok((s, j)) => {
                acc.supplier = Some(s);
                Ok(j)
            },
            Err(e) => Err(e),
        }
    } else if local_is(nm, "hashes") {
        match read_list::<crate::model::Hash>(evs, cur + 1, nm, "hash", sig_ok) {
            Ok((s, j)) => {
                acc.hashes = Some(s);
                Ok(j)
            },
            Err(e) => Err(e),
        }
    } else if local_is(nm, "licenses") {
        match crate::xml_license::read_licenses(evs, cur + 1, nm) {
            Ok((l, j)) => {
                acc.licenses = Some(l);
                Ok(j)
            },
            Err(e) => Err(e),
        }
    } else if local_is(nm, "modified") {
        match read_text_tag(evs, cur + 1, nm) {
            Ok((t, j)) => match parse_bool(t.as_str()) {
                Some(b) => {
                    acc.modified = Some(b);
                    Ok(j)
                },
                None => Err(Error::ValueParse { field: "modified".to_owned(), text: t }),
            },
            Err(e) => Err(e),
        }
    } else if local_is(nm, "externalReferences") {
        match read_list::<crate::model::ExternalReference>(evs, cur + 1, nm, "reference", sig_ok) {
            Ok((s, j)) => {
                acc.external_references = Some(s);
                Ok(j)
            },
            Err(e) => Err(e),
        }
    } else if local_is(nm, "properties") {
        match read_list::<crate::model::Property>(evs, cur + 1, nm, "property", sig_ok) {
            Ok((s, j)) => {
                acc.properties = Some(s);
                Ok(j)
            },
            Err(e) => Err(e),
        }
    } else if local_is(nm, "components") {
        match read_components_items(evs, cur + 1, nm, sig_ok) {
            Ok((s, j)) => {
                proof {
                    crate::model::lemma_components_deep(s);
                }
                acc.components = Some(s);
                Ok(j)
            },
            Err(e) => Err(e),
        }
    } else if local_is(nm, "signature") && sig_ok {
        match read_signature(evs, cur + 1, nm) {
            Ok((s, j)) => {
                acc.signature = Some(s);
                Ok(j)
            },
            Err(e) => Err(e),
        }
    } else {
        match skip_element(evs, cur + 1, nm) {
            Ok(j) => Ok(j),
            Err(e) => Err(e),
        }
    }
}

/// Reads the children of a `component` element, its attributes already
/// taken apart, continuing from the fields collected so far.
#[verifier::rlimit(100)]
fn read_component_fields(
    evs: &Vec<Ev>,
    i: usize,
    open: &EvName,
    ctype: String,
    mime_type: Option<String>,
    bom_ref: Option<String>,
    acc: CompAcc,
    sig_ok: bool,
) -> (r: Result<(Component, usize), Error>)
    requires
        i <= evs@.len(),
    ensures
        pres(r) == p_component_fields(
            evs.deep_view(),
            i as int,
            open.deep_view(),
            ctype@,
            mime_type.deep_view(),
            bom_ref.deep_view(),
            acc.deep_view(),
            sig_ok,
        ),
        r matches Ok((_, j)) ==> i < j <= evs.len(),
    decreases evs@.len() - i, 1int,
{
    let ghost dv = evs.deep_view();
    let ghost accv = acc.deep_view();
    if i >= evs.len() {
        proof {
            lemma_p_cf_oob(dv, i as int, open.deep_view(), ctype@, mime_type.deep_view(),
            bom_ref.deep_view(), accv, sig_ok);
        }
        return Err(Error::UnexpectedElement { element: "component".to_owned() });
    }
    match &evs[i] {
        Ev::Start { name: nm, attrs: cattrs } => {
            proof {
                assert(evs.deep_view()[i as int] == evs@[i as int].deep_view());
            }
            let mut acc = acc;
            match read_component_child(
                evs,
                i,
                nm,
                cattrs,
                &mut acc,
                sig_ok,
                Ghost(open.deep_view()),
                Ghost(ctype@),
                Ghost(mime_type.deep_view()),
                Ghost(bom_ref.deep_view()),
            ) {
                Ok(j) => read_component_fields(evs, j, open, ctype, mime_type, bom_ref, acc,
                sig_ok),
                Err(e) => Err(e),
            }
        },
        Ev::End { name: nm } => {
            proof {
                assert(evs.deep_view()[i as int] == evs@[i as int].deep_view());
                lemma_p_cf_end(dv, i as int, open.deep_view(), ctype@, mime_type.deep_view(),
                bom_ref.deep_view(), accv, sig_ok, nm.deep_view());
            }
            if evname_eq(nm, open) {
                if acc.name.is_none() {
                    return Err(
                        Error::RequiredDataMissing {
                            required_field: "name".to_owned(),
                            element: "component".to_owned(),
                        },
                    );
                }
                if acc.version.is_none() {
                    return Err(
                        Error::RequiredDataMissing {
                            required_field: "version".to_owned(),
                            element: "component".to_owned(),
                        },
                    );
                }
                let nmv = match acc.name {
                    Some(n) => n,
                    None => {
                        return Err(Error::UnexpectedElement { element: "component".to_owned() });
                    },
                };
                let ver = match acc.version {
                    Some(v) => v,
                    None => {
                        return Err(Error::UnexpectedElement { element: "component".to_owned() });
                    },
                };
                Ok(
                    (
                        Component {
                            component_type: ctype,
                            mime_type,
                            bom_ref,
                            supplier: acc.supplier,
                            author: acc.author,
                            publisher: acc.publisher,
                            group: acc.group,
                            name: nmv,
                            version: ver,
                            description: acc.description,
                            scope: acc.scope,
                            hashes: acc.hashes,
                            licenses: acc.licenses,
                            copyright: acc.copyright,
                            cpe: acc.cpe,
                            purl: acc.purl,
                            modified: acc.modified,
                            external_references: acc.external_references,
                            properties: acc.properties,
                            components: acc.components,
                            signature: acc.signature,
                        },
                        i + 1,
                    ),
                )
            } else {
                Err(Error::UnexpectedElement { element: "component".to_owned() })
            }
        },
        _ => {
            proof {
                assert(evs.deep_view()[i as int] == evs@[i as int].deep_view());
                lemma_p_cf_other(dv, i as int, open.deep_view(), ctype@, mime_type.deep_view(),
                bom_ref.deep_view(), accv, sig_ok);
            }
            Err(Error::UnexpectedElement { element: "component".to_owned() })
        },
    }
}




/// Reads the children of a `components` container whose start event is
/// already consumed, continuing after the components collected so far.
#[verifier::rlimit(100)]
fn read_components_rest(
    evs: &Vec<Ev>,
    i: usize,
    open: &EvName,
    items: Vec<Component>,
    sig_ok: bool,
) -> (r: Result<(Vec<Component>, usize), Error>)
    requires
        i <= evs@.len(),
    ensures
        pres(r) == p_components_items(
            evs.deep_view(),
            i as int,
            open.deep_view(),
            items.deep_view(),
            sig_ok,
        ),
        r matches Ok((_, j)) ==> i < j <= evs.len(),
    decreases evs@.len() - i, 2int,
{
    proof {
        reveal(p_components_items);
        reveal(p_component_fields);
    }
    let ghost dv = evs.deep_view();
    let ghost accv = items.deep_view();
    proof {
        assert(dv.len() == evs@.len());
    }
    if i >= evs.len() {
        return Err(Error::UnexpectedElement { element: open.local.clone() });
    }
    match &evs[i] {
        Ev::Start { name: nm, attrs: cattrs } => {
            proof {
                assert(evs.deep_view()[i as int] == evs@[i as int].deep_view());
            }
            if !local_is(nm, "component") {
                return match skip_element(evs, i + 1, nm) {
                    Ok(j) => read_components_rest(evs, j, open, items, sig_ok),
                    Err(e) => Err(e),
                };
            }
            let ctype = match find_req_attr(cattrs, "type", "component") {
                Ok(v) => v,
                Err(e) => {
                    return Err(e);
                },
            };
            let mime_type: Option<String> = match crate::xml_base::find_attr(cattrs, "mime-type") {
                Some(v) => Some(v.clone()),
                None => None,
            };
            let bom_ref: Option<String> = match crate::xml_base::find_attr(cattrs, "bom-ref") {
                Some(v) => Some(v.clone()),
                None => None,
            };
            let empty = CompAcc {
                supplier: None,
                author: None,
                publisher: None,
                group: None,
                name: None,
                version: None,
                description: None,
                scope: None,
                hashes: None,
                licenses: None,
                copyright: None,
                cpe: None,
                purl: None,
                modified: None,
                external_references: None,
                properties: None,
                components: None,
                signature: None,
            };
            proof {
                assert(empty.deep_view() == comp_acc_empty());
            }
            match read_component_fields(evs, i + 1, nm, ctype, mime_type, bom_ref, empty,
            sig_ok) {
                Ok((c, j)) => {
                    let ghost pre = items.deep_view();
                    let mut items = items;
                    items.push(c);
                    proof {
                        assert(items.deep_view() =~= pre.push(
                            items@[pre.len() as int].deep_view(),
                        ));
                    }
                    read_components_rest(evs, j, open, items, sig_ok)
                },
                Err(e) => Err(e),
            }
        },
        Ev::End { name: nm } => {
            proof {
                assert(evs.deep_view()[i as int] == evs@[i as int].deep_view());
            }
            if evname_eq(nm, open) {
                proof {
                    assert(p_components_items(dv, i as int, open.deep_view(), accv, sig_ok)
                        == Ok::<(Seq<ComponentView>, int), ErrorView>((accv, i + 1)));
                }
                Ok((items, i + 1))
            } else {
                Err(Error::UnexpectedElement { element: open.local.clone() })
            }
        },
        _ => {
            proof {
                assert(evs.deep_view()[i as int] == evs@[i as int].deep_view());
            }
            Err(Error::UnexpectedElement { element: open.local.clone() })
        },
    }
}

/// Reads a `components` container whose start event is already consumed.
pub fn read_components_items(
    evs: &Vec<Ev>,
    i: usize,
    open: &EvName,
    sig_ok: bool,
) -> (r: Result<(Vec<Component>, usize), Error>)
    requires
        i <= evs@.len(),
    ensures
        pres(r) == p_components_items(
            evs.deep_view(),
            i as int,
            open.deep_view(),
            Seq::empty(),
            sig_ok,
        ),
        r matches Ok((_, j)) ==> i < j <= evs.len(),
    decreases evs@.len() - i, 3int,
{
    let items: Vec<Component> = Vec::new();
    proof {
        assert(items.deep_view() =~= Seq::<ComponentView>::empty());
    }
    read_components_rest(evs, i, open, items, sig_ok)
}

/// Reads a `component` element whose start event is already consumed: the
/// `type` attribute is required up front.
pub fn read_component(
    evs: &Vec<Ev>,
    i: usize,
    open: &EvName,
    attrs: &Vec<(String, String)>,
    sig_ok: bool,
) -> (r: Result<(Component, usize), Error>)
    requires
        i <= evs@.len(),
    ensures
        pres(r) == p_component(
            evs.deep_view(),
            i as int,
            open.deep_view(),
            attrs.deep_view(),
            sig_ok,
        ),
        r matches Ok((_, j)) ==> i < j <= evs.len(),
    decreases evs@.len() - i, 2int,
{
    let ctype = match find_req_attr(attrs, "type", "component") {
        Ok(v) => v,
        Err(e) => {
            return Err(e);
        },
    };
    let mime_type: Option<String> = match crate::xml_base::find_attr(attrs, "mime-type") {
        Some(v) => Some(v.clone()),
        None => None,
    };
    let bom_ref: Option<String> = match crate::xml_base::find_attr(attrs, "bom-ref") {
        Some(v) => Some(v.clone()),
        None => None,
    };
    let acc = CompAcc {
        supplier: None,
        author: None,
        publisher: None,
        group: None,
        name: None,
        version: None,
        description: None,
        scope: None,
        hashes: None,
        licenses: None,
        copyright: None,
        cpe: None,
        purl: None,
        modified: None,
        external_references: None,
        properties: None,
        components: None,
        signature: None,
    };
    proof {
        assert(acc.deep_view() == comp_acc_empty());
    }
    read_component_fields(evs, i, open, ctype, mime_type, bom_ref, acc, sig_ok)
}

} // verus!
