//! The document driver for XML: reads and writes a whole `bom` document.
//!
//! Reading validates the envelope — the document start token, the root
//! element's namespace against the requested version, the `serialNumber`
//! and `version` attributes (an absent `version` defaults to 1; an absent
//! `serialNumber` stays absent) — then dispatches the section elements,
//! lax-skipping unrecognized ones, and finally requires the end of the
//! document.  Writing emits the root in the version's namespace and the
//! present sections in schema order; a model whose vulnerability section is
//! populated, or that carries an enveloped signature anywhere, is rejected
//! for versions that predate those features rather than silently thinned.

use vstd::prelude::*;

use crate::errors::{Error, ErrorView};
use crate::model::{
    Bom, BomView, Component, ComponentView, Composition, CompositionView, Dependency,
    DependencyView, ExternalReference, ExternalReferenceView, Metadata, MetadataView, Property,
    PropertyView, Service, ServiceView, Signature, SignatureView, SpecVersion, Vulnerability,
    VulnerabilityView,
};
use crate::scalars::{parse_u32, parse_u32_spec, u32_dec_str, u32_to_string};
use crate::xml_base::{
    evname_eq, ex, find_attr, local_is, p_skip, pres, push_attr, push_end, push_ev, push_start,
    skip_element, spec_attr, sx, sxa, unexpected, w_opt_text_tag,
};
use crate::xml_comp::{
    p_components_items, push_components_list, read_components_items, w_components_list,
};
use crate::xml_meta::{p_metadata_fields, push_metadata, read_metadata, w_metadata};
use crate::xml_service::{
    p_services_items, push_services_list, read_services_items, w_services_list,
};
use crate::xml_io::{Ev, EvName, EvNameView, EvView};
use crate::xml_license::opt_attr;
use crate::xml_list::{p_list, push_children, read_list, w_wrapped, ChildRead};
use crate::xml_simple::{p_signature_fields, push_signature, read_signature, w_signature};
use crate::xml_structs::{push_vulnerability, w_vulnerability};

verus! {

/// The sections of a `bom` collected while its children are read.
pub struct BomAcc {
    pub metadata: Option<Metadata>,
    pub components: Option<Vec<Component>>,
    pub services: Option<Vec<Service>>,
    pub external_references: Option<Vec<ExternalReference>>,
    pub dependencies: Option<Vec<Dependency>>,
    pub compositions: Option<Vec<Composition>>,
    pub properties: Option<Vec<Property>>,
    pub vulnerabilities: Option<Vec<Vulnerability>>,
    pub signature: Option<Signature>,
}

pub struct BomAccView {
    pub metadata: Option<MetadataView>,
    pub components: Option<Seq<ComponentView>>,
    pub services: Option<Seq<ServiceView>>,
    pub external_references: Option<Seq<ExternalReferenceView>>,
    pub dependencies: Option<Seq<DependencyView>>,
    pub compositions: Option<Seq<CompositionView>>,
    pub properties: Option<Seq<PropertyView>>,
    pub vulnerabilities: Option<Seq<VulnerabilityView>>,
    pub signature: Option<SignatureView>,
}

impl DeepView for BomAcc {
    type V = BomAccView;

    open spec fn deep_view(&self) -> BomAccView {
        BomAccView {
            metadata: self.metadata.deep_view(),
            components: match &self.components {
                Some(v) => Some(crate::model::components_view(v@)),
                None => None,
            },
            services: match &self.services {
                Some(v) => Some(crate::model::services_view(v@)),
                None => None,
            },
            external_references: self.external_references.deep_view(),
            dependencies: self.dependencies.deep_view(),
            compositions: self.compositions.deep_view(),
            properties: self.properties.deep_view(),
            vulnerabilities: self.vulnerabilities.deep_view(),
            signature: self.signature.deep_view(),
        }
    }
}

/// The empty section accumulator.
pub open spec fn bom_acc_empty() -> BomAccView {
    BomAccView {
        metadata: None,
        components: None,
        services: None,
        external_references: None,
        dependencies: None,
        compositions: None,
        properties: None,
        vulnerabilities: None,
        signature: None,
    }
}

/// The model a finished read denotes.
pub open spec fn bom_of_acc(
    version: u32,
    serial_number: Option<Seq<char>>,
    acc: BomAccView,
) -> BomView {
    BomView {
        version,
        serial_number,
        metadata: acc.metadata,
        components: acc.components,
        services: acc.services,
        external_references: acc.external_references,
        dependencies: acc.dependencies,
        compositions: acc.compositions,
        properties: acc.properties,
        vulnerabilities: acc.vulnerabilities,
        signature: acc.signature,
    }
}

/// What reading the children of the `bom` root yields, given the root
/// attributes already decoded.  Sections the version does not carry
/// (`vulnerabilities` and `signature` below 1.4) and unrecognized elements
/// are lax-skipped.  After the root's end tag the end of the document is
/// required.
pub open spec fn p_bom_children(
    evs: Seq<EvView>,
    i: int,
    open: EvNameView,
    version: u32,
    serial_number: Option<Seq<char>>,
    acc: BomAccView,
    sig_ok: bool,
) -> Result<BomView, ErrorView>
    decreases evs.len() - i,
{
    if i < 0 || i >= evs.len() {
        Err(unexpected("bom"@))
    } else {
        match evs[i] {
            EvView::Start { name: nm, attrs } => {
                if nm.local == "metadata"@ {
                    match p_metadata_fields(evs, i + 1, nm, None, None, None, None, None, None,
                    None, None, sig_ok) {
                        Ok((m, j)) => {
                            if i < j <= evs.len() {
                                p_bom_children(evs, j, open, version, serial_number, BomAccView {
                                    metadata: Some(m),
                                    ..acc
                                }, sig_ok)
                            } else {
                                Err(unexpected("bom"@))
                            }
                        },
                        Err(e) => Err(e),
                    }
                } else if nm.local == "components"@ {
                    match p_components_items(evs, i + 1, nm, Seq::empty(), sig_ok) {
                        Ok((s, j)) => {
                            if i < j <= evs.len() {
                                p_bom_children(evs, j, open, version, serial_number, BomAccView {
                                    components: Some(s),
                                    ..acc
                                }, sig_ok)
                            } else {
                                Err(unexpected("bom"@))
                            }
                        },
                        Err(e) => Err(e),
                    }
                } else if nm.local == "services"@ {
                    match p_services_items(evs, i + 1, nm, Seq::empty(), sig_ok) {
                        Ok((s, j)) => {
                            if i < j <= evs.len() {
                                p_bom_children(evs, j, open, version, serial_number, BomAccView {
                                    services: Some(s),
                                    ..acc
                                }, sig_ok)
                            } else {
                                Err(unexpected("bom"@))
                            }
                        },
                        Err(e) => Err(e),
                    }
                } else if nm.local == "externalReferences"@ {
                    match p_list::<ExternalReference>(evs, i + 1, nm, "reference"@, Seq::empty(),
                    sig_ok) {
                        Ok((s, j)) => {
                            if i < j <= evs.len() {
                                p_bom_children(evs, j, open, version, serial_number, BomAccView {
                                    external_references: Some(s),
                                    ..acc
                                }, sig_ok)
                            } else {
                                Err(unexpected("bom"@))
                            }
                        },
                        Err(e) => Err(e),
                    }
                } else if nm.local == "dependencies"@ {
                    match p_list::<Dependency>(evs, i + 1, nm, "dependency"@, Seq::empty(),
                    sig_ok) {
                        Ok((s, j)) => {
                            if i < j <= evs.len() {
                                p_bom_children(evs, j, open, version, serial_number, BomAccView {
                                    dependencies: Some(s),
                                    ..acc
                                }, sig_ok)
                            } else {
                                Err(unexpected("bom"@))
                            }
                        },
                        Err(e) => Err(e),
                    }
                } else if nm.local == "compositions"@ {
                    match p_list::<Composition>(evs, i + 1, nm, "composition"@, Seq::empty(),
                    sig_ok) {
                        Ok((s, j)) => {
                            if i < j <= evs.len() {
                                p_bom_children(evs, j, open, version, serial_number, BomAccView {
                                    compositions: Some(s),
                                    ..acc
                                }, sig_ok)
                            } else {
                                Err(unexpected("bom"@))
                            }
                        },
                        Err(e) => Err(e),
                    }
                } else if nm.local == "properties"@ {
                    match p_list::<Property>(evs, i + 1, nm, "property"@, Seq::empty(), sig_ok) {
                        Ok((s, j)) => {
                            if i < j <= evs.len() {
                                p_bom_children(evs, j, open, version, serial_number, BomAccView {
                                    properties: Some(s),
                                    ..acc
                                }, sig_ok)
                            } else {
                                Err(unexpected("bom"@))
                            }
                        },
                        Err(e) => Err(e),
                    }
                } else if nm.local == "vulnerabilities"@ && sig_ok {
                    match p_list::<Vulnerability>(evs, i + 1, nm, "vulnerability"@, Seq::empty(),
                    sig_ok) {
                        Ok((s, j)) => {
                            if i < j <= evs.len() {
                                p_bom_children(evs, j, open, version, serial_number, BomAccView {
                                    vulnerabilities: Some(s),
                                    ..acc
                                }, sig_ok)
                            } else {
                                Err(unexpected("bom"@))
                            }
                        },
                        Err(e) => Err(e),
                    }
                } else if nm.local == "signature"@ && sig_ok {
                    match p_signature_fields(evs, i + 1, nm, None, None) {
                        Ok((s, j)) => {
                            if i < j <= evs.len() {
                                p_bom_children(evs, j, open, version, serial_number, BomAccView {
                                    signature: Some(s),
                                    ..acc
                                }, sig_ok)
                            } else {
                                Err(unexpected("bom"@))
                            }
                        },
                        Err(e) => Err(e),
                    }
                } else {
                    match p_skip(evs, i + 1, seq![nm]) {
                        Ok(j) => {
                            if i < j <= evs.len() {
                                p_bom_children(evs, j, open, version, serial_number, acc, sig_ok)
                            } else {
                                Err(unexpected("bom"@))
                            }
                        },
                        Err(e) => Err(e),
                    }
                }
            },
            EvView::End { name: nm } => {
                if nm == open {
                    if i + 1 < evs.len() && evs[i + 1] is DocEnd {
                        Ok(bom_of_acc(version, serial_number, acc))
                    } else {
                        Err(unexpected("bom"@))
                    }
                } else {
                    Err(unexpected("bom"@))
                }
            },
            _ => Err(unexpected("bom"@)),
        }
    }
}

/// What reading a whole document yields for a version: the start-of-document
/// token, the `bom` root in the version's namespace, the root attributes,
/// the children, the end of the document.
pub open spec fn p_bom_document(evs: Seq<EvView>, version: SpecVersion) -> Result<
    BomView,
    ErrorView,
> {
    if evs.len() < 2 {
        Err(unexpected("bom"@))
    } else if !(evs[0] is DocStart) {
        Err(unexpected("bom"@))
    } else {
        match evs[1] {
            EvView::Start { name, attrs } => {
                if name.local != "bom"@ {
                    Err(unexpected("bom"@))
                } else if name.ns != Some(version.spec_namespace()) {
                    Err(
                        ErrorView::InvalidNamespace {
                            expected: version.spec_namespace(),
                            actual: match name.ns {
                                Some(n) => n,
                                None => Seq::empty(),
                            },
                        },
                    )
                } else {
                    let ver = match spec_attr(attrs, "version"@) {
                        Some(t) => match parse_u32_spec(t) {
                            Some(n) => Ok(n),
                            None => Err(ErrorView::ValueParse { field: "version"@, text: t }),
                        },
                        None => Ok(1u32),
                    };
                    match ver {
                        Ok(n) => p_bom_children(
                            evs,
                            2,
                            name,
                            n,
                            spec_attr(attrs, "serialNumber"@),
                            bom_acc_empty(),
                            version.spec_supports_signed_extensions(),
                        ),
                        Err(e) => Err(e),
                    }
                }
            },
            _ => Err(unexpected("bom"@)),
        }
    }
}

/// Reads the children of the `bom` root, continuing from the sections
/// collected so far.
#[verifier::rlimit(100)]
fn read_bom_children(
    evs: &Vec<Ev>,
    i: usize,
    open: &EvName,
    version: u32,
    serial_number: Option<String>,
    acc: BomAcc,
    sig_ok: bool,
) -> (r: Result<Bom, Error>)
    requires
        i <= evs@.len(),
    ensures
        (match r {
            Ok(b) => Ok(b.deep_view()),
            Err(e) => Err::<BomView, ErrorView>(e.deep_view()),
        }) == p_bom_children(
            evs.deep_view(),
            i as int,
            open.deep_view(),
            version,
            serial_number.deep_view(),
            acc.deep_view(),
            sig_ok,
        ),
    decreases evs@.len() - i,
{
    let ghost dv = evs.deep_view();
    let ghost accv = acc.deep_view();
    if i >= evs.len() {
        return Err(Error::UnexpectedElement { element: "bom".to_owned() });
    }
    match &evs[i] {
        Ev::Start { name: nm, attrs: cattrs } => {
            proof {
                assert(evs.deep_view()[i as int] == evs@[i as int].deep_view());
            }
            let mut acc = acc;
            if local_is(nm, "metadata") {
                match read_metadata(evs, i + 1, nm, sig_ok) {
                    Ok((m, j)) => {
                        acc.metadata = Some(m);
                        read_bom_children(evs, j, open, version, serial_number, acc, sig_ok)
                    },
                    Err(e) => Err(e),
                }
            } else if local_is(nm, "components") {
                match read_components_items(evs, i + 1, nm, sig_ok) {
                    Ok((s, j)) => {
                        proof {
                            crate::model::lemma_components_deep(s);
                        }
                        acc.components = Some(s);
                        read_bom_children(evs, j, open, version, serial_number, acc, sig_ok)
                    },
                    Err(e) => Err(e),
                }
            } else if local_is(nm, "services") {
                match read_services_items(evs, i + 1, nm, sig_ok) {
                    Ok((s, j)) => {
                        proof {
                            crate::model::lemma_services_deep(s);
                        }
                        acc.services = Some(s);
                        read_bom_children(evs, j, open, version, serial_number, acc, sig_ok)
                    },
                    Err(e) => Err(e),
                }
            } else if local_is(nm, "externalReferences") {
                match read_list::<ExternalReference>(evs, i + 1, nm, "reference", sig_ok) {
                    Ok((s, j)) => {
                        acc.external_references = Some(s);
                        read_bom_children(evs, j, open, version, serial_number, acc, sig_ok)
                    },
                    Err(e) => Err(e),
                }
            } else if local_is(nm, "dependencies") {
                match read_list::<Dependency>(evs, i + 1, nm, "dependency", sig_ok) {
                    Ok((s, j)) => {
                        acc.dependencies = Some(s);
                        read_bom_children(evs, j, open, version, serial_number, acc, sig_ok)
                    },
                    Err(e) => Err(e),
                }
            } else if local_is(nm, "compositions") {
                match read_list::<Composition>(evs, i + 1, nm, "composition", sig_ok) {
                    Ok((s, j)) => {
                        acc.compositions = Some(s);
                        read_bom_children(evs, j, open, version, serial_number, acc, sig_ok)
                    },
                    Err(e) => Err(e),
                }
            } else if local_is(nm, "properties") {
                match read_list::<Property>(evs, i + 1, nm, "property", sig_ok) {
                    Ok((s, j)) => {
                        acc.properties = Some(s);
                        read_bom_children(evs, j, open, version, serial_number, acc, sig_ok)
                    },
                    Err(e) => Err(e),
                }
            } else if local_is(nm, "vulnerabilities") && sig_ok {
                match read_list::<Vulnerability>(evs, i + 1, nm, "vulnerability", sig_ok) {
                    Ok((s, j)) => {
                        acc.vulnerabilities = Some(s);
                        read_bom_children(evs, j, open, version, serial_number, acc, sig_ok)
                    },
                    Err(e) => Err(e),
                }
            } else if local_is(nm, "signature") && sig_ok {
                match read_signature(evs, i + 1, nm) {
                    Ok((s, j)) => {
                        acc.signature = Some(s);
                        read_bom_children(evs, j, open, version, serial_number, acc, sig_ok)
                    },
                    Err(e) => Err(e),
                }
            } else {
                match skip_element(evs, i + 1, nm) {
                    Ok(j) => read_bom_children(evs, j, open, version, serial_number, acc, sig_ok),
                    Err(e) => Err(e),
                }
            }
        },
        Ev::End { name: nm } => {
            proof {
                assert(evs.deep_view()[i as int] == evs@[i as int].deep_view());
            }
            if evname_eq(nm, open) {
                let at_doc_end = i + 1 < evs.len() && match &evs[i + 1] {
                    Ev::DocEnd => true,
                    _ => false,
                };
                proof {
                    if i + 1 < evs@.len() {
                        assert(evs.deep_view()[i + 1] == evs@[i + 1].deep_view());
                    }
                }
                if at_doc_end {
                    proof {
                        if acc.components is Some {
                            crate::model::lemma_components_deep(acc.components->0);
                        }
                        if acc.services is Some {
                            crate::model::lemma_services_deep(acc.services->0);
                        }
                    }
                    Ok(
                        Bom {
                            version,
                            serial_number,
                            metadata: acc.metadata,
                            components: acc.components,
                            services: acc.services,
                            external_references: acc.external_references,
                            dependencies: acc.dependencies,
                            compositions: acc.compositions,
                            properties: acc.properties,
                            vulnerabilities: acc.vulnerabilities,
                            signature: acc.signature,
                        },
                    )
                } else {
                    Err(Error::UnexpectedElement { element: "bom".to_owned() })
                }
            } else {
                Err(Error::UnexpectedElement { element: "bom".to_owned() })
            }
        },
        _ => {
            proof {
                assert(evs.deep_view()[i as int] == evs@[i as int].deep_view());
            }
            Err(Error::UnexpectedElement { element: "bom".to_owned() })
        },
    }
}

/// Reads a whole `bom` document from its event sequence.
pub fn read_bom_document(evs: &Vec<Ev>, version: SpecVersion) -> (r: Result<Bom, Error>)
    ensures
        (match r {
            Ok(b) => Ok(b.deep_view()),
            Err(e) => Err::<BomView, ErrorView>(e.deep_view()),
        }) == p_bom_document(evs.deep_view(), version),
{
    let ghost dv = evs.deep_view();
    if evs.len() < 2 {
        return Err(Error::UnexpectedElement { element: "bom".to_owned() });
    }
    let ok0 = match &evs[0] {
        Ev::DocStart => true,
        _ => false,
    };
    proof {
        assert(evs.deep_view()[0] == evs@[0].deep_view());
        assert(evs.deep_view()[1] == evs@[1].deep_view());
    }
    if !ok0 {
        return Err(Error::UnexpectedElement { element: "bom".to_owned() });
    }
    match &evs[1] {
        Ev::Start { name, attrs } => {
            if !local_is(name, "bom") {
                return Err(Error::UnexpectedElement { element: "bom".to_owned() });
            }
            let ns_ok = match &name.ns {
                Some(n) => crate::scalars::string_eq(n, version.namespace()),
                None => false,
            };
            if !ns_ok {
                let actual = match &name.ns {
                    Some(n) => n.clone(),
                    None => String::new(),
                };
                return Err(
                    Error::InvalidNamespace { expected: version.namespace().to_owned(), actual },
                );
            }
            let ver: u32 = match find_attr(attrs, "version") {
                Some(t) => match parse_u32(t.as_str()) {
                    Some(n) => n,
                    None => {
                        return Err(
                            Error::ValueParse { field: "version".to_owned(), text: t.clone() },
                        );
                    },
                },
                None => 1,
            };
            let serial_number: Option<String> = match find_attr(attrs, "serialNumber") {
                Some(v) => Some(v.clone()),
                None => None,
            };
            let acc = BomAcc {
                metadata: None,
                components: None,
                services: None,
                external_references: None,
                dependencies: None,
                compositions: None,
                properties: None,
                vulnerabilities: None,
                signature: None,
            };
            proof {
                assert(acc.deep_view() == bom_acc_empty());
            }
            read_bom_children(
                evs,
                2,
                name,
                ver,
                serial_number,
                acc,
                version.supports_signed_extensions(),
            )
        },
        _ => Err(Error::UnexpectedElement { element: "bom".to_owned() }),
    }
}

} // verus!

verus! {

/// The root attributes of a `bom` document: `serialNumber` where present,
/// then the format version counter in decimal.
pub open spec fn bom_attrs(b: BomView) -> Seq<(Seq<char>, Seq<char>)> {
    opt_attr("serialNumber"@, b.serial_number) + seq![("version"@, u32_dec_str(b.version as int))]
}

/// The root start event: a `bom` element in the version's namespace.
pub open spec fn bom_root(b: BomView, version: SpecVersion) -> EvView {
    EvView::Start {
        name: EvNameView { ns: Some(version.spec_namespace()), local: "bom"@ },
        attrs: bom_attrs(b),
    }
}

/// The first sections of a `bom` document: metadata, components, services.
pub open spec fn w_bom_head(b: BomView) -> Seq<EvView> {
    (match b.metadata {
        Some(m) => w_metadata(m),
        None => Seq::empty(),
    }) + (match b.components {
        Some(s) => seq![sx("components"@)] + w_components_list(s) + seq![ex("components"@)],
        None => Seq::empty(),
    }) + (match b.services {
        Some(s) => seq![sx("services"@)] + w_services_list(s) + seq![ex("services"@)],
        None => Seq::empty(),
    })
}

/// The remaining sections of a `bom` document, in schema order.
pub open spec fn w_bom_tail(b: BomView) -> Seq<EvView> {
    crate::xml_list::w_opt_wrapped("externalReferences"@, "reference"@, b.external_references)
        + crate::xml_list::w_opt_wrapped("dependencies"@, "dependency"@, b.dependencies)
        + crate::xml_list::w_opt_wrapped("compositions"@, "composition"@, b.compositions)
        + crate::xml_list::w_opt_wrapped("properties"@, "property"@, b.properties)
        + crate::xml_list::w_opt_wrapped("vulnerabilities"@, "vulnerability"@, b.vulnerabilities)
        + (match b.signature {
        Some(s) => w_signature(s),
        None => Seq::empty(),
    })
}

/// The events of a whole `bom` document for a version: the root element in
/// the version's namespace with its attributes, the present sections in
/// schema order (absent sections emit nothing), and the end of the root.
pub open spec fn w_bom(b: BomView, version: SpecVersion) -> Seq<EvView> {
    seq![bom_root(b, version)] + w_bom_head(b) + w_bom_tail(b) + seq![
        EvView::End { name: EvNameView { ns: Some(version.spec_namespace()), local: "bom"@ } },
    ]
}

/// Writes the first sections of a `bom` document.
#[verifier::rlimit(100)]
fn push_bom_head(out: &mut Vec<Ev>, b: &Bom)
    ensures
        final(out).deep_view() == old(out).deep_view() + w_bom_head(b.deep_view()),
{
    if let Some(m) = &b.metadata {
        push_metadata(out, m);
    }
    if let Some(s) = &b.components {
        push_start(out, "components");
        push_components_list(out, s);
        push_end(out, "components");
    }
    if let Some(s) = &b.services {
        push_start(out, "services");
        push_services_list(out, s);
        push_end(out, "services");
    }
    proof {
        if b.components is Some {
            crate::model::lemma_components_deep(b.components->0);
        }
        if b.services is Some {
            crate::model::lemma_services_deep(b.services->0);
        }
        assert(final(out).deep_view() =~= old(out).deep_view() + w_bom_head(b.deep_view()));
    }
}

/// Writes the remaining sections of a `bom` document.
#[verifier::rlimit(100)]
fn push_bom_tail(out: &mut Vec<Ev>, b: &Bom)
    ensures
        final(out).deep_view() == old(out).deep_view() + w_bom_tail(b.deep_view()),
{
    crate::xml_list::push_opt_wrapped(out, "externalReferences", "reference",
    &b.external_references);
    crate::xml_list::push_opt_wrapped(out, "dependencies", "dependency", &b.dependencies);
    crate::xml_list::push_opt_wrapped(out, "compositions", "composition", &b.compositions);
    crate::xml_list::push_opt_wrapped(out, "properties", "property", &b.properties);
    crate::xml_list::push_opt_wrapped(out, "vulnerabilities", "vulnerability",
    &b.vulnerabilities);
    if let Some(s) = &b.signature {
        push_signature(out, s);
    }
    proof {
        assert(final(out).deep_view() =~= old(out).deep_view() + w_bom_tail(b.deep_view()));
    }
}

/// Writes a whole `bom` document as an event sequence.
pub fn push_bom(out: &mut Vec<Ev>, b: &Bom, version: SpecVersion)
    ensures
        final(out).deep_view() == old(out).deep_view() + w_bom(b.deep_view(), version),
{
    let mut attrs: Vec<(String, String)> = Vec::new();
    if let Some(sn) = &b.serial_number {
        push_attr(&mut attrs, "serialNumber", sn);
    }
    let vtext = u32_to_string(b.version);
    push_attr(&mut attrs, "version", &vtext);
    proof {
        assert(attrs.deep_view() =~= bom_attrs(b.deep_view()));
    }
    let root = Ev::Start {
        name: EvName { ns: Some(version.namespace().to_owned()), local: "bom".to_owned() },
        attrs,
    };
    proof {
        assert(root.deep_view() == bom_root(b.deep_view(), version));
    }
    push_ev(out, root);
    push_bom_head(out, b);
    push_bom_tail(out, b);
    push_ev(
        out,
        Ev::End {
            name: EvName { ns: Some(version.namespace().to_owned()), local: "bom".to_owned() },
        },
    );
    proof {
        assert(final(out).deep_view() =~= old(out).deep_view() + w_bom(b.deep_view(), version));
    }
}

} // verus!
