//! XML codec for services, including recursive sub-services.

use vstd::prelude::*;

use crate::errors::{Error, ErrorView};
use crate::model::{
    DataClassification, DataClassificationView, ExternalReference, ExternalReferenceView,
    LicensesView, PropertyView, Service, ServiceView, SignatureView,
};
use crate::scalars::{parse_bool, parse_bool_spec};
use crate::xml_base::{
    evname_eq, ex, local_is, p_skip, p_text_tag, pres, push_attr, push_end, push_opt_bool_tag,
    push_opt_text_tag, push_start, push_start_attrs, push_text_tag, read_text_tag, skip_element,
    spec_attr, sx, sxa, unexpected, w_opt_bool_tag, w_opt_text_tag, w_text_list, w_text_tag,
    ChildWrite,
};
use crate::xml_io::{Ev, EvName, EvNameView, EvView};
use crate::xml_license::{opt_attr, p_licenses, push_licenses, w_licenses};
use crate::xml_list::{
    p_list, p_text_items, push_opt_text_items, push_opt_wrapped, read_list, read_text_items,
    w_opt_text_items, w_opt_wrapped,
};
use crate::xml_org::{p_entity_fields, push_entity, read_entity, w_entity};
use crate::xml_simple::{p_signature_fields, push_signature, read_signature, w_signature};

verus! {

/// The identifying children of a service: provider through description.
pub open spec fn w_svc_head(s: ServiceView) -> Seq<EvView> {
    (match s.provider {
        Some(e) => w_entity("provider"@, e),
        None => Seq::empty(),
    }) + w_opt_text_tag("group"@, s.group) + w_text_tag("name"@, s.name) + w_opt_text_tag(
        "version"@,
        s.version,
    ) + w_opt_text_tag("description"@, s.description)
}

/// The middle children of a service: endpoints through licenses.
pub open spec fn w_svc_mid(s: ServiceView) -> Seq<EvView> {
    w_opt_text_items("endpoints"@, "endpoint"@, s.endpoints) + w_opt_bool_tag(
        "authenticated"@,
        s.authenticated,
    ) + w_opt_bool_tag("x-trust-boundary"@, s.x_trust_boundary) + w_opt_wrapped(
        "data"@,
        "classification"@,
        s.data,
    ) + (match s.licenses {
        Some(l) => w_licenses(l),
        None => Seq::empty(),
    })
}

/// The closing children of a service: external references, properties,
/// sub-services and signature.
pub open spec fn w_svc_tail(s: ServiceView) -> Seq<EvView>
    decreases s, 0int,
{
    w_opt_wrapped("externalReferences"@, "reference"@, s.external_references) + w_opt_wrapped(
        "properties"@,
        "property"@,
        s.properties,
    ) + (match s.services {
        Some(subs) => seq![sx("services"@)] + w_services_list(subs) + seq![ex("services"@)],
        None => Seq::empty(),
    }) + (match s.signature {
        Some(sg) => w_signature(sg),
        None => Seq::empty(),
    })
}

/// The events of a `service` element, sub-services included.
pub open spec fn w_service(s: ServiceView) -> Seq<EvView>
    decreases s, 1int,
{
    seq![sxa("service"@, opt_attr("bom-ref"@, s.bom_ref))] + w_svc_head(s) + w_svc_mid(s)
        + w_svc_tail(s) + seq![ex("service"@)]
}

/// The events of a run of `service` children.
pub open spec fn w_services_list(s: Seq<ServiceView>) -> Seq<EvView>
    decreases s, 1int,
{
    if s.len() == 0 {
        Seq::empty()
    } else {
        w_service(s[0]) + w_services_list(s.subrange(1, s.len() as int))
    }
}

pub proof fn lemma_w_services_snoc(s: Seq<ServiceView>, c: ServiceView)
    ensures
        w_services_list(s.push(c)) == w_services_list(s) + w_service(c),
    decreases s.len(),
{
    let whole = s.push(c);
    if s.len() == 0 {
        assert(whole.subrange(1, whole.len() as int) =~= Seq::<ServiceView>::empty());
        assert(w_services_list(whole.subrange(1, whole.len() as int)) == Seq::<EvView>::empty());
        assert(whole[0] == c);
        assert(w_services_list(whole) =~= w_services_list(s) + w_service(c));
    } else {
        assert(whole.subrange(1, whole.len() as int) =~= s.subrange(1, s.len() as int).push(c));
        lemma_w_services_snoc(s.subrange(1, s.len() as int), c);
        assert(whole[0] == s[0]);
        assert(w_services_list(whole) =~= w_services_list(s) + w_service(c));
    }
}

impl ChildWrite for ServiceView {
    open spec fn child_events(self, tag: Seq<char>) -> Seq<EvView> {
        w_service(self)
    }
}

/// Writes the identifying children of a service.
#[verifier::rlimit(100)]
fn push_svc_head(out: &mut Vec<Ev>, s: &Service)
    ensures
        final(out).deep_view() == old(out).deep_view() + w_svc_head(s.deep_view()),
{
    if let Some(e) = &s.provider {
        push_entity(out, "provider", e);
    }
    push_opt_text_tag(out, "group", &s.group);
    push_text_tag(out, "name", &s.name);
    push_opt_text_tag(out, "version", &s.version);
    push_opt_text_tag(out, "description", &s.description);
    proof {
        assert(final(out).deep_view() =~= old(out).deep_view() + w_svc_head(s.deep_view()));
    }
}

/// Writes the middle children of a service.
#[verifier::rlimit(100)]
fn push_svc_mid(out: &mut Vec<Ev>, s: &Service)
    ensures
        final(out).deep_view() == old(out).deep_view() + w_svc_mid(s.deep_view()),
{
    push_opt_text_items(out, "endpoints", "endpoint", &s.endpoints);
    push_opt_bool_tag(out, "authenticated", &s.authenticated);
    push_opt_bool_tag(out, "x-trust-boundary", &s.x_trust_boundary);
    push_opt_wrapped(out, "data", "classification", &s.data);
    if let Some(l) = &s.licenses {
        push_licenses(out, l);
    }
    proof {
        assert(final(out).deep_view() =~= old(out).deep_view() + w_svc_mid(s.deep_view()));
    }
}

/// Writes the closing children of a service.
#[verifier::rlimit(100)]
fn push_svc_tail(out: &mut Vec<Ev>, s: &Service)
    ensures
        final(out).deep_view() == old(out).deep_view() + w_svc_tail(s.deep_view()),
    decreases *s, 0int,
{
    push_opt_wrapped(out, "externalReferences", "reference", &s.external_references);
    push_opt_wrapped(out, "properties", "property", &s.properties);
    if let Some(subs) = &s.services {
        push_start(out, "services");
        push_services_list(out, subs);
        push_end(out, "services");
    }
    if let Some(sg) = &s.signature {
        push_signature(out, sg);
    }
    proof {
        if s.services is Some {
            crate::model::lemma_services_deep(s.services->0);
        }
        assert(final(out).deep_view() =~= old(out).deep_view() + w_svc_tail(s.deep_view()));
    }
}

/// Writes a `service` element.
#[verifier::rlimit(100)]
pub fn push_service(out: &mut Vec<Ev>, s: &Service)
    ensures
        final(out).deep_view() == old(out).deep_view() + w_service(s.deep_view()),
    decreases *s, 1int,
{
    let mut attrs: Vec<(String, String)> = Vec::new();
    if let Some(b) = &s.bom_ref {
        push_attr(&mut attrs, "bom-ref", b);
    }
    proof {
        assert(attrs.deep_view() =~= opt_attr("bom-ref"@, s.bom_ref.deep_view()));
    }
    push_start_attrs(out, "service", attrs);
    push_svc_head(out, s);
    push_svc_mid(out, s);
    push_svc_tail(out, s);
    push_end(out, "service");
    proof {
        assert(final(out).deep_view() =~= old(out).deep_view() + w_service(s.deep_view()));
    }
}

/// Writes a run of `service` elements.
pub fn push_services_list(out: &mut Vec<Ev>, items: &Vec<Service>)
    ensures
        final(out).deep_view() == old(out).deep_view() + w_services_list(items.deep_view()),
    decreases *items, 1int,
{
    let ghost mid = out.deep_view();
    let n = items.len();
    let mut k: usize = 0;
    proof {
        assert(items.deep_view().subrange(0, 0) =~= Seq::<ServiceView>::empty());
        assert(out.deep_view() =~= mid + w_services_list(items.deep_view().subrange(0, 0)));
    }
    while k < n
        invariant
            0 <= k <= n,
            n == items@.len(),
            out.deep_view() == mid + w_services_list(items.deep_view().subrange(0, k as int)),
        decreases n - k,
    {
        let ghost pre = items.deep_view().subrange(0, k as int);
        push_service(out, &items[k]);
        proof {
            assert(items.deep_view().subrange(0, k + 1) =~= pre.push(
                items[k as int].deep_view(),
            ));
            lemma_w_services_snoc(pre, items[k as int].deep_view());
            assert(out.deep_view() =~= mid + w_services_list(
                items.deep_view().subrange(0, k + 1),
            ));
        }
        k = k + 1;
    }
    proof {
        assert(items.deep_view().subrange(0, n as int) =~= items.deep_view());
    }
}

/// The fields of a service collected while its children are read.
pub struct SvcAcc {
    pub provider: Option<crate::model::OrganizationalEntity>,
    pub group: Option<String>,
    pub name: Option<String>,
    pub version: Option<String>,
    pub description: Option<String>,
    pub endpoints: Option<Vec<String>>,
    pub authenticated: Option<bool>,
    pub x_trust_boundary: Option<bool>,
    pub data: Option<Vec<DataClassification>>,
    pub licenses: Option<crate::model::Licenses>,
    pub external_references: Option<Vec<ExternalReference>>,
    pub properties: Option<Vec<crate::model::Property>>,
    pub services: Option<Vec<Service>>,
    pub signature: Option<crate::model::Signature>,
}

pub struct SvcAccView {
    pub provider: Option<crate::model::OrganizationalEntityView>,
    pub group: Option<Seq<char>>,
    pub name: Option<Seq<char>>,
    pub version: Option<Seq<char>>,
    pub description: Option<Seq<char>>,
    pub endpoints: Option<Seq<Seq<char>>>,
    pub authenticated: Option<bool>,
    pub x_trust_boundary: Option<bool>,
    pub data: Option<Seq<DataClassificationView>>,
    pub licenses: Option<LicensesView>,
    pub external_references: Option<Seq<ExternalReferenceView>>,
    pub properties: Option<Seq<PropertyView>>,
    pub services: Option<Seq<ServiceView>>,
    pub signature: Option<SignatureView>,
}

impl DeepView for SvcAcc {
    type V = SvcAccView;

    open spec fn deep_view(&self) -> SvcAccView {
        SvcAccView {
            provider: self.provider.deep_view(),
            group: self.group.deep_view(),
            name: self.name.deep_view(),
            version: self.version.deep_view(),
            description: self.description.deep_view(),
            endpoints: self.endpoints.deep_view(),
            authenticated: self.authenticated,
            x_trust_boundary: self.x_trust_boundary,
            data: self.data.deep_view(),
            licenses: self.licenses.deep_view(),
            external_references: self.external_references.deep_view(),
            properties: self.properties.deep_view(),
            services: match &self.services {
                Some(v) => Some(crate::model::services_view(v@)),
                None => None,
            },
            signature: self.signature.deep_view(),
        }
    }
}

/// The empty accumulator.
pub open spec fn svc_acc_empty() -> SvcAccView {
    SvcAccView {
        provider: None,
        group: None,
        name: None,
        version: None,
        description: None,
        endpoints: None,
        authenticated: None,
        x_trust_boundary: None,
        data: None,
        licenses: None,
        external_references: None,
        properties: None,
        services: None,
        signature: None,
    }
}

/// The service a finished accumulator denotes, once `name` is known to be
/// present.
pub open spec fn svc_of_acc(bom_ref: Option<Seq<char>>, acc: SvcAccView) -> ServiceView {
    ServiceView {
        bom_ref,
        provider: acc.provider,
        group: acc.group,
        name: acc.name->0,
        version: acc.version,
        description: acc.description,
        endpoints: acc.endpoints,
        authenticated: acc.authenticated,
        x_trust_boundary: acc.x_trust_boundary,
        data: acc.data,
        licenses: acc.licenses,
        external_references: acc.external_references,
        properties: acc.properties,
        services: acc.services,
        signature: acc.signature,
    }
}

/// Whether `local` is one of the text-content leaf children of `service`.
pub open spec fn is_svc_text_field(local: Seq<char>) -> bool {
    ||| local == "group"@
    ||| local == "name"@
    ||| local == "version"@
    ||| local == "description"@
}

/// The accumulator with the named text-content field set to `t`.
pub open spec fn svc_set_text(acc: SvcAccView, local: Seq<char>, t: Seq<char>) -> SvcAccView {
    if local == "group"@ {
        SvcAccView { group: Some(t), ..acc }
    } else if local == "name"@ {
        SvcAccView { name: Some(t), ..acc }
    } else if local == "version"@ {
        SvcAccView { version: Some(t), ..acc }
    } else {
        SvcAccView { description: Some(t), ..acc }
    }
}

/// What reading the children of a `service` element yields, given its
/// `bom-ref` attribute and the fields collected so far.  `name` is required
/// by the end tag; children the model does not carry are lax-skipped;
/// `signature` is recognized only from schema version 1.4 on.
#[verifier::opaque]
pub open spec fn p_service_fields(
    evs: Seq<EvView>,
    i: int,
    open: EvNameView,
    bom_ref: Option<Seq<char>>,
    acc: SvcAccView,
    sig_ok: bool,
) -> Result<(ServiceView, int), ErrorView>
    decreases evs.len() - i, 1int,
{
    if i < 0 || i >= evs.len() {
        Err(unexpected("service"@))
    } else {
        match evs[i] {
            EvView::Start { name: nm, attrs } => {
                if is_svc_text_field(nm.local) {
                    match p_text_tag(evs, i + 1, nm) {
                        Ok((t, j)) => {
                            if i < j <= evs.len() {
                                p_service_fields(evs, j, open, bom_ref, svc_set_text(acc,
                                nm.local, t), sig_ok)
                            } else {
                                Err(unexpected("service"@))
                            }
                        },
                        Err(e) => Err(e),
                    }
                } else if nm.local == "provider"@ {
                    match p_entity_fields(evs, i + 1, nm, None, Seq::empty(), Seq::empty()) {
                        Ok((s, j)) => {
                            if i < j <= evs.len() {
                                p_service_fields(evs, j, open, bom_ref, SvcAccView {
                                    provider: Some(s),
                                    ..acc
                                }, sig_ok)
                            } else {
                                Err(unexpected("service"@))
                            }
                        },
                        Err(e) => Err(e),
                    }
                } else if nm.local == "endpoints"@ {
                    match p_text_items(evs, i + 1, nm, "endpoint"@, Seq::empty()) {
                        Ok((s, j)) => {
                            if i < j <= evs.len() {
                                p_service_fields(evs, j, open, bom_ref, SvcAccView {
                                    endpoints: Some(s),
                                    ..acc
                                }, sig_ok)
                            } else {
                                Err(unexpected("service"@))
                            }
                        },
                        Err(e) => Err(e),
                    }
                } else if nm.local == "authenticated"@ {
                    match p_text_tag(evs, i + 1, nm) {
                        Ok((t, j)) => match parse_bool_spec(t) {
                            Some(b) => {
                                if i < j <= evs.len() {
                                    p_service_fields(evs, j, open, bom_ref, SvcAccView {
                                        authenticated: Some(b),
                                        ..acc
                                    }, sig_ok)
                                } else {
                                    Err(unexpected("service"@))
                                }
                            },
                            None => Err(
                                ErrorView::ValueParse { field: "authenticated"@, text: t },
                            ),
                        },
                        Err(e) => Err(e),
                    }
                } else if nm.local == "x-trust-boundary"@ {
                    match p_text_tag(evs, i + 1, nm) {
                        Ok((t, j)) => match parse_bool_spec(t) {
                            Some(b) => {
                                if i < j <= evs.len() {
                                    p_service_fields(evs, j, open, bom_ref, SvcAccView {
                                        x_trust_boundary: Some(b),
                                        ..acc
                                    }, sig_ok)
                                } else {
                                    Err(unexpected("service"@))
                                }
                            },
                            None => Err(
                                ErrorView::ValueParse { field: "x-trust-boundary"@, text: t },
                            ),
                        },
                        Err(e) => Err(e),
                    }
                } else if nm.local == "data"@ {
                    match p_list::<DataClassification>(evs, i + 1, nm, "classification"@,
                    Seq::empty(), sig_ok) {
                        Ok((s, j)) => {
                            if i < j <= evs.len() {
                                p_service_fields(evs, j, open, bom_ref, SvcAccView {
                                    data: Some(s),
                                    ..acc
                                }, sig_ok)
                            } else {
                                Err(unexpected("service"@))
                            }
                        },
                        Err(e) => Err(e),
                    }
                } else if nm.local == "licenses"@ {
                    match p_licenses(evs, i + 1, nm) {
                        Ok((l, j)) => {
                            if i < j <= evs.len() {
                                p_service_fields(evs, j, open, bom_ref, SvcAccView {
                                    licenses: Some(l),
                                    ..acc
                                }, sig_ok)
                            } else {
                                Err(unexpected("service"@))
                            }
                        },
                        Err(e) => Err(e),
                    }
                } else if nm.local == "externalReferences"@ {
                    match p_list::<ExternalReference>(evs, i + 1, nm, "reference"@, Seq::empty(),
                    sig_ok) {
                        Ok((s, j)) => {
                            if i < j <= evs.len() {
                                p_service_fields(evs, j, open, bom_ref, SvcAccView {
                                    external_references: Some(s),
                                    ..acc
                                }, sig_ok)
                            } else {
                                Err(unexpected("service"@))
                            }
                        },
                        Err(e) => Err(e),
                    }
                } else if nm.local == "properties"@ {
                    match p_list::<crate::model::Property>(evs, i + 1, nm, "property"@,
                    Seq::empty(), sig_ok) {
                        Ok((s, j)) => {
                            if i < j <= evs.len() {
                                p_service_fields(evs, j, open, bom_ref, SvcAccView {
                                    properties: Some(s),
                                    ..acc
                                }, sig_ok)
                            } else {
                                Err(unexpected("service"@))
                            }
                        },
                        Err(e) => Err(e),
                    }
                } else if nm.local == "services"@ {
                    match p_services_items(evs, i + 1, nm, Seq::empty(), sig_ok) {
                        Ok((s, j)) => {
                            if i < j <= evs.len() {
                                p_service_fields(evs, j, open, bom_ref, SvcAccView {
                                    services: Some(s),
                                    ..acc
                                }, sig_ok)
                            } else {
                                Err(unexpected("service"@))
                            }
                        },
                        Err(e) => Err(e),
                    }
                } else if nm.local == "signature"@ && sig_ok {
                    match p_signature_fields(evs, i + 1, nm, None, None) {
                        Ok((s, j)) => {
                            if i < j <= evs.len() {
                                p_service_fields(evs, j, open, bom_ref, SvcAccView {
                                    signature: Some(s),
                                    ..acc
                                }, sig_ok)
                            } else {
                                Err(unexpected("service"@))
                            }
                        },
                        Err(e) => Err(e),
                    }
                } else {
                    match p_skip(evs, i + 1, seq![nm]) {
                        Ok(j) => {
                            if i < j <= evs.len() {
                                p_service_fields(evs, j, open, bom_ref, acc, sig_ok)
                            } else {
                                Err(unexpected("service"@))
                            }
                        },
                        Err(e) => Err(e),
                    }
                }
            },
            EvView::End { name: nm } => {
                if nm == open {
                    if acc.name is None {
                        Err(
                            ErrorView::RequiredDataMissing {
                                required_field: "name"@,
                                element: "service"@,
                            },
                        )
                    } else {
                        Ok((svc_of_acc(bom_ref, acc), i + 1))
                    }
                } else {
                    Err(unexpected("service"@))
                }
            },
            _ => Err(unexpected("service"@)),
        }
    }
}

/// What reading the children of a `services` container yields.
pub open spec fn p_services_items(
    evs: Seq<EvView>,
    i: int,
    open: EvNameView,
    acc: Seq<ServiceView>,
    sig_ok: bool,
) -> Result<(Seq<ServiceView>, int), ErrorView>
    decreases evs.len() - i, 0int,
{
    if i < 0 || i >= evs.len() {
        Err(unexpected(open.local))
    } else {
        match evs[i] {
            EvView::Start { name: nm, attrs } => {
                if nm.local == "service"@ {
                    match p_service_fields(
                        evs,
                        i + 1,
                        nm,
                        spec_attr(attrs, "bom-ref"@),
                        svc_acc_empty(),
                        sig_ok,
                    ) {
                        Ok((c, j)) => {
                            if i < j <= evs.len() {
                                p_services_items(evs, j, open, acc.push(c), sig_ok)
                            } else {
                                Err(unexpected(open.local))
                            }
                        },
                        Err(e) => Err(e),
                    }
                } else {
                    match p_skip(evs, i + 1, seq![nm]) {
                        Ok(j) => {
                            if i < j <= evs.len() {
                                p_services_items(evs, j, open, acc, sig_ok)
                            } else {
                                Err(unexpected(open.local))
                            }
                        },
                        Err(e) => Err(e),
                    }
                }
            },
            EvView::End { name: nm } => {
                if nm == open {
                    Ok((acc, i + 1))
                } else {
                    Err(unexpected(open.local))
                }
            },
            _ => Err(unexpected(open.local)),
        }
    }
}

/// What reading a whole `service` element yields.
pub open spec fn p_service(
    evs: Seq<EvView>,
    i: int,
    open: EvNameView,
    attrs: Seq<(Seq<char>, Seq<char>)>,
    sig_ok: bool,
) -> Result<(ServiceView, int), ErrorView> {
    p_service_fields(evs, i, open, spec_attr(attrs, "bom-ref"@), svc_acc_empty(), sig_ok)
}

/// Handles one recognized or unrecognized child of a `service`, advancing
/// the cursor and updating the collected fields.
#[verifier::rlimit(100)]
fn read_service_child(
    evs: &Vec<Ev>,
    cur: usize,
    nm: &EvName,
    cattrs: &Vec<(String, String)>,
    acc: &mut SvcAcc,
    sig_ok: bool,
    Ghost(open): Ghost<EvNameView>,
    Ghost(bom_ref): Ghost<Option<Seq<char>>>,
) -> (r: Result<usize, Error>)
    requires
        cur < evs@.len(),
        evs.deep_view()[cur as int] == (EvView::Start {
            name: nm.deep_view(),
            attrs: cattrs.deep_view(),
        }),
    ensures
        match r {
            Ok(j) => cur < j <= evs@.len() && p_service_fields(
                evs.deep_view(),
                cur as int,
                open,
                bom_ref,
                old(acc).deep_view(),
                sig_ok,
            ) == p_service_fields(
                evs.deep_view(),
                j as int,
                open,
                bom_ref,
                final(acc).deep_view(),
                sig_ok,
            ),
            Err(e) => p_service_fields(
                evs.deep_view(),
                cur as int,
                open,
                bom_ref,
                old(acc).deep_view(),
                sig_ok,
            ) == Err::<(ServiceView, int), ErrorView>(e.deep_view()),
        },
    decreases evs@.len() - cur, 0int,
{
    proof {
        reveal(p_service_fields);
        reveal(p_services_items);
    }
    let n = evs.len();
    let is_text = local_is(nm, "group") || local_is(nm, "name") || local_is(nm, "version")
        || local_is(nm, "description");
    if is_text {
        match read_text_tag(evs, cur + 1, nm) {
            Ok((t, j)) => {
                if local_is(nm, "group") {
                    acc.group = Some(t);
                } else if local_is(nm, "name") {
                    acc.name = Some(t);
                } else if local_is(nm, "version") {
                    acc.version = Some(t);
                } else {
                    acc.description = Some(t);
                }
                Ok(j)
            },
            Err(e) => Err(e),
        }
    } else if local_is(nm, "provider") {
        match read_entity(evs, cur + 1, nm) {
            Ok((s, j)) => {
                acc.provider = Some(s);
                Ok(j)
            },
            Err(e) => Err(e),
        }
    } else if local_is(nm, "endpoints") {
        match read_text_items(evs, cur + 1, nm, "endpoint") {
            Ok((s, j)) => {
                acc.endpoints = Some(s);
                Ok(j)
            },
            Err(e) => Err(e),
        }
    } else if local_is(nm, "authenticated") {
        match read_text_tag(evs, cur + 1, nm) {
            Ok((t, j)) => match parse_bool(t.as_str()) {
                Some(b) => {
                    acc.authenticated = Some(b);
                    Ok(j)
                },
                None => Err(Error::ValueParse { field: "authenticated".to_owned(), text: t }),
            },
            Err(e) => Err(e),
        }
    } else if local_is(nm, "x-trust-boundary") {
        match read_text_tag(evs, cur + 1, nm) {
            Ok((t, j)) => match parse_bool(t.as_str()) {
                Some(b) => {
                    acc.x_trust_boundary = Some(b);
                    Ok(j)
                },
                None => Err(Error::ValueParse { field: "x-trust-boundary".to_owned(), text: t }),
            },
            Err(e) => Err(e),
        }
    } else if local_is(nm, "data") {
        match read_list::<DataClassification>(evs, cur + 1, nm, "classification", sig_ok) {
            Ok((s, j)) => {
                acc.data = Some(s);
                Ok(j)
            },
            Err(e) => Err(e),
        }
    } else if local_is(nm, "licenses") {
        match crate::xml_license::read_licenses(evs, cur + 1, nm) {
            Ok((l, j)) => {
                acc.licenses = Some(l);
                Ok(j)
            },
            Err(e) => Err(e),
        }
    } else if local_is(nm, "externalReferences") {
        match read_list::<ExternalReference>(evs, cur + 1, nm, "reference", sig_ok) {
            Ok((s, j)) => {
                acc.external_references = Some(s);
                Ok(j)
            },
            Err(e) => Err(e),
        }
    } else if local_is(nm, "properties") {
        match read_list::<crate::model::Property>(evs, cur + 1, nm, "property", sig_ok) {
            Ok((s, j)) => {
                acc.properties = Some(s);
                Ok(j)
            },
            Err(e) => Err(e),
        }
    } else if local_is(nm, "services") {
        match read_services_items(evs, cur + 1, nm, sig_ok) {
            Ok((s, j)) => {
                proof {
                    crate::model::lemma_services_deep(s);
                }
                acc.services = Some(s);
                Ok(j)
            },
            Err(e) => Err(e),
        }
    } else if local_is(nm, "signature") && sig_ok {
        match read_signature(evs, cur + 1, nm) {
            Ok((s, j)) => {
                acc.signature = Some(s);
                Ok(j)
            },
            Err(e) => Err(e),
        }
    } else {
        match skip_element(evs, cur + 1, nm) {
            Ok(j) => Ok(j),
            Err(e) => Err(e),
        }
    }
}

/// Reads the children of a `service` element, continuing from the fields
/// collected so far.
#[verifier::rlimit(100)]
fn read_service_fields(
    evs: &Vec<Ev>,
    i: usize,
    open: &EvName,
    bom_ref: Option<String>,
    acc: SvcAcc,
    sig_ok: bool,
) -> (r: Result<(Service, usize), Error>)
    requires
        i <= evs@.len(),
    ensures
        pres(r) == p_service_fields(
            evs.deep_view(),
            i as int,
            open.deep_view(),
            bom_ref.deep_view(),
            acc.deep_view(),
            sig_ok,
        ),
        r matches Ok((_, j)) ==> i < j <= evs.len(),
    decreases evs@.len() - i, 1int,
{
    proof {
        reveal(p_service_fields);
        reveal(p_services_items);
    }
    let ghost dv = evs.deep_view();
    let ghost accv = acc.deep_view();
    proof {
        assert(dv.len() == evs@.len());
    }
    if i >= evs.len() {
        return Err(Error::UnexpectedElement { element: "service".to_owned() });
    }
    match &evs[i] {
        Ev::Start { name: nm, attrs: cattrs } => {
            proof {
                assert(evs.deep_view()[i as int] == evs@[i as int].deep_view());
            }
            let mut acc = acc;
            match read_service_child(
                evs,
                i,
                nm,
                cattrs,
                &mut acc,
                sig_ok,
                Ghost(open.deep_view()),
                Ghost(bom_ref.deep_view()),
            ) {
                Ok(j) => read_service_fields(evs, j, open, bom_ref, acc, sig_ok),
                Err(e) => Err(e),
            }
        },
        Ev::End { name: nm } => {
            proof {
                assert(evs.deep_view()[i as int] == evs@[i as int].deep_view());
            }
            if evname_eq(nm, open) {
                if acc.name.is_none() {
                    return Err(
                        Error::RequiredDataMissing {
                            required_field: "name".to_owned(),
                            element: "service".to_owned(),
                        },
                    );
                }
                let nmv = match acc.name {
                    Some(n) => n,
                    None => {
                        return Err(Error::UnexpectedElement { element: "service".to_owned() });
                    },
                };
                Ok(
                    (
                        Service {
                            bom_ref,
                            provider: acc.provider,
                            group: acc.group,
                            name: nmv,
                            version: acc.version,
                            description: acc.description,
                            endpoints: acc.endpoints,
                            authenticated: acc.authenticated,
                            x_trust_boundary: acc.x_trust_boundary,
                            data: acc.data,
                            licenses: acc.licenses,
                            external_references: acc.external_references,
                            properties: acc.properties,
                            services: acc.services,
                            signature: acc.signature,
                        },
                        i + 1,
                    ),
                )
            } else {
                Err(Error::UnexpectedElement { element: "service".to_owned() })
            }
        },
        _ => {
            proof {
                assert(evs.deep_view()[i as int] == evs@[i as int].deep_view());
            }
            Err(Error::UnexpectedElement { element: "service".to_owned() })
        },
    }
}

/// Reads the children of a `services` container whose start event is already
/// consumed, continuing after the services collected so far.
#[verifier::rlimit(100)]
fn read_services_rest(
    evs: &Vec<Ev>,
    i: usize,
    open: &EvName,
    items: Vec<Service>,
    sig_ok: bool,
) -> (r: Result<(Vec<Service>, usize), Error>)
    requires
        i <= evs@.len(),
    ensures
        pres(r) == p_services_items(
            evs.deep_view(),
            i as int,
            open.deep_view(),
            items.deep_view(),
            sig_ok,
        ),
        r matches Ok((_, j)) ==> i < j <= evs.len(),
    decreases evs@.len() - i, 2int,
{
    proof {
        reveal(p_services_items);
        reveal(p_service_fields);
    }
    let ghost dv = evs.deep_view();
    let ghost accv = items.deep_view();
    proof {
        assert(dv.len() == evs@.len());
    }
    if i >= evs.len() {
        return Err(Error::UnexpectedElement { element: open.local.clone() });
    }
    match &evs[i] {
        Ev::Start { name: nm, attrs: cattrs } => {
            proof {
                assert(evs.deep_view()[i as int] == evs@[i as int].deep_view());
            }
            if !local_is(nm, "service") {
                return match skip_element(evs, i + 1, nm) {
                    Ok(j) => read_services_rest(evs, j, open, items, sig_ok),
                    Err(e) => Err(e),
                };
            }
            let bom_ref: Option<String> = match crate::xml_base::find_attr(cattrs, "bom-ref") {
                Some(v) => Some(v.clone()),
                None => None,
            };
            let empty = SvcAcc {
                provider: None,
                group: None,
                name: None,
                version: None,
                description: None,
                endpoints: None,
                authenticated: None,
                x_trust_boundary: None,
                data: None,
                licenses: None,
                external_references: None,
                properties: None,
                services: None,
                signature: None,
            };
            proof {
                assert(empty.deep_view() == svc_acc_empty());
            }
            match read_service_fields(evs, i + 1, nm, bom_ref, empty, sig_ok) {
                Ok((c, j)) => {
                    let ghost pre = items.deep_view();
                    let mut items = items;
                    items.push(c);
                    proof {
                        assert(items.deep_view() =~= pre.push(
                            items@[pre.len() as int].deep_view(),
                        ));
                    }
                    read_services_rest(evs, j, open, items, sig_ok)
                },
                Err(e) => Err(e),
            }
        },
        Ev::End { name: nm } => {
            proof {
                assert(evs.deep_view()[i as int] == evs@[i as int].deep_view());
            }
            if evname_eq(nm, open) {
                Ok((items, i + 1))
            } else {
                Err(Error::UnexpectedElement { element: open.local.clone() })
            }
        },
        _ => {
            proof {
                assert(evs.deep_view()[i as int] == evs@[i as int].deep_view());
            }
            Err(Error::UnexpectedElement { element: open.local.clone() })
        },
    }
}

/// Reads a `services` container whose start event is already consumed.
pub fn read_services_items(
    evs: &Vec<Ev>,
    i: usize,
    open: &EvName,
    sig_ok: bool,
) -> (r: Result<(Vec<Service>, usize), Error>)
    requires
        i <= evs@.len(),
    ensures
        pres(r) == p_services_items(
            evs.deep_view(),
            i as int,
            open.deep_view(),
            Seq::empty(),
            sig_ok,
        ),
        r matches Ok((_, j)) ==> i < j <= evs.len(),
    decreases evs@.len() - i, 3int,
{
    let items: Vec<Service> = Vec::new();
    proof {
        assert(items.deep_view() =~= Seq::<ServiceView>::empty());
    }
    read_services_rest(evs, i, open, items, sig_ok)
}

/// Reads a `service` element whose start event is already consumed.
pub fn read_service(
    evs: &Vec<Ev>,
    i: usize,
    open: &EvName,
    attrs: &Vec<(String, String)>,
    sig_ok: bool,
) -> (r: Result<(Service, usize), Error>)
    requires
        i <= evs@.len(),
    ensures
        pres(r) == p_service(
            evs.deep_view(),
            i as int,
            open.deep_view(),
            attrs.deep_view(),
            sig_ok,
        ),
        r matches Ok((_, j)) ==> i < j <= evs.len(),
    decreases evs@.len() - i, 2int,
{
    let bom_ref: Option<String> = match crate::xml_base::find_attr(attrs, "bom-ref") {
        Some(v) => Some(v.clone()),
        None => None,
    };
    let acc = SvcAcc {
        provider: None,
        group: None,
        name: None,
        version: None,
        description: None,
        endpoints: None,
        authenticated: None,
        x_trust_boundary: None,
        data: None,
        licenses: None,
        external_references: None,
        properties: None,
        services: None,
        signature: None,
    };
    proof {
        assert(acc.deep_view() == svc_acc_empty());
    }
    read_service_fields(evs, i, open, bom_ref, acc, sig_ok)
}

} // verus!
