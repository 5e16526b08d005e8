//! The version-independent internal model of a bill of materials.
//!
//! Pure data: the model carries no format concerns.  Every entity has a
//! specification-level view (`...View`) in which strings are `Seq<char>` and
//! vectors are `Seq`; all contracts of the engine speak of these views.
//!
//! `bom-ref` and dependency `ref` values are opaque string keys; their
//! uniqueness is the producer's responsibility and is not enforced here.

use vstd::prelude::*;

verus! {

/// A supported CycloneDX schema version.
#[derive(Debug, Clone, Copy, PartialEq, Eq, Structural)]
pub enum SpecVersion {
    V1_2,
    V1_3,
    V1_4,
    V1_5,
}

/// A name/value pair carried unchanged through every format.
#[derive(Debug, PartialEq, Eq)]
pub struct Property {
    pub name: String,
    pub value: String,
}

pub struct PropertyView {
    pub name: Seq<char>,
    pub value: Seq<char>,
}

impl DeepView for Property {
    type V = PropertyView;

    open spec fn deep_view(&self) -> PropertyView {
        PropertyView { name: self.name.deep_view(), value: self.value.deep_view() }
    }
}

/// A hash: algorithm name plus the hash value text.
#[derive(Debug, PartialEq, Eq)]
pub struct Hash {
    pub alg: String,
    pub content: String,
}

pub struct HashView {
    pub alg: Seq<char>,
    pub content: Seq<char>,
}

impl DeepView for Hash {
    type V = HashView;

    open spec fn deep_view(&self) -> HashView {
        HashView { alg: self.alg.deep_view(), content: self.content.deep_view() }
    }
}

/// Text attached to a license, with its declared content type and encoding.
#[derive(Debug, PartialEq, Eq)]
pub struct AttachedText {
    pub content_type: Option<String>,
    pub encoding: Option<String>,
    pub content: String,
}

pub struct AttachedTextView {
    pub content_type: Option<Seq<char>>,
    pub encoding: Option<Seq<char>>,
    pub content: Seq<char>,
}

impl DeepView for AttachedText {
    type V = AttachedTextView;

    open spec fn deep_view(&self) -> AttachedTextView {
        AttachedTextView {
            content_type: self.content_type.deep_view(),
            encoding: self.encoding.deep_view(),
            content: self.content.deep_view(),
        }
    }
}

/// How a license is identified: exactly one of an SPDX identifier or a free
/// text name.  The sum type makes "both" and "neither" unrepresentable; the
/// invariant is validated once, when a document is parsed.
#[derive(Debug, PartialEq, Eq)]
pub enum LicenseIdentifier {
    SpdxId(String),
    Name(String),
}

pub enum LicenseIdentifierView {
    SpdxId(Seq<char>),
    Name(Seq<char>),
}

impl DeepView for LicenseIdentifier {
    type V = LicenseIdentifierView;

    open spec fn deep_view(&self) -> LicenseIdentifierView {
        match self {
            LicenseIdentifier::SpdxId(s) => LicenseIdentifierView::SpdxId(s.deep_view()),
            LicenseIdentifier::Name(s) => LicenseIdentifierView::Name(s.deep_view()),
        }
    }
}

/// A single license: its identifier plus optional attached text and URL.
#[derive(Debug, PartialEq, Eq)]
pub struct License {
    pub license_identifier: LicenseIdentifier,
    pub text: Option<AttachedText>,
    pub url: Option<String>,
}

pub struct LicenseView {
    pub license_identifier: LicenseIdentifierView,
    pub text: Option<AttachedTextView>,
    pub url: Option<Seq<char>>,
}

impl DeepView for License {
    type V = LicenseView;

    open spec fn deep_view(&self) -> LicenseView {
        LicenseView {
            license_identifier: self.license_identifier.deep_view(),
            text: self.text.deep_view(),
            url: self.url.deep_view(),
        }
    }
}

/// One entry of a license list: either a structured license or a raw SPDX
/// expression string (carried opaquely; expression validity is an external
/// capability).
#[derive(Debug, PartialEq, Eq)]
pub enum LicenseChoice {
    License(License),
    Expression(String),
}

pub enum LicenseChoiceView {
    License(LicenseView),
    Expression(Seq<char>),
}

impl DeepView for LicenseChoice {
    type V = LicenseChoiceView;

    open spec fn deep_view(&self) -> LicenseChoiceView {
        match self {
            LicenseChoice::License(l) => LicenseChoiceView::License(l.deep_view()),
            LicenseChoice::Expression(e) => LicenseChoiceView::Expression(e.deep_view()),
        }
    }
}

/// An ordered sequence of license choices.  Order is preserved through every
/// format.
#[derive(Debug, PartialEq, Eq)]
pub struct Licenses(pub Vec<LicenseChoice>);

pub struct LicensesView(pub Seq<LicenseChoiceView>);

impl DeepView for Licenses {
    type V = LicensesView;

    open spec fn deep_view(&self) -> LicensesView {
        LicensesView(self.0.deep_view())
    }
}

/// A person belonging to an organization: authors, contacts, individuals.
#[derive(Debug, PartialEq, Eq)]
pub struct OrganizationalContact {
    pub name: Option<String>,
    pub email: Option<String>,
    pub phone: Option<String>,
}

pub struct OrganizationalContactView {
    pub name: Option<Seq<char>>,
    pub email: Option<Seq<char>>,
    pub phone: Option<Seq<char>>,
}

impl DeepView for OrganizationalContact {
    type V = OrganizationalContactView;

    open spec fn deep_view(&self) -> OrganizationalContactView {
        OrganizationalContactView {
            name: self.name.deep_view(),
            email: self.email.deep_view(),
            phone: self.phone.deep_view(),
        }
    }
}

/// An organization: supplier, manufacturer, provider.
#[derive(Debug, PartialEq, Eq)]
pub struct OrganizationalEntity {
    pub name: Option<String>,
    pub urls: Vec<String>,
    pub contacts: Vec<OrganizationalContact>,
}

pub struct OrganizationalEntityView {
    pub name: Option<Seq<char>>,
    pub urls: Seq<Seq<char>>,
    pub contacts: Seq<OrganizationalContactView>,
}

impl DeepView for OrganizationalEntity {
    type V = OrganizationalEntityView;

    open spec fn deep_view(&self) -> OrganizationalEntityView {
        OrganizationalEntityView {
            name: self.name.deep_view(),
            urls: self.urls.deep_view(),
            contacts: self.contacts.deep_view(),
        }
    }
}

/// A record of the tool that produced the document.
#[derive(Debug, PartialEq, Eq)]
pub struct Tool {
    pub vendor: Option<String>,
    pub name: Option<String>,
    pub version: Option<String>,
    pub hashes: Option<Vec<Hash>>,
}

pub struct ToolView {
    pub vendor: Option<Seq<char>>,
    pub name: Option<Seq<char>>,
    pub version: Option<Seq<char>>,
    pub hashes: Option<Seq<HashView>>,
}

impl DeepView for Tool {
    type V = ToolView;

    open spec fn deep_view(&self) -> ToolView {
        ToolView {
            vendor: self.vendor.deep_view(),
            name: self.name.deep_view(),
            version: self.version.deep_view(),
            hashes: self.hashes.deep_view(),
        }
    }
}

/// A link out of the document, typed by the kind of reference.
#[derive(Debug, PartialEq, Eq)]
pub struct ExternalReference {
    pub external_reference_type: String,
    pub url: String,
    pub comment: Option<String>,
    pub hashes: Option<Vec<Hash>>,
}

pub struct ExternalReferenceView {
    pub external_reference_type: Seq<char>,
    pub url: Seq<char>,
    pub comment: Option<Seq<char>>,
    pub hashes: Option<Seq<HashView>>,
}

impl DeepView for ExternalReference {
    type V = ExternalReferenceView;

    open spec fn deep_view(&self) -> ExternalReferenceView {
        ExternalReferenceView {
            external_reference_type: self.external_reference_type.deep_view(),
            url: self.url.deep_view(),
            comment: self.comment.deep_view(),
            hashes: self.hashes.deep_view(),
        }
    }
}

/// A graph edge list: the subject reference plus the references it depends
/// on.  Cycles are representable and not rejected at this layer.
#[derive(Debug, PartialEq, Eq)]
pub struct Dependency {
    pub dependency_ref: String,
    pub depends_on: Vec<String>,
}

pub struct DependencyView {
    pub dependency_ref: Seq<char>,
    pub depends_on: Seq<Seq<char>>,
}

impl DeepView for Dependency {
    type V = DependencyView;

    open spec fn deep_view(&self) -> DependencyView {
        DependencyView {
            dependency_ref: self.dependency_ref.deep_view(),
            depends_on: self.depends_on.deep_view(),
        }
    }
}

/// An enveloped cryptographic signature: algorithm plus value.
#[derive(Debug, PartialEq, Eq)]
pub struct Signature {
    pub algorithm: String,
    pub value: String,
}

pub struct SignatureView {
    pub algorithm: Seq<char>,
    pub value: Seq<char>,
}

impl DeepView for Signature {
    type V = SignatureView;

    open spec fn deep_view(&self) -> SignatureView {
        SignatureView { algorithm: self.algorithm.deep_view(), value: self.value.deep_view() }
    }
}

/// An aggregate statement: which component and service references were
/// assembled and which were depended on.
#[derive(Debug, PartialEq, Eq)]
pub struct Composition {
    pub aggregate: String,
    pub assemblies: Vec<String>,
    pub dependencies: Vec<String>,
    pub signature: Option<Signature>,
}

pub struct CompositionView {
    pub aggregate: Seq<char>,
    pub assemblies: Seq<Seq<char>>,
    pub dependencies: Seq<Seq<char>>,
    pub signature: Option<SignatureView>,
}

impl DeepView for Composition {
    type V = CompositionView;

    open spec fn deep_view(&self) -> CompositionView {
        CompositionView {
            aggregate: self.aggregate.deep_view(),
            assemblies: self.assemblies.deep_view(),
            dependencies: self.dependencies.deep_view(),
            signature: self.signature.deep_view(),
        }
    }
}

/// A data flow classification of a service.
#[derive(Debug, PartialEq, Eq)]
pub struct DataClassification {
    pub flow: String,
    pub classification: String,
}

pub struct DataClassificationView {
    pub flow: Seq<char>,
    pub classification: Seq<char>,
}

impl DeepView for DataClassification {
    type V = DataClassificationView;

    open spec fn deep_view(&self) -> DataClassificationView {
        DataClassificationView {
            flow: self.flow.deep_view(),
            classification: self.classification.deep_view(),
        }
    }
}

/// A software unit.  `bom_ref` is an opaque key by which dependencies and
/// compositions point at this component without owning it.  Sub-components
/// nest recursively.
#[derive(Debug, PartialEq, Eq)]
pub struct Component {
    pub component_type: String,
    pub mime_type: Option<String>,
    pub bom_ref: Option<String>,
    pub supplier: Option<OrganizationalEntity>,
    pub author: Option<String>,
    pub publisher: Option<String>,
    pub group: Option<String>,
    pub name: String,
    pub version: String,
    pub description: Option<String>,
    pub scope: Option<String>,
    pub hashes: Option<Vec<Hash>>,
    pub licenses: Option<Licenses>,
    pub copyright: Option<String>,
    pub cpe: Option<String>,
    pub purl: Option<String>,
    pub modified: Option<bool>,
    pub external_references: Option<Vec<ExternalReference>>,
    pub properties: Option<Vec<Property>>,
    pub components: Option<Vec<Component>>,
    pub signature: Option<Signature>,
}

pub struct ComponentView {
    pub component_type: Seq<char>,
    pub mime_type: Option<Seq<char>>,
    pub bom_ref: Option<Seq<char>>,
    pub supplier: Option<OrganizationalEntityView>,
    pub author: Option<Seq<char>>,
    pub publisher: Option<Seq<char>>,
    pub group: Option<Seq<char>>,
    pub name: Seq<char>,
    pub version: Seq<char>,
    pub description: Option<Seq<char>>,
    pub scope: Option<Seq<char>>,
    pub hashes: Option<Seq<HashView>>,
    pub licenses: Option<LicensesView>,
    pub copyright: Option<Seq<char>>,
    pub cpe: Option<Seq<char>>,
    pub purl: Option<Seq<char>>,
    pub modified: Option<bool>,
    pub external_references: Option<Seq<ExternalReferenceView>>,
    pub properties: Option<Seq<PropertyView>>,
    pub components: Option<Seq<ComponentView>>,
    pub signature: Option<SignatureView>,
}

impl DeepView for Component {
    type V = ComponentView;

    open spec fn deep_view(&self) -> ComponentView
        decreases self,
    {
        ComponentView {
            component_type: self.component_type.deep_view(),
            mime_type: self.mime_type.deep_view(),
            bom_ref: self.bom_ref.deep_view(),
            supplier: self.supplier.deep_view(),
            author: self.author.deep_view(),
            publisher: self.publisher.deep_view(),
            group: self.group.deep_view(),
            name: self.name.deep_view(),
            version: self.version.deep_view(),
            description: self.description.deep_view(),
            scope: self.scope.deep_view(),
            hashes: self.hashes.deep_view(),
            licenses: self.licenses.deep_view(),
            copyright: self.copyright.deep_view(),
            cpe: self.cpe.deep_view(),
            purl: self.purl.deep_view(),
            modified: self.modified,
            external_references: self.external_references.deep_view(),
            properties: self.properties.deep_view(),
            components: match &self.components {
                Some(v) => Some(components_view(v@)),
                None => None,
            },
            signature: self.signature.deep_view(),
        }
    }
}

/// Elementwise view of a sequence of components.
pub open spec fn components_view(s: Seq<Component>) -> Seq<ComponentView>
    decreases s,
{
    if s.len() == 0 {
        Seq::empty()
    } else {
        seq![s[0].deep_view()] + components_view(s.subrange(1, s.len() as int))
    }
}

pub proof fn lemma_components_view_elts(s: Seq<Component>)
    ensures
        components_view(s).len() == s.len(),
        forall|i: int| 0 <= i < s.len() ==> components_view(s)[i] == s[i].deep_view(),
    decreases s.len(),
{
    if s.len() > 0 {
        let rest = s.subrange(1, s.len() as int);
        lemma_components_view_elts(rest);
        assert(components_view(s) == seq![s[0].deep_view()] + components_view(rest));
        assert forall|i: int| 0 <= i < s.len() implies components_view(s)[i]
            == s[i].deep_view() by {
            if i > 0 {
                assert(rest[i - 1] == s[i]);
                assert(components_view(s)[i] == components_view(rest)[i - 1]);
            }
        }
    }
}

/// The elementwise view of a component vector equals its deep view.
pub proof fn lemma_components_deep(v: Vec<Component>)
    ensures
        components_view(v@) == v.deep_view(),
{
    lemma_components_view_elts(v@);
    assert(components_view(v@) =~= v.deep_view());
}

/// A network service unit, the service analogue of a component.
#[derive(Debug, PartialEq, Eq)]
pub struct Service {
    pub bom_ref: Option<String>,
    pub provider: Option<OrganizationalEntity>,
    pub group: Option<String>,
    pub name: String,
    pub version: Option<String>,
    pub description: Option<String>,
    pub endpoints: Option<Vec<String>>,
    pub authenticated: Option<bool>,
    pub x_trust_boundary: Option<bool>,
    pub data: Option<Vec<DataClassification>>,
    pub licenses: Option<Licenses>,
    pub external_references: Option<Vec<ExternalReference>>,
    pub properties: Option<Vec<Property>>,
    pub services: Option<Vec<Service>>,
    pub signature: Option<Signature>,
}

pub struct ServiceView {
    pub bom_ref: Option<Seq<char>>,
    pub provider: Option<OrganizationalEntityView>,
    pub group: Option<Seq<char>>,
    pub name: Seq<char>,
    pub version: Option<Seq<char>>,
    pub description: Option<Seq<char>>,
    pub endpoints: Option<Seq<Seq<char>>>,
    pub authenticated: Option<bool>,
    pub x_trust_boundary: Option<bool>,
    pub data: Option<Seq<DataClassificationView>>,
    pub licenses: Option<LicensesView>,
    pub external_references: Option<Seq<ExternalReferenceView>>,
    pub properties: Option<Seq<PropertyView>>,
    pub services: Option<Seq<ServiceView>>,
    pub signature: Option<SignatureView>,
}

impl DeepView for Service {
    type V = ServiceView;

    open spec fn deep_view(&self) -> ServiceView
        decreases self,
    {
        ServiceView {
            bom_ref: self.bom_ref.deep_view(),
            provider: self.provider.deep_view(),
            group: self.group.deep_view(),
            name: self.name.deep_view(),
            version: self.version.deep_view(),
            description: self.description.deep_view(),
            endpoints: self.endpoints.deep_view(),
            authenticated: self.authenticated,
            x_trust_boundary: self.x_trust_boundary,
            data: self.data.deep_view(),
            licenses: self.licenses.deep_view(),
            external_references: self.external_references.deep_view(),
            properties: self.properties.deep_view(),
            services: match &self.services {
                Some(v) => Some(services_view(v@)),
                None => None,
            },
            signature: self.signature.deep_view(),
        }
    }
}

/// Elementwise view of a sequence of services.
pub open spec fn services_view(s: Seq<Service>) -> Seq<ServiceView>
    decreases s,
{
    if s.len() == 0 {
        Seq::empty()
    } else {
        seq![s[0].deep_view()] + services_view(s.subrange(1, s.len() as int))
    }
}

pub proof fn lemma_services_view_elts(s: Seq<Service>)
    ensures
        services_view(s).len() == s.len(),
        forall|i: int| 0 <= i < s.len() ==> services_view(s)[i] == s[i].deep_view(),
    decreases s.len(),
{
    if s.len() > 0 {
        let rest = s.subrange(1, s.len() as int);
        lemma_services_view_elts(rest);
        assert(services_view(s) == seq![s[0].deep_view()] + services_view(rest));
        assert forall|i: int| 0 <= i < s.len() implies services_view(s)[i]
            == s[i].deep_view() by {
            if i > 0 {
                assert(rest[i - 1] == s[i]);
                assert(services_view(s)[i] == services_view(rest)[i - 1]);
            }
        }
    }
}

/// The elementwise view of a service vector equals its deep view.
pub proof fn lemma_services_deep(v: Vec<Service>)
    ensures
        services_view(v@) == v.deep_view(),
{
    lemma_services_view_elts(v@);
    assert(services_view(v@) =~= v.deep_view());
}

/// The origin of a vulnerability record.
#[derive(Debug, PartialEq, Eq)]
pub struct VulnerabilitySource {
    pub name: Option<String>,
    pub url: Option<String>,
}

pub struct VulnerabilitySourceView {
    pub name: Option<Seq<char>>,
    pub url: Option<Seq<char>>,
}

impl DeepView for VulnerabilitySource {
    type V = VulnerabilitySourceView;

    open spec fn deep_view(&self) -> VulnerabilitySourceView {
        VulnerabilitySourceView { name: self.name.deep_view(), url: self.url.deep_view() }
    }
}

/// The analysis state machine of a vulnerability: state, justification,
/// responses and free-text detail.
#[derive(Debug, PartialEq, Eq)]
pub struct VulnerabilityAnalysis {
    pub state: Option<String>,
    pub justification: Option<String>,
    pub responses: Option<Vec<String>>,
    pub detail: Option<String>,
}

pub struct VulnerabilityAnalysisView {
    pub state: Option<Seq<char>>,
    pub justification: Option<Seq<char>>,
    pub responses: Option<Seq<Seq<char>>>,
    pub detail: Option<Seq<char>>,
}

impl DeepView for VulnerabilityAnalysis {
    type V = VulnerabilityAnalysisView;

    open spec fn deep_view(&self) -> VulnerabilityAnalysisView {
        VulnerabilityAnalysisView {
            state: self.state.deep_view(),
            justification: self.justification.deep_view(),
            responses: self.responses.deep_view(),
            detail: self.detail.deep_view(),
        }
    }
}

/// A reference by which a vulnerability is also known elsewhere.
#[derive(Debug, PartialEq, Eq)]
pub struct VulnerabilityReference {
    pub id: Option<String>,
    pub source: Option<VulnerabilitySource>,
}

pub struct VulnerabilityReferenceView {
    pub id: Option<Seq<char>>,
    pub source: Option<VulnerabilitySourceView>,
}

impl DeepView for VulnerabilityReference {
    type V = VulnerabilityReferenceView;

    open spec fn deep_view(&self) -> VulnerabilityReferenceView {
        VulnerabilityReferenceView { id: self.id.deep_view(), source: self.source.deep_view() }
    }
}

/// A CVSS-style rating.  The score is carried as its decimal wire text,
/// opaquely: the engine never interprets the number.
#[derive(Debug, PartialEq, Eq)]
pub struct Rating {
    pub source: Option<VulnerabilitySource>,
    pub score: Option<String>,
    pub severity: Option<String>,
    pub method: Option<String>,
    pub vector: Option<String>,
    pub justification: Option<String>,
}

pub struct RatingView {
    pub source: Option<VulnerabilitySourceView>,
    pub score: Option<Seq<char>>,
    pub severity: Option<Seq<char>>,
    pub method: Option<Seq<char>>,
    pub vector: Option<Seq<char>>,
    pub justification: Option<Seq<char>>,
}

impl DeepView for Rating {
    type V = RatingView;

    open spec fn deep_view(&self) -> RatingView {
        RatingView {
            source: self.source.deep_view(),
            score: self.score.deep_view(),
            severity: self.severity.deep_view(),
            method: self.method.deep_view(),
            vector: self.vector.deep_view(),
            justification: self.justification.deep_view(),
        }
    }
}

/// A published advisory about a vulnerability.
#[derive(Debug, PartialEq, Eq)]
pub struct Advisory {
    pub title: Option<String>,
    pub url: String,
}

pub struct AdvisoryView {
    pub title: Option<Seq<char>>,
    pub url: Seq<char>,
}

impl DeepView for Advisory {
    type V = AdvisoryView;

    open spec fn deep_view(&self) -> AdvisoryView {
        AdvisoryView { title: self.title.deep_view(), url: self.url.deep_view() }
    }
}

/// Who found and reported a vulnerability.
#[derive(Debug, PartialEq, Eq)]
pub struct VulnerabilityCredits {
    pub organizations: Option<Vec<OrganizationalEntity>>,
    pub individuals: Option<Vec<OrganizationalContact>>,
}

pub struct VulnerabilityCreditsView {
    pub organizations: Option<Seq<OrganizationalEntityView>>,
    pub individuals: Option<Seq<OrganizationalContactView>>,
}

impl DeepView for VulnerabilityCredits {
    type V = VulnerabilityCreditsView;

    open spec fn deep_view(&self) -> VulnerabilityCreditsView {
        VulnerabilityCreditsView {
            organizations: self.organizations.deep_view(),
            individuals: self.individuals.deep_view(),
        }
    }
}

/// One entry of an affected target's version list: a single version or a
/// range, with the status of the target there.
#[derive(Debug, PartialEq, Eq)]
pub struct VersionSpec {
    pub version: Option<String>,
    pub range: Option<String>,
    pub status: Option<String>,
}

pub struct VersionSpecView {
    pub version: Option<Seq<char>>,
    pub range: Option<Seq<char>>,
    pub status: Option<Seq<char>>,
}

impl DeepView for VersionSpec {
    type V = VersionSpecView;

    open spec fn deep_view(&self) -> VersionSpecView {
        VersionSpecView {
            version: self.version.deep_view(),
            range: self.range.deep_view(),
            status: self.status.deep_view(),
        }
    }
}

/// A component or service a vulnerability affects, named by reference.
#[derive(Debug, PartialEq, Eq)]
pub struct Target {
    pub target_ref: String,
    pub versions: Option<Vec<VersionSpec>>,
}

pub struct TargetView {
    pub target_ref: Seq<char>,
    pub versions: Option<Seq<VersionSpecView>>,
}

impl DeepView for Target {
    type V = TargetView;

    open spec fn deep_view(&self) -> TargetView {
        TargetView {
            target_ref: self.target_ref.deep_view(),
            versions: self.versions.deep_view(),
        }
    }
}

/// A vulnerability record.  Only representable from schema version 1.4 on.
#[derive(Debug, PartialEq, Eq)]
pub struct Vulnerability {
    pub bom_ref: Option<String>,
    pub id: Option<String>,
    pub source: Option<VulnerabilitySource>,
    pub references: Option<Vec<VulnerabilityReference>>,
    pub ratings: Option<Vec<Rating>>,
    pub cwes: Option<Vec<u32>>,
    pub description: Option<String>,
    pub detail: Option<String>,
    pub recommendation: Option<String>,
    pub advisories: Option<Vec<Advisory>>,
    pub created: Option<String>,
    pub published: Option<String>,
    pub updated: Option<String>,
    pub credits: Option<VulnerabilityCredits>,
    pub tools: Option<Vec<Tool>>,
    pub analysis: Option<VulnerabilityAnalysis>,
    pub affects: Option<Vec<Target>>,
    pub properties: Option<Vec<Property>>,
}

pub struct VulnerabilityView {
    pub bom_ref: Option<Seq<char>>,
    pub id: Option<Seq<char>>,
    pub source: Option<VulnerabilitySourceView>,
    pub references: Option<Seq<VulnerabilityReferenceView>>,
    pub ratings: Option<Seq<RatingView>>,
    pub cwes: Option<Seq<u32>>,
    pub description: Option<Seq<char>>,
    pub detail: Option<Seq<char>>,
    pub recommendation: Option<Seq<char>>,
    pub advisories: Option<Seq<AdvisoryView>>,
    pub created: Option<Seq<char>>,
    pub published: Option<Seq<char>>,
    pub updated: Option<Seq<char>>,
    pub credits: Option<VulnerabilityCreditsView>,
    pub tools: Option<Seq<ToolView>>,
    pub analysis: Option<VulnerabilityAnalysisView>,
    pub affects: Option<Seq<TargetView>>,
    pub properties: Option<Seq<PropertyView>>,
}

impl DeepView for Vulnerability {
    type V = VulnerabilityView;

    open spec fn deep_view(&self) -> VulnerabilityView {
        VulnerabilityView {
            bom_ref: self.bom_ref.deep_view(),
            id: self.id.deep_view(),
            source: self.source.deep_view(),
            references: self.references.deep_view(),
            ratings: self.ratings.deep_view(),
            cwes: self.cwes.deep_view(),
            description: self.description.deep_view(),
            detail: self.detail.deep_view(),
            recommendation: self.recommendation.deep_view(),
            advisories: self.advisories.deep_view(),
            created: self.created.deep_view(),
            published: self.published.deep_view(),
            updated: self.updated.deep_view(),
            credits: self.credits.deep_view(),
            tools: self.tools.deep_view(),
            analysis: self.analysis.deep_view(),
            affects: self.affects.deep_view(),
            properties: self.properties.deep_view(),
        }
    }
}

/// Document-level provenance.
#[derive(Debug, PartialEq, Eq)]
pub struct Metadata {
    pub timestamp: Option<String>,
    pub tools: Option<Vec<Tool>>,
    pub authors: Option<Vec<OrganizationalContact>>,
    pub component: Option<Component>,
    pub manufacture: Option<OrganizationalEntity>,
    pub supplier: Option<OrganizationalEntity>,
    pub licenses: Option<Licenses>,
    pub properties: Option<Vec<Property>>,
}

pub struct MetadataView {
    pub timestamp: Option<Seq<char>>,
    pub tools: Option<Seq<ToolView>>,
    pub authors: Option<Seq<OrganizationalContactView>>,
    pub component: Option<ComponentView>,
    pub manufacture: Option<OrganizationalEntityView>,
    pub supplier: Option<OrganizationalEntityView>,
    pub licenses: Option<LicensesView>,
    pub properties: Option<Seq<PropertyView>>,
}

impl DeepView for Metadata {
    type V = MetadataView;

    open spec fn deep_view(&self) -> MetadataView {
        MetadataView {
            timestamp: self.timestamp.deep_view(),
            tools: self.tools.deep_view(),
            authors: self.authors.deep_view(),
            component: self.component.deep_view(),
            manufacture: self.manufacture.deep_view(),
            supplier: self.supplier.deep_view(),
            licenses: self.licenses.deep_view(),
            properties: self.properties.deep_view(),
        }
    }
}

/// The root of the internal model.
///
/// Absent optional sections serialize as absent, never as empty; a present
/// but empty section (an empty `components` list) stays a present empty
/// section.  A document whose `version` attribute is absent defaults to `1`
/// on read; an absent `serialNumber` stays absent.
#[derive(Debug, PartialEq, Eq)]
pub struct Bom {
    pub version: u32,
    pub serial_number: Option<String>,
    pub metadata: Option<Metadata>,
    pub components: Option<Vec<Component>>,
    pub services: Option<Vec<Service>>,
    pub external_references: Option<Vec<ExternalReference>>,
    pub dependencies: Option<Vec<Dependency>>,
    pub compositions: Option<Vec<Composition>>,
    pub properties: Option<Vec<Property>>,
    pub vulnerabilities: Option<Vec<Vulnerability>>,
    pub signature: Option<Signature>,
}

pub struct BomView {
    pub version: u32,
    pub serial_number: Option<Seq<char>>,
    pub metadata: Option<MetadataView>,
    pub components: Option<Seq<ComponentView>>,
    pub services: Option<Seq<ServiceView>>,
    pub external_references: Option<Seq<ExternalReferenceView>>,
    pub dependencies: Option<Seq<DependencyView>>,
    pub compositions: Option<Seq<CompositionView>>,
    pub properties: Option<Seq<PropertyView>>,
    pub vulnerabilities: Option<Seq<VulnerabilityView>>,
    pub signature: Option<SignatureView>,
}

impl DeepView for Bom {
    type V = BomView;

    open spec fn deep_view(&self) -> BomView {
        BomView {
            version: self.version,
            serial_number: self.serial_number.deep_view(),
            metadata: self.metadata.deep_view(),
            components: self.components.deep_view(),
            services: self.services.deep_view(),
            external_references: self.external_references.deep_view(),
            dependencies: self.dependencies.deep_view(),
            compositions: self.compositions.deep_view(),
            properties: self.properties.deep_view(),
            vulnerabilities: self.vulnerabilities.deep_view(),
            signature: self.signature.deep_view(),
        }
    }
}

/// Whether a component carries an enveloped signature, sub-components
/// included.
pub open spec fn component_has_signature(c: ComponentView) -> bool
    decreases c,
{
    c.signature is Some || (match c.components {
        Some(s) => components_have_signature(s),
        None => false,
    })
}

/// Whether any component of the sequence carries an enveloped signature.
pub open spec fn components_have_signature(s: Seq<ComponentView>) -> bool
    decreases s,
{
    if s.len() == 0 {
        false
    } else {
        component_has_signature(s[0]) || components_have_signature(s.subrange(1, s.len() as int))
    }
}

/// Whether a service carries an enveloped signature, sub-services included.
pub open spec fn service_has_signature(s: ServiceView) -> bool
    decreases s,
{
    s.signature is Some || (match s.services {
        Some(subs) => services_have_signature(subs),
        None => false,
    })
}

/// Whether any service of the sequence carries an enveloped signature.
pub open spec fn services_have_signature(s: Seq<ServiceView>) -> bool
    decreases s,
{
    if s.len() == 0 {
        false
    } else {
        service_has_signature(s[0]) || services_have_signature(s.subrange(1, s.len() as int))
    }
}

/// Whether any composition of the sequence carries an enveloped signature.
pub open spec fn compositions_have_signature(s: Seq<CompositionView>) -> bool
    decreases s,
{
    if s.len() == 0 {
        false
    } else {
        s[0].signature is Some || compositions_have_signature(s.subrange(1, s.len() as int))
    }
}

/// Whether the model carries an enveloped signature anywhere: on the root,
/// on the primary component, or on any component, service or composition.
pub open spec fn bom_has_signature(b: BomView) -> bool {
    ||| b.signature is Some
    ||| (match b.metadata {
        Some(m) => match m.component {
            Some(c) => component_has_signature(c),
            None => false,
        },
        None => false,
    })
    ||| (match b.components {
        Some(s) => components_have_signature(s),
        None => false,
    })
    ||| (match b.services {
        Some(s) => services_have_signature(s),
        None => false,
    })
    ||| (match b.compositions {
        Some(s) => compositions_have_signature(s),
        None => false,
    })
}

/// Whether a component carries an enveloped signature, sub-components
/// included.
pub fn comp_has_sig(c: &Component) -> (r: bool)
    ensures
        r == component_has_signature(c.deep_view()),
    decreases *c,
{
    if c.signature.is_some() {
        return true;
    }
    match &c.components {
        Some(subs) => {
            let r = comps_have_sig(subs);
            proof {
                lemma_components_deep(*subs);
            }
            r
        },
        None => false,
    }
}

/// Whether any component of the vector carries an enveloped signature.
pub fn comps_have_sig(items: &Vec<Component>) -> (r: bool)
    ensures
        r == components_have_signature(items.deep_view()),
    decreases *items,
{
    let ghost dv = items.deep_view();
    proof {
        assert(dv.subrange(0, dv.len() as int) =~= dv);
    }
    let n = items.len();
    let mut k: usize = 0;
    while k < n
        invariant
            0 <= k <= n,
            n == items@.len(),
            dv == items.deep_view(),
            components_have_signature(dv) == components_have_signature(
                dv.subrange(k as int, dv.len() as int),
            ),
        decreases n - k,
    {
        let ghost rest = dv.subrange(k as int, dv.len() as int);
        proof {
            assert(rest[0] == dv[k as int]);
            assert(rest.subrange(1, rest.len() as int) =~= dv.subrange(
                k + 1,
                dv.len() as int,
            ));
        }
        if comp_has_sig(&items[k]) {
            return true;
        }
        k = k + 1;
    }
    proof {
        assert(dv.subrange(n as int, dv.len() as int) =~= Seq::<ComponentView>::empty());
    }
    false
}

/// Whether a service carries an enveloped signature, sub-services included.
pub fn svc_has_sig(s: &Service) -> (r: bool)
    ensures
        r == service_has_signature(s.deep_view()),
    decreases *s,
{
    if s.signature.is_some() {
        return true;
    }
    match &s.services {
        Some(subs) => {
            let r = svcs_have_sig(subs);
            proof {
                lemma_services_deep(*subs);
            }
            r
        },
        None => false,
    }
}

/// Whether any service of the vector carries an enveloped signature.
pub fn svcs_have_sig(items: &Vec<Service>) -> (r: bool)
    ensures
        r == services_have_signature(items.deep_view()),
    decreases *items,
{
    let ghost dv = items.deep_view();
    proof {
        assert(dv.subrange(0, dv.len() as int) =~= dv);
    }
    let n = items.len();
    let mut k: usize = 0;
    while k < n
        invariant
            0 <= k <= n,
            n == items@.len(),
            dv == items.deep_view(),
            services_have_signature(dv) == services_have_signature(
                dv.subrange(k as int, dv.len() as int),
            ),
        decreases n - k,
    {
        let ghost rest = dv.subrange(k as int, dv.len() as int);
        proof {
            assert(rest[0] == dv[k as int]);
            assert(rest.subrange(1, rest.len() as int) =~= dv.subrange(
                k + 1,
                dv.len() as int,
            ));
        }
        if svc_has_sig(&items[k]) {
            return true;
        }
        k = k + 1;
    }
    proof {
        assert(dv.subrange(n as int, dv.len() as int) =~= Seq::<ServiceView>::empty());
    }
    false
}

/// Whether any composition of the vector carries an enveloped signature.
pub fn comps_list_have_sig(items: &Vec<Composition>) -> (r: bool)
    ensures
        r == compositions_have_signature(items.deep_view()),
{
    let ghost dv = items.deep_view();
    proof {
        assert(dv.subrange(0, dv.len() as int) =~= dv);
    }
    let n = items.len();
    let mut k: usize = 0;
    while k < n
        invariant
            0 <= k <= n,
            n == items@.len(),
            dv == items.deep_view(),
            compositions_have_signature(dv) == compositions_have_signature(
                dv.subrange(k as int, dv.len() as int),
            ),
        decreases n - k,
    {
        let ghost rest = dv.subrange(k as int, dv.len() as int);
        proof {
            assert(rest[0] == dv[k as int]);
            assert(rest.subrange(1, rest.len() as int) =~= dv.subrange(
                k + 1,
                dv.len() as int,
            ));
        }
        if items[k].signature.is_some() {
            return true;
        }
        k = k + 1;
    }
    proof {
        assert(dv.subrange(n as int, dv.len() as int) =~= Seq::<CompositionView>::empty());
    }
    false
}

/// Whether the model carries an enveloped signature anywhere.
pub fn bom_has_sig(b: &Bom) -> (r: bool)
    ensures
        r == bom_has_signature(b.deep_view()),
{
    if b.signature.is_some() {
        return true;
    }
    if let Some(m) = &b.metadata {
        if let Some(c) = &m.component {
            if comp_has_sig(c) {
                return true;
            }
        }
    }
    if let Some(s) = &b.components {
        if comps_have_sig(s) {
            return true;
        }
    }
    if let Some(s) = &b.services {
        if svcs_have_sig(s) {
            return true;
        }
    }
    if let Some(s) = &b.compositions {
        if comps_list_have_sig(s) {
            return true;
        }
    }
    false
}

impl SpecVersion {
    /// The wire spelling of the version, `"1.2"` through `"1.5"`.
    pub open spec fn spec_label(self) -> Seq<char> {
        match self {
            SpecVersion::V1_2 => "1.2"@,
            SpecVersion::V1_3 => "1.3"@,
            SpecVersion::V1_4 => "1.4"@,
            SpecVersion::V1_5 => "1.5"@,
        }
    }

    /// The wire spelling of the version, `"1.2"` through `"1.5"`.
    pub fn label(&self) -> (r: &'static str)
        ensures
            r@ == self.spec_label(),
    {
        match self {
            SpecVersion::V1_2 => "1.2",
            SpecVersion::V1_3 => "1.3",
            SpecVersion::V1_4 => "1.4",
            SpecVersion::V1_5 => "1.5",
        }
    }

    /// The XML namespace of the version.
    pub open spec fn spec_namespace(self) -> Seq<char> {
        match self {
            SpecVersion::V1_2 => "http://cyclonedx.org/schema/bom/1.2"@,
            SpecVersion::V1_3 => "http://cyclonedx.org/schema/bom/1.3"@,
            SpecVersion::V1_4 => "http://cyclonedx.org/schema/bom/1.4"@,
            SpecVersion::V1_5 => "http://cyclonedx.org/schema/bom/1.5"@,
        }
    }

    /// The XML namespace of the version.
    pub fn namespace(&self) -> (r: &'static str)
        ensures
            r@ == self.spec_namespace(),
    {
        match self {
            SpecVersion::V1_2 => "http://cyclonedx.org/schema/bom/1.2",
            SpecVersion::V1_3 => "http://cyclonedx.org/schema/bom/1.3",
            SpecVersion::V1_4 => "http://cyclonedx.org/schema/bom/1.4",
            SpecVersion::V1_5 => "http://cyclonedx.org/schema/bom/1.5",
        }
    }

    /// Whether the version carries vulnerability records and enveloped
    /// signatures; both entered the schema with version 1.4.
    pub open spec fn spec_supports_signed_extensions(self) -> bool {
        match self {
            SpecVersion::V1_2 => false,
            SpecVersion::V1_3 => false,
            SpecVersion::V1_4 => true,
            SpecVersion::V1_5 => true,
        }
    }

    /// Whether the version carries vulnerability records and enveloped
    /// signatures; both entered the schema with version 1.4.
    pub fn supports_signed_extensions(&self) -> (r: bool)
        ensures
            r == self.spec_supports_signed_extensions(),
    {
        match self {
            SpecVersion::V1_2 => false,
            SpecVersion::V1_3 => false,
            SpecVersion::V1_4 => true,
            SpecVersion::V1_5 => true,
        }
    }
}

} // verus!
