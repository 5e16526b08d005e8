//! XML codec for dependencies, compositions and vulnerability records.

use vstd::prelude::*;

use crate::errors::{Error, ErrorView};
use crate::model::{
    Composition, CompositionView, Dependency, DependencyView, SignatureView, Vulnerability,
    VulnerabilityAnalysis, VulnerabilityAnalysisView, VulnerabilitySource,
    VulnerabilitySourceView, VulnerabilityView,
};
use crate::scalars::{parse_u32, parse_u32_spec, u32_dec_str, u32_to_string};
use crate::xml_base::{
    evname_eq, ex, find_req_attr, local_is, p_skip, p_text_tag, pres, push_end, push_start,
    push_start_attrs, push_text_tag, read_text_tag, skip_element, spec_attr, sx, sxa,
    unexpected, w_opt_text_tag, w_ref_list, w_text_list, w_text_tag, ChildWrite,
};
use crate::xml_io::{Ev, EvName, EvNameView, EvView};
use crate::xml_license::{opt_attr, p_licenses, w_licenses};
use crate::xml_list::{
    p_list, p_ref_items, p_text_items, push_opt_text_items, read_list, read_ref_items,
    read_text_items, w_opt_text_items, ChildRead, PushChild,
};
use crate::xml_simple::{p_signature_fields, push_signature, read_signature, w_signature};

verus! {

/// The events of a `dependency` element: the `ref` attribute plus one empty
/// `dependency` child per dependent reference.
pub open spec fn w_dependency(d: DependencyView) -> Seq<EvView> {
    seq![sxa("dependency"@, seq![("ref"@, d.dependency_ref)])] + w_ref_list(
        d.depends_on,
        "dependency"@,
    ) + seq![ex("dependency"@)]
}

impl ChildWrite for DependencyView {
    open spec fn child_events(self, tag: Seq<char>) -> Seq<EvView> {
        w_dependency(self)
    }
}

/// Writes a `dependency` element.
pub fn push_dependency(out: &mut Vec<Ev>, d: &Dependency)
    ensures
        final(out).deep_view() == old(out).deep_view() + w_dependency(d.deep_view()),
{
    let mut attrs: Vec<(String, String)> = Vec::new();
    crate::xml_base::push_attr(&mut attrs, "ref", &d.dependency_ref);
    proof {
        assert(attrs.deep_view() =~= seq![(("ref"@), d.dependency_ref@)]);
    }
    push_start_attrs(out, "dependency", attrs);
    crate::xml_list::push_ref_list_inline(out, "dependency", &d.depends_on);
    push_end(out, "dependency");
    proof {
        assert(final(out).deep_view() =~= old(out).deep_view() + w_dependency(d.deep_view()));
    }
}

impl PushChild for Dependency {
    fn push_child(out: &mut Vec<Ev>, c: &Self, tag: &str) {
        push_dependency(out, c);
    }
}

/// What reading a `dependency` element yields: its required `ref` attribute,
/// then empty `dependency` children naming what it depends on.
pub open spec fn p_dependency(
    evs: Seq<EvView>,
    i: int,
    open: EvNameView,
    attrs: Seq<(Seq<char>, Seq<char>)>,
) -> Result<(DependencyView, int), ErrorView> {
    match spec_attr(attrs, "ref"@) {
        None => Err(
            ErrorView::RequiredDataMissing { required_field: "ref"@, element: "dependency"@ },
        ),
        Some(r) => match p_ref_items(evs, i, open, "dependency"@, Seq::empty()) {
            Ok((ds, j)) => Ok((DependencyView { dependency_ref: r, depends_on: ds }, j)),
            Err(e) => Err(e),
        },
    }
}

impl ChildRead for Dependency {
    open spec fn p_child(
        evs: Seq<EvView>,
        i: int,
        open: EvNameView,
        attrs: Seq<(Seq<char>, Seq<char>)>,
        sig_ok: bool,
    ) -> Result<(DependencyView, int), ErrorView> {
        p_dependency(evs, i, open, attrs)
    }

    fn read_child(
        evs: &Vec<Ev>,
        i: usize,
        open: &EvName,
        attrs: &Vec<(String, String)>,
        sig_ok: bool,
    ) -> (r: Result<(Dependency, usize), Error>) {
        let dependency_ref = match find_req_attr(attrs, "ref", "dependency") {
            Ok(v) => v,
            Err(e) => {
                return Err(e);
            },
        };
        match read_ref_items(evs, i, open, "dependency") {
            Ok((depends_on, j)) => Ok((Dependency { dependency_ref, depends_on }, j)),
            Err(e) => Err(e),
        }
    }
}

/// The events of a `composition` element: the aggregate, the assembled and
/// depended-on reference lists, and the signature where present.
pub open spec fn w_composition(c: CompositionView) -> Seq<EvView> {
    seq![sx("composition"@)] + w_text_tag("aggregate"@, c.aggregate) + seq![sx("assemblies"@)]
        + w_ref_list(c.assemblies, "assembly"@) + seq![ex("assemblies"@)] + seq![
        sx("dependencies"@),
    ] + w_ref_list(c.dependencies, "dependency"@) + seq![ex("dependencies"@)] + (match c
        .signature {
        Some(s) => w_signature(s),
        None => Seq::empty(),
    }) + seq![ex("composition"@)]
}

impl ChildWrite for CompositionView {
    open spec fn child_events(self, tag: Seq<char>) -> Seq<EvView> {
        w_composition(self)
    }
}

/// Writes a `composition` element.
pub fn push_composition(out: &mut Vec<Ev>, c: &Composition)
    ensures
        final(out).deep_view() == old(out).deep_view() + w_composition(c.deep_view()),
{
    push_start(out, "composition");
    push_text_tag(out, "aggregate", &c.aggregate);
    crate::xml_list::push_ref_items(out, "assemblies", "assembly", &c.assemblies);
    crate::xml_list::push_ref_items(out, "dependencies", "dependency", &c.dependencies);
    if let Some(s) = &c.signature {
        push_signature(out, s);
    }
    push_end(out, "composition");
    proof {
        assert(final(out).deep_view() =~= old(out).deep_view() + w_composition(c.deep_view()));
    }
}

impl PushChild for Composition {
    fn push_child(out: &mut Vec<Ev>, c: &Self, tag: &str) {
        push_composition(out, c);
    }
}

/// What reading the children of a `composition` element yields.  The
/// `aggregate` leaf is required; `signature` is recognized only from schema
/// version 1.4 on and lax-skipped below it.
pub open spec fn p_composition_fields(
    evs: Seq<EvView>,
    i: int,
    open: EvNameView,
    aggregate: Option<Seq<char>>,
    assemblies: Seq<Seq<char>>,
    dependencies: Seq<Seq<char>>,
    signature: Option<SignatureView>,
    sig_ok: bool,
) -> Result<(CompositionView, int), ErrorView>
    decreases evs.len() - i,
{
    if i < 0 || i >= evs.len() {
        Err(unexpected("composition"@))
    } else {
        match evs[i] {
            EvView::Start { name: nm, attrs } => {
                if nm.local == "aggregate"@ {
                    match p_text_tag(evs, i + 1, nm) {
                        Ok((t, j)) => {
                            if i < j <= evs.len() {
                                p_composition_fields(
                                    evs,
                                    j,
                                    open,
                                    Some(t),
                                    assemblies,
                                    dependencies,
                                    signature,
                                    sig_ok,
                                )
                            } else {
                                Err(unexpected("composition"@))
                            }
                        },
                        Err(e) => Err(e),
                    }
                } else if nm.local == "assemblies"@ {
                    match p_ref_items(evs, i + 1, nm, "assembly"@, Seq::empty()) {
                        Ok((s, j)) => {
                            if i < j <= evs.len() {
                                p_composition_fields(
                                    evs,
                                    j,
                                    open,
                                    aggregate,
                                    s,
                                    dependencies,
                                    signature,
                                    sig_ok,
                                )
                            } else {
                                Err(unexpected("composition"@))
                            }
                        },
                        Err(e) => Err(e),
                    }
                } else if nm.local == "dependencies"@ {
                    match p_ref_items(evs, i + 1, nm, "dependency"@, Seq::empty()) {
                        Ok((s, j)) => {
                            if i < j <= evs.len() {
                                p_composition_fields(
                                    evs,
                                    j,
                                    open,
                                    aggregate,
                                    assemblies,
                                    s,
                                    signature,
                                    sig_ok,
                                )
                            } else {
                                Err(unexpected("composition"@))
                            }
                        },
                        Err(e) => Err(e),
                    }
                } else if nm.local == "signature"@ && sig_ok {
                    match p_signature_fields(evs, i + 1, nm, None, None) {
                        Ok((s, j)) => {
                            if i < j <= evs.len() {
                                p_composition_fields(
                                    evs,
                                    j,
                                    open,
                                    aggregate,
                                    assemblies,
                                    dependencies,
                                    Some(s),
                                    sig_ok,
                                )
                            } else {
                                Err(unexpected("composition"@))
                            }
                        },
                        Err(e) => Err(e),
                    }
                } else {
                    match p_skip(evs, i + 1, seq![nm]) {
                        Ok(j) => {
                            if i < j <= evs.len() {
                                p_composition_fields(
                                    evs,
                                    j,
                                    open,
                                    aggregate,
                                    assemblies,
                                    dependencies,
                                    signature,
                                    sig_ok,
                                )
                            } else {
                                Err(unexpected("composition"@))
                            }
                        },
                        Err(e) => Err(e),
                    }
                }
            },
            EvView::End { name: nm } => {
                if nm == open {
                    match aggregate {
                        Some(a) => Ok(
                            (
                                CompositionView {
                                    aggregate: a,
                                    assemblies,
                                    dependencies,
                                    signature,
                                },
                                i + 1,
                            ),
                        ),
                        None => Err(
                            ErrorView::RequiredDataMissing {
                                required_field: "aggregate"@,
                                element: "composition"@,
                            },
                        ),
                    }
                } else {
                    Err(unexpected("composition"@))
                }
            },
            _ => Err(unexpected("composition"@)),
        }
    }
}

/// Reads a `composition` element whose start event is already consumed.
pub fn read_composition(evs: &Vec<Ev>, i: usize, open: &EvName, sig_ok: bool) -> (r: Result<
    (Composition, usize),
    Error,
>)
    requires
        i <= evs@.len(),
    ensures
        pres(r) == p_composition_fields(
            evs.deep_view(),
            i as int,
            open.deep_view(),
            None,
            Seq::empty(),
            Seq::empty(),
            None,
            sig_ok,
        ),
        r matches Ok((_, j)) ==> i < j <= evs.len(),
{
    let ghost dv = evs.deep_view();
    let mut aggregate: Option<String> = None;
    let mut assemblies: Vec<String> = Vec::new();
    let mut dependencies: Vec<String> = Vec::new();
    let mut signature: Option<crate::model::Signature> = None;
    proof {
        assert(assemblies.deep_view() =~= Seq::<Seq<char>>::empty());
        assert(dependencies.deep_view() =~= Seq::<Seq<char>>::empty());
    }
    let mut cur = i;
    loop
        invariant
            i <= cur <= evs@.len(),
            dv == evs.deep_view(),
            dv.len() == evs@.len(),
            p_composition_fields(
                dv,
                i as int,
                open.deep_view(),
                None,
                Seq::empty(),
                Seq::empty(),
                None,
                sig_ok,
            ) == p_composition_fields(
                dv,
                cur as int,
                open.deep_view(),
                aggregate.deep_view(),
                assemblies.deep_view(),
                dependencies.deep_view(),
                signature.deep_view(),
                sig_ok,
            ),
        decreases evs@.len() - cur,
    {
        if cur >= evs.len() {
            return Err(Error::UnexpectedElement { element: "composition".to_owned() });
        }
        match &evs[cur] {
            Ev::Start { name: nm, .. } => {
                if local_is(nm, "aggregate") {
                    match read_text_tag(evs, cur + 1, nm) {
                        Ok((t, j)) => {
                            aggregate = Some(t);
                            cur = j;
                        },
                        Err(e) => {
                            return Err(e);
                        },
                    }
                } else if local_is(nm, "assemblies") {
                    match read_ref_items(evs, cur + 1, nm, "assembly") {
                        Ok((s, j)) => {
                            assemblies = s;
                            cur = j;
                        },
                        Err(e) => {
                            return Err(e);
                        },
                    }
                } else if local_is(nm, "dependencies") {
                    match read_ref_items(evs, cur + 1, nm, "dependency") {
                        Ok((s, j)) => {
                            dependencies = s;
                            cur = j;
                        },
                        Err(e) => {
                            return Err(e);
                        },
                    }
                } else if local_is(nm, "signature") && sig_ok {
                    match read_signature(evs, cur + 1, nm) {
                        Ok((s, j)) => {
                            signature = Some(s);
                            cur = j;
                        },
                        Err(e) => {
                            return Err(e);
                        },
                    }
                } else {
                    match skip_element(evs, cur + 1, nm) {
                        Ok(j) => {
                            cur = j;
                        },
                        Err(e) => {
                            return Err(e);
                        },
                    }
                }
            },
            Ev::End { name: nm } => {
                if evname_eq(nm, open) {
                    match aggregate {
                        Some(a) => {
                            return Ok(
                                (
                                    Composition {
                                        aggregate: a,
                                        assemblies,
                                        dependencies,
                                        signature,
                                    },
                                    cur + 1,
                                ),
                            );
                        },
                        None => {
                            return Err(
                                Error::RequiredDataMissing {
                                    required_field: "aggregate".to_owned(),
                                    element: "composition".to_owned(),
                                },
                            );
                        },
                    }
                } else {
                    return Err(Error::UnexpectedElement { element: "composition".to_owned() });
                }
            },
            _ => {
                return Err(Error::UnexpectedElement { element: "composition".to_owned() });
            },
        }
    }
}

impl ChildRead for Composition {
    open spec fn p_child(
        evs: Seq<EvView>,
        i: int,
        open: EvNameView,
        attrs: Seq<(Seq<char>, Seq<char>)>,
        sig_ok: bool,
    ) -> Result<(CompositionView, int), ErrorView> {
        p_composition_fields(
            evs,
            i,
            open,
            None,
            Seq::empty(),
            Seq::empty(),
            None,
            sig_ok,
        )
    }

    fn read_child(
        evs: &Vec<Ev>,
        i: usize,
        open: &EvName,
        attrs: &Vec<(String, String)>,
        sig_ok: bool,
    ) -> (r: Result<(Composition, usize), Error>) {
        read_composition(evs, i, open, sig_ok)
    }
}

/// The events of a vulnerability `source` element.
pub open spec fn w_vuln_source(s: VulnerabilitySourceView) -> Seq<EvView> {
    seq![sx("source"@)] + w_opt_text_tag("name"@, s.name) + w_opt_text_tag("url"@, s.url)
        + seq![ex("source"@)]
}

/// Writes a vulnerability `source` element.
pub fn push_vuln_source(out: &mut Vec<Ev>, s: &VulnerabilitySource)
    ensures
        final(out).deep_view() == old(out).deep_view() + w_vuln_source(s.deep_view()),
{
    push_start(out, "source");
    crate::xml_base::push_opt_text_tag(out, "name", &s.name);
    crate::xml_base::push_opt_text_tag(out, "url", &s.url);
    push_end(out, "source");
    proof {
        assert(final(out).deep_view() =~= old(out).deep_view() + w_vuln_source(s.deep_view()));
    }
}

/// What reading a vulnerability `source` element yields.
pub open spec fn p_vuln_source_fields(
    evs: Seq<EvView>,
    i: int,
    open: EvNameView,
    name: Option<Seq<char>>,
    url: Option<Seq<char>>,
) -> Result<(VulnerabilitySourceView, int), ErrorView>
    decreases evs.len() - i,
{
    if i < 0 || i >= evs.len() {
        Err(unexpected("source"@))
    } else {
        match evs[i] {
            EvView::Start { name: nm, attrs } => {
                if nm.local == "name"@ {
                    match p_text_tag(evs, i + 1, nm) {
                        Ok((t, j)) => {
                            if i < j <= evs.len() {
                                p_vuln_source_fields(evs, j, open, Some(t), url)
                            } else {
                                Err(unexpected("source"@))
                            }
                        },
                        Err(e) => Err(e),
                    }
                } else if nm.local == "url"@ {
                    match p_text_tag(evs, i + 1, nm) {
                        Ok((t, j)) => {
                            if i < j <= evs.len() {
                                p_vuln_source_fields(evs, j, open, name, Some(t))
                            } else {
                                Err(unexpected("source"@))
                            }
                        },
                        Err(e) => Err(e),
                    }
                } else {
                    match p_skip(evs, i + 1, seq![nm]) {
                        Ok(j) => {
                            if i < j <= evs.len() {
                                p_vuln_source_fields(evs, j, open, name, url)
                            } else {
                                Err(unexpected("source"@))
                            }
                        },
                        Err(e) => Err(e),
                    }
                }
            },
            EvView::End { name: nm } => {
                if nm == open {
                    Ok((VulnerabilitySourceView { name, url }, i + 1))
                } else {
                    Err(unexpected("source"@))
                }
            },
            _ => Err(unexpected("source"@)),
        }
    }
}

/// Reads a vulnerability `source` element whose start event is already
/// consumed.
pub fn read_vuln_source(evs: &Vec<Ev>, i: usize, open: &EvName) -> (r: Result<
    (VulnerabilitySource, usize),
    Error,
>)
    requires
        i <= evs@.len(),
    ensures
        pres(r) == p_vuln_source_fields(evs.deep_view(), i as int, open.deep_view(), None, None),
        r matches Ok((_, j)) ==> i < j <= evs.len(),
{
    let ghost dv = evs.deep_view();
    let mut name: Option<String> = None;
    let mut url: Option<String> = None;
    let mut cur = i;
    loop
        invariant
            i <= cur <= evs@.len(),
            dv == evs.deep_view(),
            dv.len() == evs@.len(),
            p_vuln_source_fields(dv, i as int, open.deep_view(), None, None)
                == p_vuln_source_fields(
                dv,
                cur as int,
                open.deep_view(),
                name.deep_view(),
                url.deep_view(),
            ),
        decreases evs@.len() - cur,
    {
        if cur >= evs.len() {
            return Err(Error::UnexpectedElement { element: "source".to_owned() });
        }
        match &evs[cur] {
            Ev::Start { name: nm, .. } => {
                if local_is(nm, "name") {
                    match read_text_tag(evs, cur + 1, nm) {
                        Ok((t, j)) => {
                            name = Some(t);
                            cur = j;
                        },
                        Err(e) => {
                            return Err(e);
                        },
                    }
                } else if local_is(nm, "url") {
                    match read_text_tag(evs, cur + 1, nm) {
                        Ok((t, j)) => {
                            url = Some(t);
                            cur = j;
                        },
                        Err(e) => {
                            return Err(e);
                        },
                    }
                } else {
                    match skip_element(evs, cur + 1, nm) {
                        Ok(j) => {
                            cur = j;
                        },
                        Err(e) => {
                            return Err(e);
                        },
                    }
                }
            },
            Ev::End { name: nm } => {
                if evname_eq(nm, open) {
                    return Ok((VulnerabilitySource { name, url }, cur + 1));
                } else {
                    return Err(Error::UnexpectedElement { element: "source".to_owned() });
                }
            },
            _ => {
                return Err(Error::UnexpectedElement { element: "source".to_owned() });
            },
        }
    }
}

/// The events of an `analysis` element.
pub open spec fn w_analysis(a: VulnerabilityAnalysisView) -> Seq<EvView> {
    seq![sx("analysis"@)] + w_opt_text_tag("state"@, a.state) + w_opt_text_tag(
        "justification"@,
        a.justification,
    ) + w_opt_text_items("responses"@, "response"@, a.responses) + w_opt_text_tag(
        "detail"@,
        a.detail,
    ) + seq![ex("analysis"@)]
}

/// Writes an `analysis` element.
pub fn push_analysis(out: &mut Vec<Ev>, a: &VulnerabilityAnalysis)
    ensures
        final(out).deep_view() == old(out).deep_view() + w_analysis(a.deep_view()),
{
    push_start(out, "analysis");
    crate::xml_base::push_opt_text_tag(out, "state", &a.state);
    crate::xml_base::push_opt_text_tag(out, "justification", &a.justification);
    push_opt_text_items(out, "responses", "response", &a.responses);
    crate::xml_base::push_opt_text_tag(out, "detail", &a.detail);
    push_end(out, "analysis");
    proof {
        assert(final(out).deep_view() =~= old(out).deep_view() + w_analysis(a.deep_view()));
    }
}

/// What reading an `analysis` element yields.
pub open spec fn p_analysis_fields(
    evs: Seq<EvView>,
    i: int,
    open: EvNameView,
    state: Option<Seq<char>>,
    justification: Option<Seq<char>>,
    responses: Option<Seq<Seq<char>>>,
    detail: Option<Seq<char>>,
) -> Result<(VulnerabilityAnalysisView, int), ErrorView>
    decreases evs.len() - i,
{
    if i < 0 || i >= evs.len() {
        Err(unexpected("analysis"@))
    } else {
        match evs[i] {
            EvView::Start { name: nm, attrs } => {
                if nm.local == "state"@ {
                    match p_text_tag(evs, i + 1, nm) {
                        Ok((t, j)) => {
                            if i < j <= evs.len() {
                                p_analysis_fields(
                                    evs,
                                    j,
                                    open,
                                    Some(t),
                                    justification,
                                    responses,
                                    detail,
                                )
                            } else {
                                Err(unexpected("analysis"@))
                            }
                        },
                        Err(e) => Err(e),
                    }
                } else if nm.local == "justification"@ {
                    match p_text_tag(evs, i + 1, nm) {
                        Ok((t, j)) => {
                            if i < j <= evs.len() {
                                p_analysis_fields(evs, j, open, state, Some(t), responses, detail)
                            } else {
                                Err(unexpected("analysis"@))
                            }
                        },
                        Err(e) => Err(e),
                    }
                } else if nm.local == "responses"@ {
                    match p_text_items(evs, i + 1, nm, "response"@, Seq::empty()) {
                        Ok((s, j)) => {
                            if i < j <= evs.len() {
                                p_analysis_fields(
                                    evs,
                                    j,
                                    open,
                                    state,
                                    justification,
                                    Some(s),
                                    detail,
                                )
                            } else {
                                Err(unexpected("analysis"@))
                            }
                        },
                        Err(e) => Err(e),
                    }
                } else if nm.local == "detail"@ {
                    match p_text_tag(evs, i + 1, nm) {
                        Ok((t, j)) => {
                            if i < j <= evs.len() {
                                p_analysis_fields(
                                    evs,
                                    j,
                                    open,
                                    state,
                                    justification,
                                    responses,
                                    Some(t),
                                )
                            } else {
                                Err(unexpected("analysis"@))
                            }
                        },
                        Err(e) => Err(e),
                    }
                } else {
                    match p_skip(evs, i + 1, seq![nm]) {
                        Ok(j) => {
                            if i < j <= evs.len() {
                                p_analysis_fields(
                                    evs,
                                    j,
                                    open,
                                    state,
                                    justification,
                                    responses,
                                    detail,
                                )
                            } else {
                                Err(unexpected("analysis"@))
                            }
                        },
                        Err(e) => Err(e),
                    }
                }
            },
            EvView::End { name: nm } => {
                if nm == open {
                    Ok(
                        (
                            VulnerabilityAnalysisView { state, justification, responses, detail },
                            i + 1,
                        ),
                    )
                } else {
                    Err(unexpected("analysis"@))
                }
            },
            _ => Err(unexpected("analysis"@)),
        }
    }
}

/// Reads an `analysis` element whose start event is already consumed.
pub fn read_analysis(evs: &Vec<Ev>, i: usize, open: &EvName) -> (r: Result<
    (VulnerabilityAnalysis, usize),
    Error,
>)
    requires
        i <= evs@.len(),
    ensures
        pres(r) == p_analysis_fields(
            evs.deep_view(),
            i as int,
            open.deep_view(),
            None,
            None,
            None,
            None,
        ),
        r matches Ok((_, j)) ==> i < j <= evs.len(),
{
    let ghost dv = evs.deep_view();
    let mut state: Option<String> = None;
    let mut justification: Option<String> = None;
    let mut responses: Option<Vec<String>> = None;
    let mut detail: Option<String> = None;
    let mut cur = i;
    loop
        invariant
            i <= cur <= evs@.len(),
            dv == evs.deep_view(),
            dv.len() == evs@.len(),
            p_analysis_fields(dv, i as int, open.deep_view(), None, None, None, None)
                == p_analysis_fields(
                dv,
                cur as int,
                open.deep_view(),
                state.deep_view(),
                justification.deep_view(),
                responses.deep_view(),
                detail.deep_view(),
            ),
        decreases evs@.len() - cur,
    {
        if cur >= evs.len() {
            return Err(Error::UnexpectedElement { element: "analysis".to_owned() });
        }
        match &evs[cur] {
            Ev::Start { name: nm, .. } => {
                if local_is(nm, "state") {
                    match read_text_tag(evs, cur + 1, nm) {
                        Ok((t, j)) => {
                            state = Some(t);
                            cur = j;
                        },
                        Err(e) => {
                            return Err(e);
                        },
                    }
                } else if local_is(nm, "justification") {
                    match read_text_tag(evs, cur + 1, nm) {
                        Ok((t, j)) => {
                            justification = Some(t);
                            cur = j;
                        },
                        Err(e) => {
                            return Err(e);
                        },
                    }
                } else if local_is(nm, "responses") {
                    match read_text_items(evs, cur + 1, nm, "response") {
                        Ok((s, j)) => {
                            responses = Some(s);
                            cur = j;
                        },
                        Err(e) => {
                            return Err(e);
                        },
                    }
                } else if local_is(nm, "detail") {
                    match read_text_tag(evs, cur + 1, nm) {
                        Ok((t, j)) => {
                            detail = Some(t);
                            cur = j;
                        },
                        Err(e) => {
                            return Err(e);
                        },
                    }
                } else {
                    match skip_element(evs, cur + 1, nm) {
                        Ok(j) => {
                            cur = j;
                        },
                        Err(e) => {
                            return Err(e);
                        },
                    }
                }
            },
            Ev::End { name: nm } => {
                if evname_eq(nm, open) {
                    return Ok(
                        (VulnerabilityAnalysis { state, justification, responses, detail }, cur
                            + 1),
                    );
                } else {
                    return Err(Error::UnexpectedElement { element: "analysis".to_owned() });
                }
            },
            _ => {
                return Err(Error::UnexpectedElement { element: "analysis".to_owned() });
            },
        }
    }
}

} // verus!

verus! {

/// The events of a run of `cwe` leaf elements, one per CWE number.
pub open spec fn w_u32_list(s: Seq<u32>) -> Seq<EvView>
    decreases s.len(),
{
    if s.len() == 0 {
        Seq::empty()
    } else {
        w_text_tag("cwe"@, u32_dec_str(s[0] as int)) + w_u32_list(s.subrange(1, s.len() as int))
    }
}

pub proof fn lemma_w_u32_list_snoc(s: Seq<u32>, c: u32)
    ensures
        w_u32_list(s.push(c)) == w_u32_list(s) + w_text_tag("cwe"@, u32_dec_str(c as int)),
    decreases s.len(),
{
    let whole = s.push(c);
    if s.len() == 0 {
        assert(whole.subrange(1, whole.len() as int) =~= Seq::<u32>::empty());
        assert(w_u32_list(whole.subrange(1, whole.len() as int)) == Seq::<EvView>::empty());
        assert(whole[0] == c);
        assert(w_u32_list(whole) =~= w_u32_list(s) + w_text_tag("cwe"@, u32_dec_str(c as int)));
    } else {
        assert(whole.subrange(1, whole.len() as int) =~= s.subrange(1, s.len() as int).push(c));
        lemma_w_u32_list_snoc(s.subrange(1, s.len() as int), c);
        assert(whole[0] == s[0]);
        assert(w_u32_list(whole) =~= w_u32_list(s) + w_text_tag("cwe"@, u32_dec_str(c as int)));
    }
}

/// The events of an optional `cwes` container.
pub open spec fn w_opt_cwes(o: Option<Seq<u32>>) -> Seq<EvView> {
    match o {
        Some(s) => seq![sx("cwes"@)] + w_u32_list(s) + seq![ex("cwes"@)],
        None => Seq::empty(),
    }
}

/// Writes an optional `cwes` container; absent values emit nothing.
pub fn push_opt_cwes(out: &mut Vec<Ev>, o: &Option<Vec<u32>>)
    ensures
        final(out).deep_view() == old(out).deep_view() + w_opt_cwes(o.deep_view()),
{
    match o {
        Some(items) => {
            push_start(out, "cwes");
            let ghost mid = out.deep_view();
            let n = items.len();
            let mut k: usize = 0;
            proof {
                assert(items@.subrange(0, 0) =~= Seq::<u32>::empty());
                assert(out.deep_view() =~= mid + w_u32_list(items@.subrange(0, 0)));
                assert(items.deep_view() =~= items@);
            }
            while k < n
                invariant
                    0 <= k <= n,
                    n == items@.len(),
                    out.deep_view() == mid + w_u32_list(items@.subrange(0, k as int)),
                decreases n - k,
            {
                let ghost pre = items@.subrange(0, k as int);
                let txt = u32_to_string(items[k]);
                push_text_tag(out, "cwe", &txt);
                proof {
                    assert(items@.subrange(0, k + 1) =~= pre.push(items@[k as int]));
                    lemma_w_u32_list_snoc(pre, items@[k as int]);
                    assert(out.deep_view() =~= mid + w_u32_list(items@.subrange(0, k + 1)));
                }
                k = k + 1;
            }
            proof {
                assert(items@.subrange(0, n as int) =~= items@);
            }
            push_end(out, "cwes");
            proof {
                assert(final(out).deep_view() =~= old(out).deep_view() + w_opt_cwes(
                    o.deep_view(),
                ));
            }
        },
        None => {
            proof {
                assert(out.deep_view() =~= old(out).deep_view() + Seq::<EvView>::empty());
            }
        },
    }
}

/// What reading a `cwes` container yields: `cwe` leaves whose text must be
/// an unsigned integer; other text is a value-parse error naming the
/// element and the text.
pub open spec fn p_cwe_items(
    evs: Seq<EvView>,
    i: int,
    open: EvNameView,
    acc: Seq<u32>,
) -> Result<(Seq<u32>, int), ErrorView>
    decreases evs.len() - i,
{
    if i < 0 || i >= evs.len() {
        Err(unexpected(open.local))
    } else {
        match evs[i] {
            EvView::Start { name: nm, attrs } => {
                if nm.local == "cwe"@ {
                    match p_text_tag(evs, i + 1, nm) {
                        Ok((t, j)) => match parse_u32_spec(t) {
                            Some(n) => {
                                if i < j <= evs.len() {
                                    p_cwe_items(evs, j, open, acc.push(n))
                                } else {
                                    Err(unexpected(open.local))
                                }
                            },
                            None => Err(ErrorView::ValueParse { field: "cwe"@, text: t }),
                        },
                        Err(e) => Err(e),
                    }
                } else {
                    match p_skip(evs, i + 1, seq![nm]) {
                        Ok(j) => {
                            if i < j <= evs.len() {
                                p_cwe_items(evs, j, open, acc)
                            } else {
                                Err(unexpected(open.local))
                            }
                        },
                        Err(e) => Err(e),
                    }
                }
            },
            EvView::End { name: nm } => {
                if nm == open {
                    Ok((acc, i + 1))
                } else {
                    Err(unexpected(open.local))
                }
            },
            _ => Err(unexpected(open.local)),
        }
    }
}

/// Reads a `cwes` container whose start event is already consumed.
pub fn read_cwe_items(evs: &Vec<Ev>, i: usize, open: &EvName) -> (r: Result<
    (Vec<u32>, usize),
    Error,
>)
    requires
        i <= evs@.len(),
    ensures
        pres(r) == p_cwe_items(evs.deep_view(), i as int, open.deep_view(), Seq::empty()),
        r matches Ok((_, j)) ==> i < j <= evs.len(),
{
    let ghost dv = evs.deep_view();
    let mut items: Vec<u32> = Vec::new();
    proof {
        assert(items.deep_view() =~= Seq::<u32>::empty());
    }
    let mut cur = i;
    loop
        invariant
            i <= cur <= evs@.len(),
            dv == evs.deep_view(),
            dv.len() == evs@.len(),
            p_cwe_items(dv, i as int, open.deep_view(), Seq::empty()) == p_cwe_items(
                dv,
                cur as int,
                open.deep_view(),
                items.deep_view(),
            ),
        decreases evs@.len() - cur,
    {
        if cur >= evs.len() {
            return Err(Error::UnexpectedElement { element: open.local.clone() });
        }
        match &evs[cur] {
            Ev::Start { name: nm, .. } => {
                if local_is(nm, "cwe") {
                    match read_text_tag(evs, cur + 1, nm) {
                        Ok((t, j)) => match parse_u32(t.as_str()) {
                            Some(n) => {
                                let ghost pre = items.deep_view();
                                items.push(n);
                                proof {
                                    assert(items.deep_view() =~= pre.push(
                                        items@[pre.len() as int],
                                    ));
                                }
                                cur = j;
                            },
                            None => {
                                return Err(
                                    Error::ValueParse { field: "cwe".to_owned(), text: t },
                                );
                            },
                        },
                        Err(e) => {
                            return Err(e);
                        },
                    }
                } else {
                    match skip_element(evs, cur + 1, nm) {
                        Ok(j) => {
                            cur = j;
                        },
                        Err(e) => {
                            return Err(e);
                        },
                    }
                }
            },
            Ev::End { name: nm } => {
                if evname_eq(nm, open) {
                    return Ok((items, cur + 1));
                } else {
                    return Err(Error::UnexpectedElement { element: open.local.clone() });
                }
            },
            _ => {
                return Err(Error::UnexpectedElement { element: open.local.clone() });
            },
        }
    }
}


} // verus!

verus! {


} // verus!

verus! {

/// The events of a vulnerability `reference` child.
pub open spec fn w_vuln_reference(r: crate::model::VulnerabilityReferenceView) -> Seq<EvView> {
    seq![sx("reference"@)] + w_opt_text_tag("id"@, r.id) + (match r.source {
        Some(s) => w_vuln_source(s),
        None => Seq::empty(),
    }) + seq![ex("reference"@)]
}

impl ChildWrite for crate::model::VulnerabilityReferenceView {
    open spec fn child_events(self, tag: Seq<char>) -> Seq<EvView> {
        w_vuln_reference(self)
    }
}

/// Writes a vulnerability `reference` child.
pub fn push_vuln_reference(out: &mut Vec<Ev>, r: &crate::model::VulnerabilityReference)
    ensures
        final(out).deep_view() == old(out).deep_view() + w_vuln_reference(r.deep_view()),
{
    push_start(out, "reference");
    crate::xml_base::push_opt_text_tag(out, "id", &r.id);
    if let Some(srcv) = &r.source {
        push_vuln_source(out, srcv);
    }
    push_end(out, "reference");
    proof {
        assert(final(out).deep_view() =~= old(out).deep_view() + w_vuln_reference(
            r.deep_view(),
        ));
    }
}

impl PushChild for crate::model::VulnerabilityReference {
    fn push_child(out: &mut Vec<Ev>, c: &Self, tag: &str) {
        push_vuln_reference(out, c);
    }
}

/// What reading a vulnerability `reference` child yields.
pub open spec fn p_vuln_reference_fields(
    evs: Seq<EvView>,
    i: int,
    open: EvNameView,
    id: Option<Seq<char>>,
    source: Option<VulnerabilitySourceView>,
) -> Result<(crate::model::VulnerabilityReferenceView, int), ErrorView>
    decreases evs.len() - i,
{
    if i < 0 || i >= evs.len() {
        Err(unexpected("reference"@))
    } else {
        match evs[i] {
            EvView::Start { name: nm, attrs } => {
                if nm.local == "id"@ {
                    match p_text_tag(evs, i + 1, nm) {
                        Ok((t, j)) => {
                            if i < j <= evs.len() {
                                p_vuln_reference_fields(evs, j, open, Some(t), source)
                            } else {
                                Err(unexpected("reference"@))
                            }
                        },
                        Err(e) => Err(e),
                    }
                } else if nm.local == "source"@ {
                    match p_vuln_source_fields(evs, i + 1, nm, None, None) {
                        Ok((sv, j)) => {
                            if i < j <= evs.len() {
                                p_vuln_reference_fields(evs, j, open, id, Some(sv))
                            } else {
                                Err(unexpected("reference"@))
                            }
                        },
                        Err(e) => Err(e),
                    }
                } else {
                    match p_skip(evs, i + 1, seq![nm]) {
                        Ok(j) => {
                            if i < j <= evs.len() {
                                p_vuln_reference_fields(evs, j, open, id, source)
                            } else {
                                Err(unexpected("reference"@))
                            }
                        },
                        Err(e) => Err(e),
                    }
                }
            },
            EvView::End { name: nm } => {
                if nm == open {
                    Ok((crate::model::VulnerabilityReferenceView { id, source }, i + 1))
                } else {
                    Err(unexpected("reference"@))
                }
            },
            _ => Err(unexpected("reference"@)),
        }
    }
}

impl ChildRead for crate::model::VulnerabilityReference {
    open spec fn p_child(
        evs: Seq<EvView>,
        i: int,
        open: EvNameView,
        attrs: Seq<(Seq<char>, Seq<char>)>,
        sig_ok: bool,
    ) -> Result<(crate::model::VulnerabilityReferenceView, int), ErrorView> {
        p_vuln_reference_fields(evs, i, open, None, None)
    }

    fn read_child(
        evs: &Vec<Ev>,
        i: usize,
        open: &EvName,
        attrs: &Vec<(String, String)>,
        sig_ok: bool,
    ) -> (r: Result<(crate::model::VulnerabilityReference, usize), Error>) {
        let ghost dv = evs.deep_view();
        let mut id: Option<String> = None;
        let mut source: Option<VulnerabilitySource> = None;
        let mut cur = i;
        loop
            invariant
                i <= cur <= evs@.len(),
                dv == evs.deep_view(),
                dv.len() == evs@.len(),
                p_vuln_reference_fields(dv, i as int, open.deep_view(), None, None)
                    == p_vuln_reference_fields(
                    dv,
                    cur as int,
                    open.deep_view(),
                    id.deep_view(),
                    source.deep_view(),
                ),
            decreases evs@.len() - cur,
        {
            if cur >= evs.len() {
                return Err(Error::UnexpectedElement { element: "reference".to_owned() });
            }
            match &evs[cur] {
                Ev::Start { name: nm, .. } => {
                    if local_is(nm, "id") {
                        match read_text_tag(evs, cur + 1, nm) {
                            Ok((t, j)) => {
                                id = Some(t);
                                cur = j;
                            },
                            Err(e) => {
                                return Err(e);
                            },
                        }
                    } else if local_is(nm, "source") {
                        match read_vuln_source(evs, cur + 1, nm) {
                            Ok((sv, j)) => {
                                source = Some(sv);
                                cur = j;
                            },
                            Err(e) => {
                                return Err(e);
                            },
                        }
                    } else {
                        match skip_element(evs, cur + 1, nm) {
                            Ok(j) => {
                                cur = j;
                            },
                            Err(e) => {
                                return Err(e);
                            },
                        }
                    }
                },
                Ev::End { name: nm } => {
                    if evname_eq(nm, open) {
                        return Ok(
                            (crate::model::VulnerabilityReference { id, source }, cur + 1),
                        );
                    } else {
                        return Err(Error::UnexpectedElement { element: "reference".to_owned() });
                    }
                },
                _ => {
                    return Err(Error::UnexpectedElement { element: "reference".to_owned() });
                },
            }
        }
    }
}

/// The events of a `rating` child.
pub open spec fn w_rating(r: crate::model::RatingView) -> Seq<EvView> {
    seq![sx("rating"@)] + (match r.source {
        Some(s) => w_vuln_source(s),
        None => Seq::empty(),
    }) + w_opt_text_tag("score"@, r.score) + w_opt_text_tag("severity"@, r.severity)
        + w_opt_text_tag("method"@, r.method) + w_opt_text_tag("vector"@, r.vector)
        + w_opt_text_tag("justification"@, r.justification) + seq![ex("rating"@)]
}

impl ChildWrite for crate::model::RatingView {
    open spec fn child_events(self, tag: Seq<char>) -> Seq<EvView> {
        w_rating(self)
    }
}

/// Writes a `rating` child.  The score is emitted as the decimal text the
/// model carries, uninterpreted.
#[verifier::rlimit(100)]
pub fn push_rating(out: &mut Vec<Ev>, r: &crate::model::Rating)
    ensures
        final(out).deep_view() == old(out).deep_view() + w_rating(r.deep_view()),
{
    push_start(out, "rating");
    if let Some(srcv) = &r.source {
        push_vuln_source(out, srcv);
    }
    crate::xml_base::push_opt_text_tag(out, "score", &r.score);
    crate::xml_base::push_opt_text_tag(out, "severity", &r.severity);
    crate::xml_base::push_opt_text_tag(out, "method", &r.method);
    crate::xml_base::push_opt_text_tag(out, "vector", &r.vector);
    crate::xml_base::push_opt_text_tag(out, "justification", &r.justification);
    push_end(out, "rating");
    proof {
        assert(final(out).deep_view() =~= old(out).deep_view() + w_rating(r.deep_view()));
    }
}

impl PushChild for crate::model::Rating {
    fn push_child(out: &mut Vec<Ev>, c: &Self, tag: &str) {
        push_rating(out, c);
    }
}

/// What reading a `rating` child yields: every field optional, the score
/// text carried verbatim.
pub open spec fn p_rating_fields(
    evs: Seq<EvView>,
    i: int,
    open: EvNameView,
    source: Option<VulnerabilitySourceView>,
    score: Option<Seq<char>>,
    severity: Option<Seq<char>>,
    method: Option<Seq<char>>,
    vector: Option<Seq<char>>,
    justification: Option<Seq<char>>,
) -> Result<(crate::model::RatingView, int), ErrorView>
    decreases evs.len() - i,
{
    if i < 0 || i >= evs.len() {
        Err(unexpected("rating"@))
    } else {
        match evs[i] {
            EvView::Start { name: nm, attrs } => {
                if nm.local == "source"@ {
                    match p_vuln_source_fields(evs, i + 1, nm, None, None) {
                        Ok((sv, j)) => {
                            if i < j <= evs.len() {
                                p_rating_fields(evs, j, open, Some(sv), score, severity, method,
                                vector, justification)
                            } else {
                                Err(unexpected("rating"@))
                            }
                        },
                        Err(e) => Err(e),
                    }
                } else if nm.local == "score"@ {
                    match p_text_tag(evs, i + 1, nm) {
                        Ok((t, j)) => {
                            if i < j <= evs.len() {
                                p_rating_fields(evs, j, open, source, Some(t), severity, method,
                                vector, justification)
                            } else {
                                Err(unexpected("rating"@))
                            }
                        },
                        Err(e) => Err(e),
                    }
                } else if nm.local == "severity"@ {
                    match p_text_tag(evs, i + 1, nm) {
                        Ok((t, j)) => {
                            if i < j <= evs.len() {
                                p_rating_fields(evs, j, open, source, score, Some(t), method,
                                vector, justification)
                            } else {
                                Err(unexpected("rating"@))
                            }
                        },
                        Err(e) => Err(e),
                    }
                } else if nm.local == "method"@ {
                    match p_text_tag(evs, i + 1, nm) {
                        Ok((t, j)) => {
                            if i < j <= evs.len() {
                                p_rating_fields(evs, j, open, source, score, severity, Some(t),
                                vector, justification)
                            } else {
                                Err(unexpected("rating"@))
                            }
                        },
                        Err(e) => Err(e),
                    }
                } else if nm.local == "vector"@ {
                    match p_text_tag(evs, i + 1, nm) {
                        Ok((t, j)) => {
                            if i < j <= evs.len() {
                                p_rating_fields(evs, j, open, source, score, severity, method,
                                Some(t), justification)
                            } else {
                                Err(unexpected("rating"@))
                            }
                        },
                        Err(e) => Err(e),
                    }
                } else if nm.local == "justification"@ {
                    match p_text_tag(evs, i + 1, nm) {
                        Ok((t, j)) => {
                            if i < j <= evs.len() {
                                p_rating_fields(evs, j, open, source, score, severity, method,
                                vector, Some(t))
                            } else {
                                Err(unexpected("rating"@))
                            }
                        },
                        Err(e) => Err(e),
                    }
                } else {
                    match p_skip(evs, i + 1, seq![nm]) {
                        Ok(j) => {
                            if i < j <= evs.len() {
                                p_rating_fields(evs, j, open, source, score, severity, method,
                                vector, justification)
                            } else {
                                Err(unexpected("rating"@))
                            }
                        },
                        Err(e) => Err(e),
                    }
                }
            },
            EvView::End { name: nm } => {
                if nm == open {
                    Ok(
                        (
                            crate::model::RatingView {
                                source,
                                score,
                                severity,
                                method,
                                vector,
                                justification,
                            },
                            i + 1,
                        ),
                    )
                } else {
                    Err(unexpected("rating"@))
                }
            },
            _ => Err(unexpected("rating"@)),
        }
    }
}

impl ChildRead for crate::model::Rating {
    open spec fn p_child(
        evs: Seq<EvView>,
        i: int,
        open: EvNameView,
        attrs: Seq<(Seq<char>, Seq<char>)>,
        sig_ok: bool,
    ) -> Result<(crate::model::RatingView, int), ErrorView> {
        p_rating_fields(evs, i, open, None, None, None, None, None, None)
    }

    #[verifier::rlimit(100)]
    fn read_child(
        evs: &Vec<Ev>,
        i: usize,
        open: &EvName,
        attrs: &Vec<(String, String)>,
        sig_ok: bool,
    ) -> (r: Result<(crate::model::Rating, usize), Error>) {
        let ghost dv = evs.deep_view();
        let mut source: Option<VulnerabilitySource> = None;
        let mut score: Option<String> = None;
        let mut severity: Option<String> = None;
        let mut method: Option<String> = None;
        let mut vector: Option<String> = None;
        let mut justification: Option<String> = None;
        let mut cur = i;
        loop
            invariant
                i <= cur <= evs@.len(),
                dv == evs.deep_view(),
                dv.len() == evs@.len(),
                p_rating_fields(dv, i as int, open.deep_view(), None, None, None, None, None,
                None) == p_rating_fields(
                    dv,
                    cur as int,
                    open.deep_view(),
                    source.deep_view(),
                    score.deep_view(),
                    severity.deep_view(),
                    method.deep_view(),
                    vector.deep_view(),
                    justification.deep_view(),
                ),
            decreases evs@.len() - cur,
        {
            if cur >= evs.len() {
                return Err(Error::UnexpectedElement { element: "rating".to_owned() });
            }
            match &evs[cur] {
                Ev::Start { name: nm, .. } => {
                    if local_is(nm, "source") {
                        match read_vuln_source(evs, cur + 1, nm) {
                            Ok((sv, j)) => {
                                source = Some(sv);
                                cur = j;
                            },
                            Err(e) => {
                                return Err(e);
                            },
                        }
                    } else if local_is(nm, "score") {
                        match read_text_tag(evs, cur + 1, nm) {
                            Ok((t, j)) => {
                                score = Some(t);
                                cur = j;
                            },
                            Err(e) => {
                                return Err(e);
                            },
                        }
                    } else if local_is(nm, "severity") {
                        match read_text_tag(evs, cur + 1, nm) {
                            Ok((t, j)) => {
                                severity = Some(t);
                                cur = j;
                            },
                            Err(e) => {
                                return Err(e);
                            },
                        }
                    } else if local_is(nm, "method") {
                        match read_text_tag(evs, cur + 1, nm) {
                            Ok((t, j)) => {
                                method = Some(t);
                                cur = j;
                            },
                            Err(e) => {
                                return Err(e);
                            },
                        }
                    } else if local_is(nm, "vector") {
                        match read_text_tag(evs, cur + 1, nm) {
                            Ok((t, j)) => {
                                vector = Some(t);
                                cur = j;
                            },
                            Err(e) => {
                                return Err(e);
                            },
                        }
                    } else if local_is(nm, "justification") {
                        match read_text_tag(evs, cur + 1, nm) {
                            Ok((t, j)) => {
                                justification = Some(t);
                                cur = j;
                            },
                            Err(e) => {
                                return Err(e);
                            },
                        }
                    } else {
                        match skip_element(evs, cur + 1, nm) {
                            Ok(j) => {
                                cur = j;
                            },
                            Err(e) => {
                                return Err(e);
                            },
                        }
                    }
                },
                Ev::End { name: nm } => {
                    if evname_eq(nm, open) {
                        return Ok(
                            (
                                crate::model::Rating {
                                    source,
                                    score,
                                    severity,
                                    method,
                                    vector,
                                    justification,
                                },
                                cur + 1,
                            ),
                        );
                    } else {
                        return Err(Error::UnexpectedElement { element: "rating".to_owned() });
                    }
                },
                _ => {
                    return Err(Error::UnexpectedElement { element: "rating".to_owned() });
                },
            }
        }
    }
}

} // verus!

verus! {

/// The events of an `advisory` child: optional title, required URL.
pub open spec fn w_advisory(a: crate::model::AdvisoryView) -> Seq<EvView> {
    seq![sx("advisory"@)] + w_opt_text_tag("title"@, a.title) + w_text_tag("url"@, a.url)
        + seq![ex("advisory"@)]
}

impl ChildWrite for crate::model::AdvisoryView {
    open spec fn child_events(self, tag: Seq<char>) -> Seq<EvView> {
        w_advisory(self)
    }
}

/// Writes an `advisory` child.
pub fn push_advisory(out: &mut Vec<Ev>, a: &crate::model::Advisory)
    ensures
        final(out).deep_view() == old(out).deep_view() + w_advisory(a.deep_view()),
{
    push_start(out, "advisory");
    crate::xml_base::push_opt_text_tag(out, "title", &a.title);
    push_text_tag(out, "url", &a.url);
    push_end(out, "advisory");
    proof {
        assert(final(out).deep_view() =~= old(out).deep_view() + w_advisory(a.deep_view()));
    }
}

impl PushChild for crate::model::Advisory {
    fn push_child(out: &mut Vec<Ev>, c: &Self, tag: &str) {
        push_advisory(out, c);
    }
}

/// What reading an `advisory` child yields: the URL is required by the end
/// tag.
pub open spec fn p_advisory_fields(
    evs: Seq<EvView>,
    i: int,
    open: EvNameView,
    title: Option<Seq<char>>,
    url: Option<Seq<char>>,
) -> Result<(crate::model::AdvisoryView, int), ErrorView>
    decreases evs.len() - i,
{
    if i < 0 || i >= evs.len() {
        Err(unexpected("advisory"@))
    } else {
        match evs[i] {
            EvView::Start { name: nm, attrs } => {
                if nm.local == "title"@ {
                    match p_text_tag(evs, i + 1, nm) {
                        Ok((t, j)) => {
                            if i < j <= evs.len() {
                                p_advisory_fields(evs, j, open, Some(t), url)
                            } else {
                                Err(unexpected("advisory"@))
                            }
                        },
                        Err(e) => Err(e),
                    }
                } else if nm.local == "url"@ {
                    match p_text_tag(evs, i + 1, nm) {
                        Ok((t, j)) => {
                            if i < j <= evs.len() {
                                p_advisory_fields(evs, j, open, title, Some(t))
                            } else {
                                Err(unexpected("advisory"@))
                            }
                        },
                        Err(e) => Err(e),
                    }
                } else {
                    match p_skip(evs, i + 1, seq![nm]) {
                        Ok(j) => {
                            if i < j <= evs.len() {
                                p_advisory_fields(evs, j, open, title, url)
                            } else {
                                Err(unexpected("advisory"@))
                            }
                        },
                        Err(e) => Err(e),
                    }
                }
            },
            EvView::End { name: nm } => {
                if nm == open {
                    match url {
                        Some(u) => Ok((crate::model::AdvisoryView { title, url: u }, i + 1)),
                        None => Err(
                            ErrorView::RequiredDataMissing {
                                required_field: "url"@,
                                element: "advisory"@,
                            },
                        ),
                    }
                } else {
                    Err(unexpected("advisory"@))
                }
            },
            _ => Err(unexpected("advisory"@)),
        }
    }
}

impl ChildRead for crate::model::Advisory {
    open spec fn p_child(
        evs: Seq<EvView>,
        i: int,
        open: EvNameView,
        attrs: Seq<(Seq<char>, Seq<char>)>,
        sig_ok: bool,
    ) -> Result<(crate::model::AdvisoryView, int), ErrorView> {
        p_advisory_fields(evs, i, open, None, None)
    }

    fn read_child(
        evs: &Vec<Ev>,
        i: usize,
        open: &EvName,
        attrs: &Vec<(String, String)>,
        sig_ok: bool,
    ) -> (r: Result<(crate::model::Advisory, usize), Error>) {
        let ghost dv = evs.deep_view();
        let mut title: Option<String> = None;
        let mut url: Option<String> = None;
        let mut cur = i;
        loop
            invariant
                i <= cur <= evs@.len(),
                dv == evs.deep_view(),
                dv.len() == evs@.len(),
                p_advisory_fields(dv, i as int, open.deep_view(), None, None)
                    == p_advisory_fields(
                    dv,
                    cur as int,
                    open.deep_view(),
                    title.deep_view(),
                    url.deep_view(),
                ),
            decreases evs@.len() - cur,
        {
            if cur >= evs.len() {
                return Err(Error::UnexpectedElement { element: "advisory".to_owned() });
            }
            match &evs[cur] {
                Ev::Start { name: nm, .. } => {
                    if local_is(nm, "title") {
                        match read_text_tag(evs, cur + 1, nm) {
                            Ok((t, j)) => {
                                title = Some(t);
                                cur = j;
                            },
                            Err(e) => {
                                return Err(e);
                            },
                        }
                    } else if local_is(nm, "url") {
                        match read_text_tag(evs, cur + 1, nm) {
                            Ok((t, j)) => {
                                url = Some(t);
                                cur = j;
                            },
                            Err(e) => {
                                return Err(e);
                            },
                        }
                    } else {
                        match skip_element(evs, cur + 1, nm) {
                            Ok(j) => {
                                cur = j;
                            },
                            Err(e) => {
                                return Err(e);
                            },
                        }
                    }
                },
                Ev::End { name: nm } => {
                    if evname_eq(nm, open) {
                        match url {
                            Some(u) => {
                                return Ok((crate::model::Advisory { title, url: u }, cur + 1));
                            },
                            None => {
                                return Err(
                                    Error::RequiredDataMissing {
                                        required_field: "url".to_owned(),
                                        element: "advisory".to_owned(),
                                    },
                                );
                            },
                        }
                    } else {
                        return Err(Error::UnexpectedElement { element: "advisory".to_owned() });
                    }
                },
                _ => {
                    return Err(Error::UnexpectedElement { element: "advisory".to_owned() });
                },
            }
        }
    }
}

/// The events of a `version` child of an affected target: a single version
/// or a range, with the status.
pub open spec fn w_version_spec(v: crate::model::VersionSpecView) -> Seq<EvView> {
    seq![sx("version"@)] + w_opt_text_tag("version"@, v.version) + w_opt_text_tag(
        "range"@,
        v.range,
    ) + w_opt_text_tag("status"@, v.status) + seq![ex("version"@)]
}

impl ChildWrite for crate::model::VersionSpecView {
    open spec fn child_events(self, tag: Seq<char>) -> Seq<EvView> {
        w_version_spec(self)
    }
}

/// Writes a `version` child of an affected target.
pub fn push_version_spec(out: &mut Vec<Ev>, v: &crate::model::VersionSpec)
    ensures
        final(out).deep_view() == old(out).deep_view() + w_version_spec(v.deep_view()),
{
    push_start(out, "version");
    crate::xml_base::push_opt_text_tag(out, "version", &v.version);
    crate::xml_base::push_opt_text_tag(out, "range", &v.range);
    crate::xml_base::push_opt_text_tag(out, "status", &v.status);
    push_end(out, "version");
    proof {
        assert(final(out).deep_view() =~= old(out).deep_view() + w_version_spec(v.deep_view()));
    }
}

impl PushChild for crate::model::VersionSpec {
    fn push_child(out: &mut Vec<Ev>, c: &Self, tag: &str) {
        push_version_spec(out, c);
    }
}

/// What reading a `version` child of an affected target yields.
pub open spec fn p_version_spec_fields(
    evs: Seq<EvView>,
    i: int,
    open: EvNameView,
    version: Option<Seq<char>>,
    range: Option<Seq<char>>,
    status: Option<Seq<char>>,
) -> Result<(crate::model::VersionSpecView, int), ErrorView>
    decreases evs.len() - i,
{
    if i < 0 || i >= evs.len() {
        Err(unexpected("version"@))
    } else {
        match evs[i] {
            EvView::Start { name: nm, attrs } => {
                if nm.local == "version"@ {
                    match p_text_tag(evs, i + 1, nm) {
                        Ok((t, j)) => {
                            if i < j <= evs.len() {
                                p_version_spec_fields(evs, j, open, Some(t), range, status)
                            } else {
                                Err(unexpected("version"@))
                            }
                        },
                        Err(e) => Err(e),
                    }
                } else if nm.local == "range"@ {
                    match p_text_tag(evs, i + 1, nm) {
                        Ok((t, j)) => {
                            if i < j <= evs.len() {
                                p_version_spec_fields(evs, j, open, version, Some(t), status)
                            } else {
                                Err(unexpected("version"@))
                            }
                        },
                        Err(e) => Err(e),
                    }
                } else if nm.local == "status"@ {
                    match p_text_tag(evs, i + 1, nm) {
                        Ok((t, j)) => {
                            if i < j <= evs.len() {
                                p_version_spec_fields(evs, j, open, version, range, Some(t))
                            } else {
                                Err(unexpected("version"@))
                            }
                        },
                        Err(e) => Err(e),
                    }
                } else {
                    match p_skip(evs, i + 1, seq![nm]) {
                        Ok(j) => {
                            if i < j <= evs.len() {
                                p_version_spec_fields(evs, j, open, version, range, status)
                            } else {
                                Err(unexpected("version"@))
                            }
                        },
                        Err(e) => Err(e),
                    }
                }
            },
            EvView::End { name: nm } => {
                if nm == open {
                    Ok((crate::model::VersionSpecView { version, range, status }, i + 1))
                } else {
                    Err(unexpected("version"@))
                }
            },
            _ => Err(unexpected("version"@)),
        }
    }
}

impl ChildRead for crate::model::VersionSpec {
    open spec fn p_child(
        evs: Seq<EvView>,
        i: int,
        open: EvNameView,
        attrs: Seq<(Seq<char>, Seq<char>)>,
        sig_ok: bool,
    ) -> Result<(crate::model::VersionSpecView, int), ErrorView> {
        p_version_spec_fields(evs, i, open, None, None, None)
    }

    fn read_child(
        evs: &Vec<Ev>,
        i: usize,
        open: &EvName,
        attrs: &Vec<(String, String)>,
        sig_ok: bool,
    ) -> (r: Result<(crate::model::VersionSpec, usize), Error>) {
        let ghost dv = evs.deep_view();
        let mut version: Option<String> = None;
        let mut range: Option<String> = None;
        let mut status: Option<String> = None;
        let mut cur = i;
        loop
            invariant
                i <= cur <= evs@.len(),
                dv == evs.deep_view(),
                dv.len() == evs@.len(),
                p_version_spec_fields(dv, i as int, open.deep_view(), None, None, None)
                    == p_version_spec_fields(
                    dv,
                    cur as int,
                    open.deep_view(),
                    version.deep_view(),
                    range.deep_view(),
                    status.deep_view(),
                ),
            decreases evs@.len() - cur,
        {
            if cur >= evs.len() {
                return Err(Error::UnexpectedElement { element: "version".to_owned() });
            }
            match &evs[cur] {
                Ev::Start { name: nm, .. } => {
                    if local_is(nm, "version") {
                        match read_text_tag(evs, cur + 1, nm) {
                            Ok((t, j)) => {
                                version = Some(t);
                                cur = j;
                            },
                            Err(e) => {
                                return Err(e);
                            },
                        }
                    } else if local_is(nm, "range") {
                        match read_text_tag(evs, cur + 1, nm) {
                            Ok((t, j)) => {
                                range = Some(t);
                                cur = j;
                            },
                            Err(e) => {
                                return Err(e);
                            },
                        }
                    } else if local_is(nm, "status") {
                        match read_text_tag(evs, cur + 1, nm) {
                            Ok((t, j)) => {
                                status = Some(t);
                                cur = j;
                            },
                            Err(e) => {
                                return Err(e);
                            },
                        }
                    } else {
                        match skip_element(evs, cur + 1, nm) {
                            Ok(j) => {
                                cur = j;
                            },
                            Err(e) => {
                                return Err(e);
                            },
                        }
                    }
                },
                Ev::End { name: nm } => {
                    if evname_eq(nm, open) {
                        return Ok(
                            (crate::model::VersionSpec { version, range, status }, cur + 1),
                        );
                    } else {
                        return Err(Error::UnexpectedElement { element: "version".to_owned() });
                    }
                },
                _ => {
                    return Err(Error::UnexpectedElement { element: "version".to_owned() });
                },
            }
        }
    }
}

} // verus!

verus! {

/// The events of a `target` child of `affects`: the required `ref` leaf,
/// then the version list where present.
pub open spec fn w_target(t: crate::model::TargetView) -> Seq<EvView> {
    seq![sx("target"@)] + w_text_tag("ref"@, t.target_ref) + crate::xml_list::w_opt_wrapped(
        "versions"@,
        "version"@,
        t.versions,
    ) + seq![ex("target"@)]
}

impl ChildWrite for crate::model::TargetView {
    open spec fn child_events(self, tag: Seq<char>) -> Seq<EvView> {
        w_target(self)
    }
}

/// Writes a `target` child of `affects`.
pub fn push_target(out: &mut Vec<Ev>, t: &crate::model::Target)
    ensures
        final(out).deep_view() == old(out).deep_view() + w_target(t.deep_view()),
{
    push_start(out, "target");
    push_text_tag(out, "ref", &t.target_ref);
    crate::xml_list::push_opt_wrapped(out, "versions", "version", &t.versions);
    push_end(out, "target");
    proof {
        assert(final(out).deep_view() =~= old(out).deep_view() + w_target(t.deep_view()));
    }
}

impl PushChild for crate::model::Target {
    fn push_child(out: &mut Vec<Ev>, c: &Self, tag: &str) {
        push_target(out, c);
    }
}

/// What reading a `target` child yields: the `ref` leaf is required by the
/// end tag.
pub open spec fn p_target_fields(
    evs: Seq<EvView>,
    i: int,
    open: EvNameView,
    target_ref: Option<Seq<char>>,
    versions: Option<Seq<crate::model::VersionSpecView>>,
    sig_ok: bool,
) -> Result<(crate::model::TargetView, int), ErrorView>
    decreases evs.len() - i,
{
    if i < 0 || i >= evs.len() {
        Err(unexpected("target"@))
    } else {
        match evs[i] {
            EvView::Start { name: nm, attrs } => {
                if nm.local == "ref"@ {
                    match p_text_tag(evs, i + 1, nm) {
                        Ok((t, j)) => {
                            if i < j <= evs.len() {
                                p_target_fields(evs, j, open, Some(t), versions, sig_ok)
                            } else {
                                Err(unexpected("target"@))
                            }
                        },
                        Err(e) => Err(e),
                    }
                } else if nm.local == "versions"@ {
                    match p_list::<crate::model::VersionSpec>(evs, i + 1, nm, "version"@,
                    Seq::empty(), sig_ok) {
                        Ok((s, j)) => {
                            if i < j <= evs.len() {
                                p_target_fields(evs, j, open, target_ref, Some(s), sig_ok)
                            } else {
                                Err(unexpected("target"@))
                            }
                        },
                        Err(e) => Err(e),
                    }
                } else {
                    match p_skip(evs, i + 1, seq![nm]) {
                        Ok(j) => {
                            if i < j <= evs.len() {
                                p_target_fields(evs, j, open, target_ref, versions, sig_ok)
                            } else {
                                Err(unexpected("target"@))
                            }
                        },
                        Err(e) => Err(e),
                    }
                }
            },
            EvView::End { name: nm } => {
                if nm == open {
                    match target_ref {
                        Some(tr) => Ok(
                            (crate::model::TargetView { target_ref: tr, versions }, i + 1),
                        ),
                        None => Err(
                            ErrorView::RequiredDataMissing {
                                required_field: "ref"@,
                                element: "target"@,
                            },
                        ),
                    }
                } else {
                    Err(unexpected("target"@))
                }
            },
            _ => Err(unexpected("target"@)),
        }
    }
}

impl ChildRead for crate::model::Target {
    open spec fn p_child(
        evs: Seq<EvView>,
        i: int,
        open: EvNameView,
        attrs: Seq<(Seq<char>, Seq<char>)>,
        sig_ok: bool,
    ) -> Result<(crate::model::TargetView, int), ErrorView> {
        p_target_fields(evs, i, open, None, None, sig_ok)
    }

    fn read_child(
        evs: &Vec<Ev>,
        i: usize,
        open: &EvName,
        attrs: &Vec<(String, String)>,
        sig_ok: bool,
    ) -> (r: Result<(crate::model::Target, usize), Error>) {
        let ghost dv = evs.deep_view();
        let mut target_ref: Option<String> = None;
        let mut versions: Option<Vec<crate::model::VersionSpec>> = None;
        let mut cur = i;
        loop
            invariant
                i <= cur <= evs@.len(),
                dv == evs.deep_view(),
                dv.len() == evs@.len(),
                p_target_fields(dv, i as int, open.deep_view(), None, None, sig_ok)
                    == p_target_fields(
                    dv,
                    cur as int,
                    open.deep_view(),
                    target_ref.deep_view(),
                    versions.deep_view(),
                    sig_ok,
                ),
            decreases evs@.len() - cur,
        {
            if cur >= evs.len() {
                return Err(Error::UnexpectedElement { element: "target".to_owned() });
            }
            match &evs[cur] {
                Ev::Start { name: nm, .. } => {
                    if local_is(nm, "ref") {
                        match read_text_tag(evs, cur + 1, nm) {
                            Ok((t, j)) => {
                                target_ref = Some(t);
                                cur = j;
                            },
                            Err(e) => {
                                return Err(e);
                            },
                        }
                    } else if local_is(nm, "versions") {
                        match read_list::<crate::model::VersionSpec>(evs, cur + 1, nm, "version",
                        sig_ok) {
                            Ok((s, j)) => {
                                versions = Some(s);
                                cur = j;
                            },
                            Err(e) => {
                                return Err(e);
                            },
                        }
                    } else {
                        match skip_element(evs, cur + 1, nm) {
                            Ok(j) => {
                                cur = j;
                            },
                            Err(e) => {
                                return Err(e);
                            },
                        }
                    }
                },
                Ev::End { name: nm } => {
                    if evname_eq(nm, open) {
                        match target_ref {
                            Some(tr) => {
                                return Ok(
                                    (
                                        crate::model::Target { target_ref: tr, versions },
                                        cur + 1,
                                    ),
                                );
                            },
                            None => {
                                return Err(
                                    Error::RequiredDataMissing {
                                        required_field: "ref".to_owned(),
                                        element: "target".to_owned(),
                                    },
                                );
                            },
                        }
                    } else {
                        return Err(Error::UnexpectedElement { element: "target".to_owned() });
                    }
                },
                _ => {
                    return Err(Error::UnexpectedElement { element: "target".to_owned() });
                },
            }
        }
    }
}

/// The events of a `credits` element.
pub open spec fn w_credits(c: crate::model::VulnerabilityCreditsView) -> Seq<EvView> {
    seq![sx("credits"@)] + crate::xml_list::w_opt_wrapped(
        "organizations"@,
        "organization"@,
        c.organizations,
    ) + crate::xml_list::w_opt_wrapped("individuals"@, "individual"@, c.individuals) + seq![
        ex("credits"@),
    ]
}

/// Writes a `credits` element.
pub fn push_credits(out: &mut Vec<Ev>, c: &crate::model::VulnerabilityCredits)
    ensures
        final(out).deep_view() == old(out).deep_view() + w_credits(c.deep_view()),
{
    push_start(out, "credits");
    crate::xml_list::push_opt_wrapped(out, "organizations", "organization", &c.organizations);
    crate::xml_list::push_opt_wrapped(out, "individuals", "individual", &c.individuals);
    push_end(out, "credits");
    proof {
        assert(final(out).deep_view() =~= old(out).deep_view() + w_credits(c.deep_view()));
    }
}

/// What reading a `credits` element yields.
pub open spec fn p_credits_fields(
    evs: Seq<EvView>,
    i: int,
    open: EvNameView,
    organizations: Option<Seq<crate::model::OrganizationalEntityView>>,
    individuals: Option<Seq<crate::model::OrganizationalContactView>>,
    sig_ok: bool,
) -> Result<(crate::model::VulnerabilityCreditsView, int), ErrorView>
    decreases evs.len() - i,
{
    if i < 0 || i >= evs.len() {
        Err(unexpected("credits"@))
    } else {
        match evs[i] {
            EvView::Start { name: nm, attrs } => {
                if nm.local == "organizations"@ {
                    match p_list::<crate::model::OrganizationalEntity>(evs, i + 1, nm,
                    "organization"@, Seq::empty(), sig_ok) {
                        Ok((s, j)) => {
                            if i < j <= evs.len() {
                                p_credits_fields(evs, j, open, Some(s), individuals, sig_ok)
                            } else {
                                Err(unexpected("credits"@))
                            }
                        },
                        Err(e) => Err(e),
                    }
                } else if nm.local == "individuals"@ {
                    match p_list::<crate::model::OrganizationalContact>(evs, i + 1, nm,
                    "individual"@, Seq::empty(), sig_ok) {
                        Ok((s, j)) => {
                            if i < j <= evs.len() {
                                p_credits_fields(evs, j, open, organizations, Some(s), sig_ok)
                            } else {
                                Err(unexpected("credits"@))
                            }
                        },
                        Err(e) => Err(e),
                    }
                } else {
                    match p_skip(evs, i + 1, seq![nm]) {
                        Ok(j) => {
                            if i < j <= evs.len() {
                                p_credits_fields(evs, j, open, organizations, individuals,
                                sig_ok)
                            } else {
                                Err(unexpected("credits"@))
                            }
                        },
                        Err(e) => Err(e),
                    }
                }
            },
            EvView::End { name: nm } => {
                if nm == open {
                    Ok(
                        (
                            crate::model::VulnerabilityCreditsView { organizations, individuals },
                            i + 1,
                        ),
                    )
                } else {
                    Err(unexpected("credits"@))
                }
            },
            _ => Err(unexpected("credits"@)),
        }
    }
}

/// Reads a `credits` element whose start event is already consumed.
pub fn read_credits(evs: &Vec<Ev>, i: usize, open: &EvName, sig_ok: bool) -> (r: Result<
    (crate::model::VulnerabilityCredits, usize),
    Error,
>)
    requires
        i <= evs@.len(),
    ensures
        pres(r) == p_credits_fields(evs.deep_view(), i as int, open.deep_view(), None, None,
        sig_ok),
        r matches Ok((_, j)) ==> i < j <= evs.len(),
{
    let ghost dv = evs.deep_view();
    let mut organizations: Option<Vec<crate::model::OrganizationalEntity>> = None;
    let mut individuals: Option<Vec<crate::model::OrganizationalContact>> = None;
    let mut cur = i;
    loop
        invariant
            i <= cur <= evs@.len(),
            dv == evs.deep_view(),
            dv.len() == evs@.len(),
            p_credits_fields(dv, i as int, open.deep_view(), None, None, sig_ok)
                == p_credits_fields(
                dv,
                cur as int,
                open.deep_view(),
                organizations.deep_view(),
                individuals.deep_view(),
                sig_ok,
            ),
        decreases evs@.len() - cur,
    {
        if cur >= evs.len() {
            return Err(Error::UnexpectedElement { element: "credits".to_owned() });
        }
        match &evs[cur] {
            Ev::Start { name: nm, .. } => {
                if local_is(nm, "organizations") {
                    match read_list::<crate::model::OrganizationalEntity>(evs, cur + 1, nm,
                    "organization", sig_ok) {
                        Ok((s, j)) => {
                            organizations = Some(s);
                            cur = j;
                        },
                        Err(e) => {
                            return Err(e);
                        },
                    }
                } else if local_is(nm, "individuals") {
                    match read_list::<crate::model::OrganizationalContact>(evs, cur + 1, nm,
                    "individual", sig_ok) {
                        Ok((s, j)) => {
                            individuals = Some(s);
                            cur = j;
                        },
                        Err(e) => {
                            return Err(e);
                        },
                    }
                } else {
                    match skip_element(evs, cur + 1, nm) {
                        Ok(j) => {
                            cur = j;
                        },
                        Err(e) => {
                            return Err(e);
                        },
                    }
                }
            },
            Ev::End { name: nm } => {
                if evname_eq(nm, open) {
                    return Ok(
                        (
                            crate::model::VulnerabilityCredits { organizations, individuals },
                            cur + 1,
                        ),
                    );
                } else {
                    return Err(Error::UnexpectedElement { element: "credits".to_owned() });
                }
            },
            _ => {
                return Err(Error::UnexpectedElement { element: "credits".to_owned() });
            },
        }
    }
}

} // verus!

verus! {

/// The identifying part of a vulnerability's children: id, source,
/// references and ratings.
pub open spec fn w_vuln_a(v: VulnerabilityView) -> Seq<EvView> {
    w_opt_text_tag("id"@, v.id) + (match v.source {
        Some(s) => w_vuln_source(s),
        None => Seq::empty(),
    }) + crate::xml_list::w_opt_wrapped("references"@, "reference"@, v.references)
        + crate::xml_list::w_opt_wrapped("ratings"@, "rating"@, v.ratings)
}

/// The descriptive part: CWE numbers, texts and advisories.
pub open spec fn w_vuln_b(v: VulnerabilityView) -> Seq<EvView> {
    w_opt_cwes(v.cwes) + w_opt_text_tag("description"@, v.description) + w_opt_text_tag(
        "detail"@,
        v.detail,
    ) + w_opt_text_tag("recommendation"@, v.recommendation) + crate::xml_list::w_opt_wrapped(
        "advisories"@,
        "advisory"@,
        v.advisories,
    )
}

/// The provenance part: timestamps, credits and tools.
pub open spec fn w_vuln_c(v: VulnerabilityView) -> Seq<EvView> {
    w_opt_text_tag("created"@, v.created) + w_opt_text_tag("published"@, v.published)
        + w_opt_text_tag("updated"@, v.updated) + (match v.credits {
        Some(c) => w_credits(c),
        None => Seq::empty(),
    }) + crate::xml_list::w_opt_wrapped("tools"@, "tool"@, v.tools)
}

/// The assessment part: analysis, affected targets and properties.
pub open spec fn w_vuln_d(v: VulnerabilityView) -> Seq<EvView> {
    (match v.analysis {
        Some(a) => w_analysis(a),
        None => Seq::empty(),
    }) + crate::xml_list::w_opt_wrapped("affects"@, "target"@, v.affects)
        + crate::xml_list::w_opt_wrapped("properties"@, "property"@, v.properties)
}

/// The events of a `vulnerability` element: the `bom-ref` attribute, then
/// present optional children in schema order.
pub open spec fn w_vulnerability(v: VulnerabilityView) -> Seq<EvView> {
    seq![sxa("vulnerability"@, opt_attr("bom-ref"@, v.bom_ref))] + w_vuln_a(v) + w_vuln_b(v)
        + w_vuln_c(v) + w_vuln_d(v) + seq![ex("vulnerability"@)]
}

impl ChildWrite for VulnerabilityView {
    open spec fn child_events(self, tag: Seq<char>) -> Seq<EvView> {
        w_vulnerability(self)
    }
}

/// Writes the identifying part of a vulnerability's children.
#[verifier::rlimit(100)]
fn push_vuln_a(out: &mut Vec<Ev>, v: &Vulnerability)
    ensures
        final(out).deep_view() == old(out).deep_view() + w_vuln_a(v.deep_view()),
{
    crate::xml_base::push_opt_text_tag(out, "id", &v.id);
    if let Some(s) = &v.source {
        push_vuln_source(out, s);
    }
    crate::xml_list::push_opt_wrapped(out, "references", "reference", &v.references);
    crate::xml_list::push_opt_wrapped(out, "ratings", "rating", &v.ratings);
    proof {
        assert(final(out).deep_view() =~= old(out).deep_view() + w_vuln_a(v.deep_view()));
    }
}

/// Writes the descriptive part of a vulnerability's children.
#[verifier::rlimit(100)]
fn push_vuln_b(out: &mut Vec<Ev>, v: &Vulnerability)
    ensures
        final(out).deep_view() == old(out).deep_view() + w_vuln_b(v.deep_view()),
{
    push_opt_cwes(out, &v.cwes);
    crate::xml_base::push_opt_text_tag(out, "description", &v.description);
    crate::xml_base::push_opt_text_tag(out, "detail", &v.detail);
    crate::xml_base::push_opt_text_tag(out, "recommendation", &v.recommendation);
    crate::xml_list::push_opt_wrapped(out, "advisories", "advisory", &v.advisories);
    proof {
        assert(final(out).deep_view() =~= old(out).deep_view() + w_vuln_b(v.deep_view()));
    }
}

/// Writes the provenance part of a vulnerability's children.
#[verifier::rlimit(100)]
fn push_vuln_c(out: &mut Vec<Ev>, v: &Vulnerability)
    ensures
        final(out).deep_view() == old(out).deep_view() + w_vuln_c(v.deep_view()),
{
    crate::xml_base::push_opt_text_tag(out, "created", &v.created);
    crate::xml_base::push_opt_text_tag(out, "published", &v.published);
    crate::xml_base::push_opt_text_tag(out, "updated", &v.updated);
    if let Some(c) = &v.credits {
        push_credits(out, c);
    }
    crate::xml_list::push_opt_wrapped(out, "tools", "tool", &v.tools);
    proof {
        assert(final(out).deep_view() =~= old(out).deep_view() + w_vuln_c(v.deep_view()));
    }
}

/// Writes the assessment part of a vulnerability's children.
#[verifier::rlimit(100)]
fn push_vuln_d(out: &mut Vec<Ev>, v: &Vulnerability)
    ensures
        final(out).deep_view() == old(out).deep_view() + w_vuln_d(v.deep_view()),
{
    if let Some(a) = &v.analysis {
        push_analysis(out, a);
    }
    crate::xml_list::push_opt_wrapped(out, "affects", "target", &v.affects);
    crate::xml_list::push_opt_wrapped(out, "properties", "property", &v.properties);
    proof {
        assert(final(out).deep_view() =~= old(out).deep_view() + w_vuln_d(v.deep_view()));
    }
}

/// Writes a `vulnerability` element.
#[verifier::rlimit(100)]
pub fn push_vulnerability(out: &mut Vec<Ev>, v: &Vulnerability)
    ensures
        final(out).deep_view() == old(out).deep_view() + w_vulnerability(v.deep_view()),
{
    let mut attrs: Vec<(String, String)> = Vec::new();
    if let Some(br) = &v.bom_ref {
        crate::xml_base::push_attr(&mut attrs, "bom-ref", br);
    }
    proof {
        assert(attrs.deep_view() =~= opt_attr("bom-ref"@, v.bom_ref.deep_view()));
    }
    push_start_attrs(out, "vulnerability", attrs);
    push_vuln_a(out, v);
    push_vuln_b(out, v);
    push_vuln_c(out, v);
    push_vuln_d(out, v);
    push_end(out, "vulnerability");
    proof {
        assert(final(out).deep_view() =~= old(out).deep_view() + w_vulnerability(v.deep_view()));
    }
}

impl PushChild for Vulnerability {
    fn push_child(out: &mut Vec<Ev>, c: &Self, tag: &str) {
        push_vulnerability(out, c);
    }
}

} // verus!

verus! {

/// The fields of a vulnerability collected while its children are read.
pub struct VulnAcc {
    pub id: Option<String>,
    pub source: Option<VulnerabilitySource>,
    pub references: Option<Vec<crate::model::VulnerabilityReference>>,
    pub ratings: Option<Vec<crate::model::Rating>>,
    pub cwes: Option<Vec<u32>>,
    pub description: Option<String>,
    pub detail: Option<String>,
    pub recommendation: Option<String>,
    pub advisories: Option<Vec<crate::model::Advisory>>,
    pub created: Option<String>,
    pub published: Option<String>,
    pub updated: Option<String>,
    pub credits: Option<crate::model::VulnerabilityCredits>,
    pub tools: Option<Vec<crate::model::Tool>>,
    pub analysis: Option<VulnerabilityAnalysis>,
    pub affects: Option<Vec<crate::model::Target>>,
    pub properties: Option<Vec<crate::model::Property>>,
}

pub struct VulnAccView {
    pub id: Option<Seq<char>>,
    pub source: Option<VulnerabilitySourceView>,
    pub references: Option<Seq<crate::model::VulnerabilityReferenceView>>,
    pub ratings: Option<Seq<crate::model::RatingView>>,
    pub cwes: Option<Seq<u32>>,
    pub description: Option<Seq<char>>,
    pub detail: Option<Seq<char>>,
    pub recommendation: Option<Seq<char>>,
    pub advisories: Option<Seq<crate::model::AdvisoryView>>,
    pub created: Option<Seq<char>>,
    pub published: Option<Seq<char>>,
    pub updated: Option<Seq<char>>,
    pub credits: Option<crate::model::VulnerabilityCreditsView>,
    pub tools: Option<Seq<crate::model::ToolView>>,
    pub analysis: Option<VulnerabilityAnalysisView>,
    pub affects: Option<Seq<crate::model::TargetView>>,
    pub properties: Option<Seq<crate::model::PropertyView>>,
}

impl DeepView for VulnAcc {
    type V = VulnAccView;

    open spec fn deep_view(&self) -> VulnAccView {
        VulnAccView {
            id: self.id.deep_view(),
            source: self.source.deep_view(),
            references: self.references.deep_view(),
            ratings: self.ratings.deep_view(),
            cwes: self.cwes.deep_view(),
            description: self.description.deep_view(),
            detail: self.detail.deep_view(),
            recommendation: self.recommendation.deep_view(),
            advisories: self.advisories.deep_view(),
            created: self.created.deep_view(),
            published: self.published.deep_view(),
            updated: self.updated.deep_view(),
            credits: self.credits.deep_view(),
            tools: self.tools.deep_view(),
            analysis: self.analysis.deep_view(),
            affects: self.affects.deep_view(),
            properties: self.properties.deep_view(),
        }
    }
}

/// The empty accumulator.
pub open spec fn vuln_acc_empty() -> VulnAccView {
    VulnAccView {
        id: None,
        source: None,
        references: None,
        ratings: None,
        cwes: None,
        description: None,
        detail: None,
        recommendation: None,
        advisories: None,
        created: None,
        published: None,
        updated: None,
        credits: None,
        tools: None,
        analysis: None,
        affects: None,
        properties: None,
    }
}

/// The vulnerability a finished accumulator denotes.
pub open spec fn vuln_of_acc(bom_ref: Option<Seq<char>>, acc: VulnAccView) -> VulnerabilityView {
    VulnerabilityView {
        bom_ref,
        id: acc.id,
        source: acc.source,
        references: acc.references,
        ratings: acc.ratings,
        cwes: acc.cwes,
        description: acc.description,
        detail: acc.detail,
        recommendation: acc.recommendation,
        advisories: acc.advisories,
        created: acc.created,
        published: acc.published,
        updated: acc.updated,
        credits: acc.credits,
        tools: acc.tools,
        analysis: acc.analysis,
        affects: acc.affects,
        properties: acc.properties,
    }
}

/// Whether `local` is one of the text-content leaf children of
/// `vulnerability`.
pub open spec fn is_vuln_text_field(local: Seq<char>) -> bool {
    ||| local == "id"@
    ||| local == "description"@
    ||| local == "detail"@
    ||| local == "recommendation"@
    ||| local == "created"@
    ||| local == "published"@
    ||| local == "updated"@
}

/// The accumulator with the named text-content field set to `t`.
pub open spec fn vuln_set_text(acc: VulnAccView, local: Seq<char>, t: Seq<char>) -> VulnAccView {
    if local == "id"@ {
        VulnAccView { id: Some(t), ..acc }
    } else if local == "description"@ {
        VulnAccView { description: Some(t), ..acc }
    } else if local == "detail"@ {
        VulnAccView { detail: Some(t), ..acc }
    } else if local == "recommendation"@ {
        VulnAccView { recommendation: Some(t), ..acc }
    } else if local == "created"@ {
        VulnAccView { created: Some(t), ..acc }
    } else if local == "published"@ {
        VulnAccView { published: Some(t), ..acc }
    } else {
        VulnAccView { updated: Some(t), ..acc }
    }
}

/// What reading the children of a `vulnerability` element yields, given its
/// `bom-ref` attribute and the fields collected so far.  Every field is
/// optional; children the model does not carry are lax-skipped.
#[verifier::opaque]
pub open spec fn p_vulnerability_fields(
    evs: Seq<EvView>,
    i: int,
    open: EvNameView,
    bom_ref: Option<Seq<char>>,
    acc: VulnAccView,
    sig_ok: bool,
) -> Result<(VulnerabilityView, int), ErrorView>
    decreases evs.len() - i,
{
    if i < 0 || i >= evs.len() {
        Err(unexpected("vulnerability"@))
    } else {
        match evs[i] {
            EvView::Start { name: nm, attrs } => {
                if is_vuln_text_field(nm.local) {
                    match p_text_tag(evs, i + 1, nm) {
                        Ok((t, j)) => {
                            if i < j <= evs.len() {
                                p_vulnerability_fields(evs, j, open, bom_ref, vuln_set_text(acc,
                                nm.local, t), sig_ok)
                            } else {
                                Err(unexpected("vulnerability"@))
                            }
                        },
                        Err(e) => Err(e),
                    }
                } else if nm.local == "source"@ {
                    match p_vuln_source_fields(evs, i + 1, nm, None, None) {
                        Ok((s, j)) => {
                            if i < j <= evs.len() {
                                p_vulnerability_fields(evs, j, open, bom_ref, VulnAccView {
                                    source: Some(s),
                                    ..acc
                                }, sig_ok)
                            } else {
                                Err(unexpected("vulnerability"@))
                            }
                        },
                        Err(e) => Err(e),
                    }
                } else if nm.local == "references"@ {
                    match p_list::<crate::model::VulnerabilityReference>(evs, i + 1, nm,
                    "reference"@, Seq::empty(), sig_ok) {
                        Ok((s, j)) => {
                            if i < j <= evs.len() {
                                p_vulnerability_fields(evs, j, open, bom_ref, VulnAccView {
                                    references: Some(s),
                                    ..acc
                                }, sig_ok)
                            } else {
                                Err(unexpected("vulnerability"@))
                            }
                        },
                        Err(e) => Err(e),
                    }
                } else if nm.local == "ratings"@ {
                    match p_list::<crate::model::Rating>(evs, i + 1, nm, "rating"@, Seq::empty(),
                    sig_ok) {
                        Ok((s, j)) => {
                            if i < j <= evs.len() {
                                p_vulnerability_fields(evs, j, open, bom_ref, VulnAccView {
                                    ratings: Some(s),
                                    ..acc
                                }, sig_ok)
                            } else {
                                Err(unexpected("vulnerability"@))
                            }
                        },
                        Err(e) => Err(e),
                    }
                } else if nm.local == "cwes"@ {
                    match p_cwe_items(evs, i + 1, nm, Seq::empty()) {
                        Ok((s, j)) => {
                            if i < j <= evs.len() {
                                p_vulnerability_fields(evs, j, open, bom_ref, VulnAccView {
                                    cwes: Some(s),
                                    ..acc
                                }, sig_ok)
                            } else {
                                Err(unexpected("vulnerability"@))
                            }
                        },
                        Err(e) => Err(e),
                    }
                } else if nm.local == "advisories"@ {
                    match p_list::<crate::model::Advisory>(evs, i + 1, nm, "advisory"@,
                    Seq::empty(), sig_ok) {
                        Ok((s, j)) => {
                            if i < j <= evs.len() {
                                p_vulnerability_fields(evs, j, open, bom_ref, VulnAccView {
                                    advisories: Some(s),
                                    ..acc
                                }, sig_ok)
                            } else {
                                Err(unexpected("vulnerability"@))
                            }
                        },
                        Err(e) => Err(e),
                    }
                } else if nm.local == "credits"@ {
                    match p_credits_fields(evs, i + 1, nm, None, None, sig_ok) {
                        Ok((c, j)) => {
                            if i < j <= evs.len() {
                                p_vulnerability_fields(evs, j, open, bom_ref, VulnAccView {
                                    credits: Some(c),
                                    ..acc
                                }, sig_ok)
                            } else {
                                Err(unexpected("vulnerability"@))
                            }
                        },
                        Err(e) => Err(e),
                    }
                } else if nm.local == "tools"@ {
                    match p_list::<crate::model::Tool>(evs, i + 1, nm, "tool"@, Seq::empty(),
                    sig_ok) {
                        Ok((s, j)) => {
                            if i < j <= evs.len() {
                                p_vulnerability_fields(evs, j, open, bom_ref, VulnAccView {
                                    tools: Some(s),
                                    ..acc
                                }, sig_ok)
                            } else {
                                Err(unexpected("vulnerability"@))
                            }
                        },
                        Err(e) => Err(e),
                    }
                } else if nm.local == "analysis"@ {
                    match p_analysis_fields(evs, i + 1, nm, None, None, None, None) {
                        Ok((a, j)) => {
                            if i < j <= evs.len() {
                                p_vulnerability_fields(evs, j, open, bom_ref, VulnAccView {
                                    analysis: Some(a),
                                    ..acc
                                }, sig_ok)
                            } else {
                                Err(unexpected("vulnerability"@))
                            }
                        },
                        Err(e) => Err(e),
                    }
                } else if nm.local == "affects"@ {
                    match p_list::<crate::model::Target>(evs, i + 1, nm, "target"@, Seq::empty(),
                    sig_ok) {
                        Ok((s, j)) => {
                            if i < j <= evs.len() {
                                p_vulnerability_fields(evs, j, open, bom_ref, VulnAccView {
                                    affects: Some(s),
                                    ..acc
                                }, sig_ok)
                            } else {
                                Err(unexpected("vulnerability"@))
                            }
                        },
                        Err(e) => Err(e),
                    }
                } else if nm.local == "properties"@ {
                    match p_list::<crate::model::Property>(evs, i + 1, nm, "property"@,
                    Seq::empty(), sig_ok) {
                        Ok((s, j)) => {
                            if i < j <= evs.len() {
                                p_vulnerability_fields(evs, j, open, bom_ref, VulnAccView {
                                    properties: Some(s),
                                    ..acc
                                }, sig_ok)
                            } else {
                                Err(unexpected("vulnerability"@))
                            }
                        },
                        Err(e) => Err(e),
                    }
                } else {
                    match p_skip(evs, i + 1, seq![nm]) {
                        Ok(j) => {
                            if i < j <= evs.len() {
                                p_vulnerability_fields(evs, j, open, bom_ref, acc, sig_ok)
                            } else {
                                Err(unexpected("vulnerability"@))
                            }
                        },
                        Err(e) => Err(e),
                    }
                }
            },
            EvView::End { name: nm } => {
                if nm == open {
                    Ok((vuln_of_acc(bom_ref, acc), i + 1))
                } else {
                    Err(unexpected("vulnerability"@))
                }
            },
            _ => Err(unexpected("vulnerability"@)),
        }
    }
}

/// Handles one recognized or unrecognized child of a `vulnerability`,
/// advancing the cursor and updating the collected fields.
#[verifier::rlimit(100)]
fn read_vulnerability_child(
    evs: &Vec<Ev>,
    cur: usize,
    nm: &EvName,
    cattrs: &Vec<(String, String)>,
    acc: &mut VulnAcc,
    sig_ok: bool,
    Ghost(open): Ghost<EvNameView>,
    Ghost(bom_ref): Ghost<Option<Seq<char>>>,
) -> (r: Result<usize, Error>)
    requires
        cur < evs@.len(),
        evs.deep_view()[cur as int] == (EvView::Start {
            name: nm.deep_view(),
            attrs: cattrs.deep_view(),
        }),
    ensures
        match r {
            Ok(j) => cur < j <= evs@.len() && p_vulnerability_fields(
                evs.deep_view(),
                cur as int,
                open,
                bom_ref,
                old(acc).deep_view(),
                sig_ok,
            ) == p_vulnerability_fields(
                evs.deep_view(),
                j as int,
                open,
                bom_ref,
                final(acc).deep_view(),
                sig_ok,
            ),
            Err(e) => p_vulnerability_fields(
                evs.deep_view(),
                cur as int,
                open,
                bom_ref,
                old(acc).deep_view(),
                sig_ok,
            ) == Err::<(VulnerabilityView, int), ErrorView>(e.deep_view()),
        },
    decreases evs@.len() - cur, 0int,
{
    proof {
        reveal(p_vulnerability_fields);
    }
    let n = evs.len();
    let is_text = local_is(nm, "id") || local_is(nm, "description") || local_is(nm, "detail")
        || local_is(nm, "recommendation") || local_is(nm, "created") || local_is(nm, "published")
        || local_is(nm, "updated");
    if is_text {
        match read_text_tag(evs, cur + 1, nm) {
            Ok((t, j)) => {
                if local_is(nm, "id") {
                    acc.id = Some(t);
                } else if local_is(nm, "description") {
                    acc.description = Some(t);
                } else if local_is(nm, "detail") {
                    acc.detail = Some(t);
                } else if local_is(nm, "recommendation") {
                    acc.recommendation = Some(t);
                } else if local_is(nm, "created") {
                    acc.created = Some(t);
                } else if local_is(nm, "published") {
                    acc.published = Some(t);
                } else {
                    acc.updated = Some(t);
                }
                Ok(j)
            },
            Err(e) => Err(e),
        }
    } else if local_is(nm, "source") {
        match read_vuln_source(evs, cur + 1, nm) {
            Ok((s, j)) => {
                acc.source = Some(s);
                Ok(j)
            },
            Err(e) => Err(e),
        }
    } else if local_is(nm, "references") {
        match read_list::<crate::model::VulnerabilityReference>(evs, cur + 1, nm, "reference",
        sig_ok) {
            Ok((s, j)) => {
                acc.references = Some(s);
                Ok(j)
            },
            Err(e) => Err(e),
        }
    } else if local_is(nm, "ratings") {
        match read_list::<crate::model::Rating>(evs, cur + 1, nm, "rating", sig_ok) {
            Ok((s, j)) => {
                acc.ratings = Some(s);
                Ok(j)
            },
            Err(e) => Err(e),
        }
    } else if local_is(nm, "cwes") {
        match read_cwe_items(evs, cur + 1, nm) {
            Ok((s, j)) => {
                acc.cwes = Some(s);
                Ok(j)
            },
            Err(e) => Err(e),
        }
    } else if local_is(nm, "advisories") {
        match read_list::<crate::model::Advisory>(evs, cur + 1, nm, "advisory", sig_ok) {
            Ok((s, j)) => {
                acc.advisories = Some(s);
                Ok(j)
            },
            Err(e) => Err(e),
        }
    } else if local_is(nm, "credits") {
        match read_credits(evs, cur + 1, nm, sig_ok) {
            Ok((c, j)) => {
                acc.credits = Some(c);
                Ok(j)
            },
            Err(e) => Err(e),
        }
    } else if local_is(nm, "tools") {
        match read_list::<crate::model::Tool>(evs, cur + 1, nm, "tool", sig_ok) {
            Ok((s, j)) => {
                acc.tools = Some(s);
                Ok(j)
            },
            Err(e) => Err(e),
        }
    } else if local_is(nm, "analysis") {
        match read_analysis(evs, cur + 1, nm) {
            Ok((a, j)) => {
                acc.analysis = Some(a);
                Ok(j)
            },
            Err(e) => Err(e),
        }
    } else if local_is(nm, "affects") {
        match read_list::<crate::model::Target>(evs, cur + 1, nm, "target", sig_ok) {
            Ok((s, j)) => {
                acc.affects = Some(s);
                Ok(j)
            },
            Err(e) => Err(e),
        }
    } else if local_is(nm, "properties") {
        match read_list::<crate::model::Property>(evs, cur + 1, nm, "property", sig_ok) {
            Ok((s, j)) => {
                acc.properties = Some(s);
                Ok(j)
            },
            Err(e) => Err(e),
        }
    } else {
        match skip_element(evs, cur + 1, nm) {
            Ok(j) => Ok(j),
            Err(e) => Err(e),
        }
    }
}

/// Reads the children of a `vulnerability` element, continuing from the
/// fields collected so far.
#[verifier::rlimit(100)]
fn read_vulnerability_fields(
    evs: &Vec<Ev>,
    i: usize,
    open: &EvName,
    bom_ref: Option<String>,
    acc: VulnAcc,
    sig_ok: bool,
) -> (r: Result<(Vulnerability, usize), Error>)
    requires
        i <= evs@.len(),
    ensures
        pres(r) == p_vulnerability_fields(
            evs.deep_view(),
            i as int,
            open.deep_view(),
            bom_ref.deep_view(),
            acc.deep_view(),
            sig_ok,
        ),
        r matches Ok((_, j)) ==> i < j <= evs.len(),
    decreases evs@.len() - i, 1int,
{
    proof {
        reveal(p_vulnerability_fields);
    }
    let ghost dv = evs.deep_view();
    let ghost accv = acc.deep_view();
    proof {
        assert(dv.len() == evs@.len());
    }
    if i >= evs.len() {
        return Err(Error::UnexpectedElement { element: "vulnerability".to_owned() });
    }
    match &evs[i] {
        Ev::Start { name: nm, attrs: cattrs } => {
            proof {
                assert(evs.deep_view()[i as int] == evs@[i as int].deep_view());
            }
            let mut acc = acc;
            match read_vulnerability_child(
                evs,
                i,
                nm,
                cattrs,
                &mut acc,
                sig_ok,
                Ghost(open.deep_view()),
                Ghost(bom_ref.deep_view()),
            ) {
                Ok(j) => read_vulnerability_fields(evs, j, open, bom_ref, acc, sig_ok),
                Err(e) => Err(e),
            }
        },
        Ev::End { name: nm } => {
            proof {
                assert(evs.deep_view()[i as int] == evs@[i as int].deep_view());
            }
            if evname_eq(nm, open) {
                Ok(
                    (
                        Vulnerability {
                            bom_ref,
                            id: acc.id,
                            source: acc.source,
                            references: acc.references,
                            ratings: acc.ratings,
                            cwes: acc.cwes,
                            description: acc.description,
                            detail: acc.detail,
                            recommendation: acc.recommendation,
                            advisories: acc.advisories,
                            created: acc.created,
                            published: acc.published,
                            updated: acc.updated,
                            credits: acc.credits,
                            tools: acc.tools,
                            analysis: acc.analysis,
                            affects: acc.affects,
                            properties: acc.properties,
                        },
                        i + 1,
                    ),
                )
            } else {
                Err(Error::UnexpectedElement { element: "vulnerability".to_owned() })
            }
        },
        _ => {
            proof {
                assert(evs.deep_view()[i as int] == evs@[i as int].deep_view());
            }
            Err(Error::UnexpectedElement { element: "vulnerability".to_owned() })
        },
    }
}

/// What reading a whole `vulnerability` element yields.
pub open spec fn p_vulnerability(
    evs: Seq<EvView>,
    i: int,
    open: EvNameView,
    attrs: Seq<(Seq<char>, Seq<char>)>,
    sig_ok: bool,
) -> Result<(VulnerabilityView, int), ErrorView> {
    p_vulnerability_fields(evs, i, open, spec_attr(attrs, "bom-ref"@), vuln_acc_empty(), sig_ok)
}

/// Reads a `vulnerability` element whose start event is already consumed.
pub fn read_vulnerability(
    evs: &Vec<Ev>,
    i: usize,
    open: &EvName,
    attrs: &Vec<(String, String)>,
    sig_ok: bool,
) -> (r: Result<(Vulnerability, usize), Error>)
    requires
        i <= evs@.len(),
    ensures
        pres(r) == p_vulnerability(
            evs.deep_view(),
            i as int,
            open.deep_view(),
            attrs.deep_view(),
            sig_ok,
        ),
        r matches Ok((_, j)) ==> i < j <= evs.len(),
    decreases evs@.len() - i, 2int,
{
    let bom_ref: Option<String> = match crate::xml_base::find_attr(attrs, "bom-ref") {
        Some(v) => Some(v.clone()),
        None => None,
    };
    let acc = VulnAcc {
        id: None,
        source: None,
        references: None,
        ratings: None,
        cwes: None,
        description: None,
        detail: None,
        recommendation: None,
        advisories: None,
        created: None,
        published: None,
        updated: None,
        credits: None,
        tools: None,
        analysis: None,
        affects: None,
        properties: None,
    };
    proof {
        assert(acc.deep_view() == vuln_acc_empty());
    }
    read_vulnerability_fields(evs, i, open, bom_ref, acc, sig_ok)
}

impl ChildRead for Vulnerability {
    open spec fn p_child(
        evs: Seq<EvView>,
        i: int,
        open: EvNameView,
        attrs: Seq<(Seq<char>, Seq<char>)>,
        sig_ok: bool,
    ) -> Result<(VulnerabilityView, int), ErrorView> {
        p_vulnerability(evs, i, open, attrs, sig_ok)
    }

    fn read_child(
        evs: &Vec<Ev>,
        i: usize,
        open: &EvName,
        attrs: &Vec<(String, String)>,
        sig_ok: bool,
    ) -> (r: Result<(Vulnerability, usize), Error>) {
        read_vulnerability(evs, i, open, attrs, sig_ok)
    }
}

} // verus!
