//! XML codec for the leaf entities: properties, hashes, data
//! classifications and signatures.

use vstd::prelude::*;

use crate::errors::{Error, ErrorView};
use crate::model::{
    DataClassification, DataClassificationView, HashView, Property, PropertyView, Signature,
    SignatureView,
};
use crate::xml_base::{
    evname_eq, ex, local_is, p_skip, p_text_tag, pres, push_attr, push_end, push_start,
    push_start_attrs, push_text, push_text_tag, read_text_tag, skip_element, spec_attr, sxa,
    unexpected, w_text_tag, ChildWrite,
};
use crate::xml_io::{Ev, EvName, EvNameView, EvView};
use crate::xml_base::find_req_attr;
use crate::xml_list::{ChildRead, PushChild};

verus! {

/// The events of a `property` element: the `name` attribute plus the value
/// text.
pub open spec fn w_property(p: PropertyView) -> Seq<EvView> {
    seq![sxa("property"@, seq![("name"@, p.name)]), EvView::Text(p.value), ex("property"@)]
}

impl ChildWrite for PropertyView {
    open spec fn child_events(self, tag: Seq<char>) -> Seq<EvView> {
        w_property(self)
    }
}

/// Writes a `property` element.
pub fn push_property(out: &mut Vec<Ev>, p: &Property)
    ensures
        final(out).deep_view() == old(out).deep_view() + w_property(p.deep_view()),
{
    let mut attrs: Vec<(String, String)> = Vec::new();
    push_attr(&mut attrs, "name", &p.name);
    proof {
        assert(attrs.deep_view() =~= seq![(("name"@), p.name@)]);
    }
    push_start_attrs(out, "property", attrs);
    push_text(out, &p.value);
    push_end(out, "property");
    proof {
        assert(final(out).deep_view() =~= old(out).deep_view() + w_property(p.deep_view()));
    }
}

impl PushChild for Property {
    fn push_child(out: &mut Vec<Ev>, c: &Self, tag: &str) {
        push_property(out, c);
    }
}

/// What reading a `property` element yields: its required `name` attribute
/// and its value text.
pub open spec fn p_property(
    evs: Seq<EvView>,
    i: int,
    open: EvNameView,
    attrs: Seq<(Seq<char>, Seq<char>)>,
) -> Result<(PropertyView, int), ErrorView> {
    match spec_attr(attrs, "name"@) {
        None => Err(
            ErrorView::RequiredDataMissing { required_field: "name"@, element: "property"@ },
        ),
        Some(nm) => match p_text_tag(evs, i, open) {
            Ok((t, j)) => Ok((PropertyView { name: nm, value: t }, j)),
            Err(e) => Err(e),
        },
    }
}

impl ChildRead for Property {
    open spec fn p_child(
        evs: Seq<EvView>,
        i: int,
        open: EvNameView,
        attrs: Seq<(Seq<char>, Seq<char>)>,
        sig_ok: bool,
    ) -> Result<(PropertyView, int), ErrorView> {
        p_property(evs, i, open, attrs)
    }

    fn read_child(
        evs: &Vec<Ev>,
        i: usize,
        open: &EvName,
        attrs: &Vec<(String, String)>,
        sig_ok: bool,
    ) -> (r: Result<(Property, usize), Error>) {
        let name = match find_req_attr(attrs, "name", "property") {
            Ok(v) => v,
            Err(e) => {
                return Err(e);
            },
        };
        match read_text_tag(evs, i, open) {
            Ok((value, j)) => Ok((Property { name, value }, j)),
            Err(e) => Err(e),
        }
    }
}

/// The events of a `hash` element: the `alg` attribute plus the hash value
/// text.
pub open spec fn w_hash(h: HashView) -> Seq<EvView> {
    seq![sxa("hash"@, seq![("alg"@, h.alg)]), EvView::Text(h.content), ex("hash"@)]
}

impl ChildWrite for HashView {
    open spec fn child_events(self, tag: Seq<char>) -> Seq<EvView> {
        w_hash(self)
    }
}

/// Writes a `hash` element.
pub fn push_hash(out: &mut Vec<Ev>, h: &crate::model::Hash)
    ensures
        final(out).deep_view() == old(out).deep_view() + w_hash(h.deep_view()),
{
    let mut attrs: Vec<(String, String)> = Vec::new();
    push_attr(&mut attrs, "alg", &h.alg);
    proof {
        assert(attrs.deep_view() =~= seq![(("alg"@), h.alg@)]);
    }
    push_start_attrs(out, "hash", attrs);
    push_text(out, &h.content);
    push_end(out, "hash");
    proof {
        assert(final(out).deep_view() =~= old(out).deep_view() + w_hash(h.deep_view()));
    }
}

impl PushChild for crate::model::Hash {
    fn push_child(out: &mut Vec<Ev>, c: &Self, tag: &str) {
        push_hash(out, c);
    }
}

/// What reading a `hash` element yields: its required `alg` attribute and
/// its value text.
pub open spec fn p_hash(
    evs: Seq<EvView>,
    i: int,
    open: EvNameView,
    attrs: Seq<(Seq<char>, Seq<char>)>,
) -> Result<(HashView, int), ErrorView> {
    match spec_attr(attrs, "alg"@) {
        None => Err(ErrorView::RequiredDataMissing { required_field: "alg"@, element: "hash"@ }),
        Some(alg) => match p_text_tag(evs, i, open) {
            Ok((t, j)) => Ok((HashView { alg, content: t }, j)),
            Err(e) => Err(e),
        },
    }
}

impl ChildRead for crate::model::Hash {
    open spec fn p_child(
        evs: Seq<EvView>,
        i: int,
        open: EvNameView,
        attrs: Seq<(Seq<char>, Seq<char>)>,
        sig_ok: bool,
    ) -> Result<(HashView, int), ErrorView> {
        p_hash(evs, i, open, attrs)
    }

    fn read_child(
        evs: &Vec<Ev>,
        i: usize,
        open: &EvName,
        attrs: &Vec<(String, String)>,
        sig_ok: bool,
    ) -> (r: Result<(crate::model::Hash, usize), Error>) {
        let alg = match find_req_attr(attrs, "alg", "hash") {
            Ok(v) => v,
            Err(e) => {
                return Err(e);
            },
        };
        match read_text_tag(evs, i, open) {
            Ok((content, j)) => Ok((crate::model::Hash { alg, content }, j)),
            Err(e) => Err(e),
        }
    }
}

/// The events of a `classification` element: the `flow` attribute plus the
/// classification text.
pub open spec fn w_data_classification(d: DataClassificationView) -> Seq<EvView> {
    seq![
        sxa("classification"@, seq![("flow"@, d.flow)]),
        EvView::Text(d.classification),
        ex("classification"@),
    ]
}

impl ChildWrite for DataClassificationView {
    open spec fn child_events(self, tag: Seq<char>) -> Seq<EvView> {
        w_data_classification(self)
    }
}

/// Writes a `classification` element.
pub fn push_data_classification(out: &mut Vec<Ev>, d: &DataClassification)
    ensures
        final(out).deep_view() == old(out).deep_view() + w_data_classification(d.deep_view()),
{
    let mut attrs: Vec<(String, String)> = Vec::new();
    push_attr(&mut attrs, "flow", &d.flow);
    proof {
        assert(attrs.deep_view() =~= seq![(("flow"@), d.flow@)]);
    }
    push_start_attrs(out, "classification", attrs);
    push_text(out, &d.classification);
    push_end(out, "classification");
    proof {
        assert(final(out).deep_view() =~= old(out).deep_view() + w_data_classification(
            d.deep_view(),
        ));
    }
}

impl PushChild for DataClassification {
    fn push_child(out: &mut Vec<Ev>, c: &Self, tag: &str) {
        push_data_classification(out, c);
    }
}

/// What reading a `classification` element yields: its required `flow`
/// attribute and its text.
pub open spec fn p_data_classification(
    evs: Seq<EvView>,
    i: int,
    open: EvNameView,
    attrs: Seq<(Seq<char>, Seq<char>)>,
) -> Result<(DataClassificationView, int), ErrorView> {
    match spec_attr(attrs, "flow"@) {
        None => Err(
            ErrorView::RequiredDataMissing { required_field: "flow"@, element: "classification"@ },
        ),
        Some(flow) => match p_text_tag(evs, i, open) {
            Ok((t, j)) => Ok((DataClassificationView { flow, classification: t }, j)),
            Err(e) => Err(e),
        },
    }
}

impl ChildRead for DataClassification {
    open spec fn p_child(
        evs: Seq<EvView>,
        i: int,
        open: EvNameView,
        attrs: Seq<(Seq<char>, Seq<char>)>,
        sig_ok: bool,
    ) -> Result<(DataClassificationView, int), ErrorView> {
        p_data_classification(evs, i, open, attrs)
    }

    fn read_child(
        evs: &Vec<Ev>,
        i: usize,
        open: &EvName,
        attrs: &Vec<(String, String)>,
        sig_ok: bool,
    ) -> (r: Result<(DataClassification, usize), Error>) {
        let flow = match find_req_attr(attrs, "flow", "classification") {
            Ok(v) => v,
            Err(e) => {
                return Err(e);
            },
        };
        match read_text_tag(evs, i, open) {
            Ok((classification, j)) => Ok((DataClassification { flow, classification }, j)),
            Err(e) => Err(e),
        }
    }
}

/// The events of a `signature` element: algorithm then value.
pub open spec fn w_signature(s: SignatureView) -> Seq<EvView> {
    seq![crate::xml_base::sx("signature"@)] + w_text_tag("algorithm"@, s.algorithm) + w_text_tag(
        "value"@,
        s.value,
    ) + seq![ex("signature"@)]
}

/// Writes a `signature` element.
pub fn push_signature(out: &mut Vec<Ev>, s: &Signature)
    ensures
        final(out).deep_view() == old(out).deep_view() + w_signature(s.deep_view()),
{
    push_start(out, "signature");
    push_text_tag(out, "algorithm", &s.algorithm);
    push_text_tag(out, "value", &s.value);
    push_end(out, "signature");
    proof {
        assert(final(out).deep_view() =~= old(out).deep_view() + w_signature(s.deep_view()));
    }
}

/// What reading the children of a `signature` element yields: `algorithm`
/// and `value` leaves in any order and multiplicity (the last occurrence
/// wins), unrecognized children lax-skipped; both fields must be present at
/// the end tag.
pub open spec fn p_signature_fields(
    evs: Seq<EvView>,
    i: int,
    open: EvNameView,
    algorithm: Option<Seq<char>>,
    value: Option<Seq<char>>,
) -> Result<(SignatureView, int), ErrorView>
    decreases evs.len() - i,
{
    if i < 0 || i >= evs.len() {
        Err(unexpected("signature"@))
    } else {
        match evs[i] {
            EvView::Start { name, attrs } => {
                if name.local == "algorithm"@ {
                    match p_text_tag(evs, i + 1, name) {
                        Ok((t, j)) => {
                            if i < j <= evs.len() {
                                p_signature_fields(evs, j, open, Some(t), value)
                            } else {
                                Err(unexpected("signature"@))
                            }
                        },
                        Err(e) => Err(e),
                    }
                } else if name.local == "value"@ {
                    match p_text_tag(evs, i + 1, name) {
                        Ok((t, j)) => {
                            if i < j <= evs.len() {
                                p_signature_fields(evs, j, open, algorithm, Some(t))
                            } else {
                                Err(unexpected("signature"@))
                            }
                        },
                        Err(e) => Err(e),
                    }
                } else {
                    match p_skip(evs, i + 1, seq![name]) {
                        Ok(j) => {
                            if i < j <= evs.len() {
                                p_signature_fields(evs, j, open, algorithm, value)
                            } else {
                                Err(unexpected("signature"@))
                            }
                        },
                        Err(e) => Err(e),
                    }
                }
            },
            EvView::End { name } => {
                if name == open {
                    match algorithm {
                        Some(a) => match value {
                            Some(v) => Ok((SignatureView { algorithm: a, value: v }, i + 1)),
                            None => Err(
                                ErrorView::RequiredDataMissing {
                                    required_field: "value"@,
                                    element: "signature"@,
                                },
                            ),
                        },
                        None => Err(
                            ErrorView::RequiredDataMissing {
                                required_field: "algorithm"@,
                                element: "signature"@,
                            },
                        ),
                    }
                } else {
                    Err(unexpected("signature"@))
                }
            },
            _ => Err(unexpected("signature"@)),
        }
    }
}

/// Reads a `signature` element whose start event is already consumed.
pub fn read_signature(evs: &Vec<Ev>, i: usize, open: &EvName) -> (r: Result<
    (Signature, usize),
    Error,
>)
    requires
        i <= evs@.len(),
    ensures
        pres(r) == p_signature_fields(evs.deep_view(), i as int, open.deep_view(), None, None),
        r matches Ok((_, j)) ==> i < j <= evs.len(),
{
    let ghost dv = evs.deep_view();
    let mut algorithm: Option<String> = None;
    let mut value: Option<String> = None;
    let mut cur = i;
    loop
        invariant
            i <= cur <= evs@.len(),
            dv == evs.deep_view(),
            dv.len() == evs@.len(),
            p_signature_fields(dv, i as int, open.deep_view(), None, None) == p_signature_fields(
                dv,
                cur as int,
                open.deep_view(),
                algorithm.deep_view(),
                value.deep_view(),
            ),
        decreases evs@.len() - cur,
    {
        if cur >= evs.len() {
            return Err(Error::UnexpectedElement { element: "signature".to_owned() });
        }
        match &evs[cur] {
            Ev::Start { name, .. } => {
                if local_is(name, "algorithm") {
                    match read_text_tag(evs, cur + 1, name) {
                        Ok((t, j)) => {
                            algorithm = Some(t);
                            cur = j;
                        },
                        Err(e) => {
                            return Err(e);
                        },
                    }
                } else if local_is(name, "value") {
                    match read_text_tag(evs, cur + 1, name) {
                        Ok((t, j)) => {
                            value = Some(t);
                            cur = j;
                        },
                        Err(e) => {
                            return Err(e);
                        },
                    }
                } else {
                    match skip_element(evs, cur + 1, name) {
                        Ok(j) => {
                            cur = j;
                        },
                        Err(e) => {
                            return Err(e);
                        },
                    }
                }
            },
            Ev::End { name } => {
                if evname_eq(name, open) {
                    match algorithm {
                        Some(a) => match value {
                            Some(v) => {
                                return Ok((Signature { algorithm: a, value: v }, cur + 1));
                            },
                            None => {
                                return Err(
                                    Error::RequiredDataMissing {
                                        required_field: "value".to_owned(),
                                        element: "signature".to_owned(),
                                    },
                                );
                            },
                        },
                        None => {
                            return Err(
                                Error::RequiredDataMissing {
                                    required_field: "algorithm".to_owned(),
                                    element: "signature".to_owned(),
                                },
                            );
                        },
                    }
                } else {
                    return Err(Error::UnexpectedElement { element: "signature".to_owned() });
                }
            },
            _ => {
                return Err(Error::UnexpectedElement { element: "signature".to_owned() });
            },
        }
    }
}

} // verus!
