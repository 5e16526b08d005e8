//! Public XML entry points: whole `bom` documents and standalone `licenses`
//! documents, in both directions.

use vstd::prelude::*;

use crate::errors::{Error, ErrorView};
use crate::model::{Bom, BomView, Licenses, LicensesView, SpecVersion};
use crate::xml_base::{local_is, pres, push_ev, unexpected};
use crate::xml_io::{render, tokenize, xml_events_of, xml_renders, xml_text_of, xml_wf, Ev, EvView};
use crate::xml_license::{p_licenses, push_licenses, read_licenses, w_licenses};

verus! {

/// What parsing a standalone `licenses` document yields: the document start
/// token, a root element whose local name is `licenses`, then its choices.
pub open spec fn p_licenses_document(evs: Seq<EvView>) -> Result<LicensesView, ErrorView> {
    if evs.len() < 2 {
        Err(unexpected("licenses"@))
    } else if !(evs[0] is DocStart) {
        Err(unexpected("licenses"@))
    } else {
        match evs[1] {
            EvView::Start { name, attrs } => {
                if name.local == "licenses"@ {
                    match p_licenses(evs, 2, name) {
                        Ok((l, _)) => Ok(l),
                        Err(e) => Err(e),
                    }
                } else {
                    Err(unexpected("licenses"@))
                }
            },
            _ => Err(unexpected("licenses"@)),
        }
    }
}

/// Parses a standalone `licenses` XML document.  On a well-formed document
/// the result is exactly what the specification-level parser yields on its
/// token stream; only a document the tokenizer refuses is a syntax error.
pub fn parse_licenses_xml(bytes: &[u8]) -> (r: Result<Licenses, Error>)
    ensures
        xml_wf(bytes@) ==> (match r {
            Ok(l) => p_licenses_document(xml_events_of(bytes@)) == Ok::<
                LicensesView,
                ErrorView,
            >(l.deep_view()),
            Err(e) => p_licenses_document(xml_events_of(bytes@)) == Err::<
                LicensesView,
                ErrorView,
            >(e.deep_view()),
        }),
        !xml_wf(bytes@) ==> (r matches Err(e) && e is Syntax),
{
    let evs = match tokenize(bytes) {
        Ok(v) => v,
        Err(m) => {
            return Err(Error::Syntax { message: m });
        },
    };
    if evs.len() < 2 {
        return Err(Error::UnexpectedElement { element: "licenses".to_owned() });
    }
    let ok0 = match &evs[0] {
        Ev::DocStart => true,
        _ => false,
    };
    if !ok0 {
        return Err(Error::UnexpectedElement { element: "licenses".to_owned() });
    }
    match &evs[1] {
        Ev::Start { name, .. } => {
            if local_is(name, "licenses") {
                match read_licenses(&evs, 2, name) {
                    Ok((l, _)) => Ok(l),
                    Err(e) => Err(e),
                }
            } else {
                Err(Error::UnexpectedElement { element: "licenses".to_owned() })
            }
        },
        _ => Err(Error::UnexpectedElement { element: "licenses".to_owned() }),
    }
}

/// Writes a license list as a standalone `licenses` XML document: exactly
/// the rendering of its specification-level event sequence, which succeeds
/// whenever the emitter accepts that sequence.
pub fn write_licenses_xml(ls: &Licenses) -> (r: Result<Vec<u8>, Error>)
    ensures
        r is Ok <==> xml_renders(w_licenses(ls.deep_view())),
        match r {
            Ok(b) => b@ == xml_text_of(w_licenses(ls.deep_view())),
            Err(e) => e is WriteFailed,
        },
{
    let mut evs: Vec<Ev> = Vec::new();
    proof {
        assert(evs.deep_view() =~= Seq::<EvView>::empty());
    }
    push_licenses(&mut evs, ls);
    proof {
        assert(evs.deep_view() =~= w_licenses(ls.deep_view()));
    }
    match render(&evs) {
        Ok(b) => Ok(b),
        Err(m) => Err(Error::WriteFailed { message: m }),
    }
}

} // verus!

verus! {

/// Parses a whole `bom` XML document for the requested schema version.  On
/// a well-formed document the result is exactly what the specification-level
/// document parser yields on its token stream; only a document the tokenizer
/// refuses is a syntax error.
pub fn parse_bom_xml(bytes: &[u8], version: SpecVersion) -> (r: Result<Bom, Error>)
    ensures
        xml_wf(bytes@) ==> (match r {
            Ok(b) => crate::xml_doc::p_bom_document(xml_events_of(bytes@), version) == Ok::<
                BomView,
                ErrorView,
            >(b.deep_view()),
            Err(e) => crate::xml_doc::p_bom_document(xml_events_of(bytes@), version) == Err::<
                BomView,
                ErrorView,
            >(e.deep_view()),
        }),
        !xml_wf(bytes@) ==> (r matches Err(e) && e is Syntax),
{
    let evs = match tokenize(bytes) {
        Ok(v) => v,
        Err(m) => {
            return Err(Error::Syntax { message: m });
        },
    };
    crate::xml_doc::read_bom_document(&evs, version)
}

} // verus!

verus! {

/// Serializes a model as a whole `bom` XML document for the requested
/// schema version.  A model that uses a feature the version cannot
/// represent — a populated vulnerability section, or an enveloped signature
/// anywhere, both of which entered the schema with version 1.4 — is
/// rejected rather than silently dropped; otherwise the output is exactly
/// the rendering of the specification-level document events, and succeeds
/// whenever the emitter accepts them.
pub fn write_bom_xml(b: &Bom, version: SpecVersion) -> (r: Result<Vec<u8>, Error>)
    ensures
        b.vulnerabilities is Some && !version.spec_supports_signed_extensions() ==> (r matches
            Err(e) && e.deep_view() == (ErrorView::UnsupportedInVersion {
            field: "vulnerabilities"@,
            version: version.spec_label(),
        })),
        !(b.vulnerabilities is Some) && crate::model::bom_has_signature(b.deep_view())
            && !version.spec_supports_signed_extensions() ==> (r matches Err(e) && e.deep_view()
            == (ErrorView::UnsupportedInVersion {
            field: "signature"@,
            version: version.spec_label(),
        })),
        version.spec_supports_signed_extensions() || (!(b.vulnerabilities is Some)
            && !crate::model::bom_has_signature(b.deep_view())) ==> (r is Ok
            <==> xml_renders(crate::xml_doc::w_bom(b.deep_view(), version))),
        r matches Ok(bytes) ==> bytes@ == xml_text_of(
            crate::xml_doc::w_bom(b.deep_view(), version),
        ),
        r matches Err(e) ==> (e is WriteFailed || e is UnsupportedInVersion),
{
    if !version.supports_signed_extensions() {
        if b.vulnerabilities.is_some() {
            return Err(
                Error::UnsupportedInVersion {
                    field: "vulnerabilities".to_owned(),
                    version: version.label().to_owned(),
                },
            );
        }
        if crate::model::bom_has_sig(b) {
            return Err(
                Error::UnsupportedInVersion {
                    field: "signature".to_owned(),
                    version: version.label().to_owned(),
                },
            );
        }
    }
    let mut evs: Vec<Ev> = Vec::new();
    proof {
        assert(evs.deep_view() =~= Seq::<EvView>::empty());
    }
    crate::xml_doc::push_bom(&mut evs, b, version);
    proof {
        assert(evs.deep_view() =~= crate::xml_doc::w_bom(b.deep_view(), version));
    }
    match render(&evs) {
        Ok(bts) => Ok(bts),
        Err(m) => Err(Error::WriteFailed { message: m }),
    }
}

} // verus!
