//! The boundary to the `xml` crate.
//!
//! The engine works on a flat sequence of [`Ev`] events.  Turning document
//! bytes into that sequence, and the sequence back into document text, is
//! the work of the `xml` crate's pull parser and emitter; both calls sit in
//! trusted wrappers here.  Everything the events mean — dispatch, matching,
//! skipping — is decided by verified code elsewhere.

use vstd::prelude::*;

verus! {

/// The qualified name of an element: its resolved namespace URI, if any,
/// and its local name.
#[derive(Debug, PartialEq, Eq)]
pub struct EvName {
    pub ns: Option<String>,
    pub local: String,
}

pub struct EvNameView {
    pub ns: Option<Seq<char>>,
    pub local: Seq<char>,
}

impl DeepView for EvName {
    type V = EvNameView;

    open spec fn deep_view(&self) -> EvNameView {
        EvNameView { ns: self.ns.deep_view(), local: self.local.deep_view() }
    }
}

/// One pull event of an XML document.
///
/// `Other` stands for every event kind the engine has no use for
/// (processing instructions, doctype declarations); meeting one where a
/// known event is required is a structural read error, exactly as for any
/// other unexpected event.
#[derive(Debug, PartialEq, Eq)]
pub enum Ev {
    DocStart,
    DocEnd,
    Start { name: EvName, attrs: Vec<(String, String)> },
    End { name: EvName },
    Text(String),
    Other,
}

pub enum EvView {
    DocStart,
    DocEnd,
    Start { name: EvNameView, attrs: Seq<(Seq<char>, Seq<char>)> },
    End { name: EvNameView },
    Text(Seq<char>),
    Other,
}

impl DeepView for Ev {
    type V = EvView;

    open spec fn deep_view(&self) -> EvView {
        match self {
            Ev::DocStart => EvView::DocStart,
            Ev::DocEnd => EvView::DocEnd,
            Ev::Start { name, attrs } => EvView::Start {
                name: name.deep_view(),
                attrs: attrs.deep_view(),
            },
            Ev::End { name } => EvView::End { name: name.deep_view() },
            Ev::Text(s) => EvView::Text(s.deep_view()),
            Ev::Other => EvView::Other,
        }
    }
}

/// The event sequence that the `xml` crate's pull parser produces for a
/// well-formed document, under this engine's reader configuration
/// (whitespace-only text removed, text trimmed, CDATA read as text,
/// comments ignored).  A function of the bytes alone.
pub uninterp spec fn xml_events_of(bytes: Seq<u8>) -> Seq<EvView>;

/// The document text that the `xml` crate's emitter produces for an event
/// sequence, under this engine's writer configuration (no XML declaration,
/// empty elements self-closed without padding).  A function of the events
/// alone.
pub uninterp spec fn xml_text_of(events: Seq<EvView>) -> Seq<u8>;

/// Whether the `xml` crate's pull parser accepts the bytes as a well-formed
/// document under this engine's reader configuration.  A function of the
/// bytes alone.
pub uninterp spec fn xml_wf(bytes: Seq<u8>) -> bool;

/// Whether the `xml` crate's emitter accepts the event sequence (balanced
/// elements, text only inside an element).  A function of the events alone.
pub uninterp spec fn xml_renders(events: Seq<EvView>) -> bool;

#[verifier::external_type_specification]
#[verifier::external_body]
pub struct ExReaderEvent(xml::reader::XmlEvent);

/// Relies on the `xml` crate's reader event type: converts one pull event
/// into the engine's event form, moving the fields over.
#[verifier::external_body]
fn conv(e: xml::reader::XmlEvent) -> Ev {
    match e {
        xml::reader::XmlEvent::StartDocument { .. } => Ev::DocStart,
        xml::reader::XmlEvent::EndDocument => Ev::DocEnd,
        xml::reader::XmlEvent::StartElement { name, attributes, .. } => Ev::Start {
            name: EvName { ns: name.namespace, local: name.local_name },
            attrs: attributes.into_iter().map(|a| (a.name.local_name, a.value)).collect(),
        },
        xml::reader::XmlEvent::EndElement { name } => Ev::End {
            name: EvName { ns: name.namespace, local: name.local_name },
        },
        xml::reader::XmlEvent::Characters(s) => Ev::Text(s),
        _ => Ev::Other,
    }
}

/// Relies on `xml::EventReader`: pulls every event of the document held in
/// `bytes`, reporting the first well-formedness error instead.  The event
/// stream of a given byte sequence is deterministic.
#[verifier::external_body]
pub(crate) fn tokenize(bytes: &[u8]) -> (r: Result<Vec<Ev>, String>)
    ensures
        r is Ok <==> xml_wf(bytes@),
        r matches Ok(v) ==> v.deep_view() == xml_events_of(bytes@),
{
    let cfg = xml::ParserConfig::new().trim_whitespace(true).cdata_to_characters(true);
    let mut out = Vec::new();
    for e in cfg.create_reader(bytes) {
        match e {
            Err(er) => return Err(er.to_string()),
            Ok(x) => out.push(conv(x)),
        }
    }
    Ok(out)
}

#[verifier::external_type_specification]
#[verifier::external_body]
pub struct ExWriterEvent<'a>(xml::writer::XmlEvent<'a>);

/// Relies on the `xml` crate's writer event builders: converts one engine
/// event into the writer's form; events the writer has no form for yield
/// nothing.
#[verifier::external_body]
fn wev<'a>(e: &'a Ev) -> Option<xml::writer::XmlEvent<'a>> {
    match e {
        Ev::Start { name, attrs } => {
            let mut b = xml::writer::XmlEvent::start_element(name.local.as_str());
            if let Some(ns) = &name.ns {
                b = b.default_ns(ns.as_str());
            }
            for kv in attrs.iter() {
                b = b.attr(kv.0.as_str(), kv.1.as_str());
            }
            Some(b.into())
        },
        Ev::End { .. } => Some(xml::writer::XmlEvent::end_element().into()),
        Ev::Text(s) => Some(xml::writer::XmlEvent::characters(s.as_str())),
        _ => None,
    }
}

/// Relies on `xml::EventWriter`: renders the event sequence as document
/// text, reporting the emitter's error if it refuses the sequence.  The
/// text rendered for a given event sequence is deterministic.
#[verifier::external_body]
pub(crate) fn render(events: &Vec<Ev>) -> (r: Result<Vec<u8>, String>)
    ensures
        r is Ok <==> xml_renders(events.deep_view()),
        r matches Ok(v) ==> v@ == xml_text_of(events.deep_view()),
{
    let cfg = xml::EmitterConfig::new().write_document_declaration(false).pad_self_closing(false);
    let mut w = cfg.create_writer(Vec::new());
    for e in events.iter() {
        if let Some(we) = wev(e) {
            if let Err(er) = w.write(we) {
                return Err(er.to_string());
            }
        }
    }
    Ok(w.into_inner())
}

} // verus!
