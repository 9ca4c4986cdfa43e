//! The boundary to the event source: the streaming parser of the `xml`
//! crate turns the document's bytes into the event stream the extractor
//! consumes.  Parsing is a pure function of the bytes, so the stream is
//! named here and everything downstream of it is verified against that
//! name.

use vstd::prelude::*;

use crate::events::{EventV, ParseEvent};
use crate::machine::{run, run_spec, Extraction, ExtractionV};
use crate::model::{ErrorV, FatalError};

verus! {

/// The event reader's type, opaque to the verifier; values of it only pass
/// through the trusted boundary.
#[verifier::external_type_specification]
#[verifier::external_body]
pub struct ExXmlEvent(xml::reader::XmlEvent);

/// The event reader's error type, opaque to the verifier.
#[verifier::external_type_specification]
#[verifier::external_body]
pub struct ExXmlError(xml::reader::Error);

/// The event stream that `xml::reader::EventReader` yields over the given
/// bytes, as this crate's events: parsing is deterministic, a function of
/// the bytes alone.
pub uninterp spec fn events_of(bytes: Seq<u8>) -> Seq<EventV>;

/// Relies on `xml::reader::XmlEvent` holding one tag, text chunk or error
/// per value: each variant is carried over field by field, and the ones
/// the extractor never reads become markup events.
#[verifier::external_body]
fn convert_event(e: Result<xml::reader::XmlEvent, xml::reader::Error>) -> ParseEvent {
    match e {
        Ok(xml::reader::XmlEvent::StartElement { name, attributes, .. }) => {
            ParseEvent::StartElement {
                name: name.local_name,
                attributes: attributes.into_iter().map(|a| (a.name.local_name, a.value)).collect(),
            }
        },
        Ok(xml::reader::XmlEvent::EndElement { name }) => {
            ParseEvent::EndElement { name: name.local_name }
        },
        Ok(xml::reader::XmlEvent::Characters(s)) => ParseEvent::Text(s),
        Ok(_) => ParseEvent::Markup,
        Err(err) => ParseEvent::SourceError(err.to_string()),
    }
}

/// Relies on `xml::reader::EventReader`: iterating it yields the document's
/// events in order, ending after the document marker or the first error —
/// a function of the bytes alone, named [`events_of`].
#[verifier::external_body]
fn parse_document(input: &[u8]) -> (r: Vec<ParseEvent>)
    ensures
        r.deep_view() == events_of(input@),
{
    let mut out = Vec::new();
    for e in xml::reader::EventReader::new(input) {
        out.push(convert_event(e));
    }
    out
}

/// Runs the extractor over a whole document: the bytes through the
/// streaming parser, its events through the accumulators.
pub fn extract_from_bytes(input: &[u8]) -> (r: Result<Extraction, FatalError>)
    ensures
        match r {
            Ok(x) => run_spec(events_of(input@)) == Ok::<ExtractionV, ErrorV>(x@),
            Err(e) => run_spec(events_of(input@)) == Err::<ExtractionV, ErrorV>(e@),
        },
{
    let events = parse_document(input);
    run(&events)
}

} // verus!
