//! The parse events the extractor consumes: a lazy, finite, forward-only
//! stream of start-element, end-element and text events over the document,
//! plus the source's own error report.  The extractor never buffers beyond
//! the current event.

use vstd::prelude::*;

verus! {

/// One event of the document stream.
#[derive(Clone, Debug, PartialEq)]
pub enum ParseEvent {
    /// An element opens, with its attribute list in document order.
    StartElement { name: String, attributes: Vec<(String, String)> },
    /// An element closes.
    EndElement { name: String },
    /// Character data between tags.
    Text(String),
    /// The event source itself failed; the scan halts here.
    SourceError(String),
    /// Anything else the source reports (document markers, whitespace,
    /// processing instructions): carries nothing the extractor reads.
    Markup,
}

/// Mathematical image of a [`ParseEvent`].
pub ghost enum EventV {
    StartElement { name: Seq<char>, attributes: Seq<(Seq<char>, Seq<char>)> },
    EndElement { name: Seq<char> },
    Text(Seq<char>),
    SourceError(Seq<char>),
    Markup,
}

impl View for ParseEvent {
    type V = EventV;

    open spec fn view(&self) -> EventV {
        match self {
            ParseEvent::StartElement { name, attributes } => EventV::StartElement {
                name: name@,
                attributes: attributes.deep_view(),
            },
            ParseEvent::EndElement { name } => EventV::EndElement { name: name@ },
            ParseEvent::Text(t) => EventV::Text(t@),
            ParseEvent::SourceError(m) => EventV::SourceError(m@),
            ParseEvent::Markup => EventV::Markup,
        }
    }
}

impl DeepView for ParseEvent {
    type V = EventV;

    open spec fn deep_view(&self) -> EventV {
        self.view()
    }
}

} // verus!
