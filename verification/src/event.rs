//! Structural events and the tokenizer that delivers them.

use crate::text::lemma_views_push;
use crate::text::views;
use vstd::prelude::*;
use xml::reader::EventReader;
use xml::reader::XmlEvent;

verus! {

/// One attribute of an element: its local name and its unescaped value.
#[derive(Debug, PartialEq, Eq)]
pub struct Attribute {
    pub name: String,
    pub value: String,
}

/// The mathematical value of an [`Attribute`].
pub struct AttributeView {
    pub name: Seq<char>,
    pub value: Seq<char>,
}

impl View for Attribute {
    type V = AttributeView;

    open spec fn view(&self) -> AttributeView {
        AttributeView { name: self.name@, value: self.value@ }
    }
}

/// A structural event of a document, as the tokenizer delivers it.
#[derive(Debug, PartialEq, Eq)]
pub enum Event {
    /// An element opens: its local name and its attributes in document order.
    StartElement { name: String, attributes: Vec<Attribute> },
    /// An element closes.
    EndElement { name: String },
    /// Character data between tags, unescaped.
    Characters(String),
    /// A CDATA section, verbatim.
    CData(String),
    /// Anything else: declarations, comments, whitespace between tags.
    Other,
}

/// The mathematical value of an [`Event`].
pub enum EventView {
    StartElement { name: Seq<char>, attributes: Seq<AttributeView> },
    EndElement { name: Seq<char> },
    Characters(Seq<char>),
    CData(Seq<char>),
    Other,
}

impl View for Event {
    type V = EventView;

    open spec fn view(&self) -> EventView {
        match self {
            Event::StartElement { name, attributes } => EventView::StartElement {
                name: name@,
                attributes: views(attributes@),
            },
            Event::EndElement { name } => EventView::EndElement { name: name@ },
            Event::Characters(text) => EventView::Characters(text@),
            Event::CData(text) => EventView::CData(text@),
            Event::Other => EventView::Other,
        }
    }
}

/// A tokenizer at work on one document: the outside crate's event reader over
/// the text's bytes. Its state is opaque; [`pending`] names what it has yet to
/// deliver.
#[verifier::external_body]
pub struct Tokenizer<'a> {
    reader: EventReader<&'a [u8]>,
}

/// The events that a tokenizer has yet to deliver before its stream ends, be
/// it at the end of the document or at the first syntax error.
pub uninterp spec fn pending(tokenizer: &Tokenizer) -> Seq<EventView>;

/// The events of a whole document, from its text.
pub uninterp spec fn document_events(text: Seq<char>) -> Seq<EventView>;

/// `EventReader::from_str`: a reader positioned before the first event of
/// `text`. Nothing is read yet; the contract names what the reader will
/// deliver.
#[verifier::external_body]
fn open<'a>(text: &'a str) -> (tokenizer: Tokenizer<'a>)
    ensures
        pending(&tokenizer) == document_events(text@),
{
    Tokenizer { reader: EventReader::from_str(text) }
}

/// `EventReader::next`, under the reader's default configuration: delivers
/// the first pending event and leaves the rest pending, or reports that the
/// stream has ended. The end of the document and a syntax error both end the
/// stream, and the reader repeats them on every later call. Names are local
/// names; whatever is no opening, closing, character data or CDATA event is
/// delivered as [`Event::Other`].
#[verifier::external_body]
fn pull(tokenizer: &mut Tokenizer) -> (event: Option<Event>)
    ensures
        pending(old(tokenizer)).len() == 0 ==> event is None && pending(final(tokenizer)).len()
            == 0,
        pending(old(tokenizer)).len() > 0 ==> event is Some && event->0@ == pending(
            old(tokenizer),
        )[0] && pending(final(tokenizer)) == pending(old(tokenizer)).skip(1),
{
    match tokenizer.reader.next() {
        Ok(XmlEvent::StartElement { name, attributes, .. }) => Some(
            Event::StartElement {
                name: name.local_name,
                attributes: attributes.into_iter().map(
                    |a| Attribute { name: a.name.local_name, value: a.value },
                ).collect(),
            },
        ),
        Ok(XmlEvent::EndElement { name }) => Some(Event::EndElement { name: name.local_name }),
        Ok(XmlEvent::Characters(text)) => Some(Event::Characters(text)),
        Ok(XmlEvent::CData(text)) => Some(Event::CData(text)),
        Ok(XmlEvent::EndDocument) | Err(_) => None,
        Ok(_) => Some(Event::Other),
    }
}

/// Tokenizes a document: every event up to the end of the stream, in order.
pub fn tokenize(text: &str) -> (events: Vec<Event>)
    ensures
        views(events@) == document_events(text@),
{
    let mut tokenizer = open(text);
    let mut events: Vec<Event> = Vec::new();
    loop
        invariant
            views(events@) + pending(&tokenizer) == document_events(text@),
        decreases pending(&tokenizer).len(),
    {
        let ghost before = pending(&tokenizer);
        match pull(&mut tokenizer) {
            Some(event) => {
                proof {
                    lemma_views_push(events@, event);
                    assert(views(events@).push(event@) + before.skip(1) =~= views(events@)
                        + before);
                }
                events.push(event);
            },
            None => {
                assert(views(events@) + before =~= views(events@));
                return events;
            },
        }
    }
}

} // verus!
