//! The walk that builds an element from its events, and its model.

use crate::element::Element;
use crate::element::ElementView;
use crate::element::Kind;
use crate::error::Error;
use crate::error::ErrorView;
use crate::event::Attribute;
use crate::event::AttributeView;
use crate::event::Event;
use crate::event::EventView;
use crate::text::same_text;
use crate::text::views;
use vstd::prelude::*;

verus! {

/// The element after the attributes from `from` on are read, in document
/// order; the first that is refused decides the error.
pub open spec fn with_attributes(
    element: ElementView,
    attributes: Seq<AttributeView>,
    from: int,
) -> Result<ElementView, ErrorView>
    decreases attributes.len() - from,
{
    if from < 0 || from >= attributes.len() {
        Ok(element)
    } else {
        match element.with_attribute(attributes[from].name, attributes[from].value) {
            Err(e) => Err(e),
            Ok(next) => with_attributes(next, attributes, from + 1),
        }
    }
}

/// Where the element ends that is open at `at` with `depth` more elements
/// open inside it: the position after its closing event, or the end of the
/// events where they run out first.
pub open spec fn subtree_end(events: Seq<EventView>, at: int, depth: nat) -> int
    decreases events.len() - at,
{
    if at < 0 || at >= events.len() {
        at
    } else {
        match events[at] {
            EventView::StartElement { .. } => subtree_end(events, at + 1, depth + 1),
            EventView::EndElement { .. } => if depth == 0 {
                at + 1
            } else {
                subtree_end(events, at + 1, (depth - 1) as nat)
            },
            _ => subtree_end(events, at + 1, depth),
        }
    }
}

/// What reading the content of `element` from `at` on gives, and where the
/// reading stops.
///
/// The closing event of the element's own tag ends it. A child that the
/// element reads is read whole and attached; any other child is passed over
/// with all that it holds. Text goes to the element. Where the events run
/// out, the element is complete as it stands. The first error ends all.
/// (What is read or passed over always ends beyond where it began and
/// within the events, as `lemma_reading_ends_within` shows; the model says
/// so once more only to be well-founded.)
pub open spec fn read_content(element: ElementView, events: Seq<EventView>, at: int) -> (
    Result<ElementView, ErrorView>,
    int,
)
    decreases events.len() - at, 0int,
{
    if at < 0 || at >= events.len() {
        (Ok(element), at)
    } else {
        match events[at] {
            EventView::EndElement { name } => if name == element.kind().tag_spec() {
                (Ok(element), at + 1)
            } else {
                read_content(element, events, at + 1)
            },
            EventView::StartElement { name, attributes } => match element.kind().child_spec(name) {
                Some(kind) => {
                    let (child, next) = read_element(kind, attributes, events, at + 1);
                    match child {
                        Err(e) => (Err(e), next),
                        Ok(child) => read_content(
                            element.with_child(child),
                            events,
                            if at < next <= events.len() {
                                next
                            } else {
                                at + 1
                            },
                        ),
                    }
                },
                None => {
                    let next = subtree_end(events, at + 1, 0);
                    read_content(
                        element,
                        events,
                        if at < next <= events.len() {
                            next
                        } else {
                            at + 1
                        },
                    )
                },
            },
            EventView::Characters(text) => read_content(element.with_text(text), events, at + 1),
            EventView::CData(text) => read_content(element.with_text(text), events, at + 1),
            EventView::Other => read_content(element, events, at + 1),
        }
    }
}

/// What reading an element of the kind `kind` gives, and where the reading
/// stops, when its opening event with `attributes` stands just before `at`:
/// a fresh element, then its attributes, then its content.
pub open spec fn read_element(
    kind: Kind,
    attributes: Seq<AttributeView>,
    events: Seq<EventView>,
    at: int,
) -> (Result<ElementView, ErrorView>, int)
    decreases events.len() - at, 1int,
{
    match with_attributes(ElementView::fresh(kind), attributes, 0) {
        Err(e) => (Err(e), at),
        Ok(element) => read_content(element, events, at),
    }
}

/// What reading a document whose root is of the kind `kind` gives, looking
/// for the root from `at` on: the first element that opens must bear the
/// root's tag.
pub open spec fn read_root(kind: Kind, events: Seq<EventView>, at: int) -> Result<
    ElementView,
    ErrorView,
>
    decreases events.len() - at,
{
    if at < 0 || at >= events.len() {
        Err(ErrorView::BadXml)
    } else {
        match events[at] {
            EventView::StartElement { name, attributes } => if name == kind.tag_spec() {
                read_element(kind, attributes, events, at + 1).0
            } else {
                Err(ErrorView::BadXml)
            },
            _ => read_root(kind, events, at + 1),
        }
    }
}

/// Whether an outcome of reading is the one that the model describes.
pub open spec fn agrees(
    result: Result<Element, Error>,
    model: Result<ElementView, ErrorView>,
) -> bool {
    match model {
        Ok(element) => result is Ok && result->Ok_0@ == element,
        Err(e) => result is Err && result->Err_0@ == e,
    }
}

/// Passes over the rest of an element whose opening event stands just
/// before `at`.
pub fn skip_subtree(events: &Vec<Event>, at: usize) -> (next: usize)
    ensures
        next == subtree_end(views(events@), at as int, 0),
        at <= next,
        at <= events.len() ==> next <= events.len(),
{
    if at >= events.len() {
        return at;
    }
    let mut depth: usize = 0;
    let mut i: usize = at;
    while i < events.len()
        invariant
            at <= i <= events.len(),
            depth <= i - at,
            subtree_end(views(events@), i as int, depth as nat) == subtree_end(
                views(events@),
                at as int,
                0,
            ),
        decreases events.len() - i,
    {
        assert(views(events@)[i as int] == events@[i as int]@);
        match &events[i] {
            Event::StartElement { .. } => {
                depth += 1;
            },
            Event::EndElement { .. } => {
                if depth == 0 {
                    return i + 1;
                }
                depth -= 1;
            },
            _ => {},
        }
        i += 1;
    }
    i
}

/// Reads the attributes of an element into it, in document order.
pub fn read_attributes(element: Element, attributes: &Vec<Attribute>) -> (result: Result<
    Element,
    Error,
>)
    ensures
        agrees(result, with_attributes(element@, views(attributes@), 0)),
{
    let mut current = element;
    let mut i: usize = 0;
    while i < attributes.len()
        invariant
            i <= attributes.len(),
            with_attributes(current@, views(attributes@), i as int) == with_attributes(
                element@,
                views(attributes@),
                0,
            ),
        decreases attributes.len() - i,
    {
        assert(views(attributes@)[i as int] == attributes@[i as int]@);
        let attribute = &attributes[i];
        match current.read_attribute(attribute.name.as_str(), attribute.value.as_str()) {
            Ok(next) => {
                current = next;
            },
            Err(e) => {
                return Err(e);
            },
        }
        i += 1;
    }
    Ok(current)
}

/// Reads the content of an element from `at` on, as [`read_content`] says.
pub fn read_children(element: Element, events: &Vec<Event>, at: usize) -> (result: (
    Result<Element, Error>,
    usize,
))
    ensures
        agrees(result.0, read_content(element@, views(events@), at as int).0),
        result.1 == read_content(element@, views(events@), at as int).1,
        at <= result.1,
        at <= events.len() ==> result.1 <= events.len(),
    decreases events.len() - at, 0int,
{
    if at >= events.len() {
        return (Ok(element), at);
    }
    let mut current = element;
    let mut i: usize = at;
    while i < events.len()
        invariant
            at <= i <= events.len(),
            read_content(current@, views(events@), i as int) == read_content(
                element@,
                views(events@),
                at as int,
            ),
        decreases events.len() - i,
    {
        assert(views(events@)[i as int] == events@[i as int]@);
        let kind = current.kind();
        match &events[i] {
            Event::EndElement { name } => {
                if same_text(name.as_str(), kind.tag()) {
                    return (Ok(current), i + 1);
                }
                i += 1;
            },
            Event::StartElement { name, attributes } => {
                match kind.child(name.as_str()) {
                    Some(child_kind) => {
                        let (child, next) = read_element_at(child_kind, attributes, events, i + 1);
                        match child {
                            Ok(child) => {
                                current = current.attach(child);
                                i = next;
                            },
                            Err(e) => {
                                return (Err(e), next);
                            },
                        }
                    },
                    None => {
                        i = skip_subtree(events, i + 1);
                    },
                }
            },
            Event::Characters(text) => {
                current = current.attach_text(text.as_str());
                i += 1;
            },
            Event::CData(text) => {
                current = current.attach_text(text.as_str());
                i += 1;
            },
            Event::Other => {
                i += 1;
            },
        }
    }
    (Ok(current), i)
}

/// Reads an element of the kind `kind` whose opening event, with
/// `attributes`, stands just before `at`, as [`read_element`] says.
pub fn read_element_at(
    kind: Kind,
    attributes: &Vec<Attribute>,
    events: &Vec<Event>,
    at: usize,
) -> (result: (Result<Element, Error>, usize))
    ensures
        agrees(result.0, read_element(kind, views(attributes@), views(events@), at as int).0),
        result.1 == read_element(kind, views(attributes@), views(events@), at as int).1,
        at <= result.1,
        at <= events.len() ==> result.1 <= events.len(),
    decreases events.len() - at, 1int,
{
    match read_attributes(Element::new(kind), attributes) {
        Ok(element) => read_children(element, events, at),
        Err(e) => (Err(e), at),
    }
}

/// Reads a document whose root is of the kind `kind`, as [`read_root`]
/// says. A document in which no element opens, or whose first element bears
/// another tag than the root's, is refused as malformed.
pub fn read_document(kind: Kind, events: &Vec<Event>) -> (result: Result<Element, Error>)
    ensures
        agrees(result, read_root(kind, views(events@), 0)),
{
    let mut i: usize = 0;
    while i < events.len()
        invariant
            i <= events.len(),
            read_root(kind, views(events@), i as int) == read_root(kind, views(events@), 0),
        decreases events.len() - i,
    {
        assert(views(events@)[i as int] == events@[i as int]@);
        match &events[i] {
            Event::StartElement { name, attributes } => {
                if same_text(name.as_str(), kind.tag()) {
                    return read_element_at(kind, attributes, events, i + 1).0;
                } else {
                    return Err(Error::BadXml);
                }
            },
            _ => {},
        }
        i += 1;
    }
    Err(Error::BadXml)
}

} // verus!
