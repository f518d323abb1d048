//! Reading keeps the kind of an element.

use crate::element::ElementView;
use crate::element::Kind;
use crate::event::AttributeView;
use crate::event::EventView;
use crate::laws::walk::lemma_part_after_content;
use crate::reader::read_content;
use crate::reader::read_element;
use crate::reader::read_root;
use crate::reader::with_attributes;
use vstd::prelude::*;

verus! {

/// Reading an attribute never changes the kind of an element.
pub proof fn lemma_attribute_keeps_kind(element: ElementView, name: Seq<char>, value: Seq<char>)
    ensures
        match element.with_attribute(name, value) {
            Ok(next) => next.kind() == element.kind(),
            Err(_) => true,
        },
{
}

/// Attaching a child or text never changes the kind of an element.
pub proof fn lemma_content_keeps_kind(element: ElementView, child: ElementView, text: Seq<char>)
    ensures
        element.with_child(child).kind() == element.kind(),
        element.with_text(text).kind() == element.kind(),
{
}

/// Reading attributes never changes the kind of an element.
pub proof fn lemma_attributes_keep_kind(
    element: ElementView,
    attributes: Seq<AttributeView>,
    from: int,
)
    ensures
        match with_attributes(element, attributes, from) {
            Ok(next) => next.kind() == element.kind(),
            Err(_) => true,
        },
    decreases attributes.len() - from,
{
    if 0 <= from < attributes.len() {
        lemma_attribute_keeps_kind(element, attributes[from].name, attributes[from].value);
        match element.with_attribute(attributes[from].name, attributes[from].value) {
            Ok(next) => lemma_attributes_keep_kind(next, attributes, from + 1),
            Err(_) => {},
        }
    }
}

/// An element fresh of a kind is of that kind.
pub proof fn lemma_fresh_kind(kind: Kind)
    ensures
        ElementView::fresh(kind).kind() == kind,
{
}

/// Reading content never changes the kind of an element, and reading an
/// element gives one of the kind asked for.
pub proof fn lemma_reading_keeps_kind(
    element: ElementView,
    kind: Kind,
    attributes: Seq<AttributeView>,
    events: Seq<EventView>,
    at: int,
)
    ensures
        match read_content(element, events, at).0 {
            Ok(read) => read.kind() == element.kind(),
            Err(_) => true,
        },
        match read_element(kind, attributes, events, at).0 {
            Ok(read) => read.kind() == kind,
            Err(_) => true,
        },
{
    let part = |e: ElementView| e.kind();
    assert forall|e: ElementView, c: ElementView| part(#[trigger] e.with_child(c)) == part(e) by {
        lemma_content_keeps_kind(e, c, Seq::empty());
    }
    assert forall|e: ElementView, t: Seq<char>| part(#[trigger] e.with_text(t)) == part(e) by {
        lemma_content_keeps_kind(e, e, t);
    }
    lemma_part_after_content(part, element, events, at);
    lemma_fresh_kind(kind);
    lemma_attributes_keep_kind(ElementView::fresh(kind), attributes, 0);
    match with_attributes(ElementView::fresh(kind), attributes, 0) {
        Ok(start) => lemma_part_after_content(part, start, events, at),
        Err(_) => {},
    }
}

/// The root that a document gives is of the kind asked for.
pub proof fn lemma_root_kind(kind: Kind, events: Seq<EventView>, at: int)
    ensures
        match read_root(kind, events, at) {
            Ok(root) => root.kind() == kind,
            Err(_) => true,
        },
    decreases events.len() - at,
{
    if 0 <= at < events.len() {
        match events[at] {
            EventView::StartElement { name, attributes } => {
                lemma_reading_keeps_kind(
                    ElementView::fresh(kind),
                    kind,
                    attributes,
                    events,
                    at + 1,
                );
            },
            _ => lemma_root_kind(kind, events, at + 1),
        }
    }
}

} // verus!
