//! Where the walk stops, and what it leaves as it was.

use crate::element::ElementView;
use crate::element::Kind;
use crate::error::ErrorView;
use crate::event::AttributeView;
use crate::event::EventView;
use crate::reader::read_content;
use crate::reader::read_element;
use crate::reader::subtree_end;
use crate::reader::with_attributes;
use vstd::prelude::*;

verus! {

/// What is passed over ends beyond where it began and within the events.
pub proof fn lemma_subtree_ends_within(events: Seq<EventView>, at: int, depth: nat)
    requires
        0 <= at <= events.len(),
    ensures
        at <= subtree_end(events, at, depth) <= events.len(),
        at < events.len() ==> at < subtree_end(events, at, depth),
    decreases events.len() - at,
{
    if at < events.len() {
        match events[at] {
            EventView::StartElement { .. } => lemma_subtree_ends_within(events, at + 1, depth + 1),
            EventView::EndElement { .. } => {
                if depth != 0 {
                    lemma_subtree_ends_within(events, at + 1, (depth - 1) as nat);
                }
            },
            _ => lemma_subtree_ends_within(events, at + 1, depth),
        }
    }
}

/// What is read ends at or beyond where it began and within the events:
/// the model of reading never has to correct a position.
pub proof fn lemma_reading_ends_within(
    element: ElementView,
    kind: Kind,
    attributes: Seq<AttributeView>,
    events: Seq<EventView>,
    at: int,
)
    requires
        0 <= at <= events.len(),
    ensures
        at <= read_content(element, events, at).1 <= events.len(),
        at <= read_element(kind, attributes, events, at).1 <= events.len(),
    decreases events.len() - at, 1int,
{
    lemma_content_ends_within(element, events, at);
    match with_attributes(ElementView::fresh(kind), attributes, 0) {
        Ok(start) => lemma_content_ends_within(start, events, at),
        Err(_) => {},
    }
}

/// The content of an element ends at or beyond where it began and within
/// the events.
proof fn lemma_content_ends_within(element: ElementView, events: Seq<EventView>, at: int)
    requires
        0 <= at <= events.len(),
    ensures
        at <= read_content(element, events, at).1 <= events.len(),
    decreases events.len() - at, 0int,
{
    if at < events.len() {
        match events[at] {
            EventView::EndElement { name } => {
                if name != element.kind().tag_spec() {
                    lemma_content_ends_within(element, events, at + 1);
                }
            },
            EventView::StartElement { name, attributes } => {
                match element.kind().child_spec(name) {
                    Some(kind) => {
                        lemma_reading_ends_within(element, kind, attributes, events, at + 1);
                        let (child, next) = read_element(kind, attributes, events, at + 1);
                        match child {
                            Ok(child) => {
                                lemma_content_ends_within(element.with_child(child), events, next);
                            },
                            Err(_) => {},
                        }
                    },
                    None => {
                        lemma_subtree_ends_within(events, at + 1, 0);
                        lemma_content_ends_within(
                            element,
                            events,
                            subtree_end(events, at + 1, 0),
                        );
                    },
                }
            },
            EventView::Characters(text) => {
                lemma_content_ends_within(element.with_text(text), events, at + 1);
            },
            EventView::CData(text) => {
                lemma_content_ends_within(element.with_text(text), events, at + 1);
            },
            EventView::Other => {
                lemma_content_ends_within(element, events, at + 1);
            },
        }
    }
}

/// A child that an element does not read is passed over with all that it
/// holds: the reading goes on where the child ends, as if it had not been
/// there.
pub proof fn lemma_unknown_child_is_passed_over(
    element: ElementView,
    events: Seq<EventView>,
    at: int,
)
    requires
        0 <= at < events.len(),
        events[at] is StartElement,
        element.kind().child_spec(events[at]->StartElement_name) is None,
    ensures
        read_content(element, events, at) == read_content(
            element,
            events,
            subtree_end(events, at + 1, 0),
        ),
{
    lemma_subtree_ends_within(events, at + 1, 0);
}

/// The first error ends all: where a child cannot be read, its parent
/// cannot, and for the same reason.
pub proof fn lemma_error_of_child_is_error_of_parent(
    element: ElementView,
    events: Seq<EventView>,
    at: int,
)
    requires
        0 <= at < events.len(),
        events[at] is StartElement,
        element.kind().child_spec(events[at]->StartElement_name) is Some,
        read_element(
            element.kind().child_spec(events[at]->StartElement_name)->0,
            events[at]->StartElement_attributes,
            events,
            at + 1,
        ).0 is Err,
    ensures
        read_content(element, events, at).0 == Err::<ElementView, ErrorView>(
            read_element(
                element.kind().child_spec(events[at]->StartElement_name)->0,
                events[at]->StartElement_attributes,
                events,
                at + 1,
            ).0->Err_0,
        ),
{
}

/// What attributes alone decide, they decide by name: a reading `part` of
/// an element that only the attributes named in `names` can change, and
/// that no child and no text changes, is after reading an element without
/// such an attribute what it is of a fresh element.
pub proof fn lemma_unnamed_part_is_fresh<T>(
    part: spec_fn(ElementView) -> T,
    names: Set<Seq<char>>,
    kind: Kind,
    attributes: Seq<AttributeView>,
    events: Seq<EventView>,
    at: int,
)
    requires
        forall|e: ElementView, n: Seq<char>, v: Seq<char>|
            !names.contains(n) ==> match #[trigger] e.with_attribute(n, v) {
                Ok(next) => part(next) == part(e),
                Err(_) => true,
            },
        forall|e: ElementView, c: ElementView| part(#[trigger] e.with_child(c)) == part(e),
        forall|e: ElementView, t: Seq<char>| part(#[trigger] e.with_text(t)) == part(e),
        forall|i: int| 0 <= i < attributes.len() ==> !names.contains(#[trigger] attributes[i].name),
    ensures
        match read_element(kind, attributes, events, at).0 {
            Ok(read) => part(read) == part(ElementView::fresh(kind)),
            Err(_) => true,
        },
{
    let fresh = ElementView::fresh(kind);
    lemma_part_after_attributes(part, names, fresh, attributes, 0);
    match with_attributes(fresh, attributes, 0) {
        Ok(start) => lemma_part_after_content(part, start, events, at),
        Err(_) => {},
    }
}

/// Attributes outside `names` leave `part` as it is.
pub proof fn lemma_part_after_attributes<T>(
    part: spec_fn(ElementView) -> T,
    names: Set<Seq<char>>,
    element: ElementView,
    attributes: Seq<AttributeView>,
    from: int,
)
    requires
        forall|e: ElementView, n: Seq<char>, v: Seq<char>|
            !names.contains(n) ==> match #[trigger] e.with_attribute(n, v) {
                Ok(next) => part(next) == part(e),
                Err(_) => true,
            },
        forall|i: int| 0 <= i < attributes.len() ==> !names.contains(#[trigger] attributes[i].name),
    ensures
        match with_attributes(element, attributes, from) {
            Ok(next) => part(next) == part(element),
            Err(_) => true,
        },
    decreases attributes.len() - from,
{
    if 0 <= from < attributes.len() {
        assert(!names.contains(attributes[from].name));
        match element.with_attribute(attributes[from].name, attributes[from].value) {
            Ok(next) => lemma_part_after_attributes(part, names, next, attributes, from + 1),
            Err(_) => {},
        }
    }
}

/// Content leaves as it is what no child and no text changes.
pub proof fn lemma_part_after_content<T>(
    part: spec_fn(ElementView) -> T,
    element: ElementView,
    events: Seq<EventView>,
    at: int,
)
    requires
        forall|e: ElementView, c: ElementView| part(#[trigger] e.with_child(c)) == part(e),
        forall|e: ElementView, t: Seq<char>| part(#[trigger] e.with_text(t)) == part(e),
    ensures
        match read_content(element, events, at).0 {
            Ok(read) => part(read) == part(element),
            Err(_) => true,
        },
    decreases events.len() - at,
{
    if 0 <= at < events.len() {
        match events[at] {
            EventView::EndElement { name } => {
                if name != element.kind().tag_spec() {
                    lemma_part_after_content(part, element, events, at + 1);
                }
            },
            EventView::StartElement { name, attributes } => {
                match element.kind().child_spec(name) {
                    Some(kind) => {
                        let (child, next) = read_element(kind, attributes, events, at + 1);
                        match child {
                            Ok(child) => {
                                lemma_part_after_content(
                                    part,
                                    element.with_child(child),
                                    events,
                                    if at < next <= events.len() {
                                        next
                                    } else {
                                        at + 1
                                    },
                                );
                            },
                            Err(_) => {},
                        }
                    },
                    None => {
                        let next = subtree_end(events, at + 1, 0);
                        lemma_part_after_content(
                            part,
                            element,
                            events,
                            if at < next <= events.len() {
                                next
                            } else {
                                at + 1
                            },
                        );
                    },
                }
            },
            EventView::Characters(text) => {
                lemma_part_after_content(part, element.with_text(text), events, at + 1);
            },
            EventView::CData(text) => {
                lemma_part_after_content(part, element.with_text(text), events, at + 1);
            },
            EventView::Other => {
                lemma_part_after_content(part, element, events, at + 1);
            },
        }
    }
}

} // verus!
