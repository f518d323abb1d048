//! Attributes that an element does not define, and roots that are not there.

use crate::element::ElementView;
use crate::element::Kind;
use crate::error::ErrorView;
use crate::event::AttributeView;
use crate::event::EventView;
use crate::laws::kinds::lemma_attribute_keeps_kind;
use crate::reader::read_element;
use crate::reader::read_root;
use crate::reader::with_attributes;
use vstd::prelude::*;

verus! {

/// Which attributes an element defines depends on its kind alone.
pub proof fn lemma_recognizes_by_kind(left: ElementView, right: ElementView, name: Seq<char>)
    requires
        left.kind() == right.kind(),
    ensures
        left.recognizes(name) == right.recognizes(name),
{
}

/// An attribute that an element does not define is refused, and the error
/// names it.
pub proof fn lemma_unknown_attribute_is_refused(
    element: ElementView,
    name: Seq<char>,
    value: Seq<char>,
)
    requires
        !element.recognizes(name),
    ensures
        element.with_attribute(name, value) == Err::<ElementView, ErrorView>(
            ErrorView::UnknownAttribute(name),
        ),
{
}

/// An attribute list fails at its first attribute that is refused.
proof fn lemma_attributes_fail_at(
    element: ElementView,
    attributes: Seq<AttributeView>,
    from: int,
    i: int,
)
    requires
        0 <= from <= i < attributes.len(),
        with_attributes(element, attributes.take(i), from) is Ok,
        !element.recognizes(attributes[i].name),
    ensures
        with_attributes(element, attributes, from) == Err::<ElementView, ErrorView>(
            ErrorView::UnknownAttribute(attributes[i].name),
        ),
    decreases i - from,
{
    if from == i {
        lemma_unknown_attribute_is_refused(element, attributes[i].name, attributes[i].value);
    } else {
        assert(attributes.take(i)[from] == attributes[from]);
        lemma_attribute_keeps_kind(element, attributes[from].name, attributes[from].value);
        match element.with_attribute(attributes[from].name, attributes[from].value) {
            Ok(next) => {
                lemma_recognizes_by_kind(element, next, attributes[i].name);
                lemma_attributes_fail_at(next, attributes, from + 1, i);
            },
            Err(_) => {},
        }
    }
}

/// Reading an element fails with an unknown attribute, by its name, when
/// the element's kind does not define the attribute at `i` and the
/// attributes before it are read without error.
pub proof fn lemma_unknown_attribute_fails_element(
    kind: Kind,
    attributes: Seq<AttributeView>,
    events: Seq<EventView>,
    at: int,
    i: int,
)
    requires
        0 <= i < attributes.len(),
        with_attributes(ElementView::fresh(kind), attributes.take(i), 0) is Ok,
        !ElementView::fresh(kind).recognizes(attributes[i].name),
    ensures
        read_element(kind, attributes, events, at).0 == Err::<ElementView, ErrorView>(
            ErrorView::UnknownAttribute(attributes[i].name),
        ),
{
    lemma_attributes_fail_at(ElementView::fresh(kind), attributes, 0, i);
}

/// Whether no element opens in `events` from `from` up to `to`.
pub open spec fn nothing_opens(events: Seq<EventView>, from: int, to: int) -> bool {
    forall|k: int| from <= k < to ==> !(#[trigger] events[k] is StartElement)
}

/// The search for the root passes by whatever opens no element.
pub proof fn lemma_root_is_first_to_open(kind: Kind, events: Seq<EventView>, from: int, root: int)
    requires
        0 <= from <= root <= events.len(),
        nothing_opens(events, from, root),
    ensures
        read_root(kind, events, from) == read_root(kind, events, root),
    decreases root - from,
{
    if from < root {
        assert(!(events[from] is StartElement));
        lemma_root_is_first_to_open(kind, events, from + 1, root);
    }
}

/// A document in which no element opens, or whose first element bears
/// another tag than the root's, is malformed.
pub proof fn lemma_misnamed_root_is_malformed(kind: Kind, events: Seq<EventView>, root: int)
    requires
        0 <= root <= events.len(),
        nothing_opens(events, 0, root),
        root < events.len() ==> events[root] is StartElement && events[root]->StartElement_name
            != kind.tag_spec(),
    ensures
        read_root(kind, events, 0) == Err::<ElementView, ErrorView>(ErrorView::BadXml),
{
    lemma_root_is_first_to_open(kind, events, 0, root);
}

/// A document fails with an unknown attribute, by its name, when the kind
/// of its root does not define the attribute at `i` of the root and the
/// attributes before it are read without error.
pub proof fn lemma_unknown_attribute_fails_document(
    kind: Kind,
    events: Seq<EventView>,
    root: int,
    i: int,
)
    requires
        0 <= root < events.len(),
        nothing_opens(events, 0, root),
        events[root] is StartElement,
        events[root]->StartElement_name == kind.tag_spec(),
        0 <= i < events[root]->StartElement_attributes.len(),
        with_attributes(
            ElementView::fresh(kind),
            events[root]->StartElement_attributes.take(i),
            0,
        ) is Ok,
        !ElementView::fresh(kind).recognizes(events[root]->StartElement_attributes[i].name),
    ensures
        read_root(kind, events, 0) == Err::<ElementView, ErrorView>(
            ErrorView::UnknownAttribute(events[root]->StartElement_attributes[i].name),
        ),
{
    lemma_root_is_first_to_open(kind, events, 0, root);
    lemma_unknown_attribute_fails_element(
        kind,
        events[root]->StartElement_attributes,
        events,
        root + 1,
        i,
    );
}

} // verus!
