//! Attributes that are left out take their defaults.

use crate::element::ElementView;
use crate::element::Kind;
use crate::event::AttributeView;
use crate::event::EventView;
use crate::laws::kinds::lemma_reading_keeps_kind;
use crate::laws::walk::lemma_unnamed_part_is_fresh;
use crate::reader::read_element;
use crate::vocabulary::DrawOrder;
use crate::vocabulary::PropertyType;
use crate::vocabulary::RenderOrder;
use vstd::prelude::*;

verus! {

/// The opacity of an element, where its kind has one.
pub open spec fn opacity_of(element: ElementView) -> Option<Seq<char>> {
    match element {
        ElementView::Layer(layer) => Some(layer.opacity),
        ElementView::ImageLayer(layer) => Some(layer.opacity),
        ElementView::ObjectGroup(group) => Some(group.opacity),
        _ => None,
    }
}

/// Whether an element is shown, where its kind says so.
pub open spec fn visible_of(element: ElementView) -> Option<bool> {
    match element {
        ElementView::Layer(layer) => Some(layer.visible),
        ElementView::ImageLayer(layer) => Some(layer.visible),
        ElementView::ObjectGroup(group) => Some(group.visible),
        ElementView::Object(object) => Some(object.visible),
        _ => None,
    }
}

/// The render order of an element, where its kind has one.
pub open spec fn render_order_of_element(element: ElementView) -> Option<RenderOrder> {
    match element {
        ElementView::TileMap(map) => Some(map.render_order),
        _ => None,
    }
}

/// The draw order of an element, where its kind has one.
pub open spec fn draw_order_of_element(element: ElementView) -> Option<DrawOrder> {
    match element {
        ElementView::ObjectGroup(group) => Some(group.draw_order),
        _ => None,
    }
}

/// The property type of an element, where its kind has one.
pub open spec fn property_type_of_element(element: ElementView) -> Option<PropertyType> {
    match element {
        ElementView::Property(property) => Some(property.property_type),
        _ => None,
    }
}

/// Whether no attribute of `attributes` bears the name `name`.
pub open spec fn lacks(attributes: Seq<AttributeView>, name: Seq<char>) -> bool {
    forall|i: int| 0 <= i < attributes.len() ==> (#[trigger] attributes[i]).name != name
}

/// A layer, an image layer or an object group that is read without an
/// attribute `opacity` is fully opaque.
pub proof fn lemma_opacity_defaults_to_one(
    kind: Kind,
    attributes: Seq<AttributeView>,
    events: Seq<EventView>,
    at: int,
)
    requires
        lacks(attributes, "opacity"@),
    ensures
        match read_element(kind, attributes, events, at).0 {
            Ok(read) => opacity_of(read) is Some ==> opacity_of(read) == Some(seq!['1']),
            Err(_) => true,
        },
{
    lemma_unnamed_part_is_fresh(
        |e: ElementView| opacity_of(e),
        set!["opacity"@],
        kind,
        attributes,
        events,
        at,
    );
    lemma_reading_keeps_kind(ElementView::fresh(kind), kind, attributes, events, at);
}

/// Only the attributes `visible` and `visibility` change whether an
/// element is shown.
proof fn lemma_visible_by_name(element: ElementView, name: Seq<char>, value: Seq<char>)
    requires
        name != "visible"@,
        name != "visibility"@,
    ensures
        match element.with_attribute(name, value) {
            Ok(next) => visible_of(next) == visible_of(element),
            Err(_) => true,
        },
{
    match element {
        ElementView::Layer(layer) => {},
        ElementView::ImageLayer(layer) => {},
        ElementView::ObjectGroup(group) => {},
        ElementView::Object(object) => {},
        _ => {},
    }
}

/// A layer, an image layer, an object group or an object that is read
/// without an attribute `visible` or `visibility` is shown.
pub proof fn lemma_visible_defaults_to_true(
    kind: Kind,
    attributes: Seq<AttributeView>,
    events: Seq<EventView>,
    at: int,
)
    requires
        lacks(attributes, "visible"@),
        lacks(attributes, "visibility"@),
    ensures
        match read_element(kind, attributes, events, at).0 {
            Ok(read) => visible_of(read) is Some ==> visible_of(read) == Some(true),
            Err(_) => true,
        },
{
    let part = |e: ElementView| visible_of(e);
    let names = set!["visible"@, "visibility"@];
    assert forall|e: ElementView, n: Seq<char>, v: Seq<char>|
        !names.contains(n) implies match #[trigger] e.with_attribute(n, v) {
        Ok(next) => part(next) == part(e),
        Err(_) => true,
    } by {
        lemma_visible_by_name(e, n, v);
    }
    lemma_unnamed_part_is_fresh(
        part,
        names,
        kind,
        attributes,
        events,
        at,
    );
    lemma_reading_keeps_kind(ElementView::fresh(kind), kind, attributes, events, at);
}

/// A map that is read without an attribute `renderorder` is drawn
/// right-down.
pub proof fn lemma_render_order_defaults_to_right_down(
    kind: Kind,
    attributes: Seq<AttributeView>,
    events: Seq<EventView>,
    at: int,
)
    requires
        lacks(attributes, "renderorder"@),
    ensures
        match read_element(kind, attributes, events, at).0 {
            Ok(read) => render_order_of_element(read) is Some ==> render_order_of_element(read)
                == Some(RenderOrder::RightDown),
            Err(_) => true,
        },
{
    lemma_unnamed_part_is_fresh(
        |e: ElementView| render_order_of_element(e),
        set!["renderorder"@],
        kind,
        attributes,
        events,
        at,
    );
    lemma_reading_keeps_kind(ElementView::fresh(kind), kind, attributes, events, at);
}

/// An object group that is read without an attribute `draworder` is drawn
/// top down.
pub proof fn lemma_draw_order_defaults_to_top_down(
    kind: Kind,
    attributes: Seq<AttributeView>,
    events: Seq<EventView>,
    at: int,
)
    requires
        lacks(attributes, "draworder"@),
    ensures
        match read_element(kind, attributes, events, at).0 {
            Ok(read) => draw_order_of_element(read) is Some ==> draw_order_of_element(read)
                == Some(DrawOrder::TopDown),
            Err(_) => true,
        },
{
    lemma_unnamed_part_is_fresh(
        |e: ElementView| draw_order_of_element(e),
        set!["draworder"@],
        kind,
        attributes,
        events,
        at,
    );
    lemma_reading_keeps_kind(ElementView::fresh(kind), kind, attributes, events, at);
}

/// A property that is read without an attribute `type` is text.
pub proof fn lemma_property_type_defaults_to_string(
    kind: Kind,
    attributes: Seq<AttributeView>,
    events: Seq<EventView>,
    at: int,
)
    requires
        lacks(attributes, "type"@),
    ensures
        match read_element(kind, attributes, events, at).0 {
            Ok(read) => property_type_of_element(read) is Some ==> property_type_of_element(read)
                == Some(PropertyType::String),
            Err(_) => true,
        },
{
    lemma_unnamed_part_is_fresh(
        |e: ElementView| property_type_of_element(e),
        set!["type"@],
        kind,
        attributes,
        events,
        at,
    );
    lemma_reading_keeps_kind(ElementView::fresh(kind), kind, attributes, events, at);
}

} // verus!
