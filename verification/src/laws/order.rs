//! Repeated children keep the order of the document.

use crate::element::ElementView;
use crate::element::Kind;
use crate::event::AttributeView;
use crate::event::EventView;
use crate::laws::kinds::lemma_attributes_keep_kind;
use crate::laws::kinds::lemma_content_keeps_kind;
use crate::laws::kinds::lemma_reading_keeps_kind;
use crate::laws::walk::lemma_part_after_attributes;
use crate::model::property::PropertyView;
use crate::model::property::lemma_position;
use crate::model::property::upsert;
use crate::reader::read_content;
use crate::reader::read_element;
use crate::reader::subtree_end;
use crate::reader::with_attributes;
use vstd::prelude::*;

verus! {

/// Whether an element of the kind `parent` may hold any number of children
/// of the kind `child`, each as an entry of its own. (The properties of an
/// element go by name instead.)
pub open spec fn is_repeated(parent: Kind, child: Kind) -> bool {
    ||| parent == Kind::TileMap && (child == Kind::Tileset || child == Kind::Layer || child
        == Kind::ImageLayer || child == Kind::ObjectGroup)
    ||| parent == Kind::Tileset && child == Kind::Tile
    ||| parent == Kind::TerrainTypes && child == Kind::TerrainType
    ||| parent == Kind::Animation && child == Kind::Frame
    ||| parent == Kind::Data && child == Kind::DataTile
    ||| parent == Kind::ObjectGroup && child == Kind::Object
}

/// The children of the kind `child` that an element holds, in the order in
/// which it holds them: the sequence that the element keeps for them.
pub open spec fn repeated(element: ElementView, child: Kind) -> Seq<ElementView> {
    match (element, child) {
        (ElementView::TileMap(map), Kind::Tileset) => map.tilesets.map_values(
            |item| ElementView::Tileset(item),
        ),
        (ElementView::TileMap(map), Kind::Layer) => map.layers.map_values(
            |item| ElementView::Layer(item),
        ),
        (ElementView::TileMap(map), Kind::ImageLayer) => map.image_layers.map_values(
            |item| ElementView::ImageLayer(item),
        ),
        (ElementView::TileMap(map), Kind::ObjectGroup) => map.object_groups.map_values(
            |item| ElementView::ObjectGroup(item),
        ),
        (ElementView::Tileset(tileset), Kind::Tile) => tileset.tiles.map_values(
            |item| ElementView::Tile(item),
        ),
        (ElementView::TerrainTypes(items), Kind::TerrainType) => items.map_values(
            |item| ElementView::TerrainType(item),
        ),
        (ElementView::Animation(animation), Kind::Frame) => animation.frames.map_values(
            |item| ElementView::Frame(item),
        ),
        (ElementView::Data(data), Kind::DataTile) => data.tiles.map_values(
            |item| ElementView::DataTile(item),
        ),
        (ElementView::ObjectGroup(group), Kind::Object) => group.objects.map_values(
            |item| ElementView::Object(item),
        ),
        (ElementView::Properties(items), Kind::Property) => items.map_values(
            |item| ElementView::Property(item),
        ),
        _ => Seq::empty(),
    }
}

/// The child elements of the kind `child` that stand directly in the
/// content of an element of the kind `parent`, from `at` on, each as it is
/// read, in document order. Children of other kinds and what they hold are
/// passed by.
pub open spec fn children_of(parent: Kind, child: Kind, events: Seq<EventView>, at: int) -> Seq<
    ElementView,
>
    decreases events.len() - at,
{
    if at < 0 || at >= events.len() {
        Seq::empty()
    } else {
        match events[at] {
            EventView::EndElement { name } => if name == parent.tag_spec() {
                Seq::empty()
            } else {
                children_of(parent, child, events, at + 1)
            },
            EventView::StartElement { name, attributes } => match parent.child_spec(name) {
                Some(kind) => {
                    let (read, next) = read_element(kind, attributes, events, at + 1);
                    let rest = children_of(
                        parent,
                        child,
                        events,
                        if at < next <= events.len() {
                            next
                        } else {
                            at + 1
                        },
                    );
                    match read {
                        Ok(element) => if kind == child {
                            seq![element] + rest
                        } else {
                            rest
                        },
                        Err(_) => Seq::empty(),
                    }
                },
                None => {
                    let next = subtree_end(events, at + 1, 0);
                    children_of(
                        parent,
                        child,
                        events,
                        if at < next <= events.len() {
                            next
                        } else {
                            at + 1
                        },
                    )
                },
            },
            _ => children_of(parent, child, events, at + 1),
        }
    }
}

/// No attribute changes the children that an element holds.
proof fn lemma_attribute_keeps_repeated(
    element: ElementView,
    name: Seq<char>,
    value: Seq<char>,
    child: Kind,
)
    ensures
        match element.with_attribute(name, value) {
            Ok(next) => repeated(next, child) == repeated(element, child),
            Err(_) => true,
        },
{
    match element {
        ElementView::TileMap(_) => {},
        ElementView::Tileset(_) => {},
        ElementView::TerrainTypes(_) => {},
        ElementView::Animation(_) => {},
        ElementView::Data(_) => {},
        ElementView::ObjectGroup(_) => {},
        ElementView::Properties(_) => {},
        _ => {},
    }
}

/// A child of the kind `child` comes last among those that its parent
/// holds; a child of another kind leaves them as they are.
proof fn lemma_child_extends_repeated(element: ElementView, item: ElementView, child: Kind)
    requires
        is_repeated(element.kind(), child),
    ensures
        repeated(element.with_child(item), child) == if item.kind() == child {
            repeated(element, child).push(item)
        } else {
            repeated(element, child)
        },
        forall|text: Seq<char>|
            repeated(#[trigger] element.with_text(text), child) == repeated(element, child),
{
    if item.kind() == child {
        assert(repeated(element.with_child(item), child) =~= repeated(element, child).push(item));
    } else {
        assert(repeated(element.with_child(item), child) =~= repeated(element, child));
    }
}

/// Content adds to the children that an element holds those that stand in
/// it, in document order.
proof fn lemma_repeated_after_content(
    parent: Kind,
    child: Kind,
    element: ElementView,
    events: Seq<EventView>,
    at: int,
)
    requires
        is_repeated(parent, child),
        element.kind() == parent,
    ensures
        match read_content(element, events, at).0 {
            Ok(read) => repeated(read, child) == repeated(element, child) + children_of(
                parent,
                child,
                events,
                at,
            ),
            Err(_) => true,
        },
    decreases events.len() - at,
{
    let held = repeated(element, child);
    if 0 <= at < events.len() {
        match events[at] {
            EventView::EndElement { name } => {
                if name != parent.tag_spec() {
                    lemma_repeated_after_content(parent, child, element, events, at + 1);
                } else {
                    assert(held + Seq::<ElementView>::empty() =~= held);
                }
            },
            EventView::StartElement { name, attributes } => {
                match parent.child_spec(name) {
                    Some(kind) => {
                        let (read, next) = read_element(kind, attributes, events, at + 1);
                        let go = if at < next <= events.len() {
                            next
                        } else {
                            at + 1
                        };
                        match read {
                            Ok(item) => {
                                lemma_reading_keeps_kind(element, kind, attributes, events, at + 1);
                                lemma_content_keeps_kind(element, item, Seq::empty());
                                lemma_child_extends_repeated(element, item, child);
                                lemma_repeated_after_content(
                                    parent,
                                    child,
                                    element.with_child(item),
                                    events,
                                    go,
                                );
                                let rest = children_of(parent, child, events, go);
                                if kind == child {
                                    assert(held.push(item) + rest =~= held + (seq![item] + rest));
                                }
                            },
                            Err(_) => {},
                        }
                    },
                    None => {
                        let next = subtree_end(events, at + 1, 0);
                        lemma_repeated_after_content(
                            parent,
                            child,
                            element,
                            events,
                            if at < next <= events.len() {
                                next
                            } else {
                                at + 1
                            },
                        );
                    },
                }
            },
            EventView::Characters(text) => {
                lemma_content_keeps_kind(element, element, text);
                lemma_child_extends_repeated(element, element, child);
                lemma_repeated_after_content(
                    parent,
                    child,
                    element.with_text(text),
                    events,
                    at + 1,
                );
            },
            EventView::CData(text) => {
                lemma_content_keeps_kind(element, element, text);
                lemma_child_extends_repeated(element, element, child);
                lemma_repeated_after_content(
                    parent,
                    child,
                    element.with_text(text),
                    events,
                    at + 1,
                );
            },
            EventView::Other => {
                lemma_repeated_after_content(parent, child, element, events, at + 1);
            },
        }
    } else {
        assert(held + Seq::<ElementView>::empty() =~= held);
    }
}

/// Repeated children keep the order of the document: the tilesets, layers,
/// image layers and object groups of a map, the tiles of a tileset, the
/// terrain types of their list, the frames of an animation, the cells
/// written out in data and the objects of a group are, once the element is
/// read, exactly the child elements of their kind that stand in its
/// content, one entry for each and in document order.
pub proof fn lemma_repeated_children_in_document_order(
    parent: Kind,
    child: Kind,
    attributes: Seq<AttributeView>,
    events: Seq<EventView>,
    at: int,
)
    requires
        is_repeated(parent, child),
    ensures
        match read_element(parent, attributes, events, at).0 {
            Ok(read) => repeated(read, child) == children_of(parent, child, events, at),
            Err(_) => true,
        },
{
    let fresh = ElementView::fresh(parent);
    let part = |e: ElementView| repeated(e, child);
    let names = Set::<Seq<char>>::empty();
    assert forall|e: ElementView, n: Seq<char>, v: Seq<char>|
        !names.contains(n) implies match #[trigger] e.with_attribute(n, v) {
        Ok(next) => part(next) == part(e),
        Err(_) => true,
    } by {
        lemma_attribute_keeps_repeated(e, n, v, child);
    }
    lemma_part_after_attributes(part, names, fresh, attributes, 0);
    lemma_attributes_keep_kind(fresh, attributes, 0);
    match with_attributes(fresh, attributes, 0) {
        Ok(start) => {
            lemma_repeated_after_content(parent, child, start, events, at);
            assert(repeated(fresh, child) =~= Seq::<ElementView>::empty());
            assert(Seq::<ElementView>::empty() + children_of(parent, child, events, at)
                =~= children_of(parent, child, events, at));
        },
        Err(_) => {},
    }
}

/// The name of a property; no other element has one here.
pub open spec fn property_name(element: ElementView) -> Seq<char> {
    match element {
        ElementView::Property(property) => property.name,
        _ => Seq::empty(),
    }
}

/// Whether no two of the elements share a property name.
pub open spec fn names_apart(elements: Seq<ElementView>) -> bool {
    forall|i: int, j: int|
        0 <= i < j < elements.len() ==> property_name(#[trigger] elements[i]) != property_name(
            #[trigger] elements[j],
        )
}

/// A property whose name is new comes last.
proof fn lemma_upsert_of_new_name(items: Seq<PropertyView>, property: PropertyView)
    requires
        forall|i: int| 0 <= i < items.len() ==> (#[trigger] items[i]).name != property.name,
    ensures
        upsert(items, property) == items.push(property),
{
    lemma_position(items, property.name, 0);
}

/// Content adds to the properties that a list holds those that stand in
/// it, in document order, as long as all their names differ.
proof fn lemma_properties_after_content(
    items: Seq<PropertyView>,
    events: Seq<EventView>,
    at: int,
)
    requires
        names_apart(
            repeated(ElementView::Properties(items), Kind::Property) + children_of(
                Kind::Properties,
                Kind::Property,
                events,
                at,
            ),
        ),
    ensures
        match read_content(ElementView::Properties(items), events, at).0 {
            Ok(read) => repeated(read, Kind::Property) == repeated(
                ElementView::Properties(items),
                Kind::Property,
            ) + children_of(Kind::Properties, Kind::Property, events, at),
            Err(_) => true,
        },
    decreases events.len() - at,
{
    let parent = Kind::Properties;
    let child = Kind::Property;
    let element = ElementView::Properties(items);
    let held = repeated(element, child);
    if 0 <= at < events.len() {
        match events[at] {
            EventView::EndElement { name } => {
                if name != parent.tag_spec() {
                    lemma_properties_after_content(items, events, at + 1);
                } else {
                    assert(held + Seq::<ElementView>::empty() =~= held);
                }
            },
            EventView::StartElement { name, attributes } => {
                match parent.child_spec(name) {
                    Some(kind) => {
                        assert(kind == child);
                        let (read, next) = read_element(kind, attributes, events, at + 1);
                        let go = if at < next <= events.len() {
                            next
                        } else {
                            at + 1
                        };
                        match read {
                            Ok(item) => {
                                lemma_reading_keeps_kind(element, kind, attributes, events, at + 1);
                                let rest = children_of(parent, child, events, go);
                                let all = held + (seq![item] + rest);
                                let property = item->Property_0;
                                let name = property.name;
                                assert forall|i: int| 0 <= i < items.len() implies (
                                #[trigger] items[i]).name != name by {
                                    assert(all[i] == held[i]);
                                    assert(all[items.len() as int] == item);
                                }
                                lemma_upsert_of_new_name(items, property);
                                let longer = items.push(property);
                                assert(repeated(ElementView::Properties(longer), child)
                                    =~= held.push(item));
                                assert(held.push(item) + rest =~= all);
                                lemma_properties_after_content(longer, events, go);
                            },
                            Err(_) => {},
                        }
                    },
                    None => {
                        let next = subtree_end(events, at + 1, 0);
                        lemma_properties_after_content(
                            items,
                            events,
                            if at < next <= events.len() {
                                next
                            } else {
                                at + 1
                            },
                        );
                    },
                }
            },
            EventView::Characters(text) => {
                lemma_properties_after_content(items, events, at + 1);
            },
            EventView::CData(text) => {
                lemma_properties_after_content(items, events, at + 1);
            },
            EventView::Other => {
                lemma_properties_after_content(items, events, at + 1);
            },
        }
    } else {
        assert(held + Seq::<ElementView>::empty() =~= held);
    }
}

/// Properties keep the order of the document: where the names of the
/// properties that stand in a list all differ, the list holds, once it is
/// read, exactly those properties, one entry for each and in document
/// order. (A property that repeats a name takes the place of the earlier
/// one instead.)
pub proof fn lemma_properties_in_document_order(
    attributes: Seq<AttributeView>,
    events: Seq<EventView>,
    at: int,
)
    requires
        names_apart(children_of(Kind::Properties, Kind::Property, events, at)),
    ensures
        match read_element(Kind::Properties, attributes, events, at).0 {
            Ok(read) => repeated(read, Kind::Property) == children_of(
                Kind::Properties,
                Kind::Property,
                events,
                at,
            ),
            Err(_) => true,
        },
{
    let fresh = ElementView::fresh(Kind::Properties);
    let children = children_of(Kind::Properties, Kind::Property, events, at);
    if attributes.len() == 0 {
        assert(repeated(fresh, Kind::Property) =~= Seq::<ElementView>::empty());
        assert(Seq::<ElementView>::empty() + children =~= children);
        lemma_properties_after_content(Seq::empty(), events, at);
    }
}

} // verus!
