//! Small documents to try the library on.

use crate::document::map_agrees;
use crate::document::map_of;
use crate::document::parse_map;
use crate::document::parse_tileset;
use crate::document::tileset_agrees;
use crate::document::tileset_of;
use crate::error::Error;
use crate::event::document_events;
use crate::model::tile_map::TileMap;
use crate::model::tileset::Tileset;
use vstd::prelude::*;

verus! {

/// A map document with the attributes of the grid and nothing in it.
pub const SIMPLE_VALID_MAP: &'static str = r#"<map version="1.0"
        orientation="orthogonal"
        width="200"
        height="100"
        tilewidth="16"
        tileheight="32"
        nextobjectid="1">
    </map>"#;

/// A map document with two empty tilesets.
pub const MAP_WITH_TILESETS: &'static str = r#"<map>
        <tileset></tileset>
        <tileset></tileset>
    </map>"#;

/// A map document with five layers: a plain one, a transparent one, a
/// hidden one, a shifted one and one with a property.
pub const MAP_WITH_LAYERS: &'static str = r#"<map>
        <layer name="layer1_name"/>
        <layer name="layer2_name" opacity="0"/>
        <layer name="layer3_name" visibility="0"/>
        <layer name="layer4_name" offsetx="1" offsety="2"/>
        <layer>
            <properties>
                <property name="some_name" value="some_value"/>
            </properties>
        </layer>
    </map>"#;

/// A map document with six image layers: a plain one, a transparent one, a
/// hidden one, a shifted one, one with a property and one with an image.
pub const MAP_WITH_IMAGE_LAYERS: &'static str = r#"<map>
        <imagelayer name="layer1_name"/>
        <imagelayer name="layer2_name" opacity="0"/>
        <imagelayer name="layer3_name" visibility="0"/>
        <imagelayer name="layer4_name" offsetx="1" offsety="2"/>
        <imagelayer>
            <properties>
                <property name="some_name" value="some_value"/>
            </properties>
        </imagelayer>
        <imagelayer>
            <image source="some_file.png"
                    width="1024"
                    height="768"/>
        </imagelayer>
    </map>"#;

/// A tileset document with the attributes of the tiles and nothing in it.
pub const SIMPLE_VALID_TILESET: &'static str = r#"<tileset firstgid="1"
                name="simple"
                tilewidth="32"
                tileheight="16"
                tilecount="100">
    </tileset>"#;

/// A map document with two object groups: one with a property, and one
/// transparent, hidden, shifted and drawn in document order.
pub const MAP_WITH_OBJECTGROUPS: &'static str = r#"<map>
        <objectgroup name="some_name">
            <properties>
                <property/>
            </properties>
        </objectgroup>
        <objectgroup opacity="0" visibility="0" offsetx="1" offsety="2" draworder="index">
        </objectgroup>
    </map>"#;

/// Reads [`SIMPLE_VALID_MAP`].
pub fn get_simple_valid_map() -> (result: Result<TileMap, Error>)
    ensures
        map_agrees(result, map_of(document_events(SIMPLE_VALID_MAP@))),
{
    parse_map(SIMPLE_VALID_MAP)
}

/// Reads [`MAP_WITH_TILESETS`].
pub fn get_map_with_tilesets() -> (result: Result<TileMap, Error>)
    ensures
        map_agrees(result, map_of(document_events(MAP_WITH_TILESETS@))),
{
    parse_map(MAP_WITH_TILESETS)
}

/// Reads [`MAP_WITH_LAYERS`].
pub fn get_map_with_layers() -> (result: Result<TileMap, Error>)
    ensures
        map_agrees(result, map_of(document_events(MAP_WITH_LAYERS@))),
{
    parse_map(MAP_WITH_LAYERS)
}

/// Reads [`MAP_WITH_IMAGE_LAYERS`].
pub fn get_map_with_image_layers() -> (result: Result<TileMap, Error>)
    ensures
        map_agrees(result, map_of(document_events(MAP_WITH_IMAGE_LAYERS@))),
{
    parse_map(MAP_WITH_IMAGE_LAYERS)
}

/// Reads [`SIMPLE_VALID_TILESET`].
pub fn get_simple_valid_tileset() -> (result: Result<Tileset, Error>)
    ensures
        tileset_agrees(result, tileset_of(document_events(SIMPLE_VALID_TILESET@))),
{
    parse_tileset(SIMPLE_VALID_TILESET)
}

/// Reads [`MAP_WITH_OBJECTGROUPS`].
pub fn get_map_with_objectgroups() -> (result: Result<TileMap, Error>)
    ensures
        map_agrees(result, map_of(document_events(MAP_WITH_OBJECTGROUPS@))),
{
    parse_map(MAP_WITH_OBJECTGROUPS)
}

} // verus!
