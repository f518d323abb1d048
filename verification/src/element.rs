//! Elements of every kind behind one type, and the rules of each kind.

use crate::error::Error;
use crate::error::ErrorView;
use crate::model::animation::Animation;
use crate::model::animation::AnimationView;
use crate::model::animation::Frame;
use crate::model::animation::FrameView;
use crate::model::data::Data;
use crate::model::data::DataTile;
use crate::model::data::DataTileView;
use crate::model::data::DataView;
use crate::model::image::Image;
use crate::model::image::ImageView;
use crate::model::image_layer::ImageLayer;
use crate::model::image_layer::ImageLayerView;
use crate::model::layer::Layer;
use crate::model::layer::LayerView;
use crate::model::object::Object;
use crate::model::object::ObjectView;
use crate::model::object_group::ObjectGroup;
use crate::model::object_group::ObjectGroupView;
use crate::model::property::Properties;
use crate::model::property::Property;
use crate::model::property::PropertyView;
use crate::model::property::upsert;
use crate::model::shape::Shape;
use crate::model::shape::ShapeView;
use crate::model::terrain::TerrainType;
use crate::model::terrain::TerrainTypeView;
use crate::model::tile::Tile;
use crate::model::tile::TileView;
use crate::model::tile_map::TileMap;
use crate::model::tile_map::TileMapView;
use crate::model::tile_offset::TileOffset;
use crate::model::tile_offset::TileOffsetView;
use crate::model::tileset::Tileset;
use crate::model::tileset::TilesetView;
use crate::text::lemma_views_empty;
use crate::text::lemma_views_push;
use crate::text::same_text;
use crate::text::views;
use vstd::prelude::*;

verus! {

/// The kinds of element that a document is made of.
#[derive(Debug, Clone, Copy, PartialEq, Eq, Structural)]
pub enum Kind {
    /// A map, the root of a map document. Written `map`.
    TileMap,
    /// A tileset, in a map or as the root of a document of its own. Written `tileset`.
    Tileset,
    /// The drawing offset of a tileset. Written `tileoffset`.
    TileOffset,
    /// An image. Written `image`.
    Image,
    /// The list of the terrain types of a tileset. Written `terraintypes`.
    TerrainTypes,
    /// One terrain type. Written `terrain`.
    TerrainType,
    /// A tile of a tileset. Written `tile`.
    Tile,
    /// The animation of a tile. Written `animation`.
    Animation,
    /// One frame of an animation. Written `frame`.
    Frame,
    /// A tile layer. Written `layer`.
    Layer,
    /// The cells of a layer or the data of an image. Written `data`.
    Data,
    /// One cell, written out within `data`. Written `tile`.
    DataTile,
    /// An image layer. Written `imagelayer`.
    ImageLayer,
    /// A group of objects. Written `objectgroup`.
    ObjectGroup,
    /// One object. Written `object`.
    Object,
    /// The outline of an object as an ellipse. Written `ellipse`.
    Ellipse,
    /// The outline of an object as a polygon. Written `polygon`.
    Polygon,
    /// The outline of an object as a polyline. Written `polyline`.
    Polyline,
    /// The list of the properties of an element. Written `properties`.
    Properties,
    /// One property. Written `property`.
    Property,
}

/// An element while it is read or once it is read, whatever its kind.
#[derive(Debug, PartialEq, Eq)]
pub enum Element {
    TileMap(TileMap),
    Tileset(Tileset),
    TileOffset(TileOffset),
    Image(Image),
    TerrainTypes(Vec<TerrainType>),
    TerrainType(TerrainType),
    Tile(Tile),
    Animation(Animation),
    Frame(Frame),
    Layer(Layer),
    Data(Data),
    DataTile(DataTile),
    ImageLayer(ImageLayer),
    ObjectGroup(ObjectGroup),
    Object(Object),
    Shape(Shape),
    Properties(Properties),
    Property(Property),
}

/// The mathematical value of an [`Element`].
pub enum ElementView {
    TileMap(TileMapView),
    Tileset(TilesetView),
    TileOffset(TileOffsetView),
    Image(ImageView),
    TerrainTypes(Seq<TerrainTypeView>),
    TerrainType(TerrainTypeView),
    Tile(TileView),
    Animation(AnimationView),
    Frame(FrameView),
    Layer(LayerView),
    Data(DataView),
    DataTile(DataTileView),
    ImageLayer(ImageLayerView),
    ObjectGroup(ObjectGroupView),
    Object(ObjectView),
    Shape(ShapeView),
    Properties(Seq<PropertyView>),
    Property(PropertyView),
}

impl View for Element {
    type V = ElementView;

    open spec fn view(&self) -> ElementView {
        match self {
            Element::TileMap(inner) => ElementView::TileMap(inner@),
            Element::Tileset(inner) => ElementView::Tileset(inner@),
            Element::TileOffset(inner) => ElementView::TileOffset(inner@),
            Element::Image(inner) => ElementView::Image(inner@),
            Element::TerrainTypes(inner) => ElementView::TerrainTypes(views(inner@)),
            Element::TerrainType(inner) => ElementView::TerrainType(inner@),
            Element::Tile(inner) => ElementView::Tile(inner@),
            Element::Animation(inner) => ElementView::Animation(inner@),
            Element::Frame(inner) => ElementView::Frame(inner@),
            Element::Layer(inner) => ElementView::Layer(inner@),
            Element::Data(inner) => ElementView::Data(inner@),
            Element::DataTile(inner) => ElementView::DataTile(inner@),
            Element::ImageLayer(inner) => ElementView::ImageLayer(inner@),
            Element::ObjectGroup(inner) => ElementView::ObjectGroup(inner@),
            Element::Object(inner) => ElementView::Object(inner@),
            Element::Shape(inner) => ElementView::Shape(inner@),
            Element::Properties(inner) => ElementView::Properties(inner@),
            Element::Property(inner) => ElementView::Property(inner@),
        }
    }
}

impl Kind {
    /// The tag under which an element of this kind is written.
    pub open spec fn tag_spec(self) -> Seq<char> {
        match self {
            Kind::TileMap => "map"@,
            Kind::Tileset => "tileset"@,
            Kind::TileOffset => "tileoffset"@,
            Kind::Image => "image"@,
            Kind::TerrainTypes => "terraintypes"@,
            Kind::TerrainType => "terrain"@,
            Kind::Tile => "tile"@,
            Kind::Animation => "animation"@,
            Kind::Frame => "frame"@,
            Kind::Layer => "layer"@,
            Kind::Data => "data"@,
            Kind::DataTile => "tile"@,
            Kind::ImageLayer => "imagelayer"@,
            Kind::ObjectGroup => "objectgroup"@,
            Kind::Object => "object"@,
            Kind::Ellipse => "ellipse"@,
            Kind::Polygon => "polygon"@,
            Kind::Polyline => "polyline"@,
            Kind::Properties => "properties"@,
            Kind::Property => "property"@,
        }
    }

    /// The kind of the child that an element of this kind reads under the tag
    /// `tag`, if it reads one there; what it does not read is passed over.
    pub open spec fn child_spec(self, tag: Seq<char>) -> Option<Kind> {
        match self {
            Kind::TileMap => {
                if tag == "properties"@ {
                    Some(Kind::Properties)
                } else if tag == "tileset"@ {
                    Some(Kind::Tileset)
                } else if tag == "layer"@ {
                    Some(Kind::Layer)
                } else if tag == "imagelayer"@ {
                    Some(Kind::ImageLayer)
                } else if tag == "objectgroup"@ {
                    Some(Kind::ObjectGroup)
                } else {
                    None
                }
            },
            Kind::Tileset => {
                if tag == "tileoffset"@ {
                    Some(Kind::TileOffset)
                } else if tag == "properties"@ {
                    Some(Kind::Properties)
                } else if tag == "image"@ {
                    Some(Kind::Image)
                } else if tag == "terraintypes"@ {
                    Some(Kind::TerrainTypes)
                } else if tag == "tile"@ {
                    Some(Kind::Tile)
                } else {
                    None
                }
            },
            Kind::Image => {
                if tag == "data"@ {
                    Some(Kind::Data)
                } else {
                    None
                }
            },
            Kind::TerrainTypes => {
                if tag == "terrain"@ {
                    Some(Kind::TerrainType)
                } else {
                    None
                }
            },
            Kind::TerrainType => {
                if tag == "properties"@ {
                    Some(Kind::Properties)
                } else {
                    None
                }
            },
            Kind::Tile => {
                if tag == "properties"@ {
                    Some(Kind::Properties)
                } else if tag == "image"@ {
                    Some(Kind::Image)
                } else if tag == "objectgroup"@ {
                    Some(Kind::ObjectGroup)
                } else if tag == "animation"@ {
                    Some(Kind::Animation)
                } else {
                    None
                }
            },
            Kind::Animation => {
                if tag == "frame"@ {
                    Some(Kind::Frame)
                } else {
                    None
                }
            },
            Kind::Layer => {
                if tag == "properties"@ {
                    Some(Kind::Properties)
                } else if tag == "data"@ {
                    Some(Kind::Data)
                } else {
                    None
                }
            },
            Kind::Data => {
                if tag == "tile"@ {
                    Some(Kind::DataTile)
                } else {
                    None
                }
            },
            Kind::ImageLayer => {
                if tag == "properties"@ {
                    Some(Kind::Properties)
                } else if tag == "image"@ {
                    Some(Kind::Image)
                } else {
                    None
                }
            },
            Kind::ObjectGroup => {
                if tag == "properties"@ {
                    Some(Kind::Properties)
                } else if tag == "object"@ {
                    Some(Kind::Object)
                } else {
                    None
                }
            },
            Kind::Object => {
                if tag == "properties"@ {
                    Some(Kind::Properties)
                } else if tag == "ellipse"@ {
                    Some(Kind::Ellipse)
                } else if tag == "polygon"@ {
                    Some(Kind::Polygon)
                } else if tag == "polyline"@ {
                    Some(Kind::Polyline)
                } else {
                    None
                }
            },
            Kind::Properties => {
                if tag == "property"@ {
                    Some(Kind::Property)
                } else {
                    None
                }
            },
            _ => None,
        }
    }

    /// The tag under which an element of this kind is written.
    pub fn tag(self) -> (tag: &'static str)
        ensures
            tag@ == self.tag_spec(),
    {
        match self {
            Kind::TileMap => "map",
            Kind::Tileset => "tileset",
            Kind::TileOffset => "tileoffset",
            Kind::Image => "image",
            Kind::TerrainTypes => "terraintypes",
            Kind::TerrainType => "terrain",
            Kind::Tile => "tile",
            Kind::Animation => "animation",
            Kind::Frame => "frame",
            Kind::Layer => "layer",
            Kind::Data => "data",
            Kind::DataTile => "tile",
            Kind::ImageLayer => "imagelayer",
            Kind::ObjectGroup => "objectgroup",
            Kind::Object => "object",
            Kind::Ellipse => "ellipse",
            Kind::Polygon => "polygon",
            Kind::Polyline => "polyline",
            Kind::Properties => "properties",
            Kind::Property => "property",
        }
    }

    /// The kind of the child that an element of this kind reads under the tag
    /// `tag`, if it reads one there.
    pub fn child(self, tag: &str) -> (child: Option<Kind>)
        ensures
            child == self.child_spec(tag@),
    {
        match self {
            Kind::TileMap => {
                if same_text(tag, "properties") {
                    Some(Kind::Properties)
                } else if same_text(tag, "tileset") {
                    Some(Kind::Tileset)
                } else if same_text(tag, "layer") {
                    Some(Kind::Layer)
                } else if same_text(tag, "imagelayer") {
                    Some(Kind::ImageLayer)
                } else if same_text(tag, "objectgroup") {
                    Some(Kind::ObjectGroup)
                } else {
                    None
                }
            },
            Kind::Tileset => {
                if same_text(tag, "tileoffset") {
                    Some(Kind::TileOffset)
                } else if same_text(tag, "properties") {
                    Some(Kind::Properties)
                } else if same_text(tag, "image") {
                    Some(Kind::Image)
                } else if same_text(tag, "terraintypes") {
                    Some(Kind::TerrainTypes)
                } else if same_text(tag, "tile") {
                    Some(Kind::Tile)
                } else {
                    None
                }
            },
            Kind::Image => {
                if same_text(tag, "data") {
                    Some(Kind::Data)
                } else {
                    None
                }
            },
            Kind::TerrainTypes => {
                if same_text(tag, "terrain") {
                    Some(Kind::TerrainType)
                } else {
                    None
                }
            },
            Kind::TerrainType => {
                if same_text(tag, "properties") {
                    Some(Kind::Properties)
                } else {
                    None
                }
            },
            Kind::Tile => {
                if same_text(tag, "properties") {
                    Some(Kind::Properties)
                } else if same_text(tag, "image") {
                    Some(Kind::Image)
                } else if same_text(tag, "objectgroup") {
                    Some(Kind::ObjectGroup)
                } else if same_text(tag, "animation") {
                    Some(Kind::Animation)
                } else {
                    None
                }
            },
            Kind::Animation => {
                if same_text(tag, "frame") {
                    Some(Kind::Frame)
                } else {
                    None
                }
            },
            Kind::Layer => {
                if same_text(tag, "properties") {
                    Some(Kind::Properties)
                } else if same_text(tag, "data") {
                    Some(Kind::Data)
                } else {
                    None
                }
            },
            Kind::Data => {
                if same_text(tag, "tile") {
                    Some(Kind::DataTile)
                } else {
                    None
                }
            },
            Kind::ImageLayer => {
                if same_text(tag, "properties") {
                    Some(Kind::Properties)
                } else if same_text(tag, "image") {
                    Some(Kind::Image)
                } else {
                    None
                }
            },
            Kind::ObjectGroup => {
                if same_text(tag, "properties") {
                    Some(Kind::Properties)
                } else if same_text(tag, "object") {
                    Some(Kind::Object)
                } else {
                    None
                }
            },
            Kind::Object => {
                if same_text(tag, "properties") {
                    Some(Kind::Properties)
                } else if same_text(tag, "ellipse") {
                    Some(Kind::Ellipse)
                } else if same_text(tag, "polygon") {
                    Some(Kind::Polygon)
                } else if same_text(tag, "polyline") {
                    Some(Kind::Polyline)
                } else {
                    None
                }
            },
            Kind::Properties => {
                if same_text(tag, "property") {
                    Some(Kind::Property)
                } else {
                    None
                }
            },
            _ => None,
        }
    }
}

impl ElementView {
    /// The kind of the element.
    pub open spec fn kind(self) -> Kind {
        match self {
            ElementView::TileMap(_) => Kind::TileMap,
            ElementView::Tileset(_) => Kind::Tileset,
            ElementView::TileOffset(_) => Kind::TileOffset,
            ElementView::Image(_) => Kind::Image,
            ElementView::TerrainTypes(_) => Kind::TerrainTypes,
            ElementView::TerrainType(_) => Kind::TerrainType,
            ElementView::Tile(_) => Kind::Tile,
            ElementView::Animation(_) => Kind::Animation,
            ElementView::Frame(_) => Kind::Frame,
            ElementView::Layer(_) => Kind::Layer,
            ElementView::Data(_) => Kind::Data,
            ElementView::DataTile(_) => Kind::DataTile,
            ElementView::ImageLayer(_) => Kind::ImageLayer,
            ElementView::ObjectGroup(_) => Kind::ObjectGroup,
            ElementView::Object(_) => Kind::Object,
            ElementView::Shape(ShapeView::Ellipse) => Kind::Ellipse,
            ElementView::Shape(ShapeView::Polygon(_)) => Kind::Polygon,
            ElementView::Shape(ShapeView::Polyline(_)) => Kind::Polyline,
            ElementView::Properties(_) => Kind::Properties,
            ElementView::Property(_) => Kind::Property,
        }
    }

    /// An element of the kind `kind` before anything of it is read: every
    /// default in place, nothing attached.
    pub open spec fn fresh(kind: Kind) -> ElementView {
        match kind {
            Kind::TileMap => ElementView::TileMap(TileMapView::fresh()),
            Kind::Tileset => ElementView::Tileset(TilesetView::fresh()),
            Kind::TileOffset => ElementView::TileOffset(TileOffsetView::fresh()),
            Kind::Image => ElementView::Image(ImageView::fresh()),
            Kind::TerrainTypes => ElementView::TerrainTypes(Seq::empty()),
            Kind::TerrainType => ElementView::TerrainType(TerrainTypeView::fresh()),
            Kind::Tile => ElementView::Tile(TileView::fresh()),
            Kind::Animation => ElementView::Animation(AnimationView::fresh()),
            Kind::Frame => ElementView::Frame(FrameView::fresh()),
            Kind::Layer => ElementView::Layer(LayerView::fresh()),
            Kind::Data => ElementView::Data(DataView::fresh()),
            Kind::DataTile => ElementView::DataTile(DataTileView::fresh()),
            Kind::ImageLayer => ElementView::ImageLayer(ImageLayerView::fresh()),
            Kind::ObjectGroup => ElementView::ObjectGroup(ObjectGroupView::fresh()),
            Kind::Object => ElementView::Object(ObjectView::fresh()),
            Kind::Ellipse => ElementView::Shape(ShapeView::Ellipse),
            Kind::Polygon => ElementView::Shape(ShapeView::Polygon(Seq::empty())),
            Kind::Polyline => ElementView::Shape(ShapeView::Polyline(Seq::empty())),
            Kind::Properties => ElementView::Properties(Seq::empty()),
            Kind::Property => ElementView::Property(PropertyView::fresh()),
        }
    }

    /// Whether `name` is an attribute that the element defines.
    pub open spec fn recognizes(self, name: Seq<char>) -> bool {
        match self {
            ElementView::TileMap(_) => TileMapView::recognizes(name),
            ElementView::Tileset(_) => TilesetView::recognizes(name),
            ElementView::TileOffset(_) => TileOffsetView::recognizes(name),
            ElementView::Image(_) => ImageView::recognizes(name),
            ElementView::TerrainTypes(_) => false,
            ElementView::TerrainType(_) => TerrainTypeView::recognizes(name),
            ElementView::Tile(_) => TileView::recognizes(name),
            ElementView::Animation(_) => AnimationView::recognizes(name),
            ElementView::Frame(_) => FrameView::recognizes(name),
            ElementView::Layer(_) => LayerView::recognizes(name),
            ElementView::Data(_) => DataView::recognizes(name),
            ElementView::DataTile(_) => DataTileView::recognizes(name),
            ElementView::ImageLayer(_) => ImageLayerView::recognizes(name),
            ElementView::ObjectGroup(_) => ObjectGroupView::recognizes(name),
            ElementView::Object(_) => ObjectView::recognizes(name),
            ElementView::Shape(inner) => inner.recognizes(name),
            ElementView::Properties(_) => false,
            ElementView::Property(_) => PropertyView::recognizes(name),
        }
    }

    /// The element after one more attribute is read, by the rule of its
    /// kind. The two lists take no attribute.
    pub open spec fn with_attribute(self, name: Seq<char>, value: Seq<char>) -> Result<
        ElementView,
        ErrorView,
    > {
        match self {
            ElementView::TileMap(inner) => match inner.with_attribute(name, value) {
                Ok(next) => Ok(ElementView::TileMap(next)),
                Err(e) => Err(e),
            },
            ElementView::Tileset(inner) => match inner.with_attribute(name, value) {
                Ok(next) => Ok(ElementView::Tileset(next)),
                Err(e) => Err(e),
            },
            ElementView::TileOffset(inner) => match inner.with_attribute(name, value) {
                Ok(next) => Ok(ElementView::TileOffset(next)),
                Err(e) => Err(e),
            },
            ElementView::Image(inner) => match inner.with_attribute(name, value) {
                Ok(next) => Ok(ElementView::Image(next)),
                Err(e) => Err(e),
            },
            ElementView::TerrainTypes(_) => Err(ErrorView::UnknownAttribute(name)),
            ElementView::TerrainType(inner) => match inner.with_attribute(name, value) {
                Ok(next) => Ok(ElementView::TerrainType(next)),
                Err(e) => Err(e),
            },
            ElementView::Tile(inner) => match inner.with_attribute(name, value) {
                Ok(next) => Ok(ElementView::Tile(next)),
                Err(e) => Err(e),
            },
            ElementView::Animation(inner) => match inner.with_attribute(name, value) {
                Ok(next) => Ok(ElementView::Animation(next)),
                Err(e) => Err(e),
            },
            ElementView::Frame(inner) => match inner.with_attribute(name, value) {
                Ok(next) => Ok(ElementView::Frame(next)),
                Err(e) => Err(e),
            },
            ElementView::Layer(inner) => match inner.with_attribute(name, value) {
                Ok(next) => Ok(ElementView::Layer(next)),
                Err(e) => Err(e),
            },
            ElementView::Data(inner) => match inner.with_attribute(name, value) {
                Ok(next) => Ok(ElementView::Data(next)),
                Err(e) => Err(e),
            },
            ElementView::DataTile(inner) => match inner.with_attribute(name, value) {
                Ok(next) => Ok(ElementView::DataTile(next)),
                Err(e) => Err(e),
            },
            ElementView::ImageLayer(inner) => match inner.with_attribute(name, value) {
                Ok(next) => Ok(ElementView::ImageLayer(next)),
                Err(e) => Err(e),
            },
            ElementView::ObjectGroup(inner) => match inner.with_attribute(name, value) {
                Ok(next) => Ok(ElementView::ObjectGroup(next)),
                Err(e) => Err(e),
            },
            ElementView::Object(inner) => match inner.with_attribute(name, value) {
                Ok(next) => Ok(ElementView::Object(next)),
                Err(e) => Err(e),
            },
            ElementView::Shape(inner) => match inner.with_attribute(name, value) {
                Ok(next) => Ok(ElementView::Shape(next)),
                Err(e) => Err(e),
            },
            ElementView::Properties(_) => Err(ErrorView::UnknownAttribute(name)),
            ElementView::Property(inner) => match inner.with_attribute(name, value) {
                Ok(next) => Ok(ElementView::Property(next)),
                Err(e) => Err(e),
            },
        }
    }

    /// The element after a child is attached. A child that has one place in
    /// its parent takes the place of a child read there before; a child that
    /// may be repeated comes after those read before; a property goes by its
    /// name. A child of a kind that the element does not read changes
    /// nothing.
    pub open spec fn with_child(self, child: ElementView) -> ElementView {
        match (self, child) {
            (ElementView::TileMap(parent), ElementView::Properties(item)) => {
                ElementView::TileMap(TileMapView { properties: item, ..parent })
            },
            (ElementView::TileMap(parent), ElementView::Tileset(item)) => {
                ElementView::TileMap(TileMapView { tilesets: parent.tilesets.push(item), ..parent })
            },
            (ElementView::TileMap(parent), ElementView::Layer(item)) => {
                ElementView::TileMap(TileMapView { layers: parent.layers.push(item), ..parent })
            },
            (ElementView::TileMap(parent), ElementView::ImageLayer(item)) => {
                ElementView::TileMap(
                    TileMapView { image_layers: parent.image_layers.push(item), ..parent },
                )
            },
            (ElementView::TileMap(parent), ElementView::ObjectGroup(item)) => {
                ElementView::TileMap(
                    TileMapView { object_groups: parent.object_groups.push(item), ..parent },
                )
            },
            (ElementView::Tileset(parent), ElementView::TileOffset(item)) => {
                ElementView::Tileset(TilesetView { tile_offset: Some(item), ..parent })
            },
            (ElementView::Tileset(parent), ElementView::Properties(item)) => {
                ElementView::Tileset(TilesetView { properties: item, ..parent })
            },
            (ElementView::Tileset(parent), ElementView::Image(item)) => {
                ElementView::Tileset(TilesetView { image: Some(item), ..parent })
            },
            (ElementView::Tileset(parent), ElementView::TerrainTypes(item)) => {
                ElementView::Tileset(TilesetView { terrain_types: item, ..parent })
            },
            (ElementView::Tileset(parent), ElementView::Tile(item)) => {
                ElementView::Tileset(TilesetView { tiles: parent.tiles.push(item), ..parent })
            },
            (ElementView::TerrainTypes(items), ElementView::TerrainType(item)) => {
                ElementView::TerrainTypes(items.push(item))
            },
            (ElementView::TerrainType(parent), ElementView::Properties(item)) => {
                ElementView::TerrainType(TerrainTypeView { properties: item, ..parent })
            },
            (ElementView::Tile(parent), ElementView::Properties(item)) => {
                ElementView::Tile(TileView { properties: item, ..parent })
            },
            (ElementView::Tile(parent), ElementView::Image(item)) => {
                ElementView::Tile(TileView { image: Some(item), ..parent })
            },
            (ElementView::Tile(parent), ElementView::ObjectGroup(item)) => {
                ElementView::Tile(TileView { object_group: Some(item), ..parent })
            },
            (ElementView::Tile(parent), ElementView::Animation(item)) => {
                ElementView::Tile(TileView { animation: Some(item), ..parent })
            },
            (ElementView::Animation(parent), ElementView::Frame(item)) => {
                ElementView::Animation(AnimationView { frames: parent.frames.push(item), ..parent })
            },
            (ElementView::Layer(parent), ElementView::Properties(item)) => {
                ElementView::Layer(LayerView { properties: item, ..parent })
            },
            (ElementView::Layer(parent), ElementView::Data(item)) => {
                ElementView::Layer(LayerView { data: Some(item), ..parent })
            },
            (ElementView::Data(parent), ElementView::DataTile(item)) => {
                ElementView::Data(DataView { tiles: parent.tiles.push(item), ..parent })
            },
            (ElementView::ImageLayer(parent), ElementView::Properties(item)) => {
                ElementView::ImageLayer(ImageLayerView { properties: item, ..parent })
            },
            (ElementView::ImageLayer(parent), ElementView::Image(item)) => {
                ElementView::ImageLayer(ImageLayerView { image: Some(item), ..parent })
            },
            (ElementView::ObjectGroup(parent), ElementView::Properties(item)) => {
                ElementView::ObjectGroup(ObjectGroupView { properties: item, ..parent })
            },
            (ElementView::ObjectGroup(parent), ElementView::Object(item)) => {
                ElementView::ObjectGroup(
                    ObjectGroupView { objects: parent.objects.push(item), ..parent },
                )
            },
            (ElementView::Object(parent), ElementView::Properties(item)) => {
                ElementView::Object(ObjectView { properties: item, ..parent })
            },
            (ElementView::Object(parent), ElementView::Shape(item)) => {
                ElementView::Object(ObjectView { shape: Some(item), ..parent })
            },
            (ElementView::Image(parent), ElementView::Data(item)) => {
                ElementView::Image(ImageView { data: Some(item), ..parent })
            },
            (ElementView::Properties(items), ElementView::Property(item)) => {
                ElementView::Properties(upsert(items, item))
            },
            _ => self,
        }
    }

    /// The element after text content is attached: the data of a layer or
    /// an image keeps it verbatim, in place of text read before; no other
    /// element keeps text.
    pub open spec fn with_text(self, text: Seq<char>) -> ElementView {
        match self {
            ElementView::Data(data) => ElementView::Data(
                DataView { raw_content: Some(text), ..data },
            ),
            _ => self,
        }
    }
}

impl Element {
    /// An element of the kind `kind` with every default in place and nothing
    /// attached.
    pub fn new(kind: Kind) -> (fresh: Element)
        ensures
            fresh@ == ElementView::fresh(kind),
    {
        proof {
            lemma_views_empty::<TerrainType>();
        }
        match kind {
            Kind::TileMap => Element::TileMap(TileMap::new()),
            Kind::Tileset => Element::Tileset(Tileset::new()),
            Kind::TileOffset => Element::TileOffset(TileOffset::new()),
            Kind::Image => Element::Image(Image::new()),
            Kind::TerrainTypes => Element::TerrainTypes(Vec::new()),
            Kind::TerrainType => Element::TerrainType(TerrainType::new()),
            Kind::Tile => Element::Tile(Tile::new()),
            Kind::Animation => Element::Animation(Animation::new()),
            Kind::Frame => Element::Frame(Frame::new()),
            Kind::Layer => Element::Layer(Layer::new()),
            Kind::Data => Element::Data(Data::new()),
            Kind::DataTile => Element::DataTile(DataTile::new()),
            Kind::ImageLayer => Element::ImageLayer(ImageLayer::new()),
            Kind::ObjectGroup => Element::ObjectGroup(ObjectGroup::new()),
            Kind::Object => Element::Object(Object::new()),
            Kind::Ellipse => Element::Shape(Shape::Ellipse),
            Kind::Polygon => Element::Shape(Shape::Polygon(Vec::new())),
            Kind::Polyline => Element::Shape(Shape::Polyline(Vec::new())),
            Kind::Properties => Element::Properties(Properties::new()),
            Kind::Property => Element::Property(Property::new()),
        }
    }

    /// The kind of the element.
    pub fn kind(&self) -> (kind: Kind)
        ensures
            kind == self@.kind(),
    {
        match self {
            Element::TileMap(_) => Kind::TileMap,
            Element::Tileset(_) => Kind::Tileset,
            Element::TileOffset(_) => Kind::TileOffset,
            Element::Image(_) => Kind::Image,
            Element::TerrainTypes(_) => Kind::TerrainTypes,
            Element::TerrainType(_) => Kind::TerrainType,
            Element::Tile(_) => Kind::Tile,
            Element::Animation(_) => Kind::Animation,
            Element::Frame(_) => Kind::Frame,
            Element::Layer(_) => Kind::Layer,
            Element::Data(_) => Kind::Data,
            Element::DataTile(_) => Kind::DataTile,
            Element::ImageLayer(_) => Kind::ImageLayer,
            Element::ObjectGroup(_) => Kind::ObjectGroup,
            Element::Object(_) => Kind::Object,
            Element::Shape(Shape::Ellipse) => Kind::Ellipse,
            Element::Shape(Shape::Polygon(_)) => Kind::Polygon,
            Element::Shape(Shape::Polyline(_)) => Kind::Polyline,
            Element::Properties(_) => Kind::Properties,
            Element::Property(_) => Kind::Property,
        }
    }

    /// Reads one attribute into the element, as
    /// [`ElementView::with_attribute`] says.
    pub fn read_attribute(self, name: &str, value: &str) -> (result: Result<Element, Error>)
        ensures
            match self@.with_attribute(name@, value@) {
                Ok(next) => result is Ok && result->Ok_0@ == next,
                Err(e) => result is Err && result->Err_0@ == e,
            },
    {
        match self {
            Element::TileMap(inner) => {
                let mut inner = inner;
                match inner.read_attribute(name, value) {
                    Ok(()) => Ok(Element::TileMap(inner)),
                    Err(e) => Err(e),
                }
            },
            Element::Tileset(inner) => {
                let mut inner = inner;
                match inner.read_attribute(name, value) {
                    Ok(()) => Ok(Element::Tileset(inner)),
                    Err(e) => Err(e),
                }
            },
            Element::TileOffset(inner) => {
                let mut inner = inner;
                match inner.read_attribute(name, value) {
                    Ok(()) => Ok(Element::TileOffset(inner)),
                    Err(e) => Err(e),
                }
            },
            Element::Image(inner) => {
                let mut inner = inner;
                match inner.read_attribute(name, value) {
                    Ok(()) => Ok(Element::Image(inner)),
                    Err(e) => Err(e),
                }
            },
            Element::TerrainTypes(_) => Err(Error::UnknownAttribute(String::from_str(name))),
            Element::TerrainType(inner) => {
                let mut inner = inner;
                match inner.read_attribute(name, value) {
                    Ok(()) => Ok(Element::TerrainType(inner)),
                    Err(e) => Err(e),
                }
            },
            Element::Tile(inner) => {
                let mut inner = inner;
                match inner.read_attribute(name, value) {
                    Ok(()) => Ok(Element::Tile(inner)),
                    Err(e) => Err(e),
                }
            },
            Element::Animation(inner) => {
                let mut inner = inner;
                match inner.read_attribute(name, value) {
                    Ok(()) => Ok(Element::Animation(inner)),
                    Err(e) => Err(e),
                }
            },
            Element::Frame(inner) => {
                let mut inner = inner;
                match inner.read_attribute(name, value) {
                    Ok(()) => Ok(Element::Frame(inner)),
                    Err(e) => Err(e),
                }
            },
            Element::Layer(inner) => {
                let mut inner = inner;
                match inner.read_attribute(name, value) {
                    Ok(()) => Ok(Element::Layer(inner)),
                    Err(e) => Err(e),
                }
            },
            Element::Data(inner) => {
                let mut inner = inner;
                match inner.read_attribute(name, value) {
                    Ok(()) => Ok(Element::Data(inner)),
                    Err(e) => Err(e),
                }
            },
            Element::DataTile(inner) => {
                let mut inner = inner;
                match inner.read_attribute(name, value) {
                    Ok(()) => Ok(Element::DataTile(inner)),
                    Err(e) => Err(e),
                }
            },
            Element::ImageLayer(inner) => {
                let mut inner = inner;
                match inner.read_attribute(name, value) {
                    Ok(()) => Ok(Element::ImageLayer(inner)),
                    Err(e) => Err(e),
                }
            },
            Element::ObjectGroup(inner) => {
                let mut inner = inner;
                match inner.read_attribute(name, value) {
                    Ok(()) => Ok(Element::ObjectGroup(inner)),
                    Err(e) => Err(e),
                }
            },
            Element::Object(inner) => {
                let mut inner = inner;
                match inner.read_attribute(name, value) {
                    Ok(()) => Ok(Element::Object(inner)),
                    Err(e) => Err(e),
                }
            },
            Element::Shape(inner) => match inner.read_attribute(name, value) {
                Ok(next) => Ok(Element::Shape(next)),
                Err(e) => Err(e),
            },
            Element::Properties(_) => Err(Error::UnknownAttribute(String::from_str(name))),
            Element::Property(inner) => {
                let mut inner = inner;
                match inner.read_attribute(name, value) {
                    Ok(()) => Ok(Element::Property(inner)),
                    Err(e) => Err(e),
                }
            },
        }
    }

    /// Attaches a child, as [`ElementView::with_child`] says.
    pub fn attach(self, child: Element) -> (next: Element)
        ensures
            next@ == self@.with_child(child@),
    {
        match (self, child) {
            (Element::TileMap(parent), Element::Properties(item)) => {
                let mut parent = parent;
                parent.set_properties(item);
                Element::TileMap(parent)
            },
            (Element::TileMap(parent), Element::Tileset(item)) => {
                let mut parent = parent;
                parent.add_tileset(item);
                Element::TileMap(parent)
            },
            (Element::TileMap(parent), Element::Layer(item)) => {
                let mut parent = parent;
                parent.add_layer(item);
                Element::TileMap(parent)
            },
            (Element::TileMap(parent), Element::ImageLayer(item)) => {
                let mut parent = parent;
                parent.add_image_layer(item);
                Element::TileMap(parent)
            },
            (Element::TileMap(parent), Element::ObjectGroup(item)) => {
                let mut parent = parent;
                parent.add_object_group(item);
                Element::TileMap(parent)
            },
            (Element::Tileset(parent), Element::TileOffset(item)) => {
                let mut parent = parent;
                parent.set_tile_offset(item);
                Element::Tileset(parent)
            },
            (Element::Tileset(parent), Element::Properties(item)) => {
                let mut parent = parent;
                parent.set_properties(item);
                Element::Tileset(parent)
            },
            (Element::Tileset(parent), Element::Image(item)) => {
                let mut parent = parent;
                parent.set_image(item);
                Element::Tileset(parent)
            },
            (Element::Tileset(parent), Element::TerrainTypes(item)) => {
                let mut parent = parent;
                parent.set_terrain_types(item);
                Element::Tileset(parent)
            },
            (Element::Tileset(parent), Element::Tile(item)) => {
                let mut parent = parent;
                parent.add_tile(item);
                Element::Tileset(parent)
            },
            (Element::TerrainTypes(items), Element::TerrainType(item)) => {
                let mut items = items;
                proof {
                    lemma_views_push(items@, item);
                }
                items.push(item);
                Element::TerrainTypes(items)
            },
            (Element::TerrainType(parent), Element::Properties(item)) => {
                let mut parent = parent;
                parent.set_properties(item);
                Element::TerrainType(parent)
            },
            (Element::Tile(parent), Element::Properties(item)) => {
                let mut parent = parent;
                parent.set_properties(item);
                Element::Tile(parent)
            },
            (Element::Tile(parent), Element::Image(item)) => {
                let mut parent = parent;
                parent.set_image(item);
                Element::Tile(parent)
            },
            (Element::Tile(parent), Element::ObjectGroup(item)) => {
                let mut parent = parent;
                parent.set_object_group(item);
                Element::Tile(parent)
            },
            (Element::Tile(parent), Element::Animation(item)) => {
                let mut parent = parent;
                parent.set_animation(item);
                Element::Tile(parent)
            },
            (Element::Animation(parent), Element::Frame(item)) => {
                let mut parent = parent;
                parent.add_frame(item);
                Element::Animation(parent)
            },
            (Element::Layer(parent), Element::Properties(item)) => {
                let mut parent = parent;
                parent.set_properties(item);
                Element::Layer(parent)
            },
            (Element::Layer(parent), Element::Data(item)) => {
                let mut parent = parent;
                parent.set_data(item);
                Element::Layer(parent)
            },
            (Element::Data(parent), Element::DataTile(item)) => {
                let mut parent = parent;
                parent.add_tile(item);
                Element::Data(parent)
            },
            (Element::ImageLayer(parent), Element::Properties(item)) => {
                let mut parent = parent;
                parent.set_properties(item);
                Element::ImageLayer(parent)
            },
            (Element::ImageLayer(parent), Element::Image(item)) => {
                let mut parent = parent;
                parent.set_image(item);
                Element::ImageLayer(parent)
            },
            (Element::ObjectGroup(parent), Element::Properties(item)) => {
                let mut parent = parent;
                parent.set_properties(item);
                Element::ObjectGroup(parent)
            },
            (Element::ObjectGroup(parent), Element::Object(item)) => {
                let mut parent = parent;
                parent.add_object(item);
                Element::ObjectGroup(parent)
            },
            (Element::Object(parent), Element::Properties(item)) => {
                let mut parent = parent;
                parent.set_properties(item);
                Element::Object(parent)
            },
            (Element::Object(parent), Element::Shape(item)) => {
                let mut parent = parent;
                parent.set_shape(item);
                Element::Object(parent)
            },
            (Element::Image(parent), Element::Data(item)) => {
                let mut parent = parent;
                parent.set_data(item);
                Element::Image(parent)
            },
            (Element::Properties(items), Element::Property(item)) => {
                Element::Properties(items.insert(item))
            },
            (parent, _) => parent,
        }
    }

    /// Attaches text content, as [`ElementView::with_text`] says.
    pub fn attach_text(self, text: &str) -> (next: Element)
        ensures
            next@ == self@.with_text(text@),
    {
        match self {
            Element::Data(data) => {
                let mut data = data;
                data.set_raw_content(text);
                Element::Data(data)
            },
            other => other,
        }
    }
}

} // verus!
