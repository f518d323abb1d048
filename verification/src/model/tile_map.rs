//! Maps.

use crate::color::Color;
use crate::color::color_of;
use crate::error::Error;
use crate::error::ErrorView;
use crate::model::image_layer::ImageLayer;
use crate::model::image_layer::ImageLayerView;
use crate::model::layer::Layer;
use crate::model::layer::LayerView;
use crate::model::object_group::ObjectGroup;
use crate::model::object_group::ObjectGroupView;
use crate::model::property::Properties;
use crate::model::property::PropertyView;
use crate::model::tileset::Tileset;
use crate::model::tileset::TilesetView;
use crate::number::read_u32;
use crate::number::u32_of;
use crate::text::lemma_views_empty;
use crate::text::lemma_views_push;
use crate::text::same_text;
use crate::text::views;
use crate::vocabulary::Axis;
use crate::vocabulary::Index;
use crate::vocabulary::Orientation;
use crate::vocabulary::RenderOrder;
use crate::vocabulary::axis_of;
use crate::vocabulary::index_of;
use crate::vocabulary::orientation_of;
use crate::vocabulary::render_order_of;
use vstd::prelude::*;

verus! {

/// A tile map: the geometry of its grid and what it holds, each kind in
/// document order.
#[derive(Debug, PartialEq, Eq)]
pub struct TileMap {
    version: String,
    orientation: Orientation,
    render_order: RenderOrder,
    width: u32,
    height: u32,
    tile_width: u32,
    tile_height: u32,
    hex_side_length: Option<u32>,
    stagger_axis: Option<Axis>,
    stagger_index: Option<Index>,
    background_color: Option<Color>,
    next_object_id: u32,
    properties: Properties,
    tilesets: Vec<Tileset>,
    layers: Vec<Layer>,
    image_layers: Vec<ImageLayer>,
    object_groups: Vec<ObjectGroup>,
}

/// The mathematical value of a [`TileMap`].
pub struct TileMapView {
    pub version: Seq<char>,
    pub orientation: Orientation,
    pub render_order: RenderOrder,
    pub width: u32,
    pub height: u32,
    pub tile_width: u32,
    pub tile_height: u32,
    pub hex_side_length: Option<u32>,
    pub stagger_axis: Option<Axis>,
    pub stagger_index: Option<Index>,
    pub background_color: Option<Color>,
    pub next_object_id: u32,
    pub properties: Seq<PropertyView>,
    pub tilesets: Seq<TilesetView>,
    pub layers: Seq<LayerView>,
    pub image_layers: Seq<ImageLayerView>,
    pub object_groups: Seq<ObjectGroupView>,
}

impl View for TileMap {
    type V = TileMapView;

    closed spec fn view(&self) -> TileMapView {
        TileMapView {
            version: self.version@,
            orientation: self.orientation,
            render_order: self.render_order,
            width: self.width,
            height: self.height,
            tile_width: self.tile_width,
            tile_height: self.tile_height,
            hex_side_length: self.hex_side_length,
            stagger_axis: self.stagger_axis,
            stagger_index: self.stagger_index,
            background_color: self.background_color,
            next_object_id: self.next_object_id,
            properties: self.properties@,
            tilesets: views(self.tilesets@),
            layers: views(self.layers@),
            image_layers: views(self.image_layers@),
            object_groups: views(self.object_groups@),
        }
    }
}

impl TileMapView {
    /// The value of an element `map` before anything of it is read: every
    /// default in place, nothing attached.
    pub open spec fn fresh() -> TileMapView {
        TileMapView {
            version: Seq::empty(),
            orientation: Orientation::Orthogonal,
            render_order: RenderOrder::RightDown,
            width: 0,
            height: 0,
            tile_width: 0,
            tile_height: 0,
            hex_side_length: None,
            stagger_axis: None,
            stagger_index: None,
            background_color: None,
            next_object_id: 0,
            properties: Seq::empty(),
            tilesets: Seq::empty(),
            layers: Seq::empty(),
            image_layers: Seq::empty(),
            object_groups: Seq::empty(),
        }
    }

    /// Whether `name` is an attribute that an element `map` defines.
    pub open spec fn recognizes(name: Seq<char>) -> bool {
        name == "version"@
            || name == "orientation"@
            || name == "renderorder"@
            || name == "width"@
            || name == "height"@
            || name == "tilewidth"@
            || name == "tileheight"@
            || name == "hexsidelength"@
            || name == "staggeraxis"@
            || name == "staggerindex"@
            || name == "backgroundcolor"@
            || name == "nextobjectid"@
    }

    /// The value after one more attribute is read. An attribute that the
    /// element does not define is refused by name; a value that cannot be
    /// read is refused with the error of its reader.
    pub open spec fn with_attribute(self, name: Seq<char>, value: Seq<char>) -> Result<
        TileMapView,
        ErrorView,
    > {
        if name == "version"@ {
            Ok(TileMapView { version: value, ..self })
        } else if name == "orientation"@ {
            match orientation_of(value) {
                Ok(parsed) => Ok(TileMapView { orientation: parsed, ..self }),
                Err(e) => Err(e),
            }
        } else if name == "renderorder"@ {
            match render_order_of(value) {
                Ok(parsed) => Ok(TileMapView { render_order: parsed, ..self }),
                Err(e) => Err(e),
            }
        } else if name == "width"@ {
            match u32_of(value) {
                Ok(parsed) => Ok(TileMapView { width: parsed, ..self }),
                Err(e) => Err(e),
            }
        } else if name == "height"@ {
            match u32_of(value) {
                Ok(parsed) => Ok(TileMapView { height: parsed, ..self }),
                Err(e) => Err(e),
            }
        } else if name == "tilewidth"@ {
            match u32_of(value) {
                Ok(parsed) => Ok(TileMapView { tile_width: parsed, ..self }),
                Err(e) => Err(e),
            }
        } else if name == "tileheight"@ {
            match u32_of(value) {
                Ok(parsed) => Ok(TileMapView { tile_height: parsed, ..self }),
                Err(e) => Err(e),
            }
        } else if name == "hexsidelength"@ {
            match u32_of(value) {
                Ok(parsed) => Ok(TileMapView { hex_side_length: Some(parsed), ..self }),
                Err(e) => Err(e),
            }
        } else if name == "staggeraxis"@ {
            match axis_of(value) {
                Ok(parsed) => Ok(TileMapView { stagger_axis: Some(parsed), ..self }),
                Err(e) => Err(e),
            }
        } else if name == "staggerindex"@ {
            match index_of(value) {
                Ok(parsed) => Ok(TileMapView { stagger_index: Some(parsed), ..self }),
                Err(e) => Err(e),
            }
        } else if name == "backgroundcolor"@ {
            match color_of(value) {
                Ok(parsed) => Ok(TileMapView { background_color: Some(parsed), ..self }),
                Err(e) => Err(e),
            }
        } else if name == "nextobjectid"@ {
            match u32_of(value) {
                Ok(parsed) => Ok(TileMapView { next_object_id: parsed, ..self }),
                Err(e) => Err(e),
            }
        } else {
            Err(ErrorView::UnknownAttribute(name))
        }
    }
}

impl TileMap {
    /// An element `map` with every default in place and nothing attached.
    pub fn new() -> (fresh: TileMap)
        ensures
            fresh@ == TileMapView::fresh(),
    {
        proof {
            lemma_views_empty::<ImageLayer>();
            lemma_views_empty::<Layer>();
            lemma_views_empty::<ObjectGroup>();
            lemma_views_empty::<Tileset>();
        }
        TileMap {
            version: String::new(),
            orientation: Orientation::Orthogonal,
            render_order: RenderOrder::RightDown,
            width: 0,
            height: 0,
            tile_width: 0,
            tile_height: 0,
            hex_side_length: None,
            stagger_axis: None,
            stagger_index: None,
            background_color: None,
            next_object_id: 0,
            properties: Properties::new(),
            tilesets: Vec::new(),
            layers: Vec::new(),
            image_layers: Vec::new(),
            object_groups: Vec::new(),
        }
    }

    /// The version of the format that the document declares.
    pub fn version(&self) -> (version: &str)
        ensures
            version@ == self@.version,
    {
        self.version.as_str()
    }

    /// How the grid is laid out; orthogonal, unless the document says
    /// otherwise.
    pub fn orientation(&self) -> (orientation: Orientation)
        ensures
            orientation == self@.orientation,
    {
        self.orientation
    }

    /// The order in which tiles are drawn; right-down, unless the document
    /// says otherwise.
    pub fn render_order(&self) -> (render_order: RenderOrder)
        ensures
            render_order == self@.render_order,
    {
        self.render_order
    }

    /// The width of the map, in tiles.
    pub fn width(&self) -> (width: u32)
        ensures
            width == self@.width,
    {
        self.width
    }

    /// The height of the map, in tiles.
    pub fn height(&self) -> (height: u32)
        ensures
            height == self@.height,
    {
        self.height
    }

    /// The width of a tile, in pixels.
    pub fn tile_width(&self) -> (tile_width: u32)
        ensures
            tile_width == self@.tile_width,
    {
        self.tile_width
    }

    /// The height of a tile, in pixels.
    pub fn tile_height(&self) -> (tile_height: u32)
        ensures
            tile_height == self@.tile_height,
    {
        self.tile_height
    }

    /// The length of the side of a hexagonal tile, in pixels, where the
    /// document gives it.
    pub fn hex_side_length(&self) -> (hex_side_length: Option<u32>)
        ensures
            hex_side_length == self@.hex_side_length,
    {
        self.hex_side_length
    }

    /// Which axis is offset, for staggered and hexagonal maps.
    pub fn stagger_axis(&self) -> (stagger_axis: Option<Axis>)
        ensures
            stagger_axis == self@.stagger_axis,
    {
        self.stagger_axis
    }

    /// Which rows or columns are offset, for staggered and hexagonal maps.
    pub fn stagger_index(&self) -> (stagger_index: Option<Index>)
        ensures
            stagger_index == self@.stagger_index,
    {
        self.stagger_index
    }

    /// The color behind the map, where one is set.
    pub fn background_color(&self) -> (background_color: Option<&Color>)
        ensures
            match background_color {
                Some(inner) => self@.background_color == Some(*inner),
                None => self@.background_color is None,
            },
    {
        self.background_color.as_ref()
    }

    /// The id that the next new object is to get.
    pub fn next_object_id(&self) -> (next_object_id: u32)
        ensures
            next_object_id == self@.next_object_id,
    {
        self.next_object_id
    }

    /// The properties attached to the element, in the order in which their
    /// names first occurred.
    pub fn properties(&self) -> (properties: &Properties)
        ensures
            properties@ == self@.properties,
    {
        &self.properties
    }

    /// The tilesets, in document order.
    pub fn tilesets(&self) -> (tilesets: &Vec<Tileset>)
        ensures
            views(tilesets@) == self@.tilesets,
    {
        &self.tilesets
    }

    /// The tile layers, in document order.
    pub fn layers(&self) -> (layers: &Vec<Layer>)
        ensures
            views(layers@) == self@.layers,
    {
        &self.layers
    }

    /// The image layers, in document order.
    pub fn image_layers(&self) -> (image_layers: &Vec<ImageLayer>)
        ensures
            views(image_layers@) == self@.image_layers,
    {
        &self.image_layers
    }

    /// The object groups, in document order.
    pub fn object_groups(&self) -> (object_groups: &Vec<ObjectGroup>)
        ensures
            views(object_groups@) == self@.object_groups,
    {
        &self.object_groups
    }

    /// Reads one attribute into the element, as [`TileMapView::with_attribute`]
    /// says. After an error the element is not to be used.
    pub(crate) fn read_attribute(&mut self, name: &str, value: &str) -> (result: Result<
        (),
        Error,
    >)
        ensures
            match old(self)@.with_attribute(name@, value@) {
                Ok(next) => result is Ok && final(self)@ == next,
                Err(e) => result is Err && result->Err_0@ == e,
            },
    {
        if same_text(name, "version") {
            self.version = String::from_str(value);
            Ok(())
        } else if same_text(name, "orientation") {
            match Orientation::parse(value) {
                Ok(parsed) => {
                    self.orientation = parsed;
                    Ok(())
                },
                Err(e) => Err(e),
            }
        } else if same_text(name, "renderorder") {
            match RenderOrder::parse(value) {
                Ok(parsed) => {
                    self.render_order = parsed;
                    Ok(())
                },
                Err(e) => Err(e),
            }
        } else if same_text(name, "width") {
            match read_u32(value) {
                Ok(parsed) => {
                    self.width = parsed;
                    Ok(())
                },
                Err(e) => Err(e),
            }
        } else if same_text(name, "height") {
            match read_u32(value) {
                Ok(parsed) => {
                    self.height = parsed;
                    Ok(())
                },
                Err(e) => Err(e),
            }
        } else if same_text(name, "tilewidth") {
            match read_u32(value) {
                Ok(parsed) => {
                    self.tile_width = parsed;
                    Ok(())
                },
                Err(e) => Err(e),
            }
        } else if same_text(name, "tileheight") {
            match read_u32(value) {
                Ok(parsed) => {
                    self.tile_height = parsed;
                    Ok(())
                },
                Err(e) => Err(e),
            }
        } else if same_text(name, "hexsidelength") {
            match read_u32(value) {
                Ok(parsed) => {
                    self.hex_side_length = Some(parsed);
                    Ok(())
                },
                Err(e) => Err(e),
            }
        } else if same_text(name, "staggeraxis") {
            match Axis::parse(value) {
                Ok(parsed) => {
                    self.stagger_axis = Some(parsed);
                    Ok(())
                },
                Err(e) => Err(e),
            }
        } else if same_text(name, "staggerindex") {
            match Index::parse(value) {
                Ok(parsed) => {
                    self.stagger_index = Some(parsed);
                    Ok(())
                },
                Err(e) => Err(e),
            }
        } else if same_text(name, "backgroundcolor") {
            match Color::parse(value) {
                Ok(parsed) => {
                    self.background_color = Some(parsed);
                    Ok(())
                },
                Err(e) => Err(e),
            }
        } else if same_text(name, "nextobjectid") {
            match read_u32(value) {
                Ok(parsed) => {
                    self.next_object_id = parsed;
                    Ok(())
                },
                Err(e) => Err(e),
            }
        } else {
            Err(Error::UnknownAttribute(String::from_str(name)))
        }
    }

    /// Attaches the properties of a child `properties`, in place of any
    /// attached before.
    pub(crate) fn set_properties(&mut self, children: Properties)
        ensures
            final(self)@ == (TileMapView { properties: children@, ..old(self)@ }),
    {
        self.properties = children;
    }

    /// Attaches one more child `tileset`, after those attached before.
    pub(crate) fn add_tileset(&mut self, child: Tileset)
        ensures
            final(self)@ == (TileMapView {
                tilesets: old(self)@.tilesets.push(child@),
                ..old(self)@
            }),
    {
        proof {
            lemma_views_push(self.tilesets@, child);
        }
        self.tilesets.push(child);
    }

    /// Attaches one more child `layer`, after those attached before.
    pub(crate) fn add_layer(&mut self, child: Layer)
        ensures
            final(self)@ == (TileMapView {
                layers: old(self)@.layers.push(child@),
                ..old(self)@
            }),
    {
        proof {
            lemma_views_push(self.layers@, child);
        }
        self.layers.push(child);
    }

    /// Attaches one more child `imagelayer`, after those attached before.
    pub(crate) fn add_image_layer(&mut self, child: ImageLayer)
        ensures
            final(self)@ == (TileMapView {
                image_layers: old(self)@.image_layers.push(child@),
                ..old(self)@
            }),
    {
        proof {
            lemma_views_push(self.image_layers@, child);
        }
        self.image_layers.push(child);
    }

    /// Attaches one more child `objectgroup`, after those attached before.
    pub(crate) fn add_object_group(&mut self, child: ObjectGroup)
        ensures
            final(self)@ == (TileMapView {
                object_groups: old(self)@.object_groups.push(child@),
                ..old(self)@
            }),
    {
        proof {
            lemma_views_push(self.object_groups@, child);
        }
        self.object_groups.push(child);
    }
}

impl Default for TileMap {
    fn default() -> (fresh: TileMap)
        ensures
            fresh@ == TileMapView::fresh(),
    {
        TileMap::new()
    }
}

} // verus!
