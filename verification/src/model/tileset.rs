//! Tilesets.

use crate::error::Error;
use crate::error::ErrorView;
use crate::model::image::Image;
use crate::model::image::ImageView;
use crate::model::property::Properties;
use crate::model::property::PropertyView;
use crate::model::terrain::TerrainType;
use crate::model::terrain::TerrainTypeView;
use crate::model::tile::Tile;
use crate::model::tile::TileView;
use crate::model::tile_offset::TileOffset;
use crate::model::tile_offset::TileOffsetView;
use crate::number::read_u32;
use crate::number::u32_of;
use crate::text::lemma_views_empty;
use crate::text::lemma_views_push;
use crate::text::option_view;
use crate::text::same_text;
use crate::text::views;
use vstd::prelude::*;

verus! {

/// A catalog of tiles, addressed within the map from a first global id on.
#[derive(Debug, PartialEq, Eq)]
pub struct Tileset {
    first_gid: u32,
    source: String,
    name: String,
    tile_width: u32,
    tile_height: u32,
    spacing: u32,
    margin: u32,
    tile_count: u32,
    columns: u32,
    tile_offset: Option<TileOffset>,
    properties: Properties,
    image: Option<Image>,
    terrain_types: Vec<TerrainType>,
    tiles: Vec<Tile>,
}

/// The mathematical value of a [`Tileset`].
pub struct TilesetView {
    pub first_gid: u32,
    pub source: Seq<char>,
    pub name: Seq<char>,
    pub tile_width: u32,
    pub tile_height: u32,
    pub spacing: u32,
    pub margin: u32,
    pub tile_count: u32,
    pub columns: u32,
    pub tile_offset: Option<TileOffsetView>,
    pub properties: Seq<PropertyView>,
    pub image: Option<ImageView>,
    pub terrain_types: Seq<TerrainTypeView>,
    pub tiles: Seq<TileView>,
}

impl View for Tileset {
    type V = TilesetView;

    closed spec fn view(&self) -> TilesetView {
        TilesetView {
            first_gid: self.first_gid,
            source: self.source@,
            name: self.name@,
            tile_width: self.tile_width,
            tile_height: self.tile_height,
            spacing: self.spacing,
            margin: self.margin,
            tile_count: self.tile_count,
            columns: self.columns,
            tile_offset: option_view(self.tile_offset),
            properties: self.properties@,
            image: option_view(self.image),
            terrain_types: views(self.terrain_types@),
            tiles: views(self.tiles@),
        }
    }
}

impl TilesetView {
    /// The value of an element `tileset` before anything of it is read: every
    /// default in place, nothing attached.
    pub open spec fn fresh() -> TilesetView {
        TilesetView {
            first_gid: 0,
            source: Seq::empty(),
            name: Seq::empty(),
            tile_width: 0,
            tile_height: 0,
            spacing: 0,
            margin: 0,
            tile_count: 0,
            columns: 0,
            tile_offset: None,
            properties: Seq::empty(),
            image: None,
            terrain_types: Seq::empty(),
            tiles: Seq::empty(),
        }
    }

    /// Whether `name` is an attribute that an element `tileset` defines.
    pub open spec fn recognizes(name: Seq<char>) -> bool {
        name == "firstgid"@
            || name == "source"@
            || name == "name"@
            || name == "tilewidth"@
            || name == "tileheight"@
            || name == "spacing"@
            || name == "margin"@
            || name == "tilecount"@
            || name == "columns"@
    }

    /// The value after one more attribute is read. An attribute that the
    /// element does not define is refused by name; a value that cannot be
    /// read is refused with the error of its reader.
    pub open spec fn with_attribute(self, name: Seq<char>, value: Seq<char>) -> Result<
        TilesetView,
        ErrorView,
    > {
        if name == "firstgid"@ {
            match u32_of(value) {
                Ok(parsed) => Ok(TilesetView { first_gid: parsed, ..self }),
                Err(e) => Err(e),
            }
        } else if name == "source"@ {
            Ok(TilesetView { source: value, ..self })
        } else if name == "name"@ {
            Ok(TilesetView { name: value, ..self })
        } else if name == "tilewidth"@ {
            match u32_of(value) {
                Ok(parsed) => Ok(TilesetView { tile_width: parsed, ..self }),
                Err(e) => Err(e),
            }
        } else if name == "tileheight"@ {
            match u32_of(value) {
                Ok(parsed) => Ok(TilesetView { tile_height: parsed, ..self }),
                Err(e) => Err(e),
            }
        } else if name == "spacing"@ {
            match u32_of(value) {
                Ok(parsed) => Ok(TilesetView { spacing: parsed, ..self }),
                Err(e) => Err(e),
            }
        } else if name == "margin"@ {
            match u32_of(value) {
                Ok(parsed) => Ok(TilesetView { margin: parsed, ..self }),
                Err(e) => Err(e),
            }
        } else if name == "tilecount"@ {
            match u32_of(value) {
                Ok(parsed) => Ok(TilesetView { tile_count: parsed, ..self }),
                Err(e) => Err(e),
            }
        } else if name == "columns"@ {
            match u32_of(value) {
                Ok(parsed) => Ok(TilesetView { columns: parsed, ..self }),
                Err(e) => Err(e),
            }
        } else {
            Err(ErrorView::UnknownAttribute(name))
        }
    }
}

impl Tileset {
    /// An element `tileset` with every default in place and nothing attached.
    pub fn new() -> (fresh: Tileset)
        ensures
            fresh@ == TilesetView::fresh(),
    {
        proof {
            lemma_views_empty::<TerrainType>();
            lemma_views_empty::<Tile>();
        }
        Tileset {
            first_gid: 0,
            source: String::new(),
            name: String::new(),
            tile_width: 0,
            tile_height: 0,
            spacing: 0,
            margin: 0,
            tile_count: 0,
            columns: 0,
            tile_offset: None,
            properties: Properties::new(),
            image: None,
            terrain_types: Vec::new(),
            tiles: Vec::new(),
        }
    }

    /// The global id of the first tile of the tileset.
    pub fn first_gid(&self) -> (first_gid: u32)
        ensures
            first_gid == self@.first_gid,
    {
        self.first_gid
    }

    /// The file that holds the tileset, where it is kept outside the map;
    /// it is not read.
    pub fn source(&self) -> (source: &str)
        ensures
            source@ == self@.source,
    {
        self.source.as_str()
    }

    /// The name of the tileset.
    pub fn name(&self) -> (name: &str)
        ensures
            name@ == self@.name,
    {
        self.name.as_str()
    }

    /// The width of a tile, in pixels.
    pub fn tile_width(&self) -> (tile_width: u32)
        ensures
            tile_width == self@.tile_width,
    {
        self.tile_width
    }

    /// The height of a tile, in pixels.
    pub fn tile_height(&self) -> (tile_height: u32)
        ensures
            tile_height == self@.tile_height,
    {
        self.tile_height
    }

    /// The space between the tiles in the image, in pixels.
    pub fn spacing(&self) -> (spacing: u32)
        ensures
            spacing == self@.spacing,
    {
        self.spacing
    }

    /// The margin around the tiles in the image, in pixels.
    pub fn margin(&self) -> (margin: u32)
        ensures
            margin == self@.margin,
    {
        self.margin
    }

    /// How many tiles the tileset has.
    pub fn tile_count(&self) -> (tile_count: u32)
        ensures
            tile_count == self@.tile_count,
    {
        self.tile_count
    }

    /// How many columns of tiles the image has.
    pub fn columns(&self) -> (columns: u32)
        ensures
            columns == self@.columns,
    {
        self.columns
    }

    /// The drawing offset of the tiles, where one is set.
    pub fn tile_offset(&self) -> (tile_offset: Option<&TileOffset>)
        ensures
            match tile_offset {
                Some(inner) => self@.tile_offset == Some(inner@),
                None => self@.tile_offset is None,
            },
    {
        self.tile_offset.as_ref()
    }

    /// The properties attached to the element, in the order in which their
    /// names first occurred.
    pub fn properties(&self) -> (properties: &Properties)
        ensures
            properties@ == self@.properties,
    {
        &self.properties
    }

    /// The image that holds the tiles, where there is one.
    pub fn image(&self) -> (image: Option<&Image>)
        ensures
            match image {
                Some(inner) => self@.image == Some(inner@),
                None => self@.image is None,
            },
    {
        self.image.as_ref()
    }

    /// The terrain types, in document order.
    pub fn terrain_types(&self) -> (terrain_types: &Vec<TerrainType>)
        ensures
            views(terrain_types@) == self@.terrain_types,
    {
        &self.terrain_types
    }

    /// What the tileset says of single tiles, in document order.
    pub fn tiles(&self) -> (tiles: &Vec<Tile>)
        ensures
            views(tiles@) == self@.tiles,
    {
        &self.tiles
    }

    /// Reads one attribute into the element, as [`TilesetView::with_attribute`]
    /// says. After an error the element is not to be used.
    pub(crate) fn read_attribute(&mut self, name: &str, value: &str) -> (result: Result<
        (),
        Error,
    >)
        ensures
            match old(self)@.with_attribute(name@, value@) {
                Ok(next) => result is Ok && final(self)@ == next,
                Err(e) => result is Err && result->Err_0@ == e,
            },
    {
        if same_text(name, "firstgid") {
            match read_u32(value) {
                Ok(parsed) => {
                    self.first_gid = parsed;
                    Ok(())
                },
                Err(e) => Err(e),
            }
        } else if same_text(name, "source") {
            self.source = String::from_str(value);
            Ok(())
        } else if same_text(name, "name") {
            self.name = String::from_str(value);
            Ok(())
        } else if same_text(name, "tilewidth") {
            match read_u32(value) {
                Ok(parsed) => {
                    self.tile_width = parsed;
                    Ok(())
                },
                Err(e) => Err(e),
            }
        } else if same_text(name, "tileheight") {
            match read_u32(value) {
                Ok(parsed) => {
                    self.tile_height = parsed;
                    Ok(())
                },
                Err(e) => Err(e),
            }
        } else if same_text(name, "spacing") {
            match read_u32(value) {
                Ok(parsed) => {
                    self.spacing = parsed;
                    Ok(())
                },
                Err(e) => Err(e),
            }
        } else if same_text(name, "margin") {
            match read_u32(value) {
                Ok(parsed) => {
                    self.margin = parsed;
                    Ok(())
                },
                Err(e) => Err(e),
            }
        } else if same_text(name, "tilecount") {
            match read_u32(value) {
                Ok(parsed) => {
                    self.tile_count = parsed;
                    Ok(())
                },
                Err(e) => Err(e),
            }
        } else if same_text(name, "columns") {
            match read_u32(value) {
                Ok(parsed) => {
                    self.columns = parsed;
                    Ok(())
                },
                Err(e) => Err(e),
            }
        } else {
            Err(Error::UnknownAttribute(String::from_str(name)))
        }
    }

    /// Attaches a child `tileoffset`, in place of any attached before.
    pub(crate) fn set_tile_offset(&mut self, child: TileOffset)
        ensures
            final(self)@ == (TilesetView { tile_offset: Some(child@), ..old(self)@ }),
    {
        self.tile_offset = Some(child);
    }

    /// Attaches the properties of a child `properties`, in place of any
    /// attached before.
    pub(crate) fn set_properties(&mut self, children: Properties)
        ensures
            final(self)@ == (TilesetView { properties: children@, ..old(self)@ }),
    {
        self.properties = children;
    }

    /// Attaches a child `image`, in place of any attached before.
    pub(crate) fn set_image(&mut self, child: Image)
        ensures
            final(self)@ == (TilesetView { image: Some(child@), ..old(self)@ }),
    {
        self.image = Some(child);
    }

    /// Attaches the terrain types of a child `terraintypes`, in place of any
    /// attached before.
    pub(crate) fn set_terrain_types(&mut self, children: Vec<TerrainType>)
        ensures
            final(self)@ == (TilesetView { terrain_types: views(children@), ..old(self)@ }),
    {
        self.terrain_types = children;
    }

    /// Attaches one more child `tile`, after those attached before.
    pub(crate) fn add_tile(&mut self, child: Tile)
        ensures
            final(self)@ == (TilesetView {
                tiles: old(self)@.tiles.push(child@),
                ..old(self)@
            }),
    {
        proof {
            lemma_views_push(self.tiles@, child);
        }
        self.tiles.push(child);
    }
}

impl Default for Tileset {
    fn default() -> (fresh: Tileset)
        ensures
            fresh@ == TilesetView::fresh(),
    {
        Tileset::new()
    }
}

} // verus!
