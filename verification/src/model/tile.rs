//! Tiles of a tileset.

use crate::decimal::Decimal;
use crate::decimal::decimal_of;
use crate::error::Error;
use crate::error::ErrorView;
use crate::model::animation::Animation;
use crate::model::animation::AnimationView;
use crate::model::corners::Corners;
use crate::model::corners::corners_of;
use crate::model::image::Image;
use crate::model::image::ImageView;
use crate::model::object_group::ObjectGroup;
use crate::model::object_group::ObjectGroupView;
use crate::model::property::Properties;
use crate::model::property::PropertyView;
use crate::number::read_u32;
use crate::number::u32_of;
use crate::text::option_view;
use crate::text::same_text;
use vstd::prelude::*;

verus! {

/// What a tileset says of one of its tiles.
#[derive(Debug, PartialEq, Eq)]
pub struct Tile {
    id: u32,
    terrain: Option<Corners>,
    probability: Option<Decimal>,
    properties: Properties,
    image: Option<Image>,
    object_group: Option<ObjectGroup>,
    animation: Option<Animation>,
}

/// The mathematical value of a [`Tile`].
pub struct TileView {
    pub id: u32,
    pub terrain: Option<Corners>,
    pub probability: Option<Seq<char>>,
    pub properties: Seq<PropertyView>,
    pub image: Option<ImageView>,
    pub object_group: Option<ObjectGroupView>,
    pub animation: Option<AnimationView>,
}

impl View for Tile {
    type V = TileView;

    closed spec fn view(&self) -> TileView {
        TileView {
            id: self.id,
            terrain: self.terrain,
            probability: option_view(self.probability),
            properties: self.properties@,
            image: option_view(self.image),
            object_group: option_view(self.object_group),
            animation: option_view(self.animation),
        }
    }
}

impl TileView {
    /// The value of an element `tile` before anything of it is read: every
    /// default in place, nothing attached.
    pub open spec fn fresh() -> TileView {
        TileView {
            id: 0,
            terrain: None,
            probability: None,
            properties: Seq::empty(),
            image: None,
            object_group: None,
            animation: None,
        }
    }

    /// Whether `name` is an attribute that an element `tile` defines.
    pub open spec fn recognizes(name: Seq<char>) -> bool {
        name == "id"@
            || name == "terrain"@
            || name == "probability"@
    }

    /// The value after one more attribute is read. An attribute that the
    /// element does not define is refused by name; a value that cannot be
    /// read is refused with the error of its reader.
    pub open spec fn with_attribute(self, name: Seq<char>, value: Seq<char>) -> Result<
        TileView,
        ErrorView,
    > {
        if name == "id"@ {
            match u32_of(value) {
                Ok(parsed) => Ok(TileView { id: parsed, ..self }),
                Err(e) => Err(e),
            }
        } else if name == "terrain"@ {
            match corners_of(value) {
                Ok(parsed) => Ok(TileView { terrain: Some(parsed), ..self }),
                Err(e) => Err(e),
            }
        } else if name == "probability"@ {
            match decimal_of(value) {
                Ok(parsed) => Ok(TileView { probability: Some(parsed), ..self }),
                Err(e) => Err(e),
            }
        } else {
            Err(ErrorView::UnknownAttribute(name))
        }
    }
}

impl Tile {
    /// An element `tile` with every default in place and nothing attached.
    pub fn new() -> (fresh: Tile)
        ensures
            fresh@ == TileView::fresh(),
    {
        Tile {
            id: 0,
            terrain: None,
            probability: None,
            properties: Properties::new(),
            image: None,
            object_group: None,
            animation: None,
        }
    }

    /// The id of the tile within its tileset.
    pub fn id(&self) -> (id: u32)
        ensures
            id == self@.id,
    {
        self.id
    }

    /// The terrain at the corners of the tile, where the document gives it.
    pub fn terrain(&self) -> (terrain: Option<&Corners>)
        ensures
            match terrain {
                Some(inner) => self@.terrain == Some(*inner),
                None => self@.terrain is None,
            },
    {
        self.terrain.as_ref()
    }

    /// How likely the tile is chosen among its like, where the document
    /// says so.
    pub fn probability(&self) -> (probability: Option<&Decimal>)
        ensures
            match probability {
                Some(inner) => self@.probability == Some(inner@),
                None => self@.probability is None,
            },
    {
        self.probability.as_ref()
    }

    /// The properties attached to the element, in the order in which their
    /// names first occurred.
    pub fn properties(&self) -> (properties: &Properties)
        ensures
            properties@ == self@.properties,
    {
        &self.properties
    }

    /// The image of the tile, where it has one of its own.
    pub fn image(&self) -> (image: Option<&Image>)
        ensures
            match image {
                Some(inner) => self@.image == Some(inner@),
                None => self@.image is None,
            },
    {
        self.image.as_ref()
    }

    /// The objects attached to the tile, such as collision shapes.
    pub fn object_group(&self) -> (object_group: Option<&ObjectGroup>)
        ensures
            match object_group {
                Some(inner) => self@.object_group == Some(inner@),
                None => self@.object_group is None,
            },
    {
        self.object_group.as_ref()
    }

    /// The animation of the tile, where it has one.
    pub fn animation(&self) -> (animation: Option<&Animation>)
        ensures
            match animation {
                Some(inner) => self@.animation == Some(inner@),
                None => self@.animation is None,
            },
    {
        self.animation.as_ref()
    }

    /// Reads one attribute into the element, as [`TileView::with_attribute`]
    /// says. After an error the element is not to be used.
    pub(crate) fn read_attribute(&mut self, name: &str, value: &str) -> (result: Result<
        (),
        Error,
    >)
        ensures
            match old(self)@.with_attribute(name@, value@) {
                Ok(next) => result is Ok && final(self)@ == next,
                Err(e) => result is Err && result->Err_0@ == e,
            },
    {
        if same_text(name, "id") {
            match read_u32(value) {
                Ok(parsed) => {
                    self.id = parsed;
                    Ok(())
                },
                Err(e) => Err(e),
            }
        } else if same_text(name, "terrain") {
            match Corners::parse(value) {
                Ok(parsed) => {
                    self.terrain = Some(parsed);
                    Ok(())
                },
                Err(e) => Err(e),
            }
        } else if same_text(name, "probability") {
            match Decimal::parse(value) {
                Ok(parsed) => {
                    self.probability = Some(parsed);
                    Ok(())
                },
                Err(e) => Err(e),
            }
        } else {
            Err(Error::UnknownAttribute(String::from_str(name)))
        }
    }

    /// Attaches the properties of a child `properties`, in place of any
    /// attached before.
    pub(crate) fn set_properties(&mut self, children: Properties)
        ensures
            final(self)@ == (TileView { properties: children@, ..old(self)@ }),
    {
        self.properties = children;
    }

    /// Attaches a child `image`, in place of any attached before.
    pub(crate) fn set_image(&mut self, child: Image)
        ensures
            final(self)@ == (TileView { image: Some(child@), ..old(self)@ }),
    {
        self.image = Some(child);
    }

    /// Attaches a child `objectgroup`, in place of any attached before.
    pub(crate) fn set_object_group(&mut self, child: ObjectGroup)
        ensures
            final(self)@ == (TileView { object_group: Some(child@), ..old(self)@ }),
    {
        self.object_group = Some(child);
    }

    /// Attaches a child `animation`, in place of any attached before.
    pub(crate) fn set_animation(&mut self, child: Animation)
        ensures
            final(self)@ == (TileView { animation: Some(child@), ..old(self)@ }),
    {
        self.animation = Some(child);
    }
}

impl Default for Tile {
    fn default() -> (fresh: Tile)
        ensures
            fresh@ == TileView::fresh(),
    {
        Tile::new()
    }
}

} // verus!
