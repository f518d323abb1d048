//! Terrain types.

use crate::error::Error;
use crate::error::ErrorView;
use crate::model::property::Properties;
use crate::model::property::PropertyView;
use crate::text::same_text;
use vstd::prelude::*;

verus! {

/// A kind of terrain that the corners of tiles refer to.
#[derive(Debug, PartialEq, Eq)]
pub struct TerrainType {
    name: String,
    tile: String,
    properties: Properties,
}

/// The mathematical value of a [`TerrainType`].
pub struct TerrainTypeView {
    pub name: Seq<char>,
    pub tile: Seq<char>,
    pub properties: Seq<PropertyView>,
}

impl View for TerrainType {
    type V = TerrainTypeView;

    closed spec fn view(&self) -> TerrainTypeView {
        TerrainTypeView {
            name: self.name@,
            tile: self.tile@,
            properties: self.properties@,
        }
    }
}

impl TerrainTypeView {
    /// The value of an element `terrain` before anything of it is read: every
    /// default in place, nothing attached.
    pub open spec fn fresh() -> TerrainTypeView {
        TerrainTypeView {
            name: Seq::empty(),
            tile: Seq::empty(),
            properties: Seq::empty(),
        }
    }

    /// Whether `name` is an attribute that an element `terrain` defines.
    pub open spec fn recognizes(name: Seq<char>) -> bool {
        name == "name"@
            || name == "tile"@
    }

    /// The value after one more attribute is read. An attribute that the
    /// element does not define is refused by name; a value that cannot be
    /// read is refused with the error of its reader.
    pub open spec fn with_attribute(self, name: Seq<char>, value: Seq<char>) -> Result<
        TerrainTypeView,
        ErrorView,
    > {
        if name == "name"@ {
            Ok(TerrainTypeView { name: value, ..self })
        } else if name == "tile"@ {
            Ok(TerrainTypeView { tile: value, ..self })
        } else {
            Err(ErrorView::UnknownAttribute(name))
        }
    }
}

impl TerrainType {
    /// An element `terrain` with every default in place and nothing attached.
    pub fn new() -> (fresh: TerrainType)
        ensures
            fresh@ == TerrainTypeView::fresh(),
    {
        TerrainType {
            name: String::new(),
            tile: String::new(),
            properties: Properties::new(),
        }
    }

    /// The name of the terrain type.
    pub fn name(&self) -> (name: &str)
        ensures
            name@ == self@.name,
    {
        self.name.as_str()
    }

    /// The tile that stands for the terrain, as the document names it.
    pub fn tile(&self) -> (tile: &str)
        ensures
            tile@ == self@.tile,
    {
        self.tile.as_str()
    }

    /// The properties attached to the element, in the order in which their
    /// names first occurred.
    pub fn properties(&self) -> (properties: &Properties)
        ensures
            properties@ == self@.properties,
    {
        &self.properties
    }

    /// Reads one attribute into the element, as [`TerrainTypeView::with_attribute`]
    /// says. After an error the element is not to be used.
    pub(crate) fn read_attribute(&mut self, name: &str, value: &str) -> (result: Result<
        (),
        Error,
    >)
        ensures
            match old(self)@.with_attribute(name@, value@) {
                Ok(next) => result is Ok && final(self)@ == next,
                Err(e) => result is Err && result->Err_0@ == e,
            },
    {
        if same_text(name, "name") {
            self.name = String::from_str(value);
            Ok(())
        } else if same_text(name, "tile") {
            self.tile = String::from_str(value);
            Ok(())
        } else {
            Err(Error::UnknownAttribute(String::from_str(name)))
        }
    }

    /// Attaches the properties of a child `properties`, in place of any
    /// attached before.
    pub(crate) fn set_properties(&mut self, children: Properties)
        ensures
            final(self)@ == (TerrainTypeView { properties: children@, ..old(self)@ }),
    {
        self.properties = children;
    }
}

impl Default for TerrainType {
    fn default() -> (fresh: TerrainType)
        ensures
            fresh@ == TerrainTypeView::fresh(),
    {
        TerrainType::new()
    }
}

} // verus!
