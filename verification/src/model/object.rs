//! Objects.

use crate::decimal::Decimal;
use crate::decimal::decimal_of;
use crate::error::Error;
use crate::error::ErrorView;
use crate::model::property::Properties;
use crate::model::property::PropertyView;
use crate::model::shape::Shape;
use crate::model::shape::ShapeView;
use crate::number::bool_of;
use crate::number::read_bool;
use crate::number::read_u32;
use crate::number::u32_of;
use crate::text::option_view;
use crate::text::same_text;
use vstd::prelude::*;

verus! {

/// A free-form object of an object group: a rectangle, unless it has a shape.
#[derive(Debug, PartialEq, Eq)]
pub struct Object {
    id: u32,
    name: String,
    object_type: String,
    x: Decimal,
    y: Decimal,
    width: Decimal,
    height: Decimal,
    rotation: Decimal,
    gid: Option<u32>,
    visible: bool,
    properties: Properties,
    shape: Option<Shape>,
}

/// The mathematical value of an [`Object`].
pub struct ObjectView {
    pub id: u32,
    pub name: Seq<char>,
    pub object_type: Seq<char>,
    pub x: Seq<char>,
    pub y: Seq<char>,
    pub width: Seq<char>,
    pub height: Seq<char>,
    pub rotation: Seq<char>,
    pub gid: Option<u32>,
    pub visible: bool,
    pub properties: Seq<PropertyView>,
    pub shape: Option<ShapeView>,
}

impl View for Object {
    type V = ObjectView;

    closed spec fn view(&self) -> ObjectView {
        ObjectView {
            id: self.id,
            name: self.name@,
            object_type: self.object_type@,
            x: self.x@,
            y: self.y@,
            width: self.width@,
            height: self.height@,
            rotation: self.rotation@,
            gid: self.gid,
            visible: self.visible,
            properties: self.properties@,
            shape: option_view(self.shape),
        }
    }
}

impl ObjectView {
    /// The value of an element `object` before anything of it is read: every
    /// default in place, nothing attached.
    pub open spec fn fresh() -> ObjectView {
        ObjectView {
            id: 0,
            name: Seq::empty(),
            object_type: Seq::empty(),
            x: seq!['0'],
            y: seq!['0'],
            width: seq!['0'],
            height: seq!['0'],
            rotation: seq!['0'],
            gid: None,
            visible: true,
            properties: Seq::empty(),
            shape: None,
        }
    }

    /// Whether `name` is an attribute that an element `object` defines.
    pub open spec fn recognizes(name: Seq<char>) -> bool {
        name == "id"@
            || name == "name"@
            || name == "type"@
            || name == "x"@
            || name == "y"@
            || name == "width"@
            || name == "height"@
            || name == "rotation"@
            || name == "gid"@
            || name == "visible"@
            || name == "visibility"@
    }

    /// The value after one more attribute is read. An attribute that the
    /// element does not define is refused by name; a value that cannot be
    /// read is refused with the error of its reader.
    pub open spec fn with_attribute(self, name: Seq<char>, value: Seq<char>) -> Result<
        ObjectView,
        ErrorView,
    > {
        if name == "id"@ {
            match u32_of(value) {
                Ok(parsed) => Ok(ObjectView { id: parsed, ..self }),
                Err(e) => Err(e),
            }
        } else if name == "name"@ {
            Ok(ObjectView { name: value, ..self })
        } else if name == "type"@ {
            Ok(ObjectView { object_type: value, ..self })
        } else if name == "x"@ {
            match decimal_of(value) {
                Ok(parsed) => Ok(ObjectView { x: parsed, ..self }),
                Err(e) => Err(e),
            }
        } else if name == "y"@ {
            match decimal_of(value) {
                Ok(parsed) => Ok(ObjectView { y: parsed, ..self }),
                Err(e) => Err(e),
            }
        } else if name == "width"@ {
            match decimal_of(value) {
                Ok(parsed) => Ok(ObjectView { width: parsed, ..self }),
                Err(e) => Err(e),
            }
        } else if name == "height"@ {
            match decimal_of(value) {
                Ok(parsed) => Ok(ObjectView { height: parsed, ..self }),
                Err(e) => Err(e),
            }
        } else if name == "rotation"@ {
            match decimal_of(value) {
                Ok(parsed) => Ok(ObjectView { rotation: parsed, ..self }),
                Err(e) => Err(e),
            }
        } else if name == "gid"@ {
            match u32_of(value) {
                Ok(parsed) => Ok(ObjectView { gid: Some(parsed), ..self }),
                Err(e) => Err(e),
            }
        } else if name == "visible"@ {
            match bool_of(value) {
                Ok(parsed) => Ok(ObjectView { visible: parsed, ..self }),
                Err(e) => Err(e),
            }
        } else if name == "visibility"@ {
            match bool_of(value) {
                Ok(parsed) => Ok(ObjectView { visible: parsed, ..self }),
                Err(e) => Err(e),
            }
        } else {
            Err(ErrorView::UnknownAttribute(name))
        }
    }
}

impl Object {
    /// An element `object` with every default in place and nothing attached.
    pub fn new() -> (fresh: Object)
        ensures
            fresh@ == ObjectView::fresh(),
    {
        Object {
            id: 0,
            name: String::new(),
            object_type: String::new(),
            x: Decimal::zero(),
            y: Decimal::zero(),
            width: Decimal::zero(),
            height: Decimal::zero(),
            rotation: Decimal::zero(),
            gid: None,
            visible: true,
            properties: Properties::new(),
            shape: None,
        }
    }

    /// The id of the object, unique within the map.
    pub fn id(&self) -> (id: u32)
        ensures
            id == self@.id,
    {
        self.id
    }

    /// The name of the object.
    pub fn name(&self) -> (name: &str)
        ensures
            name@ == self@.name,
    {
        self.name.as_str()
    }

    /// The type of the object, a word of the author's choosing.
    pub fn object_type(&self) -> (object_type: &str)
        ensures
            object_type@ == self@.object_type,
    {
        self.object_type.as_str()
    }

    /// The horizontal position, in pixels.
    pub fn x(&self) -> (x: &Decimal)
        ensures
            x@ == self@.x,
    {
        &self.x
    }

    /// The vertical position, in pixels.
    pub fn y(&self) -> (y: &Decimal)
        ensures
            y@ == self@.y,
    {
        &self.y
    }

    /// The width, in pixels.
    pub fn width(&self) -> (width: &Decimal)
        ensures
            width@ == self@.width,
    {
        &self.width
    }

    /// The height, in pixels.
    pub fn height(&self) -> (height: &Decimal)
        ensures
            height@ == self@.height,
    {
        &self.height
    }

    /// The rotation, in degrees clockwise.
    pub fn rotation(&self) -> (rotation: &Decimal)
        ensures
            rotation@ == self@.rotation,
    {
        &self.rotation
    }

    /// The global id of the tile that the object shows, where it shows one.
    pub fn gid(&self) -> (gid: Option<u32>)
        ensures
            gid == self@.gid,
    {
        self.gid
    }

    /// Whether the object is shown; it is, unless the document says
    /// otherwise.
    pub fn is_visible(&self) -> (visible: bool)
        ensures
            visible == self@.visible,
    {
        self.visible
    }

    /// The properties attached to the element, in the order in which their
    /// names first occurred.
    pub fn properties(&self) -> (properties: &Properties)
        ensures
            properties@ == self@.properties,
    {
        &self.properties
    }

    /// The outline of the object; without one it is a rectangle.
    pub fn shape(&self) -> (shape: Option<&Shape>)
        ensures
            match shape {
                Some(inner) => self@.shape == Some(inner@),
                None => self@.shape is None,
            },
    {
        self.shape.as_ref()
    }

    /// Reads one attribute into the element, as [`ObjectView::with_attribute`]
    /// says. After an error the element is not to be used.
    pub(crate) fn read_attribute(&mut self, name: &str, value: &str) -> (result: Result<
        (),
        Error,
    >)
        ensures
            match old(self)@.with_attribute(name@, value@) {
                Ok(next) => result is Ok && final(self)@ == next,
                Err(e) => result is Err && result->Err_0@ == e,
            },
    {
        if same_text(name, "id") {
            match read_u32(value) {
                Ok(parsed) => {
                    self.id = parsed;
                    Ok(())
                },
                Err(e) => Err(e),
            }
        } else if same_text(name, "name") {
            self.name = String::from_str(value);
            Ok(())
        } else if same_text(name, "type") {
            self.object_type = String::from_str(value);
            Ok(())
        } else if same_text(name, "x") {
            match Decimal::parse(value) {
                Ok(parsed) => {
                    self.x = parsed;
                    Ok(())
                },
                Err(e) => Err(e),
            }
        } else if same_text(name, "y") {
            match Decimal::parse(value) {
                Ok(parsed) => {
                    self.y = parsed;
                    Ok(())
                },
                Err(e) => Err(e),
            }
        } else if same_text(name, "width") {
            match Decimal::parse(value) {
                Ok(parsed) => {
                    self.width = parsed;
                    Ok(())
                },
                Err(e) => Err(e),
            }
        } else if same_text(name, "height") {
            match Decimal::parse(value) {
                Ok(parsed) => {
                    self.height = parsed;
                    Ok(())
                },
                Err(e) => Err(e),
            }
        } else if same_text(name, "rotation") {
            match Decimal::parse(value) {
                Ok(parsed) => {
                    self.rotation = parsed;
                    Ok(())
                },
                Err(e) => Err(e),
            }
        } else if same_text(name, "gid") {
            match read_u32(value) {
                Ok(parsed) => {
                    self.gid = Some(parsed);
                    Ok(())
                },
                Err(e) => Err(e),
            }
        } else if same_text(name, "visible") {
            match read_bool(value) {
                Ok(parsed) => {
                    self.visible = parsed;
                    Ok(())
                },
                Err(e) => Err(e),
            }
        } else if same_text(name, "visibility") {
            match read_bool(value) {
                Ok(parsed) => {
                    self.visible = parsed;
                    Ok(())
                },
                Err(e) => Err(e),
            }
        } else {
            Err(Error::UnknownAttribute(String::from_str(name)))
        }
    }

    /// Attaches the properties of a child `properties`, in place of any
    /// attached before.
    pub(crate) fn set_properties(&mut self, children: Properties)
        ensures
            final(self)@ == (ObjectView { properties: children@, ..old(self)@ }),
    {
        self.properties = children;
    }

    /// Attaches a child `ellipse`, `polygon` or `polyline`, in place of any attached before.
    pub(crate) fn set_shape(&mut self, child: Shape)
        ensures
            final(self)@ == (ObjectView { shape: Some(child@), ..old(self)@ }),
    {
        self.shape = Some(child);
    }
}

impl Default for Object {
    fn default() -> (fresh: Object)
        ensures
            fresh@ == ObjectView::fresh(),
    {
        Object::new()
    }
}

} // verus!
