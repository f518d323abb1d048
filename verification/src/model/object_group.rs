//! Groups of objects.

use crate::color::Color;
use crate::color::color_of;
use crate::decimal::Decimal;
use crate::decimal::decimal_of;
use crate::error::Error;
use crate::error::ErrorView;
use crate::model::object::Object;
use crate::model::object::ObjectView;
use crate::model::property::Properties;
use crate::model::property::PropertyView;
use crate::number::bool_of;
use crate::number::i32_of;
use crate::number::read_bool;
use crate::number::read_i32;
use crate::number::read_u32;
use crate::number::u32_of;
use crate::text::lemma_views_empty;
use crate::text::lemma_views_push;
use crate::text::same_text;
use crate::text::views;
use crate::vocabulary::DrawOrder;
use crate::vocabulary::draw_order_of;
use vstd::prelude::*;

verus! {

/// A group of free-form objects.
#[derive(Debug, PartialEq, Eq)]
pub struct ObjectGroup {
    name: String,
    color: Option<Color>,
    x: i32,
    y: i32,
    width: u32,
    height: u32,
    opacity: Decimal,
    visible: bool,
    offset_x: i32,
    offset_y: i32,
    draw_order: DrawOrder,
    properties: Properties,
    objects: Vec<Object>,
}

/// The mathematical value of an [`ObjectGroup`].
pub struct ObjectGroupView {
    pub name: Seq<char>,
    pub color: Option<Color>,
    pub x: i32,
    pub y: i32,
    pub width: u32,
    pub height: u32,
    pub opacity: Seq<char>,
    pub visible: bool,
    pub offset_x: i32,
    pub offset_y: i32,
    pub draw_order: DrawOrder,
    pub properties: Seq<PropertyView>,
    pub objects: Seq<ObjectView>,
}

impl View for ObjectGroup {
    type V = ObjectGroupView;

    closed spec fn view(&self) -> ObjectGroupView {
        ObjectGroupView {
            name: self.name@,
            color: self.color,
            x: self.x,
            y: self.y,
            width: self.width,
            height: self.height,
            opacity: self.opacity@,
            visible: self.visible,
            offset_x: self.offset_x,
            offset_y: self.offset_y,
            draw_order: self.draw_order,
            properties: self.properties@,
            objects: views(self.objects@),
        }
    }
}

impl ObjectGroupView {
    /// The value of an element `objectgroup` before anything of it is read: every
    /// default in place, nothing attached.
    pub open spec fn fresh() -> ObjectGroupView {
        ObjectGroupView {
            name: Seq::empty(),
            color: None,
            x: 0,
            y: 0,
            width: 0,
            height: 0,
            opacity: seq!['1'],
            visible: true,
            offset_x: 0,
            offset_y: 0,
            draw_order: DrawOrder::TopDown,
            properties: Seq::empty(),
            objects: Seq::empty(),
        }
    }

    /// Whether `name` is an attribute that an element `objectgroup` defines.
    pub open spec fn recognizes(name: Seq<char>) -> bool {
        name == "name"@
            || name == "color"@
            || name == "x"@
            || name == "y"@
            || name == "width"@
            || name == "height"@
            || name == "opacity"@
            || name == "visible"@
            || name == "visibility"@
            || name == "offsetx"@
            || name == "offsety"@
            || name == "draworder"@
    }

    /// The value after one more attribute is read. An attribute that the
    /// element does not define is refused by name; a value that cannot be
    /// read is refused with the error of its reader.
    pub open spec fn with_attribute(self, name: Seq<char>, value: Seq<char>) -> Result<
        ObjectGroupView,
        ErrorView,
    > {
        if name == "name"@ {
            Ok(ObjectGroupView { name: value, ..self })
        } else if name == "color"@ {
            match color_of(value) {
                Ok(parsed) => Ok(ObjectGroupView { color: Some(parsed), ..self }),
                Err(e) => Err(e),
            }
        } else if name == "x"@ {
            match i32_of(value) {
                Ok(parsed) => Ok(ObjectGroupView { x: parsed, ..self }),
                Err(e) => Err(e),
            }
        } else if name == "y"@ {
            match i32_of(value) {
                Ok(parsed) => Ok(ObjectGroupView { y: parsed, ..self }),
                Err(e) => Err(e),
            }
        } else if name == "width"@ {
            match u32_of(value) {
                Ok(parsed) => Ok(ObjectGroupView { width: parsed, ..self }),
                Err(e) => Err(e),
            }
        } else if name == "height"@ {
            match u32_of(value) {
                Ok(parsed) => Ok(ObjectGroupView { height: parsed, ..self }),
                Err(e) => Err(e),
            }
        } else if name == "opacity"@ {
            match decimal_of(value) {
                Ok(parsed) => Ok(ObjectGroupView { opacity: parsed, ..self }),
                Err(e) => Err(e),
            }
        } else if name == "visible"@ {
            match bool_of(value) {
                Ok(parsed) => Ok(ObjectGroupView { visible: parsed, ..self }),
                Err(e) => Err(e),
            }
        } else if name == "visibility"@ {
            match bool_of(value) {
                Ok(parsed) => Ok(ObjectGroupView { visible: parsed, ..self }),
                Err(e) => Err(e),
            }
        } else if name == "offsetx"@ {
            match i32_of(value) {
                Ok(parsed) => Ok(ObjectGroupView { offset_x: parsed, ..self }),
                Err(e) => Err(e),
            }
        } else if name == "offsety"@ {
            match i32_of(value) {
                Ok(parsed) => Ok(ObjectGroupView { offset_y: parsed, ..self }),
                Err(e) => Err(e),
            }
        } else if name == "draworder"@ {
            Ok(ObjectGroupView { draw_order: draw_order_of(value), ..self })
        } else {
            Err(ErrorView::UnknownAttribute(name))
        }
    }
}

impl ObjectGroup {
    /// An element `objectgroup` with every default in place and nothing attached.
    pub fn new() -> (fresh: ObjectGroup)
        ensures
            fresh@ == ObjectGroupView::fresh(),
    {
        proof {
            lemma_views_empty::<Object>();
        }
        ObjectGroup {
            name: String::new(),
            color: None,
            x: 0,
            y: 0,
            width: 0,
            height: 0,
            opacity: Decimal::one(),
            visible: true,
            offset_x: 0,
            offset_y: 0,
            draw_order: DrawOrder::TopDown,
            properties: Properties::new(),
            objects: Vec::new(),
        }
    }

    /// The name of the element.
    pub fn name(&self) -> (name: &str)
        ensures
            name@ == self@.name,
    {
        self.name.as_str()
    }

    /// The color in which the objects are shown, where one is set.
    pub fn color(&self) -> (color: Option<&Color>)
        ensures
            match color {
                Some(inner) => self@.color == Some(*inner),
                None => self@.color is None,
            },
    {
        self.color.as_ref()
    }

    /// The horizontal position, in tiles.
    pub fn x(&self) -> (x: i32)
        ensures
            x == self@.x,
    {
        self.x
    }

    /// The vertical position, in tiles.
    pub fn y(&self) -> (y: i32)
        ensures
            y == self@.y,
    {
        self.y
    }

    /// The width, in tiles.
    pub fn width(&self) -> (width: u32)
        ensures
            width == self@.width,
    {
        self.width
    }

    /// The height, in tiles.
    pub fn height(&self) -> (height: u32)
        ensures
            height == self@.height,
    {
        self.height
    }

    /// The opacity, from 0 to 1; 1 unless the document says otherwise.
    pub fn opacity(&self) -> (opacity: &Decimal)
        ensures
            opacity@ == self@.opacity,
    {
        &self.opacity
    }

    /// Whether the element is shown; it is, unless the document says
    /// otherwise.
    pub fn is_visible(&self) -> (visible: bool)
        ensures
            visible == self@.visible,
    {
        self.visible
    }

    /// The horizontal drawing offset, in pixels.
    pub fn offset_x(&self) -> (offset_x: i32)
        ensures
            offset_x == self@.offset_x,
    {
        self.offset_x
    }

    /// The vertical drawing offset, in pixels.
    pub fn offset_y(&self) -> (offset_y: i32)
        ensures
            offset_y == self@.offset_y,
    {
        self.offset_y
    }

    /// The order in which the objects are drawn; top down, unless the
    /// document says otherwise.
    pub fn draw_order(&self) -> (draw_order: DrawOrder)
        ensures
            draw_order == self@.draw_order,
    {
        self.draw_order
    }

    /// The properties attached to the element, in the order in which their
    /// names first occurred.
    pub fn properties(&self) -> (properties: &Properties)
        ensures
            properties@ == self@.properties,
    {
        &self.properties
    }

    /// The objects of the group, in document order.
    pub fn objects(&self) -> (objects: &Vec<Object>)
        ensures
            views(objects@) == self@.objects,
    {
        &self.objects
    }

    /// Reads one attribute into the element, as [`ObjectGroupView::with_attribute`]
    /// says. After an error the element is not to be used.
    pub(crate) fn read_attribute(&mut self, name: &str, value: &str) -> (result: Result<
        (),
        Error,
    >)
        ensures
            match old(self)@.with_attribute(name@, value@) {
                Ok(next) => result is Ok && final(self)@ == next,
                Err(e) => result is Err && result->Err_0@ == e,
            },
    {
        if same_text(name, "name") {
            self.name = String::from_str(value);
            Ok(())
        } else if same_text(name, "color") {
            match Color::parse(value) {
                Ok(parsed) => {
                    self.color = Some(parsed);
                    Ok(())
                },
                Err(e) => Err(e),
            }
        } else if same_text(name, "x") {
            match read_i32(value) {
                Ok(parsed) => {
                    self.x = parsed;
                    Ok(())
                },
                Err(e) => Err(e),
            }
        } else if same_text(name, "y") {
            match read_i32(value) {
                Ok(parsed) => {
                    self.y = parsed;
                    Ok(())
                },
                Err(e) => Err(e),
            }
        } else if same_text(name, "width") {
            match read_u32(value) {
                Ok(parsed) => {
                    self.width = parsed;
                    Ok(())
                },
                Err(e) => Err(e),
            }
        } else if same_text(name, "height") {
            match read_u32(value) {
                Ok(parsed) => {
                    self.height = parsed;
                    Ok(())
                },
                Err(e) => Err(e),
            }
        } else if same_text(name, "opacity") {
            match Decimal::parse(value) {
                Ok(parsed) => {
                    self.opacity = parsed;
                    Ok(())
                },
                Err(e) => Err(e),
            }
        } else if same_text(name, "visible") {
            match read_bool(value) {
                Ok(parsed) => {
                    self.visible = parsed;
                    Ok(())
                },
                Err(e) => Err(e),
            }
        } else if same_text(name, "visibility") {
            match read_bool(value) {
                Ok(parsed) => {
                    self.visible = parsed;
                    Ok(())
                },
                Err(e) => Err(e),
            }
        } else if same_text(name, "offsetx") {
            match read_i32(value) {
                Ok(parsed) => {
                    self.offset_x = parsed;
                    Ok(())
                },
                Err(e) => Err(e),
            }
        } else if same_text(name, "offsety") {
            match read_i32(value) {
                Ok(parsed) => {
                    self.offset_y = parsed;
                    Ok(())
                },
                Err(e) => Err(e),
            }
        } else if same_text(name, "draworder") {
            self.draw_order = DrawOrder::parse(value);
            Ok(())
        } else {
            Err(Error::UnknownAttribute(String::from_str(name)))
        }
    }

    /// Attaches the properties of a child `properties`, in place of any
    /// attached before.
    pub(crate) fn set_properties(&mut self, children: Properties)
        ensures
            final(self)@ == (ObjectGroupView { properties: children@, ..old(self)@ }),
    {
        self.properties = children;
    }

    /// Attaches one more child `object`, after those attached before.
    pub(crate) fn add_object(&mut self, child: Object)
        ensures
            final(self)@ == (ObjectGroupView {
                objects: old(self)@.objects.push(child@),
                ..old(self)@
            }),
    {
        proof {
            lemma_views_push(self.objects@, child);
        }
        self.objects.push(child);
    }
}

impl Default for ObjectGroup {
    fn default() -> (fresh: ObjectGroup)
        ensures
            fresh@ == ObjectGroupView::fresh(),
    {
        ObjectGroup::new()
    }
}

} // verus!
