//! Image layers.

use crate::decimal::Decimal;
use crate::decimal::decimal_of;
use crate::error::Error;
use crate::error::ErrorView;
use crate::model::image::Image;
use crate::model::image::ImageView;
use crate::model::property::Properties;
use crate::model::property::PropertyView;
use crate::number::bool_of;
use crate::number::i32_of;
use crate::number::read_bool;
use crate::number::read_i32;
use crate::number::read_u32;
use crate::number::u32_of;
use crate::text::option_view;
use crate::text::same_text;
use vstd::prelude::*;

verus! {

/// A layer that shows a single image.
#[derive(Debug, PartialEq, Eq)]
pub struct ImageLayer {
    name: String,
    x: i32,
    y: i32,
    width: u32,
    height: u32,
    opacity: Decimal,
    visible: bool,
    offset_x: i32,
    offset_y: i32,
    properties: Properties,
    image: Option<Image>,
}

/// The mathematical value of an [`ImageLayer`].
pub struct ImageLayerView {
    pub name: Seq<char>,
    pub x: i32,
    pub y: i32,
    pub width: u32,
    pub height: u32,
    pub opacity: Seq<char>,
    pub visible: bool,
    pub offset_x: i32,
    pub offset_y: i32,
    pub properties: Seq<PropertyView>,
    pub image: Option<ImageView>,
}

impl View for ImageLayer {
    type V = ImageLayerView;

    closed spec fn view(&self) -> ImageLayerView {
        ImageLayerView {
            name: self.name@,
            x: self.x,
            y: self.y,
            width: self.width,
            height: self.height,
            opacity: self.opacity@,
            visible: self.visible,
            offset_x: self.offset_x,
            offset_y: self.offset_y,
            properties: self.properties@,
            image: option_view(self.image),
        }
    }
}

impl ImageLayerView {
    /// The value of an element `imagelayer` before anything of it is read: every
    /// default in place, nothing attached.
    pub open spec fn fresh() -> ImageLayerView {
        ImageLayerView {
            name: Seq::empty(),
            x: 0,
            y: 0,
            width: 0,
            height: 0,
            opacity: seq!['1'],
            visible: true,
            offset_x: 0,
            offset_y: 0,
            properties: Seq::empty(),
            image: None,
        }
    }

    /// Whether `name` is an attribute that an element `imagelayer` defines.
    pub open spec fn recognizes(name: Seq<char>) -> bool {
        name == "name"@
            || name == "x"@
            || name == "y"@
            || name == "width"@
            || name == "height"@
            || name == "opacity"@
            || name == "visible"@
            || name == "visibility"@
            || name == "offsetx"@
            || name == "offsety"@
    }

    /// The value after one more attribute is read. An attribute that the
    /// element does not define is refused by name; a value that cannot be
    /// read is refused with the error of its reader.
    pub open spec fn with_attribute(self, name: Seq<char>, value: Seq<char>) -> Result<
        ImageLayerView,
        ErrorView,
    > {
        if name == "name"@ {
            Ok(ImageLayerView { name: value, ..self })
        } else if name == "x"@ {
            match i32_of(value) {
                Ok(parsed) => Ok(ImageLayerView { x: parsed, ..self }),
                Err(e) => Err(e),
            }
        } else if name == "y"@ {
            match i32_of(value) {
                Ok(parsed) => Ok(ImageLayerView { y: parsed, ..self }),
                Err(e) => Err(e),
            }
        } else if name == "width"@ {
            match u32_of(value) {
                Ok(parsed) => Ok(ImageLayerView { width: parsed, ..self }),
                Err(e) => Err(e),
            }
        } else if name == "height"@ {
            match u32_of(value) {
                Ok(parsed) => Ok(ImageLayerView { height: parsed, ..self }),
                Err(e) => Err(e),
            }
        } else if name == "opacity"@ {
            match decimal_of(value) {
                Ok(parsed) => Ok(ImageLayerView { opacity: parsed, ..self }),
                Err(e) => Err(e),
            }
        } else if name == "visible"@ {
            match bool_of(value) {
                Ok(parsed) => Ok(ImageLayerView { visible: parsed, ..self }),
                Err(e) => Err(e),
            }
        } else if name == "visibility"@ {
            match bool_of(value) {
                Ok(parsed) => Ok(ImageLayerView { visible: parsed, ..self }),
                Err(e) => Err(e),
            }
        } else if name == "offsetx"@ {
            match i32_of(value) {
                Ok(parsed) => Ok(ImageLayerView { offset_x: parsed, ..self }),
                Err(e) => Err(e),
            }
        } else if name == "offsety"@ {
            match i32_of(value) {
                Ok(parsed) => Ok(ImageLayerView { offset_y: parsed, ..self }),
                Err(e) => Err(e),
            }
        } else {
            Err(ErrorView::UnknownAttribute(name))
        }
    }
}

impl ImageLayer {
    /// An element `imagelayer` with every default in place and nothing attached.
    pub fn new() -> (fresh: ImageLayer)
        ensures
            fresh@ == ImageLayerView::fresh(),
    {
        ImageLayer {
            name: String::new(),
            x: 0,
            y: 0,
            width: 0,
            height: 0,
            opacity: Decimal::one(),
            visible: true,
            offset_x: 0,
            offset_y: 0,
            properties: Properties::new(),
            image: None,
        }
    }

    /// The name of the element.
    pub fn name(&self) -> (name: &str)
        ensures
            name@ == self@.name,
    {
        self.name.as_str()
    }

    /// The horizontal position, in tiles.
    pub fn x(&self) -> (x: i32)
        ensures
            x == self@.x,
    {
        self.x
    }

    /// The vertical position, in tiles.
    pub fn y(&self) -> (y: i32)
        ensures
            y == self@.y,
    {
        self.y
    }

    /// The width, in tiles.
    pub fn width(&self) -> (width: u32)
        ensures
            width == self@.width,
    {
        self.width
    }

    /// The height, in tiles.
    pub fn height(&self) -> (height: u32)
        ensures
            height == self@.height,
    {
        self.height
    }

    /// The opacity, from 0 to 1; 1 unless the document says otherwise.
    pub fn opacity(&self) -> (opacity: &Decimal)
        ensures
            opacity@ == self@.opacity,
    {
        &self.opacity
    }

    /// Whether the element is shown; it is, unless the document says
    /// otherwise.
    pub fn is_visible(&self) -> (visible: bool)
        ensures
            visible == self@.visible,
    {
        self.visible
    }

    /// The horizontal drawing offset, in pixels.
    pub fn offset_x(&self) -> (offset_x: i32)
        ensures
            offset_x == self@.offset_x,
    {
        self.offset_x
    }

    /// The vertical drawing offset, in pixels.
    pub fn offset_y(&self) -> (offset_y: i32)
        ensures
            offset_y == self@.offset_y,
    {
        self.offset_y
    }

    /// The properties attached to the element, in the order in which their
    /// names first occurred.
    pub fn properties(&self) -> (properties: &Properties)
        ensures
            properties@ == self@.properties,
    {
        &self.properties
    }

    /// The image of the layer, where the document gives one.
    pub fn image(&self) -> (image: Option<&Image>)
        ensures
            match image {
                Some(inner) => self@.image == Some(inner@),
                None => self@.image is None,
            },
    {
        self.image.as_ref()
    }

    /// Reads one attribute into the element, as [`ImageLayerView::with_attribute`]
    /// says. After an error the element is not to be used.
    pub(crate) fn read_attribute(&mut self, name: &str, value: &str) -> (result: Result<
        (),
        Error,
    >)
        ensures
            match old(self)@.with_attribute(name@, value@) {
                Ok(next) => result is Ok && final(self)@ == next,
                Err(e) => result is Err && result->Err_0@ == e,
            },
    {
        if same_text(name, "name") {
            self.name = String::from_str(value);
            Ok(())
        } else if same_text(name, "x") {
            match read_i32(value) {
                Ok(parsed) => {
                    self.x = parsed;
                    Ok(())
                },
                Err(e) => Err(e),
            }
        } else if same_text(name, "y") {
            match read_i32(value) {
                Ok(parsed) => {
                    self.y = parsed;
                    Ok(())
                },
                Err(e) => Err(e),
            }
        } else if same_text(name, "width") {
            match read_u32(value) {
                Ok(parsed) => {
                    self.width = parsed;
                    Ok(())
                },
                Err(e) => Err(e),
            }
        } else if same_text(name, "height") {
            match read_u32(value) {
                Ok(parsed) => {
                    self.height = parsed;
                    Ok(())
                },
                Err(e) => Err(e),
            }
        } else if same_text(name, "opacity") {
            match Decimal::parse(value) {
                Ok(parsed) => {
                    self.opacity = parsed;
                    Ok(())
                },
                Err(e) => Err(e),
            }
        } else if same_text(name, "visible") {
            match read_bool(value) {
                Ok(parsed) => {
                    self.visible = parsed;
                    Ok(())
                },
                Err(e) => Err(e),
            }
        } else if same_text(name, "visibility") {
            match read_bool(value) {
                Ok(parsed) => {
                    self.visible = parsed;
                    Ok(())
                },
                Err(e) => Err(e),
            }
        } else if same_text(name, "offsetx") {
            match read_i32(value) {
                Ok(parsed) => {
                    self.offset_x = parsed;
                    Ok(())
                },
                Err(e) => Err(e),
            }
        } else if same_text(name, "offsety") {
            match read_i32(value) {
                Ok(parsed) => {
                    self.offset_y = parsed;
                    Ok(())
                },
                Err(e) => Err(e),
            }
        } else {
            Err(Error::UnknownAttribute(String::from_str(name)))
        }
    }

    /// Attaches the properties of a child `properties`, in place of any
    /// attached before.
    pub(crate) fn set_properties(&mut self, children: Properties)
        ensures
            final(self)@ == (ImageLayerView { properties: children@, ..old(self)@ }),
    {
        self.properties = children;
    }

    /// Attaches a child `image`, in place of any attached before.
    pub(crate) fn set_image(&mut self, child: Image)
        ensures
            final(self)@ == (ImageLayerView { image: Some(child@), ..old(self)@ }),
    {
        self.image = Some(child);
    }
}

impl Default for ImageLayer {
    fn default() -> (fresh: ImageLayer)
        ensures
            fresh@ == ImageLayerView::fresh(),
    {
        ImageLayer::new()
    }
}

} // verus!
