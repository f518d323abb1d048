//! Images.

use crate::color::Color;
use crate::color::color_of;
use crate::error::Error;
use crate::error::ErrorView;
use crate::model::data::Data;
use crate::model::data::DataView;
use crate::number::read_u32;
use crate::number::u32_of;
use crate::text::option_view;
use crate::text::same_text;
use vstd::prelude::*;

verus! {

/// An image that a tileset, a tile or an image layer refers to.
#[derive(Debug, PartialEq, Eq)]
pub struct Image {
    format: String,
    source: String,
    trans: Option<Color>,
    width: u32,
    height: u32,
    data: Option<Data>,
}

/// The mathematical value of an [`Image`].
pub struct ImageView {
    pub format: Seq<char>,
    pub source: Seq<char>,
    pub trans: Option<Color>,
    pub width: u32,
    pub height: u32,
    pub data: Option<DataView>,
}

impl View for Image {
    type V = ImageView;

    closed spec fn view(&self) -> ImageView {
        ImageView {
            format: self.format@,
            source: self.source@,
            trans: self.trans,
            width: self.width,
            height: self.height,
            data: option_view(self.data),
        }
    }
}

impl ImageView {
    /// The value of an element `image` before anything of it is read: every
    /// default in place, nothing attached.
    pub open spec fn fresh() -> ImageView {
        ImageView {
            format: Seq::empty(),
            source: Seq::empty(),
            trans: None,
            width: 0,
            height: 0,
            data: None,
        }
    }

    /// Whether `name` is an attribute that an element `image` defines.
    pub open spec fn recognizes(name: Seq<char>) -> bool {
        name == "format"@
            || name == "source"@
            || name == "trans"@
            || name == "width"@
            || name == "height"@
    }

    /// The value after one more attribute is read. An attribute that the
    /// element does not define is refused by name; a value that cannot be
    /// read is refused with the error of its reader.
    pub open spec fn with_attribute(self, name: Seq<char>, value: Seq<char>) -> Result<
        ImageView,
        ErrorView,
    > {
        if name == "format"@ {
            Ok(ImageView { format: value, ..self })
        } else if name == "source"@ {
            Ok(ImageView { source: value, ..self })
        } else if name == "trans"@ {
            match color_of(value) {
                Ok(parsed) => Ok(ImageView { trans: Some(parsed), ..self }),
                Err(e) => Err(e),
            }
        } else if name == "width"@ {
            match u32_of(value) {
                Ok(parsed) => Ok(ImageView { width: parsed, ..self }),
                Err(e) => Err(e),
            }
        } else if name == "height"@ {
            match u32_of(value) {
                Ok(parsed) => Ok(ImageView { height: parsed, ..self }),
                Err(e) => Err(e),
            }
        } else {
            Err(ErrorView::UnknownAttribute(name))
        }
    }
}

impl Image {
    /// An element `image` with every default in place and nothing attached.
    pub fn new() -> (fresh: Image)
        ensures
            fresh@ == ImageView::fresh(),
    {
        Image {
            format: String::new(),
            source: String::new(),
            trans: None,
            width: 0,
            height: 0,
            data: None,
        }
    }

    /// The format of embedded image data.
    pub fn format(&self) -> (format: &str)
        ensures
            format@ == self@.format,
    {
        self.format.as_str()
    }

    /// Where the image is to be found.
    pub fn source(&self) -> (source: &str)
        ensures
            source@ == self@.source,
    {
        self.source.as_str()
    }

    /// The color that counts as transparent, where one is set.
    pub fn trans(&self) -> (trans: Option<&Color>)
        ensures
            match trans {
                Some(inner) => self@.trans == Some(*inner),
                None => self@.trans is None,
            },
    {
        self.trans.as_ref()
    }

    /// The width of the image, in pixels.
    pub fn width(&self) -> (width: u32)
        ensures
            width == self@.width,
    {
        self.width
    }

    /// The height of the image, in pixels.
    pub fn height(&self) -> (height: u32)
        ensures
            height == self@.height,
    {
        self.height
    }

    /// The embedded image data, where there is any.
    pub fn data(&self) -> (data: Option<&Data>)
        ensures
            match data {
                Some(inner) => self@.data == Some(inner@),
                None => self@.data is None,
            },
    {
        self.data.as_ref()
    }

    /// Reads one attribute into the element, as [`ImageView::with_attribute`]
    /// says. After an error the element is not to be used.
    pub(crate) fn read_attribute(&mut self, name: &str, value: &str) -> (result: Result<
        (),
        Error,
    >)
        ensures
            match old(self)@.with_attribute(name@, value@) {
                Ok(next) => result is Ok && final(self)@ == next,
                Err(e) => result is Err && result->Err_0@ == e,
            },
    {
        if same_text(name, "format") {
            self.format = String::from_str(value);
            Ok(())
        } else if same_text(name, "source") {
            self.source = String::from_str(value);
            Ok(())
        } else if same_text(name, "trans") {
            match Color::parse(value) {
                Ok(parsed) => {
                    self.trans = Some(parsed);
                    Ok(())
                },
                Err(e) => Err(e),
            }
        } else if same_text(name, "width") {
            match read_u32(value) {
                Ok(parsed) => {
                    self.width = parsed;
                    Ok(())
                },
                Err(e) => Err(e),
            }
        } else if same_text(name, "height") {
            match read_u32(value) {
                Ok(parsed) => {
                    self.height = parsed;
                    Ok(())
                },
                Err(e) => Err(e),
            }
        } else {
            Err(Error::UnknownAttribute(String::from_str(name)))
        }
    }

    /// Attaches a child `data`, in place of any attached before.
    pub(crate) fn set_data(&mut self, child: Data)
        ensures
            final(self)@ == (ImageView { data: Some(child@), ..old(self)@ }),
    {
        self.data = Some(child);
    }
}

impl Default for Image {
    fn default() -> (fresh: Image)
        ensures
            fresh@ == ImageView::fresh(),
    {
        Image::new()
    }
}

} // verus!
