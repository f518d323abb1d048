//! The drawing offset of a tileset.

use crate::error::Error;
use crate::error::ErrorView;
use crate::number::i32_of;
use crate::number::read_i32;
use crate::text::same_text;
use vstd::prelude::*;

verus! {

/// The offset at which the tiles of a tileset are drawn.
#[derive(Debug, PartialEq, Eq)]
pub struct TileOffset {
    x: i32,
    y: i32,
}

/// The mathematical value of a [`TileOffset`].
pub struct TileOffsetView {
    pub x: i32,
    pub y: i32,
}

impl View for TileOffset {
    type V = TileOffsetView;

    closed spec fn view(&self) -> TileOffsetView {
        TileOffsetView {
            x: self.x,
            y: self.y,
        }
    }
}

impl TileOffsetView {
    /// The value of an element `tileoffset` before anything of it is read: every
    /// default in place, nothing attached.
    pub open spec fn fresh() -> TileOffsetView {
        TileOffsetView {
            x: 0,
            y: 0,
        }
    }

    /// Whether `name` is an attribute that an element `tileoffset` defines.
    pub open spec fn recognizes(name: Seq<char>) -> bool {
        name == "x"@
            || name == "y"@
    }

    /// The value after one more attribute is read. An attribute that the
    /// element does not define is refused by name; a value that cannot be
    /// read is refused with the error of its reader.
    pub open spec fn with_attribute(self, name: Seq<char>, value: Seq<char>) -> Result<
        TileOffsetView,
        ErrorView,
    > {
        if name == "x"@ {
            match i32_of(value) {
                Ok(parsed) => Ok(TileOffsetView { x: parsed, ..self }),
                Err(e) => Err(e),
            }
        } else if name == "y"@ {
            match i32_of(value) {
                Ok(parsed) => Ok(TileOffsetView { y: parsed, ..self }),
                Err(e) => Err(e),
            }
        } else {
            Err(ErrorView::UnknownAttribute(name))
        }
    }
}

impl TileOffset {
    /// An element `tileoffset` with every default in place and nothing attached.
    pub fn new() -> (fresh: TileOffset)
        ensures
            fresh@ == TileOffsetView::fresh(),
    {
        TileOffset {
            x: 0,
            y: 0,
        }
    }

    /// The horizontal offset, in pixels.
    pub fn x(&self) -> (x: i32)
        ensures
            x == self@.x,
    {
        self.x
    }

    /// The vertical offset, in pixels; positive is down.
    pub fn y(&self) -> (y: i32)
        ensures
            y == self@.y,
    {
        self.y
    }

    /// Reads one attribute into the element, as [`TileOffsetView::with_attribute`]
    /// says. After an error the element is not to be used.
    pub(crate) fn read_attribute(&mut self, name: &str, value: &str) -> (result: Result<
        (),
        Error,
    >)
        ensures
            match old(self)@.with_attribute(name@, value@) {
                Ok(next) => result is Ok && final(self)@ == next,
                Err(e) => result is Err && result->Err_0@ == e,
            },
    {
        if same_text(name, "x") {
            match read_i32(value) {
                Ok(parsed) => {
                    self.x = parsed;
                    Ok(())
                },
                Err(e) => Err(e),
            }
        } else if same_text(name, "y") {
            match read_i32(value) {
                Ok(parsed) => {
                    self.y = parsed;
                    Ok(())
                },
                Err(e) => Err(e),
            }
        } else {
            Err(Error::UnknownAttribute(String::from_str(name)))
        }
    }
}

impl Default for TileOffset {
    fn default() -> (fresh: TileOffset)
        ensures
            fresh@ == TileOffsetView::fresh(),
    {
        TileOffset::new()
    }
}

} // verus!
