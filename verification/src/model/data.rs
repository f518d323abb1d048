//! The cells of a layer and the data of an image.

use crate::error::Error;
use crate::error::ErrorView;
use crate::number::read_u32;
use crate::number::u32_of;
use crate::text::lemma_views_empty;
use crate::text::lemma_views_push;
use crate::text::option_view;
use crate::text::same_text;
use crate::text::views;
use vstd::prelude::*;

verus! {

/// One cell of a layer, written out as an element of its own.
#[derive(Debug, PartialEq, Eq)]
pub struct DataTile {
    gid: u32,
}

/// The mathematical value of a [`DataTile`].
pub struct DataTileView {
    pub gid: u32,
}

impl View for DataTile {
    type V = DataTileView;

    closed spec fn view(&self) -> DataTileView {
        DataTileView {
            gid: self.gid,
        }
    }
}

impl DataTileView {
    /// The value of an element `tile` before anything of it is read: every
    /// default in place, nothing attached.
    pub open spec fn fresh() -> DataTileView {
        DataTileView {
            gid: 0,
        }
    }

    /// Whether `name` is an attribute that an element `tile` defines.
    pub open spec fn recognizes(name: Seq<char>) -> bool {
        name == "gid"@
    }

    /// The value after one more attribute is read. An attribute that the
    /// element does not define is refused by name; a value that cannot be
    /// read is refused with the error of its reader.
    pub open spec fn with_attribute(self, name: Seq<char>, value: Seq<char>) -> Result<
        DataTileView,
        ErrorView,
    > {
        if name == "gid"@ {
            match u32_of(value) {
                Ok(parsed) => Ok(DataTileView { gid: parsed, ..self }),
                Err(e) => Err(e),
            }
        } else {
            Err(ErrorView::UnknownAttribute(name))
        }
    }
}

impl DataTile {
    /// An element `tile` with every default in place and nothing attached.
    pub fn new() -> (fresh: DataTile)
        ensures
            fresh@ == DataTileView::fresh(),
    {
        DataTile {
            gid: 0,
        }
    }

    /// The global id of the tile in the cell; 0 for an empty cell.
    pub fn gid(&self) -> (gid: u32)
        ensures
            gid == self@.gid,
    {
        self.gid
    }

    /// Reads one attribute into the element, as [`DataTileView::with_attribute`]
    /// says. After an error the element is not to be used.
    pub(crate) fn read_attribute(&mut self, name: &str, value: &str) -> (result: Result<
        (),
        Error,
    >)
        ensures
            match old(self)@.with_attribute(name@, value@) {
                Ok(next) => result is Ok && final(self)@ == next,
                Err(e) => result is Err && result->Err_0@ == e,
            },
    {
        if same_text(name, "gid") {
            match read_u32(value) {
                Ok(parsed) => {
                    self.gid = parsed;
                    Ok(())
                },
                Err(e) => Err(e),
            }
        } else {
            Err(Error::UnknownAttribute(String::from_str(name)))
        }
    }
}

impl Default for DataTile {
    fn default() -> (fresh: DataTile)
        ensures
            fresh@ == DataTileView::fresh(),
    {
        DataTile::new()
    }
}

/// The cells of a layer or the pixels of an image: either an encoded payload,
/// kept as it was written, or one element per cell.
#[derive(Debug, PartialEq, Eq)]
pub struct Data {
    encoding: Option<String>,
    compression: Option<String>,
    raw_content: Option<String>,
    tiles: Vec<DataTile>,
}

/// The mathematical value of a [`Data`].
pub struct DataView {
    pub encoding: Option<Seq<char>>,
    pub compression: Option<Seq<char>>,
    pub raw_content: Option<Seq<char>>,
    pub tiles: Seq<DataTileView>,
}

impl View for Data {
    type V = DataView;

    closed spec fn view(&self) -> DataView {
        DataView {
            encoding: option_view(self.encoding),
            compression: option_view(self.compression),
            raw_content: option_view(self.raw_content),
            tiles: views(self.tiles@),
        }
    }
}

impl DataView {
    /// The value of an element `data` before anything of it is read: every
    /// default in place, nothing attached.
    pub open spec fn fresh() -> DataView {
        DataView {
            encoding: None,
            compression: None,
            raw_content: None,
            tiles: Seq::empty(),
        }
    }

    /// Whether `name` is an attribute that an element `data` defines.
    pub open spec fn recognizes(name: Seq<char>) -> bool {
        name == "encoding"@
            || name == "compression"@
    }

    /// The value after one more attribute is read. An attribute that the
    /// element does not define is refused by name; a value that cannot be
    /// read is refused with the error of its reader.
    pub open spec fn with_attribute(self, name: Seq<char>, value: Seq<char>) -> Result<
        DataView,
        ErrorView,
    > {
        if name == "encoding"@ {
            Ok(DataView { encoding: Some(value), ..self })
        } else if name == "compression"@ {
            Ok(DataView { compression: Some(value), ..self })
        } else {
            Err(ErrorView::UnknownAttribute(name))
        }
    }
}

impl Data {
    /// An element `data` with every default in place and nothing attached.
    pub fn new() -> (fresh: Data)
        ensures
            fresh@ == DataView::fresh(),
    {
        proof {
            lemma_views_empty::<DataTile>();
        }
        Data {
            encoding: None,
            compression: None,
            raw_content: None,
            tiles: Vec::new(),
        }
    }

    /// How the payload is encoded, where the document says so.
    pub fn encoding(&self) -> (encoding: Option<&str>)
        ensures
            match encoding {
                Some(inner) => self@.encoding == Some(inner@),
                None => self@.encoding is None,
            },
    {
        match &self.encoding {
            Some(inner) => Some(inner.as_str()),
            None => None,
        }
    }

    /// How the payload is compressed, where the document says so.
    pub fn compression(&self) -> (compression: Option<&str>)
        ensures
            match compression {
                Some(inner) => self@.compression == Some(inner@),
                None => self@.compression is None,
            },
    {
        match &self.compression {
            Some(inner) => Some(inner.as_str()),
            None => None,
        }
    }

    /// The text between the tags, verbatim and undecoded, where there is
    /// any.
    pub fn raw_content(&self) -> (raw_content: Option<&str>)
        ensures
            match raw_content {
                Some(inner) => self@.raw_content == Some(inner@),
                None => self@.raw_content is None,
            },
    {
        match &self.raw_content {
            Some(inner) => Some(inner.as_str()),
            None => None,
        }
    }

    /// The cells that the document writes out one by one, in document
    /// order.
    pub fn tiles(&self) -> (tiles: &Vec<DataTile>)
        ensures
            views(tiles@) == self@.tiles,
    {
        &self.tiles
    }

    /// Reads one attribute into the element, as [`DataView::with_attribute`]
    /// says. After an error the element is not to be used.
    pub(crate) fn read_attribute(&mut self, name: &str, value: &str) -> (result: Result<
        (),
        Error,
    >)
        ensures
            match old(self)@.with_attribute(name@, value@) {
                Ok(next) => result is Ok && final(self)@ == next,
                Err(e) => result is Err && result->Err_0@ == e,
            },
    {
        if same_text(name, "encoding") {
            self.encoding = Some(String::from_str(value));
            Ok(())
        } else if same_text(name, "compression") {
            self.compression = Some(String::from_str(value));
            Ok(())
        } else {
            Err(Error::UnknownAttribute(String::from_str(name)))
        }
    }

    /// Attaches the text content of the element, verbatim, in place of any
    /// text attached before.
    pub(crate) fn set_raw_content(&mut self, text: &str)
        ensures
            final(self)@ == (DataView { raw_content: Some(text@), ..old(self)@ }),
    {
        self.raw_content = Some(String::from_str(text));
    }

    /// Attaches one more child `tile`, after those attached before.
    pub(crate) fn add_tile(&mut self, child: DataTile)
        ensures
            final(self)@ == (DataView {
                tiles: old(self)@.tiles.push(child@),
                ..old(self)@
            }),
    {
        proof {
            lemma_views_push(self.tiles@, child);
        }
        self.tiles.push(child);
    }
}

impl Default for Data {
    fn default() -> (fresh: Data)
        ensures
            fresh@ == DataView::fresh(),
    {
        Data::new()
    }
}

} // verus!
