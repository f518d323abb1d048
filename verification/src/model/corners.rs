//! The terrain at the corners of a tile.

use crate::error::Error;
use crate::error::ErrorView;
use crate::number::read_u32;
use crate::number::u32_of;
use crate::text::split;
use crate::text::split_spec;
use crate::text::views;
use vstd::prelude::*;

verus! {

/// The terrain at each corner of a tile, by the index of a terrain type of
/// its tileset; a corner may have none.
#[derive(Debug, Clone, Copy, PartialEq, Eq, Structural)]
pub struct Corners {
    pub top_left: Option<u32>,
    pub top_right: Option<u32>,
    pub bottom_left: Option<u32>,
    pub bottom_right: Option<u32>,
}

/// What reading `s` as one corner gives: nothing where it is empty, else an
/// index.
pub open spec fn corner_of(s: Seq<char>) -> Result<Option<u32>, ErrorView> {
    if s.len() == 0 {
        Ok(None)
    } else {
        match u32_of(s) {
            Ok(index) => Ok(Some(index)),
            Err(e) => Err(e),
        }
    }
}

/// What reading `s` as the corners of a tile gives: exactly four components
/// with commas between them, in the order top left, top right, bottom left,
/// bottom right. Another number of components is an invalid number; then
/// the first component that cannot be read decides the error.
pub open spec fn corners_of(s: Seq<char>) -> Result<Corners, ErrorView> {
    let parts = split_spec(s, ',');
    if parts.len() != 4 {
        Err(ErrorView::InvalidNumber(s))
    } else {
        match corner_of(parts[0]) {
            Err(e) => Err(e),
            Ok(top_left) => match corner_of(parts[1]) {
                Err(e) => Err(e),
                Ok(top_right) => match corner_of(parts[2]) {
                    Err(e) => Err(e),
                    Ok(bottom_left) => match corner_of(parts[3]) {
                        Err(e) => Err(e),
                        Ok(bottom_right) => Ok(
                            Corners { top_left, top_right, bottom_left, bottom_right },
                        ),
                    },
                },
            },
        }
    }
}

/// Reads one corner.
fn read_corner(text: &str) -> (result: Result<Option<u32>, Error>)
    ensures
        match corner_of(text@) {
            Ok(corner) => result == Ok::<Option<u32>, Error>(corner),
            Err(e) => result is Err && result->Err_0@ == e,
        },
{
    if text.unicode_len() == 0 {
        Ok(None)
    } else {
        match read_u32(text) {
            Ok(index) => Ok(Some(index)),
            Err(e) => Err(e),
        }
    }
}

impl Corners {
    /// Reads the corners of a tile from the form `a,b,c,d`, where each
    /// component is an index or empty.
    pub fn parse(text: &str) -> (result: Result<Corners, Error>)
        ensures
            match corners_of(text@) {
                Ok(corners) => result == Ok::<Corners, Error>(corners),
                Err(e) => result is Err && result->Err_0@ == e,
            },
    {
        let parts = split(text, ',');
        if parts.len() != 4 {
            return Err(Error::InvalidNumber(String::from_str(text)));
        }
        assert(views(parts@)[0] == parts@[0]@);
        assert(views(parts@)[1] == parts@[1]@);
        assert(views(parts@)[2] == parts@[2]@);
        assert(views(parts@)[3] == parts@[3]@);
        let top_left = match read_corner(parts[0].as_str()) {
            Ok(corner) => corner,
            Err(e) => {
                return Err(e);
            },
        };
        let top_right = match read_corner(parts[1].as_str()) {
            Ok(corner) => corner,
            Err(e) => {
                return Err(e);
            },
        };
        let bottom_left = match read_corner(parts[2].as_str()) {
            Ok(corner) => corner,
            Err(e) => {
                return Err(e);
            },
        };
        let bottom_right = match read_corner(parts[3].as_str()) {
            Ok(corner) => corner,
            Err(e) => {
                return Err(e);
            },
        };
        Ok(Corners { top_left, top_right, bottom_left, bottom_right })
    }
}

} // verus!
