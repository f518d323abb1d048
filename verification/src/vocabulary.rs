//! The closed vocabularies of the format.

use crate::error::Error;
use crate::error::ErrorView;
use crate::text::same_text;
use vstd::prelude::*;

verus! {

/// How the grid of a map is laid out.
#[derive(Debug, Clone, Copy, PartialEq, Eq, Structural)]
pub enum Orientation {
    /// Square tiles on an upright grid. Written `orthogonal`.
    Orthogonal,
    /// Diamond tiles on a rotated grid. Written `isometric`.
    Isometric,
    /// Diamond tiles in offset rows or columns. Written `staggered`.
    Staggered,
    /// Hexagonal tiles in offset rows or columns. Written `hexagonal`.
    Hexagonal,
}

/// What reading `s` as an orientation gives. The words are matched exactly, case
/// included; any other text is refused under its own kind of error.
pub open spec fn orientation_of(s: Seq<char>) -> Result<Orientation, ErrorView> {
    if s == "orthogonal"@ {
        Ok(Orientation::Orthogonal)
    } else if s == "isometric"@ {
        Ok(Orientation::Isometric)
    } else if s == "staggered"@ {
        Ok(Orientation::Staggered)
    } else if s == "hexagonal"@ {
        Ok(Orientation::Hexagonal)
    } else {
        Err(ErrorView::BadOrientation(s))
    }
}

impl Orientation {
    /// Reads an orientation from its word in a document.
    pub fn parse(text: &str) -> (result: Result<Orientation, Error>)
        ensures
            match orientation_of(text@) {
                Ok(value) => result == Ok::<Orientation, Error>(value),
                Err(e) => result is Err && result->Err_0@ == e,
            },
    {
        if same_text(text, "orthogonal") {
            Ok(Orientation::Orthogonal)
        } else if same_text(text, "isometric") {
            Ok(Orientation::Isometric)
        } else if same_text(text, "staggered") {
            Ok(Orientation::Staggered)
        } else if same_text(text, "hexagonal") {
            Ok(Orientation::Hexagonal)
        } else {
            Err(Error::BadOrientation(String::from_str(text)))
        }
    }
}

/// The order in which the tiles of a layer are drawn.
#[derive(Debug, Clone, Copy, PartialEq, Eq, Structural)]
pub enum RenderOrder {
    /// Left to right, top to bottom. Written `right-down`.
    RightDown,
    /// Left to right, bottom to top. Written `right-up`.
    RightUp,
    /// Right to left, top to bottom. Written `left-down`.
    LeftDown,
    /// Right to left, bottom to top. Written `left-up`.
    LeftUp,
}

/// What reading `s` as a render order gives. The words are matched exactly, case
/// included; any other text is refused under its own kind of error.
pub open spec fn render_order_of(s: Seq<char>) -> Result<RenderOrder, ErrorView> {
    if s == "right-down"@ {
        Ok(RenderOrder::RightDown)
    } else if s == "right-up"@ {
        Ok(RenderOrder::RightUp)
    } else if s == "left-down"@ {
        Ok(RenderOrder::LeftDown)
    } else if s == "left-up"@ {
        Ok(RenderOrder::LeftUp)
    } else {
        Err(ErrorView::BadRenderOrder(s))
    }
}

impl RenderOrder {
    /// Reads a render order from its word in a document.
    pub fn parse(text: &str) -> (result: Result<RenderOrder, Error>)
        ensures
            match render_order_of(text@) {
                Ok(value) => result == Ok::<RenderOrder, Error>(value),
                Err(e) => result is Err && result->Err_0@ == e,
            },
    {
        if same_text(text, "right-down") {
            Ok(RenderOrder::RightDown)
        } else if same_text(text, "right-up") {
            Ok(RenderOrder::RightUp)
        } else if same_text(text, "left-down") {
            Ok(RenderOrder::LeftDown)
        } else if same_text(text, "left-up") {
            Ok(RenderOrder::LeftUp)
        } else {
            Err(Error::BadRenderOrder(String::from_str(text)))
        }
    }
}

/// Which axis of a staggered or hexagonal grid is offset.
#[derive(Debug, Clone, Copy, PartialEq, Eq, Structural)]
pub enum Axis {
    /// Columns are offset. Written `x`.
    X,
    /// Rows are offset. Written `y`.
    Y,
}

/// What reading `s` as a stagger axis gives. The words are matched exactly, case
/// included; any other text is refused under its own kind of error.
pub open spec fn axis_of(s: Seq<char>) -> Result<Axis, ErrorView> {
    if s == "x"@ {
        Ok(Axis::X)
    } else if s == "y"@ {
        Ok(Axis::Y)
    } else {
        Err(ErrorView::BadAxis(s))
    }
}

impl Axis {
    /// Reads a stagger axis from its word in a document.
    pub fn parse(text: &str) -> (result: Result<Axis, Error>)
        ensures
            match axis_of(text@) {
                Ok(value) => result == Ok::<Axis, Error>(value),
                Err(e) => result is Err && result->Err_0@ == e,
            },
    {
        if same_text(text, "x") {
            Ok(Axis::X)
        } else if same_text(text, "y") {
            Ok(Axis::Y)
        } else {
            Err(Error::BadAxis(String::from_str(text)))
        }
    }
}

/// Which rows or columns of a staggered or hexagonal grid are offset.
#[derive(Debug, Clone, Copy, PartialEq, Eq, Structural)]
pub enum Index {
    /// The even ones. Written `even`.
    Even,
    /// The odd ones. Written `odd`.
    Odd,
}

/// What reading `s` as a stagger index gives. The words are matched exactly, case
/// included; any other text is refused under its own kind of error.
pub open spec fn index_of(s: Seq<char>) -> Result<Index, ErrorView> {
    if s == "even"@ {
        Ok(Index::Even)
    } else if s == "odd"@ {
        Ok(Index::Odd)
    } else {
        Err(ErrorView::BadIndex(s))
    }
}

impl Index {
    /// Reads a stagger index from its word in a document.
    pub fn parse(text: &str) -> (result: Result<Index, Error>)
        ensures
            match index_of(text@) {
                Ok(value) => result == Ok::<Index, Error>(value),
                Err(e) => result is Err && result->Err_0@ == e,
            },
    {
        if same_text(text, "even") {
            Ok(Index::Even)
        } else if same_text(text, "odd") {
            Ok(Index::Odd)
        } else {
            Err(Error::BadIndex(String::from_str(text)))
        }
    }
}

/// The order in which the objects of a group are drawn.
#[derive(Debug, Clone, Copy, PartialEq, Eq, Structural)]
pub enum DrawOrder {
    /// By their vertical position. Written `topdown`.
    TopDown,
    /// In the order of the document. Written `index`.
    Index,
}

/// What reading `s` as a draw order gives. The words are matched exactly, case
/// included; any other text stands for the default, `TopDown`.
pub open spec fn draw_order_of(s: Seq<char>) -> DrawOrder {
    if s == "index"@ {
        DrawOrder::Index
    } else {
        DrawOrder::TopDown
    }
}

impl DrawOrder {
    /// Reads a draw order from its word in a document; never fails.
    pub fn parse(text: &str) -> (value: DrawOrder)
        ensures
            value == draw_order_of(text@),
    {
        if same_text(text, "index") {
            DrawOrder::Index
        } else {
            DrawOrder::TopDown
        }
    }
}

/// How the value of a property is meant to be read.
#[derive(Debug, Clone, Copy, PartialEq, Eq, Structural)]
pub enum PropertyType {
    /// As text. Written `string`.
    String,
    /// As an integer. Written `int`.
    Int,
    /// As a decimal number. Written `float`.
    Float,
    /// As a flag. Written `bool`.
    Bool,
}

/// What reading `s` as a property type gives. The words are matched exactly, case
/// included; any other text stands for the default, `String`.
pub open spec fn property_type_of(s: Seq<char>) -> PropertyType {
    if s == "int"@ {
        PropertyType::Int
    } else if s == "float"@ {
        PropertyType::Float
    } else if s == "bool"@ {
        PropertyType::Bool
    } else {
        PropertyType::String
    }
}

impl PropertyType {
    /// Reads a property type from its word in a document; never fails.
    pub fn parse(text: &str) -> (value: PropertyType)
        ensures
            value == property_type_of(text@),
    {
        if same_text(text, "int") {
            PropertyType::Int
        } else if same_text(text, "float") {
            PropertyType::Float
        } else if same_text(text, "bool") {
            PropertyType::Bool
        } else {
            PropertyType::String
        }
    }
}

/// A word outside the vocabulary of an attribute is refused under the kind
/// of error of that attribute, with the word, and under no other.
pub proof fn lemma_words_fail_under_their_own_kind(s: Seq<char>)
    ensures
        orientation_of(s) is Err ==> orientation_of(s) == Err::<Orientation, ErrorView>(
            ErrorView::BadOrientation(s),
        ),
        render_order_of(s) is Err ==> render_order_of(s) == Err::<RenderOrder, ErrorView>(
            ErrorView::BadRenderOrder(s),
        ),
        axis_of(s) is Err ==> axis_of(s) == Err::<Axis, ErrorView>(ErrorView::BadAxis(s)),
        index_of(s) is Err ==> index_of(s) == Err::<Index, ErrorView>(ErrorView::BadIndex(s)),
{
}

} // verus!
