//! The ways in which a document is refused.

use vstd::prelude::*;

verus! {

/// Why a document was refused. Every failure ends the parse; the offending
/// text is carried along verbatim.
#[derive(Debug, Clone, PartialEq, Eq)]
pub enum Error {
    /// The root element is missing or misnamed.
    BadXml,
    /// An attribute that the element's schema does not define, by name.
    UnknownAttribute(String),
    /// A numeric attribute whose text is no number of the required type.
    InvalidNumber(String),
    /// A color that is not six or eight hexadecimal digits.
    InvalidColor(String),
    /// A point that does not have exactly two components.
    InvalidPoint(String),
    /// An orientation outside the format's vocabulary.
    BadOrientation(String),
    /// A render order outside the format's vocabulary.
    BadRenderOrder(String),
    /// A stagger axis outside the format's vocabulary.
    BadAxis(String),
    /// A stagger index outside the format's vocabulary.
    BadIndex(String),
}

/// The mathematical value of an [`Error`].
pub enum ErrorView {
    BadXml,
    UnknownAttribute(Seq<char>),
    InvalidNumber(Seq<char>),
    InvalidColor(Seq<char>),
    InvalidPoint(Seq<char>),
    BadOrientation(Seq<char>),
    BadRenderOrder(Seq<char>),
    BadAxis(Seq<char>),
    BadIndex(Seq<char>),
}

impl View for Error {
    type V = ErrorView;

    open spec fn view(&self) -> ErrorView {
        match self {
            Error::BadXml => ErrorView::BadXml,
            Error::UnknownAttribute(name) => ErrorView::UnknownAttribute(name@),
            Error::InvalidNumber(raw) => ErrorView::InvalidNumber(raw@),
            Error::InvalidColor(raw) => ErrorView::InvalidColor(raw@),
            Error::InvalidPoint(raw) => ErrorView::InvalidPoint(raw@),
            Error::BadOrientation(raw) => ErrorView::BadOrientation(raw@),
            Error::BadRenderOrder(raw) => ErrorView::BadRenderOrder(raw@),
            Error::BadAxis(raw) => ErrorView::BadAxis(raw@),
            Error::BadIndex(raw) => ErrorView::BadIndex(raw@),
        }
    }
}

} // verus!
