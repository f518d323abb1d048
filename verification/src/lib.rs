//! Reading of tile maps and tilesets from their XML documents into a typed
//! model, with every function verified against a mathematical model of the
//! format.
//!
//! A document is tokenized into structural events, and one generic walk
//! builds each element from its attributes and its children by the rules of
//! its kind. The first error ends the reading; elements that the format
//! does not know are passed over.

pub mod color;
pub mod decimal;
pub mod document;
pub mod element;
pub mod error;
pub mod event;
pub mod laws;
pub mod model;
pub mod number;
pub mod point;
pub mod reader;
pub mod samples;
pub mod text;
pub mod vocabulary;
