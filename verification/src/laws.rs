//! What holds of every reading, proved of the model that the reading
//! functions are verified against.

pub mod attributes;
pub mod defaults;
pub mod kinds;
pub mod order;
pub mod walk;
