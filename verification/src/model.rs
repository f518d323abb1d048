//! The document model: one type for each kind of element, with the rule by
//! which it takes its attributes.

pub mod animation;
pub mod corners;
pub mod data;
pub mod image;
pub mod image_layer;
pub mod layer;
pub mod object;
pub mod object_group;
pub mod property;
pub mod shape;
pub mod terrain;
pub mod tile;
pub mod tile_map;
pub mod tile_offset;
pub mod tileset;
