//! Tilemap data model and persistence: a grid of optional tiles, its
//! MessagePack framing, a row traversal, and a deterministic preset generator.

pub mod tile;
pub mod map;
pub mod codec;
pub mod preset;
pub mod loader;
pub mod animation;
