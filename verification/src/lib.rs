//! The decisions of two MapLibre rendering pools, each of which serialises
//! rendering through one worker: a tile pool that loads and caches styles as
//! needed, and a static pool that loads one base style and swaps GeoJSON data.
pub mod error;
pub mod tile_worker;
pub mod static_worker;
pub mod client;
