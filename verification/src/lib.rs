//! Frame preparation for a mirrored, three-panel animated image display.
//!
//! The crate turns the bytes of an animated image into an [`animation::Animation`]:
//! an ordered, never-empty sequence of frame pairs, each holding the frame in
//! the orientation it was decoded in and a mirrored copy, laid out for upload into
//! canvas-sized textures. It also carries the geometry of the three-panel
//! layout and the decisions of the playback loop.

pub mod animation;
pub mod decode;
pub mod geometry;
pub mod pixels;
pub mod playback;
