//! Decision logic of an mpv media backend: the byte stream that feeds mpv, the
//! registry of streams, the player's requests, what clients are told of mpv's events,
//! the render loops and the table of live media instances.

pub mod address;
pub mod events;
pub mod gl_render;
pub mod gl_setup;
pub mod instances;
pub mod media;
pub mod player;
pub mod registry;
pub mod render;
pub mod stream;
pub mod stream_answers;
pub mod stream_laws;
pub mod sw_render;
