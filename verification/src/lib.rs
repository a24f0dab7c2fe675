//! A small fantasy-console runtime: a fixed 16-colour palette, a 256x256 tile
//! map, sprite and glyph blitting through a camera, and edge-triggered input
//! for six buttons.
//!
//! The console never touches a window or a texture. Every drawing call is
//! resolved to a [`draw::DrawCommand`] in whole screen pixels and queued; the
//! host takes the queue with [`api::BBMicroApi::flip`], replays it on its
//! canvas, presents, and waits for the pause the frame asks for.

pub mod api;
pub mod draw;
pub mod font;
pub mod input;
pub mod palette;
pub mod render;
pub mod tilemap;
