//! A frame-strip animation engine for sprite sheets, with tile-grid helpers.
//!
//! The core is a timed frame-index generator ([`ani_sprite::Animation`]) and a
//! sprite abstraction ([`ani_sprite::AniSprite`]) that maps a logical frame
//! index to a source-texture sub-rectangle and advances through a playlist of
//! animations. Time is measured in integer microseconds and playback rates in
//! thousandths of frames per second, so every state transition is exact.
//! Rendering, windowing and texture loading are external collaborators: the
//! library only computes frame indices, source rectangles and draw offsets.

use vstd::prelude::*;

pub mod ani_sprite;
pub mod rect;
pub mod tile_layer_view;
pub mod tile_map;

verus! {

/// A fatal configuration error, surfaced at construction time.
#[derive(Clone, Copy, Debug, PartialEq, Eq, Structural)]
pub enum SpriteError {
    /// A non-divisible texture/frame-size pairing, or a non-positive playback
    /// rate.
    InvalidConfiguration,
}

} // verus!
