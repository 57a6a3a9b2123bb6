//! Glyph atlas layout.

pub mod atlas;
pub mod glyph_pixels;
