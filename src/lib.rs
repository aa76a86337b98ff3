//! Page content-stream interpretation: the decisions of a PDF page renderer
//! (operator dispatch, save/restore state, text-mode and glyph resolution,
//! font encodings, indexed colours and image samples), with their contracts.

mod outside;

pub mod operator;
pub mod text;
pub mod font_encoding;
pub mod color;
pub mod image;
pub mod state;
pub mod style;
pub mod items;
pub mod paints;
