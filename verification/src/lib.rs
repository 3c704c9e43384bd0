//! Bitmap fonts: glyphs as sets of pixels on an integer grid, their metrics,
//! and the file formats they are read from and written to.
use vstd::prelude::*;

pub mod error;
pub mod export;
pub mod geometry;
pub mod icons;
pub mod pixels;
pub mod sets;
pub mod maps;
pub mod font;
pub mod formats;
pub mod import;
pub mod json;
pub mod studio;
pub mod text;
pub mod ucd;

pub use geometry::{Point, Rect, Size};
pub use pixels::Pixels;
pub use error::FontError;
pub use font::{CodepointMapping, Font, Glyph, Guideline, Guidelines, Metadata, Metrics};

verus! {

} // verus!
