//! Errors in the font model itself.
use vstd::prelude::*;

verus! {

/// A font refers to something it does not hold.
#[derive(Debug)]
pub enum FontError {
    /// A mapping names a glyph that the font has no glyph for.
    GlyphNotFound { name: String },
}

} // verus!
