//! File formats' own data: the Pentacom glyph grid and the PixFont Studio
//! project format.
pub mod pentacom;
pub mod pxfproj;
