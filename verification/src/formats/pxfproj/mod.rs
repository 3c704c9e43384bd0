//! PixFont Studio project files (`.pxfproj`).
pub mod v0;
