//! The editing logic of PixFont Studio: drawing tools, undo history and
//! project edits.
pub mod editor;
pub mod guidelines;
pub mod listing;
pub mod project;
pub mod tools;
pub mod ui;
