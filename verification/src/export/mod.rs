//! Writing fonts in other formats.
use vstd::prelude::*;

use crate::error::FontError;

pub mod pentacom;

verus! {

/// A format fonts can be exported to.
#[derive(Debug, Clone, Copy, PartialEq, Eq, Structural)]
pub enum Exporter {
    Binary,
    Project,
    Pentacom,
    BmFont,
    Bdf,
    Pcf,
    Windows,
    Ufo,
    TrueType,
}

impl Exporter {
    /// The exporter's name as shown to users.
    pub fn name(&self) -> (s: &'static str)
        ensures
            s@ == match self {
                Exporter::Binary => "PixFont binary (.pxf)"@,
                Exporter::Project => "PixFont Studio project (.pxfproj)"@,
                Exporter::Pentacom => "Pentacom BitFontMaker2 (.json)"@,
                Exporter::BmFont => "BMFont PNG Atlas (.fnt)"@,
                Exporter::Bdf => "X11 / BDF (.bdf)"@,
                Exporter::Pcf => "X11 / PCF (.pcf)"@,
                Exporter::Windows => "Windows bitmap font (.fon)"@,
                Exporter::Ufo => "UFO project"@,
                Exporter::TrueType => "TrueType (.ttf)"@,
            },
    {
        match self {
            Exporter::Binary => "PixFont binary (.pxf)",
            Exporter::Project => "PixFont Studio project (.pxfproj)",
            Exporter::Pentacom => "Pentacom BitFontMaker2 (.json)",
            Exporter::BmFont => "BMFont PNG Atlas (.fnt)",
            Exporter::Bdf => "X11 / BDF (.bdf)",
            Exporter::Pcf => "X11 / PCF (.pcf)",
            Exporter::Windows => "Windows bitmap font (.fon)",
            Exporter::Ufo => "UFO project",
            Exporter::TrueType => "TrueType (.ttf)",
        }
    }
}

/// The exporters offered to users.
pub fn exporters() -> (v: Vec<Exporter>)
    ensures
        v@ == seq![Exporter::Pentacom],
{
    vec![Exporter::Pentacom]
}

/// Why an export failed.
#[derive(Debug)]
pub enum ExportError {
    /// The font is not consistent.
    Format(FontError),
    /// The font cannot be written in the format.
    Message(String),
}

} // verus!
