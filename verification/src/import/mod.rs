//! Reading fonts from other formats.
use vstd::prelude::*;

use crate::text::same_text;

pub mod pentacom;

verus! {

/// A format fonts can be imported from.
#[derive(Debug, Clone, Copy, PartialEq, Eq, Structural)]
pub enum Importer {
    Binary,
    Project,
    Pentacom,
}

/// Why an import failed.
#[derive(Debug)]
pub enum ImportError {
    /// No importer handles the file.
    NoImporter,
    /// The data is not in the expected form.
    Message(String),
    /// The data is not valid JSON.
    Misc(json::Error),
    /// A glyph's advance would not fit a `u32`.
    AdvanceOverflow,
}

/// The importer for a file extension, if any.
pub open spec fn importer_for(extension: Seq<char>) -> Option<Importer> {
    if extension == "pixfont"@ || extension == "pxf"@ {
        Some(Importer::Binary)
    } else if extension == "pxproj"@ || extension == "pxfproj"@ {
        Some(Importer::Project)
    } else if extension == "json"@ || extension == "txt"@ || extension == "pentacom"@ {
        Some(Importer::Pentacom)
    } else {
        None
    }
}


impl Importer {
    /// The importer for files with the given extension (without the dot).
    pub fn from_extension(extension: &str) -> (r: Option<Self>)
        ensures
            r == importer_for(extension@),
    {
        if same_text(extension, "pixfont") || same_text(extension, "pxf") {
            Some(Importer::Binary)
        } else if same_text(extension, "pxproj") || same_text(extension, "pxfproj") {
            Some(Importer::Project)
        } else if same_text(extension, "json") || same_text(extension, "txt") || same_text(extension, "pentacom") {
            Some(Importer::Pentacom)
        } else {
            None
        }
    }

    /// The importer's name as shown to users.
    pub fn name(&self) -> (s: &'static str)
        ensures
            s@ == match self {
                Importer::Binary => "PixFont Font"@,
                Importer::Project => "PixFont Studio Project"@,
                Importer::Pentacom => "Pentacom"@,
            },
    {
        match self {
            Importer::Binary => "PixFont Font",
            Importer::Project => "PixFont Studio Project",
            Importer::Pentacom => "Pentacom",
        }
    }
}

/// The importers offered to users.
pub fn importers() -> (v: Vec<Importer>)
    ensures
        v@ == seq![Importer::Binary, Importer::Project, Importer::Pentacom],
{
    vec![Importer::Binary, Importer::Project, Importer::Pentacom]
}

} // verus!
