use pixfont::export::pentacom::{export, export_document};
use pixfont::export::ExportError;
use pixfont::import::pentacom::import;
use pixfont::import::ImportError;
use pixfont::{CodepointMapping, Font, FontError, Glyph, Point};

fn rows(last: u32) -> String {
    let mut v = vec!["0".to_string(); 15];
    v.push(last.to_string());
    format!("[{}]", v.join(","))
}

#[test]
fn import_reads_name_author_spacing_and_glyphs() {
    let text = format!(
        r#"{{"name":"Tiny","copy":"Ann","letterspace":2,"wordspacing":4,"65":{}}}"#,
        rows(4)
    );
    let font = import(&text).unwrap();
    assert_eq!(font.metadata.name, "Tiny");
    assert_eq!(font.metadata.author.as_deref(), Some("Ann"));
    assert_eq!(font.metrics.ascender, 12);
    assert_eq!(font.metrics.descender, -4);
    assert_eq!(font.metrics.cap_height, 9);
    assert_eq!(font.metrics.x_height, 8);
    assert_eq!(font.metrics.mono_advance, None);
    assert_eq!(font.metrics.guidelines.x.len(), 1);
    assert_eq!(font.metrics.guidelines.x[0].name, "bearing");
    assert_eq!(font.metrics.guidelines.x[0].position, -2);

    let a = font.glyphs.get("A").unwrap();
    assert_eq!(a.pixels.pixels(), vec![Point::new(0, -4)]);
    // One past its right edge, plus the letter spacing.
    assert_eq!(a.advance, 2 + 2);
    assert_eq!(font.mappings.get(&65).unwrap().glyph, "A");

    let space = font.mappings.get(&32).unwrap();
    assert_eq!(space.glyph, "space");
    let space_glyph = font.glyphs.get("space").unwrap();
    assert_eq!(space_glyph.advance, 4);
    assert!(space_glyph.pixels.pixels().is_empty());
    assert_eq!(font.glyphs.keys().collect::<Vec<_>>(), vec!["A", "space"]);
}

#[test]
fn import_reads_monospacing() {
    let font = import(r#"{"monospace":true,"monospacewidth":"8","letterspace":0}"#).unwrap();
    assert_eq!(font.metrics.mono_advance, Some(8));
    let font = import(r#"{"monospacewidth":"8"}"#).unwrap();
    assert_eq!(font.metrics.mono_advance, None);
    let font = import(r#"{"monospace":true,"monospacewidth":8}"#).unwrap();
    assert_eq!(font.metrics.mono_advance, None);
}

#[test]
fn import_defaults_spacing() {
    let text = format!(r#"{{"66":{}}}"#, rows(8));
    let font = import(&text).unwrap();
    // The pixel is in column 1: its right edge is 2, the advance one more,
    // plus the default spacing of 1.
    assert_eq!(font.glyphs.get("B").unwrap().advance, 4);
    assert_eq!(font.glyphs.get("space").unwrap().advance, 5);
}

#[test]
fn import_rejects_bad_glyphs() {
    match import(r#"{"66":[1,2]}"#) {
        Err(ImportError::Message(m)) => assert_eq!(m, "codepoint 66 is not valid"),
        other => panic!("unexpected {:?}", other),
    }
    match import(r#"{"67":"x"}"#) {
        Err(ImportError::Message(m)) => assert_eq!(m, "codepoint 67 is not valid"),
        other => panic!("unexpected {:?}", other),
    }
    let text = format!(r#"{{"68":{}}}"#, rows(70000).replace("70000", "-1"));
    assert!(matches!(import(&text), Err(ImportError::Message(_))));
    assert!(matches!(import("not json"), Err(ImportError::Misc(_))));
}

#[test]
fn import_reports_an_advance_that_overflows() {
    // A glyph whose only pixels are in the leftmost column has no advance.
    let text = format!(r#"{{"65":{}}}"#, rows(1));
    assert!(matches!(import(&text), Err(ImportError::AdvanceOverflow)));
}

#[test]
fn import_skips_other_entries() {
    let font = import(r#"{"hello":1,"name":5,"x1":[]}"#).unwrap();
    assert_eq!(font.metadata.name, "");
    assert_eq!(font.glyphs.len(), 1);
}

#[test]
fn export_writes_what_import_reads() {
    let text = format!(
        r#"{{"name":"Tiny","copy":"Ann","letterspace":2,"wordspacing":4,"65":{}}}"#,
        rows(4)
    );
    let font = import(&text).unwrap();
    let out = export(&font).unwrap();
    assert_eq!(out, format!(r#"{{"name":"Tiny","copy":"Ann","wordspacing":4,"65":{}}}"#, rows(4)));
    let again = import(&out).unwrap();
    assert_eq!(again.glyphs.get("A").unwrap().pixels.pixels(), vec![Point::new(0, -4)]);
}

#[test]
fn export_writes_monospacing() {
    let mut font = Font::default();
    font.metadata.name = "M".to_string();
    font.metadata.author = Some(String::new());
    font.metrics.mono_advance = Some(8);
    assert_eq!(export(&font).unwrap(), r#"{"name":"M","monospace":true,"monospacewidth":8}"#);
}

#[test]
fn export_reports_a_missing_glyph() {
    let mut font = Font::default();
    font.mappings.insert(66, CodepointMapping::new("B"));
    match export_document(&font) {
        Err(ExportError::Format(FontError::GlyphNotFound { name })) => assert_eq!(name, "B"),
        other => panic!("unexpected {:?}", other.is_ok()),
    }
    font.glyphs.insert("B".to_string(), Glyph::default());
    assert!(export(&font).is_ok());
}

#[test]
fn import_reads_row_numbers_as_the_json_crate_scales_them() {
    let with_last = |last: &str| format!(r#"{{"65":{}}}"#, rows(7).replace(",7]", &format!(",{}]", last)));
    // A fraction is cut to its integer part.
    let font = import(&with_last("4.9")).unwrap();
    assert_eq!(font.glyphs.get("A").unwrap().pixels.pixels(), vec![Point::new(0, -4)]);
    let font = import(&with_last("40e-1")).unwrap();
    assert_eq!(font.glyphs.get("A").unwrap().pixels.pixels(), vec![Point::new(0, -4)]);
    // The number is scaled as parsed: the json crate divides by 10 here,
    // which leaves a value too large for a row.
    match import(&with_last("1000000000000000000e-21")) {
        Err(ImportError::Message(m)) => assert_eq!(m, "codepoint 65 is not valid"),
        other => panic!("unexpected {:?}", other),
    }
    // An exponent too small for the json crate to scale is no row number.
    match import(&with_last("1.5e-99999")) {
        Err(ImportError::Message(m)) => assert_eq!(m, "codepoint 65 is not valid"),
        other => panic!("unexpected {:?}", other),
    }
}
