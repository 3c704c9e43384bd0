use pixfont::export::{exporters, Exporter};
use pixfont::import::{importers, Importer};
use pixfont::sets::{defined_glyph_sets, GlyphSet};
use pixfont::{CodepointMapping, Font, Glyph};

#[test]
fn add_glyphs_replaces_by_name() {
    let mut font = Font::default();
    let mut g = Glyph::default();
    g.advance = 1;
    let mut h = Glyph::default();
    h.advance = 2;
    font.add_glyphs(vec![("a".to_string(), g), ("b".to_string(), Glyph::default()), ("a".to_string(), h)]);
    assert_eq!(font.glyphs.keys().collect::<Vec<_>>(), vec!["a", "b"]);
    assert_eq!(font.glyphs["a"].advance, 2);
}

#[test]
fn add_glyph_and_mapping_maps_the_codepoint() {
    let mut font = Font::default();
    font.add_glyph_and_mapping(65, "A", Glyph::default()).add_glyph_and_mapping(65, "B", Glyph::default());
    assert_eq!(font.mappings[&65].glyph, "B");
    assert_eq!(font.glyphs.len(), 2);
    font.add_glyphs_and_mappings(vec![("C".to_string(), 67, Glyph::default())]);
    assert_eq!(font.mappings[&67].glyph, "C");
}

#[test]
fn add_codepoints_uses_aglfn_names() {
    let mut font = Font::default();
    font.add_codepoints(vec![0x41, 0x20, 0x0219]);
    assert_eq!(font.mappings[&0x41].glyph, "A");
    assert_eq!(font.mappings[&0x20].glyph, "space");
    assert_eq!(font.mappings[&0x0219].glyph, "uni0219");
    assert_eq!(font.glyphs.len(), 3);
}

#[test]
fn glyph_codepoint_finds_default_then_alternate() {
    let mut font = Font::default();
    let mut m = CodepointMapping::new("a");
    m.alternate.insert("small".to_string(), "a.sc".to_string());
    font.mappings.insert(97, m);
    font.mappings.insert(98, CodepointMapping::new("a.sc"));
    let (c, alt) = font.get_glyph_codepoint("a").unwrap();
    assert_eq!((c, alt), (97, None));
    let (c, alt) = font.get_glyph_codepoint("a.sc").unwrap();
    assert_eq!((c, alt.map(String::as_str)), (97, Some("small")));
    assert!(font.get_glyph_codepoint("b").is_none());
}

#[test]
fn glyph_sets_list_their_codepoints() {
    let digits: Vec<u32> = GlyphSet::Numbers.codepoints().into_iter().collect();
    assert_eq!(digits, (48..=57).collect::<Vec<u32>>());
    let all: Vec<u32> = GlyphSet::Alphanumeric.codepoints().into_iter().collect();
    assert_eq!(all.len(), 62);
    assert_eq!(all[10], 'a' as u32);
    assert_eq!(all[36], 'A' as u32);
    assert_eq!(defined_glyph_sets().len(), 6);
    assert_eq!(GlyphSet::BoxDrawing.name(), "Box drawing characters");
}

#[test]
fn importers_by_extension() {
    assert_eq!(Importer::from_extension("json"), Some(Importer::Pentacom));
    assert_eq!(Importer::from_extension("pxf"), Some(Importer::Binary));
    assert_eq!(Importer::from_extension("pxproj"), Some(Importer::Project));
    assert_eq!(Importer::from_extension("png"), None);
    assert_eq!(importers().len(), 3);
    assert_eq!(Importer::Pentacom.name(), "Pentacom");
    assert_eq!(exporters(), vec![Exporter::Pentacom]);
    assert_eq!(Exporter::Project.name(), "PixFont Studio project (.pxfproj)");
}

#[test]
fn adding_codepoints_twice_is_adding_them_once() {
    let mut once = Font::default();
    once.add_codepoints(vec![0x41, 0x42, 0x41, 0x20]);
    let mut twice = once.clone();
    twice.add_codepoints(vec![0x41, 0x42, 0x41, 0x20]);
    let glyphs = |f: &Font| f.glyphs.keys().cloned().collect::<Vec<_>>();
    let mappings = |f: &Font| f.mappings.iter().map(|(c, m)| (*c, m.glyph.clone())).collect::<Vec<_>>();
    assert_eq!(glyphs(&once), glyphs(&twice));
    assert_eq!(mappings(&once), mappings(&twice));
    assert_eq!(glyphs(&once), vec!["A", "B", "space"]);
}
