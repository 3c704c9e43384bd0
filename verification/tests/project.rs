use pixfont::export::Exporter;
use pixfont::sets::GlyphSet;
use pixfont::studio::project::{
    extra_msg, set_metadata_fn, Action, AddGlyph, Direction, Effect, Extra, GlyphAction, GuidelineAction, Project,
    ProjectError, Response, SetMetadata, SetMetrics,
};
use pixfont::Font;

fn add(name: &str, mapping: Option<(u32, Option<&str>)>) -> Action {
    Action::AddGlyph(AddGlyph {
        name: name.to_string(),
        mapping: mapping.map(|(c, a)| (c, a.map(str::to_string))),
    })
}

#[test]
fn new_project_is_dirty() {
    let project = Project::default();
    assert!(project.is_dirty());
    assert!(project.path().is_none());
    assert_eq!(project.font().glyphs.len(), 0);
}

#[test]
fn add_glyph_maps_codepoints_and_alternates() {
    let mut p = Project::default();
    assert!(matches!(p.update(add("A", Some((65, None)))), Ok(Effect::Done)));
    assert_eq!(p.font.mappings.get(&65).unwrap().glyph, "A");
    assert_eq!(p.font.glyphs.get("A").unwrap().name, "A");

    assert!(matches!(p.update(add("A", None)), Err(ProjectError::GlyphExists)));

    assert!(matches!(p.update(add("A.alt", Some((65, Some("alt"))))), Ok(Effect::Done)));
    assert_eq!(p.font.mappings.get(&65).unwrap().alternate.get("alt").unwrap(), "A.alt");

    // The glyph is added even where its mapping fails.
    assert!(matches!(
        p.update(add("A.alt2", Some((65, Some("alt"))))),
        Err(ProjectError::AlreadyContainsGlyphMapping)
    ));
    assert!(p.font.glyphs.contains_key("A.alt2"));
    assert!(matches!(p.update(add("A2", Some((65, None)))), Err(ProjectError::AlreadyContainsGlyphMapping)));
    assert!(matches!(p.update(add("B", Some((66, Some("x"))))), Err(ProjectError::NoBaseGlyphMapping)));
    assert!(p.font.mappings.get(&66).is_none());
    assert!(p.font.glyphs.contains_key("B"));
}

#[test]
fn add_glyphs_stops_at_the_first_failure() {
    let mut p = Project::default();
    p.update(add("A", None)).unwrap();
    let adds = vec![
        AddGlyph { name: "B".to_string(), mapping: None },
        AddGlyph { name: "A".to_string(), mapping: None },
        AddGlyph { name: "C".to_string(), mapping: None },
    ];
    assert!(matches!(p.update(Action::AddGlyphs(adds)), Err(ProjectError::GlyphExists)));
    assert!(p.font.glyphs.contains_key("B"));
    assert!(!p.font.glyphs.contains_key("C"));
}

#[test]
fn add_glyph_set_adds_named_glyphs() {
    let mut p = Project::default();
    p.update(Action::AddGlyphSet(GlyphSet::Numbers)).unwrap();
    assert_eq!(p.font.glyphs.len(), 10);
    assert_eq!(p.font.mappings.get(&48).unwrap().glyph, "zero");
    assert_eq!(p.font.mappings.get(&57).unwrap().glyph, "nine");
}

#[test]
fn metadata_and_extra_data_change() {
    let mut p = Project::default();
    p.update(set_metadata_fn(SetMetadata::SetName("N".to_string()))).unwrap();
    p.update(Action::Metadata(SetMetadata::SetFamily("Fam".to_string()))).unwrap();
    assert_eq!(p.font.metadata.name, "N");
    assert_eq!(p.font.metadata.family.as_deref(), Some("Fam"));

    p.update(extra_msg(Extra::Add { key: "k".to_string(), value: "v".to_string() })).unwrap();
    p.update(extra_msg(Extra::Add { key: "j".to_string(), value: "w".to_string() })).unwrap();
    p.update(extra_msg(Extra::RenameKey { old: "k".to_string(), new: "k2".to_string() })).unwrap();
    let keys: Vec<_> = p.font.metadata.extra.keys().cloned().collect();
    assert_eq!(keys, vec!["k2", "j"]);
    p.update(extra_msg(Extra::SetValue { key: "j".to_string(), value: "x".to_string() })).unwrap();
    assert_eq!(p.font.metadata.extra.get("j").unwrap(), "x");
    p.update(extra_msg(Extra::Remove { key: "k2".to_string() })).unwrap();
    let keys: Vec<_> = p.font.metadata.extra.keys().cloned().collect();
    assert_eq!(keys, vec!["j"]);
}

#[test]
fn metrics_and_guidelines_change() {
    let mut p = Project::default();
    p.update(Action::Metrics(SetMetrics::SetAscender(10))).unwrap();
    p.update(Action::Metrics(SetMetrics::SetMonoAdvance(Some(6)))).unwrap();
    assert_eq!(p.font.metrics.ascender, 10);
    assert_eq!(p.font.metrics.mono_advance, Some(6));
    let g = |a| Action::Metrics(SetMetrics::Guideline(Direction::X, a));
    p.update(g(GuidelineAction::Create { name: "a".to_string(), position: 1 })).unwrap();
    p.update(g(GuidelineAction::Create { name: "b".to_string(), position: 2 })).unwrap();
    p.update(g(GuidelineAction::SetName { index: 0, name: "c".to_string() })).unwrap();
    p.update(g(GuidelineAction::SetPosition { index: 1, position: 9 })).unwrap();
    p.update(g(GuidelineAction::SetDirection { index: 0, direction: Direction::Y })).unwrap();
    let gl = &p.font.metrics.guidelines;
    assert_eq!((gl.x.len(), gl.y.len()), (1, 1));
    assert_eq!((gl.x[0].name.as_str(), gl.x[0].position), ("b", 9));
    assert_eq!((gl.y[0].name.as_str(), gl.y[0].position), ("c", 1));
    p.update(g(GuidelineAction::Remove { index: 0 })).unwrap();
    assert!(p.font.metrics.guidelines.x.is_empty());
}

#[test]
fn glyph_actions_need_the_glyph() {
    let mut p = Project::default();
    assert!(matches!(
        p.update(GlyphAction::SetAdvance(3).with_glyph("A".to_string())),
        Err(ProjectError::GlyphMissing)
    ));
    p.update(add("A", None)).unwrap();
    p.update(GlyphAction::SetAdvance(3).with_glyph("A".to_string())).unwrap();
    p.update(
        GlyphAction::Extra(Extra::Add { key: "x".to_string(), value: "1".to_string() }).with_glyph("A".to_string()),
    )
    .unwrap();
    p.update(
        GlyphAction::Guideline(Direction::Y, GuidelineAction::Create { name: "g".to_string(), position: 4 })
            .with_glyph("A".to_string()),
    )
    .unwrap();
    let a = p.font.glyphs.get("A").unwrap();
    assert_eq!(a.advance, 3);
    assert_eq!(a.extra.get("x").unwrap(), "1");
    assert_eq!(a.guidelines.y[0].position, 4);
}

#[test]
fn saving_needs_a_path_and_clears_the_dirty_mark() {
    let mut p = Project::default();
    assert!(matches!(p.update(Action::ExportPath), Err(ProjectError::NoPath)));
    match p.update(Action::Export("out.json".to_string(), Exporter::Pentacom)) {
        Ok(Effect::Export(path, Exporter::Pentacom)) => assert_eq!(path, "out.json"),
        _ => panic!("expected an export"),
    }
    p.exported("out.json".to_string(), Exporter::Pentacom);
    assert!(p.is_dirty());
    assert!(p.path().is_none());
    p.exported("f.pxfproj".to_string(), Exporter::Project);
    assert!(!p.is_dirty());
    assert_eq!(p.path().unwrap(), "f.pxfproj");
    match p.update(Action::ExportPath) {
        Ok(Effect::Export(path, Exporter::Project)) => assert_eq!(path, "f.pxfproj"),
        _ => panic!("expected an export"),
    }
    assert!(p.is_dirty());
}

#[test]
fn import_and_new_reset_the_project() {
    let mut p = Project::default();
    match p.update(Action::Import("a.json".to_string())) {
        Ok(Effect::Import(path)) => assert_eq!(path, "a.json"),
        _ => panic!("expected an import"),
    }
    let mut font = Font::default();
    font.metadata.name = "I".to_string();
    assert_eq!(p.imported("a.json".to_string(), font), Response::Reset);
    assert!(!p.is_dirty());
    assert_eq!(p.font.metadata.name, "I");
    assert!(matches!(p.update(Action::New), Ok(Effect::Respond(Response::Reset))));
    assert!(p.is_dirty());
    assert_eq!(p.font.metadata.name, "");
}

#[test]
fn accepts_checks_indexes_keys_and_support() {
    let mut p = Project::default();
    let g = |a| Action::Metrics(SetMetrics::Guideline(Direction::X, a));
    assert!(!p.accepts(&g(GuidelineAction::Remove { index: 0 })));
    assert!(p.accepts(&g(GuidelineAction::Create { name: "a".to_string(), position: 1 })));
    p.update(g(GuidelineAction::Create { name: "a".to_string(), position: 1 })).unwrap();
    assert!(p.accepts(&g(GuidelineAction::Remove { index: 0 })));
    assert!(!p.accepts(&g(GuidelineAction::SetName { index: 1, name: "b".to_string() })));

    assert!(!p.accepts(&extra_msg(Extra::RenameKey { old: "k".to_string(), new: "n".to_string() })));
    p.update(extra_msg(Extra::Add { key: "k".to_string(), value: "v".to_string() })).unwrap();
    p.update(extra_msg(Extra::Add { key: "j".to_string(), value: "w".to_string() })).unwrap();
    assert!(p.accepts(&extra_msg(Extra::RenameKey { old: "k".to_string(), new: "n".to_string() })));
    assert!(p.accepts(&extra_msg(Extra::RenameKey { old: "k".to_string(), new: "k".to_string() })));
    assert!(!p.accepts(&extra_msg(Extra::RenameKey { old: "k".to_string(), new: "j".to_string() })));

    // A missing glyph is reported by `update`, so the action is accepted.
    assert!(p.accepts(&GlyphAction::Rename("B".to_string()).with_glyph("A".to_string())));
    p.update(add("A", None)).unwrap();
    assert!(!p.accepts(&GlyphAction::Rename("B".to_string()).with_glyph("A".to_string())));
    assert!(p.accepts(&GlyphAction::SetAdvance(2).with_glyph("A".to_string())));

    assert!(!p.accepts(&Action::AddGlyphSet(GlyphSet::Punctuation)));
    assert!(p.accepts(&Action::New));
}
