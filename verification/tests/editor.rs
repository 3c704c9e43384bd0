use pixfont::studio::editor::Editor;
use pixfont::studio::guidelines::{GlyphProp, GuidelineAction, GuidelineDirection, GuidelineScope};
use pixfont::studio::tools::{bresenham, Delta, Pointer, Release, Tool, ToolState};
use pixfont::{Font, Glyph, Pixels, Point};

fn font_with_glyph() -> Font {
    let mut font = Font::default();
    let mut a = Glyph::default();
    a.name = "A".to_string();
    font.glyphs.insert("A".to_string(), a);
    font
}

fn pixels(points: &[(i32, i32)]) -> Pixels {
    Pixels::from_points(points.iter().map(|&(x, y)| Point::new(x, y)).collect())
}

fn sorted(p: &Pixels) -> Vec<(i32, i32)> {
    let mut v: Vec<_> = p.pixels().into_iter().map(|p| (p.x, p.y)).collect();
    v.sort();
    v
}

#[test]
fn bresenham_steps_along_the_longer_axis() {
    let points: Vec<_> = bresenham(Point::new(0, 0), Point::new(4, 2)).into_iter().map(|p| (p.x, p.y)).collect();
    assert_eq!(points, vec![(0, 0), (1, 1), (2, 1), (3, 2), (4, 2)]);
    let points: Vec<_> = bresenham(Point::new(0, 0), Point::new(-1, -3)).into_iter().map(|p| (p.x, p.y)).collect();
    assert_eq!(points, vec![(0, 0), (0, -1), (-1, -2), (-1, -3)]);
    assert_eq!(bresenham(Point::new(5, 5), Point::new(5, 5)).len(), 1);
}

#[test]
fn apply_undo_redo() {
    let mut font = font_with_glyph();
    font.glyphs.get_mut("A").unwrap().pixels.set(Point::new(9, 9), true);
    let mut editor = Editor::new();
    assert_eq!(editor.tool(), Tool::Pen);
    editor.select_glyph(Some("A".to_string()));
    assert_eq!(editor.glyph_name().unwrap(), "A");

    editor.apply(Delta { add: pixels(&[(0, 0), (1, 1)]), remove: pixels(&[(9, 9)]) }, &mut font);
    assert_eq!(sorted(&font.glyphs["A"].pixels), vec![(0, 0), (1, 1)]);
    editor.undo(&mut font);
    assert_eq!(sorted(&font.glyphs["A"].pixels), vec![(9, 9)]);
    editor.undo(&mut font);
    assert_eq!(sorted(&font.glyphs["A"].pixels), vec![(9, 9)]);
    editor.redo(&mut font);
    assert_eq!(sorted(&font.glyphs["A"].pixels), vec![(0, 0), (1, 1)]);
    editor.redo(&mut font);
    assert_eq!(sorted(&font.glyphs["A"].pixels), vec![(0, 0), (1, 1)]);
    editor.set_tool(Tool::Eraser);
    assert_eq!(editor.tool(), Tool::Eraser);
}

#[test]
fn glyph_props_set_the_glyph_or_the_font() {
    let mut font = font_with_glyph();
    let mut editor = Editor::new();
    editor.select_glyph(Some("A".to_string()));
    editor.set_glyph_prop(&mut font, GlyphProp::Advance(7));
    editor.set_glyph_prop(&mut font, GlyphProp::Ascender(11));
    editor.set_glyph_prop(&mut font, GlyphProp::XHeight(5));
    assert_eq!(font.glyphs["A"].advance, 7);
    assert_eq!(font.metrics.ascender, 11);
    assert_eq!(font.metrics.x_height, 5);
}

#[test]
fn guidelines_move_between_scopes_and_axes() {
    let mut font = font_with_glyph();
    let mut editor = Editor::new();
    editor.select_glyph(Some("A".to_string()));
    editor.set_guideline(&mut font, GuidelineAction::Create);
    assert_eq!(font.glyphs["A"].guidelines.x.len(), 1);
    assert_eq!(font.glyphs["A"].guidelines.x[0].position, 16);
    editor.set_guideline(
        &mut font,
        GuidelineAction::Rename {
            scope: GuidelineScope::Local,
            direction: GuidelineDirection::X,
            index: 0,
            name: "n".to_string(),
        },
    );
    editor.set_guideline(&mut font, GuidelineAction::MakeGlobal { direction: GuidelineDirection::X, index: 0 });
    assert!(font.glyphs["A"].guidelines.x.is_empty());
    assert_eq!(font.metrics.guidelines.x[0].name, "n");
    editor.set_guideline(&mut font, GuidelineAction::MakeY { scope: GuidelineScope::Global, index: 0 });
    assert_eq!(font.metrics.guidelines.y[0].name, "n");
    editor.set_guideline(
        &mut font,
        GuidelineAction::SetPosition {
            scope: GuidelineScope::Global,
            direction: GuidelineDirection::Y,
            index: 0,
            position: -3,
        },
    );
    editor.set_guideline(&mut font, GuidelineAction::MakeLocal { direction: GuidelineDirection::Y, index: 0 });
    assert_eq!(font.glyphs["A"].guidelines.y[0].position, -3);
    editor.set_guideline(&mut font, GuidelineAction::MakeX { scope: GuidelineScope::Local, index: 0 });
    editor.set_guideline(
        &mut font,
        GuidelineAction::Remove { scope: GuidelineScope::Local, direction: GuidelineDirection::X, index: 0 },
    );
    assert!(font.glyphs["A"].guidelines.x.is_empty() && font.glyphs["A"].guidelines.y.is_empty());
}

#[test]
fn rectangle_tool_draws_an_outline_or_a_fill() {
    let outline = ToolState::Rectangle { start: Point::new(0, 0), end: Point::new(2, 2), fill: false }.delta();
    assert_eq!(sorted(&outline.add).len(), 8);
    assert!(!outline.add.get(Point::new(1, 1)));
    let filled = ToolState::Rectangle { start: Point::new(2, 2), end: Point::new(0, 0), fill: true }.delta();
    assert_eq!(sorted(&filled.add).len(), 9);
    assert!(ToolState::Idle.delta().add.pixels().is_empty());
}

#[test]
fn pointer_drags_draw_and_release_applies() {
    let mut pointer = Pointer::new();
    pointer.pressed(Tool::Line, Point::new(0, 0));
    pointer.moved(Some(Point::new(2, 0)));
    pointer.moved(None);
    match pointer.released() {
        Release::Apply(delta) => assert_eq!(sorted(&delta.add), vec![(0, 0), (1, 0), (2, 0)]),
        _ => panic!("expected a change"),
    }
    assert!(matches!(pointer.released(), Release::Nothing));

    pointer.pressed(Tool::Pen, Point::new(5, 5));
    pointer.moved(Some(Point::new(1, 1)));
    pointer.moved(Some(Point::new(1, 2)));
    match pointer.released() {
        Release::Apply(delta) => assert_eq!(sorted(&delta.add), vec![(1, 1), (1, 2)]),
        _ => panic!("expected a change"),
    }

    pointer.pressed(Tool::Eraser, Point::new(0, 0));
    pointer.moved(Some(Point::new(4, 4)));
    match pointer.released() {
        Release::Apply(delta) => assert_eq!(sorted(&delta.remove), vec![(4, 4)]),
        _ => panic!("expected a change"),
    }

    pointer.pressed(Tool::Pan, Point::new(0, 0));
    assert!(matches!(pointer.released(), Release::Pan));
}

#[test]
fn space_bar_pans_and_restores_the_tool() {
    let mut pointer = Pointer::new();
    assert_eq!(pointer.space_pressed(Tool::Line, false), Some(Tool::Pan));
    assert_eq!(pointer.space_pressed(Tool::Pan, true), None);
    assert_eq!(pointer.space_released(), Tool::Line);
    assert_eq!(pointer.space_released(), Tool::Pan);
}
