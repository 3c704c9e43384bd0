use pixfont::formats::pxfproj::v0::{File, Pixels as FilePixels, EXPORTER, VERSION};
use pixfont::{CodepointMapping, Font, Glyph, Pixels, Point};

fn pixels(points: &[(i32, i32)]) -> Pixels {
    Pixels::from_points(points.iter().map(|&(x, y)| Point::new(x, y)).collect())
}

#[test]
fn drawing_covers_the_bounding_box_and_one_more() {
    let drawn = FilePixels::from_pixels(&pixels(&[(0, 0), (1, 1)]));
    assert_eq!((drawn.min_x, drawn.min_y, drawn.max_x, drawn.max_y), (0, 0, 2, 2));
    assert_eq!(drawn.pixels, "...\n.X.\nX..\n");
    assert_eq!((drawn.width(), drawn.height()), (3, 3));
    let back = drawn.to_pixels();
    let mut points = back.pixels();
    points.sort_by_key(|p| (p.x, p.y));
    assert_eq!(points, vec![Point::new(0, 0), Point::new(1, 1)]);
}

#[test]
fn drawing_of_no_pixels_is_one_cell() {
    let drawn = FilePixels::from_pixels(&Pixels::new());
    assert_eq!(drawn.pixels, ".\n");
    assert!(drawn.to_pixels().pixels().is_empty());
}

#[test]
fn reading_starts_later_rows_at_column_zero() {
    let drawn = FilePixels::from_pixels(&pixels(&[(-1, 0)]));
    assert_eq!((drawn.min_x, drawn.max_x, drawn.min_y, drawn.max_y), (-1, 0, 0, 1));
    assert_eq!(drawn.pixels, "..\nX.\n");
    assert_eq!(drawn.to_pixels().pixels(), vec![Point::new(0, 0)]);
}

#[test]
fn reading_skips_other_characters() {
    let drawn = FilePixels { min_x: 0, min_y: 0, max_x: 1, max_y: 1, pixels: "X.\n.X\n\n".to_string() };
    let mut points = drawn.to_pixels().pixels();
    points.sort_by_key(|p| (p.x, p.y));
    assert_eq!(points, vec![Point::new(0, 1), Point::new(1, 0)]);
}

#[test]
fn file_reads_back_as_the_font() {
    let mut font = Font::default();
    font.metadata.name = "F".to_string();
    font.metrics.ascender = 7;
    let mut a = Glyph::default();
    a.name = "A".to_string();
    a.advance = 3;
    a.pixels = pixels(&[(0, 0), (2, 5)]);
    font.glyphs.insert("A".to_string(), a);
    font.mappings.insert(65, CodepointMapping::new("A"));
    let mut alt = CodepointMapping::new("A");
    alt.alternate.insert("alt".to_string(), "A".to_string());
    font.mappings.insert(66, alt);

    let file = File::from_font(font.clone());
    assert_eq!(file.version, VERSION);
    assert_eq!(file.exporter.as_deref(), Some(EXPORTER));
    assert_eq!(file.glyphs.len(), 1);
    assert!(matches!(file.mappings[0].1, pixfont::formats::pxfproj::v0::Mapping::Single(_)));
    assert!(matches!(file.mappings[1].1, pixfont::formats::pxfproj::v0::Mapping::Multiple { .. }));

    let back = file.into_font();
    assert_eq!(back.metadata.name, "F");
    assert_eq!(back.metrics.ascender, 7);
    let g = back.glyphs.get("A").unwrap();
    assert_eq!(g.name, "A");
    assert_eq!(g.advance, 3);
    let mut points = g.pixels.pixels();
    points.sort_by_key(|p| (p.x, p.y));
    assert_eq!(points, vec![Point::new(0, 0), Point::new(2, 5)]);
    assert_eq!(back.mappings.get(&66).unwrap().alternate.get("alt").unwrap(), "A");
    assert!(back.mappings.get(&65).unwrap().alternate.is_empty());
}
