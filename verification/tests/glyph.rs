use pixfont::{Pixels, Point, Size};

fn pixvec(str: &str, origin: Point) -> Pixels {
    let mut rows: Vec<Vec<bool>> = Vec::new();

    for line in str.split('\n') {
        let mut row = Vec::new();
        for char in line.chars() {
            row.push(char != ' ');
        }

        rows.push(row);
    }

    let width = rows.iter().map(Vec::len).max().unwrap();
    let size = Size::new(width.try_into().unwrap(), rows.len().try_into().unwrap());

    let pixels = rows
        .iter()
        .flat_map(|row| {
            let mut vec = row.clone();
            vec.append(&mut vec![false; width - row.len()]);
            vec
        })
        .collect();

    Pixels::with_pixels(pixels, size, origin)
}

#[test]
fn pixel_thing() {
    let pixels = pixvec(
        r"
  xx
    x
  xxx
 x  x
  xx x
",
        Point::new(0, 0),
    );
    let _ = pixels;
}

#[test]
fn with_pixels_places_rows_top_first() {
    // Two rows of three cells: the first row is the top one.
    let cells = vec![true, false, false, false, false, true];
    let pixels = Pixels::with_pixels(cells, Size::new(3, 2), Point::new(10, 20));
    assert!(pixels.get(Point::new(10, 21)));
    assert!(pixels.get(Point::new(12, 20)));
    assert!(!pixels.get(Point::new(10, 20)));
    assert_eq!(pixels.pixels().len(), 2);
}

#[test]
fn set_then_get_reads_back() {
    let mut pixels = Pixels::new();
    assert!(pixels.set(Point::new(1, 2), true));
    assert!(pixels.get(Point::new(1, 2)));
    assert!(!pixels.set(Point::new(1, 2), true));
    assert!(pixels.set(Point::new(1, 2), false));
    assert!(!pixels.get(Point::new(1, 2)));
    assert!(!pixels.set(Point::new(1, 2), false));
}

#[test]
fn toggle_twice_restores() {
    let mut pixels = Pixels::new();
    pixels.set(Point::new(0, 0), true);
    assert!(pixels.toggle(Point::new(3, 3)));
    assert!(pixels.get(Point::new(3, 3)));
    assert!(pixels.toggle(Point::new(3, 3)));
    assert!(!pixels.get(Point::new(3, 3)));
    assert_eq!(pixels.pixels(), vec![Point::new(0, 0)]);
}

#[test]
fn rect_of_pixels_is_their_bounding_box() {
    let mut pixels = Pixels::new();
    pixels.set(Point::new(-2, 3), true);
    pixels.set(Point::new(4, -1), true);
    let rect = pixels.rect();
    assert_eq!((rect.x, rect.y, rect.width, rect.height), (-2, -1, 7, 5));
    assert_eq!((rect.left(), rect.bottom(), rect.right(), rect.top()), (-2, -1, 5, 4));
    let size = pixels.size();
    assert_eq!((size.width, size.height), (7, 5));
}

#[test]
fn rect_of_no_pixels_is_zero() {
    let rect = Pixels::new().rect();
    assert_eq!((rect.x, rect.y, rect.width, rect.height), (0, 0, 0, 0));
}

#[test]
fn rect_with_points_orders_corners() {
    let r = pixfont::Rect::with_points(Point::new(5, -3), Point::new(1, 4));
    assert_eq!((r.x, r.y, r.width, r.height), (1, -3, 4, 7));
    let s = r.size();
    assert_eq!((s.width, s.height), (4, 7));
    let bl = r.bottom_left();
    assert_eq!((bl.x, bl.y), (1, -3));
}

#[test]
fn em_size_is_ascender_minus_descender() {
    let mut metrics = pixfont::Metrics::default();
    metrics.ascender = 12;
    metrics.descender = -4;
    assert_eq!(metrics.em_size(), 16);
}
