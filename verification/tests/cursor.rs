use topdown::cursor::{system, Cursor};
use topdown::geometry::Point;

#[test]
fn cursor_starts_at_the_origin() {
    assert_eq!(Cursor::default().pos, Point { x: 0, y: 0 });
}

#[test]
fn sample_replaces_the_cursor() {
    let mut cursor = Cursor::default();
    system(&mut cursor, Some(Point { x: 500_000_000, y: 300_000_000 }));
    assert_eq!(cursor.pos, Point { x: 500_000_000, y: 300_000_000 });
    system(&mut cursor, Some(Point { x: -1, y: 2 }));
    assert_eq!(cursor.pos, Point { x: -1, y: 2 });
}

#[test]
fn cursor_unavailable_leaves_the_position() {
    let mut cursor = Cursor { pos: Point { x: 500_000_000, y: 300_000_000 } };
    system(&mut cursor, None);
    assert_eq!(cursor.pos, Point { x: 500_000_000, y: 300_000_000 });
    system(&mut cursor, None);
    assert_eq!(cursor.pos, Point { x: 500_000_000, y: 300_000_000 });

    let mut cursor = Cursor::default();
    system(&mut cursor, None);
    assert_eq!(cursor, Cursor::default());
}
