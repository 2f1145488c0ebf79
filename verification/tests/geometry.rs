use lib::geometry::{Point, Rect};
use lib::host::Font;
use lib::testing::TestHost;

#[test]
fn rects_sharing_a_point_intersect_both_ways() {
    let a = Rect::new(0, 0, 100, 40);
    let b = Rect::new(90, 30, 50, 50);
    let p = Point::new(95, 35);
    assert!(a.contains(p) && b.contains(p));
    assert!(a.intersects(b));
    assert!(b.intersects(a));

    let far = Rect::new(200, 200, 10, 10);
    assert!(!a.intersects(far));
    assert!(!far.intersects(a));
}

#[test]
fn touching_edges_do_not_overlap() {
    let a = Rect::new(0, 0, 100, 40);
    let below = Rect::new(0, 40, 100, 40);
    assert!(!a.intersects(below), "the bottom edge is exclusive");
    assert!(!a.contains(Point::new(50, 40)));
    assert!(a.contains(Point::new(0, 0)), "the top-left corner is inside");
}

#[test]
fn an_empty_rect_contains_nothing() {
    for r in [Rect::new(10, 10, 0, 40), Rect::new(10, 10, 40, 0)] {
        for p in [Point::new(10, 10), Point::new(20, 20), Point::new(0, 0)] {
            assert!(!r.contains(p));
        }
    }
}

#[test]
fn a_face_the_build_lacks_measures_zero() {
    let host = TestHost::new();
    let missing = Font::unavailable();
    assert!(!missing.is_available());
    assert_eq!(missing.line_height(&host), 0);
    assert_eq!(missing.text_width(&host, "anything at all"), 0);

    let ui = Font::ui(&host);
    assert!(ui.is_available());
    assert!(ui.text_width(&host, "abc") > 0);
}
