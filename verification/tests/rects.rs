use libremarkable::{mxcfb_rect, Point2, Vector2};

fn rect(left: u32, top: u32, width: u32, height: u32) -> mxcfb_rect {
    mxcfb_rect { top, left, width, height }
}

#[test]
fn corner_and_size_round_trip() {
    let r = rect(10, 20, 30, 40);
    assert_eq!(r.top_left(), Point2 { x: 10, y: 20 });
    assert_eq!(r.size(), Vector2 { x: 30, y: 40 });
    assert_eq!(mxcfb_rect::from(r.top_left(), r.size()), r);
    let p = Point2 { x: 3, y: 4 };
    let s = Vector2 { x: 5, y: 6 };
    let built = mxcfb_rect::from(p, s);
    assert_eq!(built, rect(3, 4, 5, 6));
    assert_eq!(built.top_left(), p);
    assert_eq!(built.size(), s);
}

#[test]
fn invalid_and_default() {
    assert_eq!(mxcfb_rect::invalid(), rect(9999, 9999, 0, 0));
    assert_eq!(mxcfb_rect::default(), rect(0, 0, 0, 0));
}

#[test]
fn contains_point_includes_edges() {
    let r = rect(10, 20, 30, 40);
    assert!(r.contains_point(&Point2 { x: 10, y: 20 }));
    assert!(r.contains_point(&Point2 { x: 40, y: 60 }));
    assert!(r.contains_point(&Point2 { x: 25, y: 30 }));
    assert!(!r.contains_point(&Point2 { x: 9, y: 30 }));
    assert!(!r.contains_point(&Point2 { x: 41, y: 30 }));
    assert!(!r.contains_point(&Point2 { x: 25, y: 19 }));
    assert!(!r.contains_point(&Point2 { x: 25, y: 61 }));
}

#[test]
fn contains_rect_checks_both_corners() {
    let r = rect(10, 20, 30, 40);
    assert!(r.contains_rect(&r));
    assert!(r.contains_rect(&rect(15, 25, 5, 5)));
    assert!(!r.contains_rect(&rect(15, 25, 50, 5)));
    assert!(!r.contains_rect(&rect(5, 25, 5, 5)));
    // a far-away rectangle whose far edges would not fit is simply not contained
    assert!(!r.contains_rect(&rect(u32::MAX, u32::MAX, 10, 10)));
}

#[test]
fn merge_pixel_grows_to_the_pixel() {
    let r = rect(10, 20, 30, 40);
    assert_eq!(r.merge_pixel(&Point2 { x: 5, y: 70 }), rect(5, 20, 35, 50));
    assert_eq!(r.merge_pixel(&Point2 { x: 50, y: 10 }), rect(10, 10, 40, 50));
    assert_eq!(r.merge_pixel(&Point2 { x: 15, y: 25 }), r);
    let m = r.merge_pixel(&Point2 { x: 100, y: 0 });
    assert!(m.contains_point(&Point2 { x: 100, y: 0 }));
    assert!(m.contains_rect(&r));
}

#[test]
fn merge_rect_bounding_box() {
    let a = rect(10, 20, 30, 40);
    let b = rect(35, 5, 100, 10);
    let m = a.merge_rect(&b);
    assert_eq!(m, rect(10, 5, 125, 55));
    assert_eq!(b.merge_rect(&a), m);
    assert!(m.contains_rect(&a));
    assert!(m.contains_rect(&b));
}

#[test]
fn merge_rect_with_empty_regions() {
    let a = rect(10, 20, 30, 40);
    let empty_w = rect(1, 2, 0, 5);
    let empty_h = rect(3, 4, 5, 0);
    assert_eq!(a.merge_rect(&empty_w), a);
    assert_eq!(empty_h.merge_rect(&a), a);
    assert_eq!(empty_w.merge_rect(&empty_h), mxcfb_rect::invalid());
    assert_eq!(mxcfb_rect::invalid().merge_rect(&a), a);
    assert_eq!(a.merge_rect(&mxcfb_rect::invalid()), a);
}

#[test]
fn merge_rect_is_smallest() {
    let a = rect(10, 20, 30, 40);
    let b = rect(35, 5, 100, 10);
    let c = rect(0, 0, 200, 200);
    assert!(c.contains_rect(&a) && c.contains_rect(&b));
    assert!(c.contains_rect(&a.merge_rect(&b)));
}

#[test]
fn expand_adds_margin() {
    let r = rect(10, 20, 30, 40);
    assert_eq!(r.expand(5), rect(5, 15, 40, 50));
    assert!(r.expand(5).contains_rect(&r));
}

#[test]
fn expand_stops_at_screen_edge() {
    let r = rect(10, 20, 30, 40);
    assert_eq!(r.expand(10), rect(0, 10, 50, 60));
    assert_eq!(r.expand(25), rect(0, 0, 80, 90));
    assert!(r.expand(25).contains_rect(&r));
    assert_eq!(r.expand(0), r);
}

#[test]
fn contains_point_near_the_end_of_the_range() {
    // the right edge of this rectangle does not fit in 32 bits, but a point
    // left of it is told apart before that edge is needed
    let r = rect(u32::MAX - 1, 0, 10, 10);
    assert!(!r.contains_point(&Point2 { x: 0, y: 5 }));
    let tall = rect(0, u32::MAX - 1, 10, 10);
    assert!(!tall.contains_point(&Point2 { x: 20, y: u32::MAX }));
    assert!(!tall.contains_point(&Point2 { x: 5, y: 0 }));
}
