use sprite_engine::types::{Point, Rect, Size, Vec2};

#[test]
fn vec2_add_sub_neg() {
    let a = Vec2 { x: 3, y: -4 };
    let b = Vec2 { x: 10, y: 7 };
    assert_eq!(a.add(b), Vec2 { x: 13, y: 3 });
    assert_eq!(a.sub(b), Vec2 { x: -7, y: -11 });
    assert_eq!(a.neg(), Vec2 { x: -3, y: 4 });
}

#[test]
fn vec2_mul_div() {
    let a = Vec2 { x: 6, y: -9 };
    assert_eq!(a.mul(3), Vec2 { x: 18, y: -27 });
    // Division truncates toward zero on both signs.
    let b = Vec2 { x: 7, y: -7 };
    assert_eq!(b.div(2), Vec2 { x: 3, y: -3 });
    assert_eq!(b.div(-2), Vec2 { x: -3, y: 3 });
}

#[test]
fn size_ops() {
    let s = Size { w: 8, h: -6 };
    assert_eq!(s.neg(), Size { w: -8, h: 6 });
    assert_eq!(s.mul(2), Size { w: 16, h: -12 });
    assert_eq!(s.div(3), Size { w: 2, h: -2 });
    assert_eq!(s.to_point(), Point { x: 8, y: -6 });
}

#[test]
fn point_ops() {
    let p = Point { x: 1, y: 2 };
    assert_eq!(p.add(Size { w: 10, h: 20 }), Point { x: 11, y: 22 });
    assert_eq!(p.to_size(), Size { w: 1, h: 2 });
}

#[test]
fn rect_corners_and_center() {
    let r = Rect { x: 10, y: 20, w: 30, h: 41 };
    assert_eq!(r.point_left_bottom(), Vec2 { x: 10, y: 20 });
    assert_eq!(r.point_right_top(), Vec2 { x: 40, y: 61 });
    assert_eq!(r.point_center(), Vec2 { x: 25, y: 40 });
    assert_eq!(r.size(), Vec2 { x: 30, y: 41 });
}

#[test]
fn rect_constructors() {
    let r = Rect::from_start_size(Vec2 { x: 5, y: 6 }, Vec2 { x: 7, y: 8 });
    assert_eq!(r, Rect { x: 5, y: 6, w: 7, h: 8 });
    let c = Rect::from_center_size(Vec2 { x: 100, y: 100 }, Vec2 { x: 200, y: 200 });
    assert_eq!(c, Rect { x: 0, y: 0, w: 200, h: 200 });
}

#[test]
fn rect_center_round_trip() {
    // Rebuilding a rectangle from its own center and size returns it
    // exactly, including odd sizes.
    let r = Rect { x: -3, y: 9, w: 31, h: 17 };
    let back = Rect::from_center_size(r.point_center(), r.size());
    assert_eq!(back, r);
}

#[test]
fn rect_transform_translates() {
    let r = Rect { x: 1, y: 2, w: 3, h: 4 };
    assert_eq!(r.transform(Vec2 { x: 10, y: -20 }), Rect { x: 11, y: -18, w: 3, h: 4 });
}

#[test]
fn rect_scaling_about_center() {
    let r = Rect { x: 0, y: 0, w: 100, h: 100 };
    let up = r.scale_up(3);
    assert_eq!(up, Rect { x: -100, y: -100, w: 300, h: 300 });
    assert_eq!(up.point_center(), r.point_center());
    let down = r.scale_down(2);
    assert_eq!(down, Rect { x: 25, y: 25, w: 50, h: 50 });
    assert_eq!(down.point_center(), r.point_center());
}

#[test]
fn rect_collides_overlap_and_disjoint() {
    let a = Rect { x: 0, y: 0, w: 10, h: 10 };
    assert!(a.collides(&Rect { x: 5, y: 5, w: 10, h: 10 }));
    assert!(!a.collides(&Rect { x: 10, y: 0, w: 5, h: 5 })); // touching edges do not overlap
    assert!(!a.collides(&Rect { x: -20, y: 0, w: 10, h: 10 }));
    // A zero-size rectangle strictly inside still passes the strict
    // inequality test; on the boundary it does not.
    assert!(a.collides(&Rect { x: 5, y: 5, w: 0, h: 0 }));
    assert!(!a.collides(&Rect { x: 10, y: 5, w: 0, h: 0 }));
}
