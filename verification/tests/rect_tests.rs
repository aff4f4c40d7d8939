use winc::rect_extensions::{
    FromCorners, HasBottom, HasBottomLeft, HasBottomRight, HasHeight, HasLeft, HasRight, HasTop,
    HasTopLeft, HasTopRight, HasWidth, Rect, Translatable,
};

#[test]
fn edge_accessors_return_the_fields() {
    let r = Rect { left: -3, top: 4, right: 10, bottom: 24 };
    assert_eq!(r.left(), -3);
    assert_eq!(r.top(), 4);
    assert_eq!(r.right(), 10);
    assert_eq!(r.bottom(), 24);
}

#[test]
fn width_and_height_come_from_the_edges() {
    let r = Rect { left: -3, top: 4, right: 10, bottom: 24 };
    assert_eq!(r.width(), 13);
    assert_eq!(r.height(), 20);
}

#[test]
fn corners_pair_the_edges() {
    let r = Rect { left: 1, top: 2, right: 3, bottom: 4 };
    assert_eq!(r.top_left(), (1, 2));
    assert_eq!(r.top_right(), (3, 2));
    assert_eq!(r.bottom_left(), (1, 4));
    assert_eq!(r.bottom_right(), (3, 4));
}

#[test]
fn from_corners_orders_the_coordinates() {
    let r = Rect::from_corners((10, 2), (3, 40));
    assert_eq!(r, Rect { left: 3, top: 2, right: 10, bottom: 40 });
    let same = Rect::from_corners((3, 2), (10, 40));
    assert_eq!(same, r);
}

#[test]
fn translate_moves_every_edge() {
    let r = Rect { left: 0, top: 0, right: 100, bottom: 50 };
    let moved = r.translate(7, -3);
    assert_eq!(moved, Rect { left: 7, top: -3, right: 107, bottom: 47 });
    let p = (5, 6).translate(1, 2);
    assert_eq!(p, (6, 8));
}

#[test]
fn corner_translation_builds_sub_regions() {
    let monitor = Rect { left: 0, top: 0, right: 1920, bottom: 1080 };
    let p0 = monitor.top_left();
    let p1 = p0.translate(100, 100);
    let region = Rect::from_corners(p0, p1);
    assert_eq!(region, Rect { left: 0, top: 0, right: 100, bottom: 100 });
    assert_eq!(region.width(), 100);
    assert_eq!(region.height(), 100);
}
