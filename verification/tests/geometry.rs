use shape_editor::events::Point;
use shape_editor::objects::{Cursor, Edge, EdgeKind, Object, Rect};
use shape_editor::renderer::DrawCmd;

#[test]
fn rect_new_is_order_independent() {
    let a = Point { x: 30, y: 5 };
    let b = Point { x: 3, y: 20 };
    let r1 = Rect::new(a, b);
    let r2 = Rect::new(b, a);
    assert_eq!(r1, r2);
    assert!(r1.width >= 0 && r1.height >= 0);
}

#[test]
fn rect_new_normalizes() {
    let r = Rect::new(Point { x: 10, y: 20 }, Point { x: 3, y: 5 });
    assert_eq!(r, Rect { x: 3, y: 5, width: 7, height: 15 });
}

#[test]
fn rect_from_center() {
    let r = Rect::from_center(Point { x: 10, y: 10 }, 8, 8);
    assert_eq!(r, Rect { x: 6, y: 6, width: 8, height: 8 });
}

#[test]
fn rect_corners() {
    let r = Rect::new(Point { x: 1, y: 2 }, Point { x: 11, y: 22 });
    assert_eq!(r.top_left(), Point { x: 1, y: 2 });
    assert_eq!(r.top_right(), Point { x: 11, y: 2 });
    assert_eq!(r.bottom_right(), Point { x: 11, y: 22 });
    assert_eq!(r.bottom_left(), Point { x: 1, y: 22 });
}

#[test]
fn set_top_keeps_bottom() {
    let mut r = Rect::new(Point { x: 0, y: 10 }, Point { x: 20, y: 40 });
    let bottom_before = r.bottom();
    r.set_top(25);
    assert_eq!(r.top(), 25);
    assert_eq!(r.bottom(), bottom_before);
}

#[test]
fn set_bottom_keeps_top() {
    let mut r = Rect::new(Point { x: 0, y: 10 }, Point { x: 20, y: 40 });
    let top_before = r.top();
    r.set_bottom(35);
    assert_eq!(r.bottom(), 35);
    assert_eq!(r.top(), top_before);
}

#[test]
fn set_left_keeps_right() {
    let mut r = Rect::new(Point { x: 10, y: 0 }, Point { x: 40, y: 20 });
    let right_before = r.right();
    r.set_left(20);
    assert_eq!(r.left(), 20);
    assert_eq!(r.right(), right_before);
}

#[test]
fn set_right_keeps_left() {
    let mut r = Rect::new(Point { x: 10, y: 0 }, Point { x: 40, y: 20 });
    let left_before = r.left();
    r.set_right(15);
    assert_eq!(r.right(), 15);
    assert_eq!(r.left(), left_before);
}

#[test]
fn resize_past_opposite_corner_stays_normalized() {
    let mut r = Rect::new(Point { x: 0, y: 0 }, Point { x: 10, y: 10 });
    let edge = Edge::new(Point { x: 0, y: 0 }, EdgeKind::TopLeft);
    r.resize(Point { x: 25, y: 30 }, edge);
    assert_eq!(r, Rect { x: 10, y: 10, width: 15, height: 20 });
    assert!(r.width >= 0 && r.height >= 0);
}

#[test]
fn resize_moves_only_the_dragged_corner() {
    let mut r = Rect::new(Point { x: 0, y: 0 }, Point { x: 20, y: 20 });
    let edge = Edge::new(Point { x: 20, y: 20 }, EdgeKind::BottomRight);
    r.resize(Point { x: 30, y: 25 }, edge);
    assert_eq!(r, Rect { x: 0, y: 0, width: 30, height: 25 });
}

#[test]
fn containment_includes_boundary() {
    let r = Rect::new(Point { x: 0, y: 0 }, Point { x: 10, y: 10 });
    assert!(r.is_point_over(Point { x: 0, y: 0 }));
    assert!(r.is_point_over(Point { x: 10, y: 10 }));
    assert!(r.is_point_over(Point { x: 5, y: 5 }));
    assert!(!r.is_point_over(Point { x: 11, y: 5 }));
    assert!(!r.is_point_over(Point { x: 5, y: -1 }));
}

#[test]
fn edges_come_in_fixed_order() {
    let r = Rect::new(Point { x: 0, y: 0 }, Point { x: 10, y: 10 });
    let object = Object::Rectangle(r);
    let es = object.edges();
    assert_eq!(es.len(), 4);
    assert_eq!(es[0].kind, EdgeKind::TopLeft);
    assert_eq!(es[1].kind, EdgeKind::TopRight);
    assert_eq!(es[2].kind, EdgeKind::BottomRight);
    assert_eq!(es[3].kind, EdgeKind::BottomLeft);
    assert_eq!(es[0].rect, Rect { x: -4, y: -4, width: 8, height: 8 });
    assert_eq!(es[2].rect, Rect { x: 6, y: 6, width: 8, height: 8 });
}

#[test]
fn edge_hit_box_and_drawing() {
    let edge = Edge::new(Point { x: 0, y: 0 }, EdgeKind::TopLeft);
    assert_eq!(edge.rect, Rect { x: -4, y: -4, width: 8, height: 8 });
    assert!(edge.is_point_over(Point { x: 4, y: 4 }));
    assert!(!edge.is_point_over(Point { x: 5, y: 0 }));
    assert_eq!(edge.draw(), DrawCmd::FillRect { rect: edge.rect });
}

#[test]
fn edge_cursors() {
    assert_eq!(Edge::new(Point { x: 0, y: 0 }, EdgeKind::TopLeft).cursor(), Cursor::NwseResize);
    assert_eq!(Edge::new(Point { x: 0, y: 0 }, EdgeKind::TopRight).cursor(), Cursor::NeswResize);
    assert_eq!(
        Edge::new(Point { x: 0, y: 0 }, EdgeKind::BottomRight).cursor(),
        Cursor::NwseResize
    );
    assert_eq!(
        Edge::new(Point { x: 0, y: 0 }, EdgeKind::BottomLeft).cursor(),
        Cursor::NeswResize
    );
}

#[test]
fn grab_and_relocate_follow_the_pointer() {
    let mut r = Rect::new(Point { x: 10, y: 10 }, Point { x: 30, y: 30 });
    let grab = r.grab_point(Point { x: 15, y: 12 });
    assert_eq!(grab, Point { x: 5, y: 2 });
    r.relocate(Point { x: 40, y: 40 }, grab);
    assert_eq!(r, Rect { x: 35, y: 38, width: 20, height: 20 });
}

#[test]
fn corner_setters_keep_the_opposite_corner() {
    let mut r = Rect::new(Point { x: 0, y: 0 }, Point { x: 20, y: 20 });
    r.set_top_left(Point { x: 5, y: 8 });
    assert_eq!(r, Rect { x: 5, y: 8, width: 15, height: 12 });
    let mut r2 = Rect::new(Point { x: 0, y: 0 }, Point { x: 20, y: 20 });
    r2.set_bottom_right(Point { x: 25, y: 30 });
    assert_eq!(r2, Rect { x: 0, y: 0, width: 25, height: 30 });
}
