use shape_editor::events::{Event, Point};
use shape_editor::layers::{LayerState, Layers};
use shape_editor::objects::{Cursor, Object, Rect};

fn down(x: i64, y: i64) -> Event {
    Event::MouseDown { point: Point { x, y } }
}

fn mv(x: i64, y: i64) -> Event {
    Event::MouseMove { point: Point { x, y } }
}

fn up(x: i64, y: i64) -> Event {
    Event::MouseUp { point: Point { x, y } }
}

/// Drive one event, checking admissibility the way a host would.
fn send(m: &mut Layers, event: Event) -> shape_editor::layers::EventOutcome {
    assert!(m.can_handle(event));
    m.on_event(event)
}

#[test]
fn press_drag_release_creates_one_layer() {
    let mut m = Layers::new();
    send(&mut m, down(10, 10));
    send(&mut m, mv(30, 40));
    send(&mut m, up(30, 40));
    assert_eq!(m.layers().len(), 1);
    let expected = Rect::new(Point { x: 10, y: 10 }, Point { x: 30, y: 40 });
    assert_eq!(m.layers()[0].object, Object::Rectangle(expected));
    assert!(matches!(*m.active_layer(), Some(LayerState::IdleLayer { layer: 0 })));
}

#[test]
fn press_release_without_drag_creates_nothing() {
    let mut m = Layers::new();
    send(&mut m, down(5, 5));
    send(&mut m, up(5, 5));
    assert_eq!(m.layers().len(), 0);
    assert!(m.active_layer().is_none());
    assert!(m.outlined_layer().is_none());
}

#[test]
fn press_redraws_release_does_not() {
    let mut m = Layers::new();
    let press = send(&mut m, down(5, 5));
    assert!(press.redraw);
    let release = send(&mut m, up(5, 5));
    assert!(!release.redraw);
    assert_eq!(release.cursor, Cursor::Auto);
}

#[test]
fn pressing_a_layer_selects_the_topmost() {
    let mut m = Layers::new();
    // First layer, then a second one created beside it and dragged on top.
    send(&mut m, down(0, 0));
    send(&mut m, mv(40, 40));
    send(&mut m, up(40, 40));
    send(&mut m, down(200, 200));  // deselect on empty space
    send(&mut m, down(50, 50));
    send(&mut m, mv(90, 90));
    send(&mut m, up(90, 90));
    send(&mut m, down(70, 70));  // grab the second layer in its middle
    send(&mut m, mv(50, 50));  // its box becomes (30, 30)..(70, 70)
    send(&mut m, up(50, 50));
    send(&mut m, down(200, 200));  // deselect again
    assert!(m.active_layer().is_none());
    // (35, 35) lies inside both; the later layer wins.
    send(&mut m, down(35, 35));
    assert!(matches!(*m.active_layer(), Some(LayerState::IdleLayer { layer: 1 })));
}

#[test]
fn pressing_empty_space_deselects() {
    let mut m = Layers::new();
    send(&mut m, down(0, 0));
    send(&mut m, mv(20, 20));
    send(&mut m, up(20, 20));
    assert!(matches!(*m.active_layer(), Some(LayerState::IdleLayer { layer: 0 })));
    send(&mut m, down(100, 100));
    assert!(m.active_layer().is_none());
}

#[test]
fn corner_press_resizes_the_selected_layer() {
    let mut m = Layers::new();
    send(&mut m, down(0, 0));
    send(&mut m, mv(20, 20));
    send(&mut m, up(20, 20));
    // Press on the top-left corner zone of the selected layer.
    let outcome = send(&mut m, down(1, 1));
    assert!(matches!(*m.active_layer(), Some(LayerState::ResizeLayer { layer: 0, .. })));
    assert_eq!(outcome.cursor, Cursor::NwseResize);
    // Drag the corner; the opposite corner stays fixed.
    send(&mut m, mv(5, 8));
    let expected = Rect::new(Point { x: 5, y: 8 }, Point { x: 20, y: 20 });
    assert_eq!(m.layers()[0].object, Object::Rectangle(expected));
    // The cursor stays locked to the dragged corner, wherever the pointer is.
    let moved = send(&mut m, mv(200, 300));
    assert_eq!(moved.cursor, Cursor::NwseResize);
    send(&mut m, up(5, 8));
    assert!(matches!(*m.active_layer(), Some(LayerState::IdleLayer { layer: 0 })));
}

#[test]
fn inner_press_relocates_the_layer() {
    let mut m = Layers::new();
    send(&mut m, down(0, 0));
    send(&mut m, mv(20, 20));
    send(&mut m, up(20, 20));
    // Press well inside the box, away from every corner zone.
    send(&mut m, down(10, 10));
    assert!(matches!(
        *m.active_layer(),
        Some(LayerState::RelocateLayer { layer: 0, grab_point: Point { x: 10, y: 10 } })
    ));
    send(&mut m, mv(15, 18));
    let expected = Rect { x: 5, y: 8, width: 20, height: 20 };
    assert_eq!(m.layers()[0].object, Object::Rectangle(expected));
    send(&mut m, up(15, 18));
    assert!(matches!(*m.active_layer(), Some(LayerState::IdleLayer { layer: 0 })));
}

#[test]
fn hover_is_idempotent() {
    let mut m = Layers::new();
    send(&mut m, down(0, 0));
    send(&mut m, mv(20, 20));
    send(&mut m, up(20, 20));
    send(&mut m, down(100, 100));  // deselect
    // First hover over the layer: outline appears, redraw requested.
    let first = send(&mut m, mv(10, 10));
    assert!(first.redraw);
    assert_eq!(*m.outlined_layer(), Some(0));
    // Same hover target again: no redraw, outline unchanged.
    let second = send(&mut m, mv(11, 10));
    assert!(!second.redraw);
    assert_eq!(*m.outlined_layer(), Some(0));
    // Leaving the layer clears the outline and redraws once.
    let off = send(&mut m, mv(90, 90));
    assert!(off.redraw);
    assert_eq!(*m.outlined_layer(), None);
    let still_off = send(&mut m, mv(91, 91));
    assert!(!still_off.redraw);
}

#[test]
fn idle_cursor_follows_corner_zones() {
    let mut m = Layers::new();
    send(&mut m, down(0, 0));
    send(&mut m, mv(20, 20));
    send(&mut m, up(20, 20));
    // Hovering the bottom-left corner zone of the selected layer.
    let over_corner = send(&mut m, mv(1, 19));
    assert_eq!(over_corner.cursor, Cursor::NeswResize);
    // Hovering the middle of the layer: default cursor.
    let over_middle = send(&mut m, mv(10, 10));
    assert_eq!(over_middle.cursor, Cursor::Auto);
}

#[test]
fn degenerate_drag_keeps_zero_size() {
    let mut m = Layers::new();
    send(&mut m, down(10, 10));
    send(&mut m, mv(10, 10));
    send(&mut m, up(10, 10));
    assert_eq!(m.layers().len(), 1);
    assert_eq!(
        m.layers()[0].object,
        Object::Rectangle(Rect { x: 10, y: 10, width: 0, height: 0 })
    );
}

#[test]
fn manipulation_in_progress_ignores_presses() {
    let mut m = Layers::new();
    send(&mut m, down(10, 10));
    send(&mut m, mv(30, 30));
    // Creating: a second press changes nothing.
    send(&mut m, down(50, 50));
    assert!(matches!(*m.active_layer(), Some(LayerState::CreatingLayer { layer: 0, .. })));
    assert_eq!(m.layers().len(), 1);
}

#[test]
fn out_of_range_events_are_refused() {
    let m = Layers::new();
    let huge = 0x2000_0000_0000_0000;
    assert!(!m.can_handle(down(huge, 0)));
    assert!(m.can_handle(down(800, 400)));
}
