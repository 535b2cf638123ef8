use shape_editor::alignments::Alignment;
use shape_editor::events::{Event, Point};
use shape_editor::layers::{LayerState, Layers};
use shape_editor::objects::Rect;
use shape_editor::renderer::{render, DrawCmd};

fn down(x: i64, y: i64) -> Event {
    Event::MouseDown { point: Point { x, y } }
}

fn mv(x: i64, y: i64) -> Event {
    Event::MouseMove { point: Point { x, y } }
}

fn up(x: i64, y: i64) -> Event {
    Event::MouseUp { point: Point { x, y } }
}

fn send(m: &mut Layers, event: Event) {
    assert!(m.can_handle(event));
    m.on_event(event);
}

/// Build a layer spanning the two given corners and leave it deselected.
fn add_layer(m: &mut Layers, a: (i64, i64), b: (i64, i64)) {
    send(m, down(a.0, a.1));
    send(m, mv(b.0, b.1));
    send(m, up(b.0, b.1));
    send(m, down(-5000, -5000));  // deselect on empty space
    assert!(m.active_layer().is_none());
}

#[test]
fn shared_top_edge_yields_one_horizontal_guide() {
    let mut m = Layers::new();
    add_layer(&mut m, (10, 50), (30, 80));
    add_layer(&mut m, (60, 50), (90, 100));
    // Select the first layer (grab and release without moving).
    send(&mut m, down(15, 60));
    send(&mut m, up(15, 60));
    assert!(matches!(*m.active_layer(), Some(LayerState::IdleLayer { layer: 0 })));
    let guides = Alignment::from_layers(m.layers(), 0);
    assert_eq!(guides, vec![Alignment::Y { y: 50, left: 60, right: 90 }]);
}

#[test]
fn unaligned_layers_yield_no_guides() {
    let mut m = Layers::new();
    add_layer(&mut m, (10, 50), (30, 80));
    add_layer(&mut m, (60, 51), (90, 100));
    let guides = Alignment::from_layers(m.layers(), 0);
    assert_eq!(guides, Vec::new());
}

#[test]
fn degenerate_layer_yields_a_single_guide_per_shared_edge() {
    let mut m = Layers::new();
    add_layer(&mut m, (10, 50), (30, 80));
    // A zero-height layer: its top and bottom both sit at y = 50.
    add_layer(&mut m, (60, 50), (90, 50));
    // Seen from the first layer, the other layer's duplicate edge
    // coordinate yields one guide, not two.
    let guides = Alignment::from_layers(m.layers(), 0);
    assert_eq!(guides, vec![Alignment::Y { y: 50, left: 60, right: 90 }]);
}

#[test]
fn fully_aligned_layers_yield_all_four_guides() {
    let mut m = Layers::new();
    add_layer(&mut m, (10, 20), (30, 50));
    // A second layer of the same size, created beside the first and then
    // dragged exactly onto it.
    add_layer(&mut m, (100, 20), (120, 50));
    send(&mut m, down(110, 35));  // select it
    send(&mut m, down(110, 35));  // grab it in the middle
    send(&mut m, mv(20, 35));  // its box becomes (10, 20)..(30, 50)
    send(&mut m, up(20, 35));
    let guides = Alignment::from_layers(m.layers(), 0);
    assert_eq!(
        guides,
        vec![
            Alignment::Y { y: 20, left: 10, right: 30 },
            Alignment::Y { y: 50, left: 10, right: 30 },
            Alignment::X { x: 10, top: 20, bottom: 50 },
            Alignment::X { x: 30, top: 20, bottom: 50 },
        ]
    );
}

#[test]
fn render_selected_layer_with_handles() {
    let mut m = Layers::new();
    send(&mut m, down(10, 50));
    send(&mut m, mv(30, 80));
    send(&mut m, up(30, 80));
    let box_rect = Rect { x: 10, y: 50, width: 20, height: 30 };
    let cmds = render(&m);
    assert_eq!(
        cmds,
        vec![
            DrawCmd::Clear,
            DrawCmd::FillRect { rect: box_rect },
            DrawCmd::OutlineRect { rect: box_rect },
            DrawCmd::FillRect { rect: Rect { x: 6, y: 46, width: 8, height: 8 } },
            DrawCmd::FillRect { rect: Rect { x: 26, y: 46, width: 8, height: 8 } },
            DrawCmd::FillRect { rect: Rect { x: 26, y: 76, width: 8, height: 8 } },
            DrawCmd::FillRect { rect: Rect { x: 6, y: 76, width: 8, height: 8 } },
        ]
    );
}

#[test]
fn render_hovered_layer_shows_outline_only() {
    let mut m = Layers::new();
    add_layer(&mut m, (0, 0), (20, 20));
    add_layer(&mut m, (40, 0), (60, 20));
    send(&mut m, mv(10, 10));  // hover the first layer
    assert_eq!(*m.outlined_layer(), Some(0));
    let first = Rect { x: 0, y: 0, width: 20, height: 20 };
    let second = Rect { x: 40, y: 0, width: 20, height: 20 };
    let cmds = render(&m);
    assert_eq!(
        cmds,
        vec![
            DrawCmd::Clear,
            DrawCmd::FillRect { rect: first },
            DrawCmd::FillRect { rect: second },
            DrawCmd::OutlineRect { rect: first },
        ]
    );
}

#[test]
fn render_selected_layer_includes_guides() {
    let mut m = Layers::new();
    add_layer(&mut m, (10, 50), (30, 80));
    add_layer(&mut m, (60, 50), (90, 100));
    send(&mut m, down(15, 60));
    send(&mut m, up(15, 60));
    let cmds = render(&m);
    assert_eq!(cmds.last(), Some(&DrawCmd::GuideY { y: 50, left: 60, right: 90 }));
}
