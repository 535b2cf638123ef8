//! The interaction state machine: the ordered list of layers, the active and
//! outlined layer, and the reduction of pointer events into state changes.
//!
//! Drawing and cursor changes are not performed here: every event reduction
//! returns what the host must do (redraw or not, and which cursor to show),
//! so the whole machine is plain state.

use vstd::prelude::*;
use crate::events::{point_in_range, Event, Point, MAX_COORD};
use crate::objects::{spec_first_edge_hit, Cursor, Edge, Object, Rect};

verus! {

/// An ordered slot owning one drawable shape; z-order is the slot's position
/// in the layer sequence (later means drawn on top, hit-tested first).
#[derive(Clone, Copy, Debug, PartialEq, Eq, Structural)]
pub struct Layer {
    pub object: Object,
}

impl Layer {
    /// The first corner hit-zone of this layer's shape (in the fixed order)
    /// containing `point`, or none.
    pub fn point_over_edge(&self, point: Point) -> (r: Option<Edge>)
        requires
            self.object.spec_rect().bounded(),
        ensures
            r == spec_first_edge_hit(self.object.spec_rect(), point),
    {
        let es: Vec<Edge> = self.object.edges();
        proof {
            assert(es@.len() == 4);
        }
        let e0: Edge = es[0];
        let e1: Edge = es[1];
        let e2: Edge = es[2];
        let e3: Edge = es[3];
        proof {
            assert(e0.rect.wf() && e1.rect.wf() && e2.rect.wf() && e3.rect.wf());
        }
        if e0.is_point_over(point) {
            Some(e0)
        } else if e1.is_point_over(point) {
            Some(e1)
        } else if e2.is_point_over(point) {
            Some(e2)
        } else if e3.is_point_over(point) {
            Some(e3)
        } else {
            None
        }
    }
}

/// What the active layer is undergoing, if anything.
#[derive(Clone, Copy, Debug, PartialEq, Eq, Structural)]
pub enum LayerState {
    /// The pointer went down on empty space; no layer exists yet.
    ToCreateLayer { start: Point },
    /// A layer has been inserted and grows with the pointer.
    CreatingLayer { layer: usize, start: Point },
    /// A layer is selected but not being dragged.
    IdleLayer { layer: usize },
    /// One corner of the selected layer is being dragged.
    ResizeLayer { layer: usize, edge: Edge },
    /// The whole selected layer is being dragged.
    RelocateLayer { layer: usize, grab_point: Point },
}

/// The mathematical state of the machine: the layer sequence plus the two
/// layer references.
pub ghost struct LayersView {
    pub layers: Seq<Layer>,
    pub active: Option<LayerState>,
    pub outlined: Option<usize>,
}

/// The highest index whose layer's shape contains `p` (the topmost layer in
/// z-order wins ties), or none.
pub open spec fn spec_topmost_hit(layers: Seq<Layer>, p: Point) -> Option<usize>
    decreases layers.len(),
{
    if layers.len() == 0 {
        None
    } else if layers.last().object.spec_rect().spec_contains(p) {
        Some((layers.len() - 1) as usize)
    } else {
        spec_topmost_hit(layers.drop_last(), p)
    }
}

/// A topmost hit is always a valid index, and its layer really contains the
/// point.
pub proof fn lemma_topmost_hit_in_bounds(layers: Seq<Layer>, p: Point)
    requires
        layers.len() <= usize::MAX,
    ensures
        match spec_topmost_hit(layers, p) {
            Some(i) => (i as int) < layers.len()
                && layers[i as int].object.spec_rect().spec_contains(p),
            None => true,
        },
    decreases layers.len(),
{
    if layers.len() > 0 && !layers.last().object.spec_rect().spec_contains(p) {
        lemma_topmost_hit_in_bounds(layers.drop_last(), p);
        match spec_topmost_hit(layers.drop_last(), p) {
            Some(i) => {
                assert(layers.drop_last()[i as int] == layers[i as int]);
            },
            None => {},
        }
    }
}

/// Bound on a stored grab offset: the difference of two host-range
/// coordinates.
pub open spec fn grab_in_range(g: Point) -> bool {
    &&& -2 * MAX_COORD <= g.x <= 2 * MAX_COORD
    &&& -2 * MAX_COORD <= g.y <= 2 * MAX_COORD
}

/// The machine's invariant: every stored index is a valid layer index, every
/// layer's box is well-formed and within the host range, and every stored
/// point is bounded.
pub open spec fn wf_view(v: LayersView) -> bool {
    &&& forall|i: int|
        0 <= i < v.layers.len() ==> (#[trigger] v.layers[i]).object.spec_rect().bounded()
    &&& match v.outlined {
        Some(i) => (i as int) < v.layers.len(),
        None => true,
    }
    &&& match v.active {
        None => true,
        Some(LayerState::ToCreateLayer { start }) => point_in_range(start),
        Some(LayerState::CreatingLayer { layer, start }) => (layer as int) < v.layers.len()
            && point_in_range(start),
        Some(LayerState::IdleLayer { layer }) => (layer as int) < v.layers.len(),
        Some(LayerState::ResizeLayer { layer, .. }) => (layer as int) < v.layers.len(),
        Some(LayerState::RelocateLayer { layer, grab_point }) => (layer as int) < v.layers.len()
            && grab_in_range(grab_point),
    }
}

/// What the machine demands of an event: the position is in the host range,
/// and a relocation step keeps the dragged box inside it. The host checks
/// this with `Layers::can_handle` before reducing the event.
pub open spec fn event_ok(v: LayersView, event: Event) -> bool {
    &&& point_in_range(event.spec_point())
    &&& match (event, v.active) {
        (
            Event::MouseMove { point },
            Some(LayerState::RelocateLayer { layer, grab_point }),
        ) => (layer as int) < v.layers.len()
            ==> v.layers[layer as int].object.spec_rect().spec_relocate_in_range(
            point,
            grab_point,
        ),
        _ => true,
    }
}

/// The state after a press at `point`.
pub open spec fn step_down(v: LayersView, point: Point) -> LayersView {
    match v.active {
        None => match spec_topmost_hit(v.layers, point) {
            Some(layer) => LayersView {
                active: Some(LayerState::IdleLayer { layer }),
                ..v
            },
            None => LayersView {
                active: Some(LayerState::ToCreateLayer { start: point }),
                ..v
            },
        },
        Some(LayerState::IdleLayer { layer }) => match spec_first_edge_hit(
            v.layers[layer as int].object.spec_rect(),
            point,
        ) {
            Some(edge) => LayersView {
                active: Some(LayerState::ResizeLayer { layer, edge }),
                ..v
            },
            None => match spec_topmost_hit(v.layers, point) {
                Some(hit) => LayersView {
                    active: Some(
                        LayerState::RelocateLayer {
                            layer: hit,
                            grab_point: v.layers[hit as int].object.spec_rect().spec_grab_point(
                                point,
                            ),
                        },
                    ),
                    ..v
                },
                None => LayersView { active: None, ..v },
            },
        },
        _ => v,
    }
}

/// The state after the pointer moves to `point`.
pub open spec fn step_move(v: LayersView, point: Point) -> LayersView {
    match v.active {
        Some(LayerState::ToCreateLayer { start }) => LayersView {
            layers: v.layers.push(
                Layer { object: Object::Rectangle(Rect::spec_new(start, point)) },
            ),
            active: Some(
                LayerState::CreatingLayer { layer: v.layers.len() as usize, start },
            ),
            ..v
        },
        Some(LayerState::CreatingLayer { layer, start }) => LayersView {
            layers: v.layers.update(
                layer as int,
                Layer { object: Object::Rectangle(Rect::spec_new(start, point)) },
            ),
            ..v
        },
        Some(LayerState::ResizeLayer { layer, edge }) => LayersView {
            layers: v.layers.update(
                layer as int,
                Layer {
                    object: Object::Rectangle(
                        v.layers[layer as int].object.spec_rect().spec_resize(point, edge.kind),
                    ),
                },
            ),
            ..v
        },
        Some(LayerState::RelocateLayer { layer, grab_point }) => LayersView {
            layers: v.layers.update(
                layer as int,
                Layer {
                    object: Object::Rectangle(
                        v.layers[layer as int].object.spec_rect().spec_relocate(
                            point,
                            grab_point,
                        ),
                    ),
                },
            ),
            ..v
        },
        _ => LayersView { outlined: spec_topmost_hit(v.layers, point), ..v },
    }
}

/// The state after the pointer is released: a pending creation with no drag
/// is dropped; any other manipulation commits and leaves its layer selected.
pub open spec fn step_up(v: LayersView) -> LayersView {
    match v.active {
        Some(LayerState::ToCreateLayer { .. }) => LayersView { active: None, ..v },
        Some(LayerState::CreatingLayer { layer, .. }) => LayersView {
            active: Some(LayerState::IdleLayer { layer }),
            ..v
        },
        Some(LayerState::ResizeLayer { layer, .. }) => LayersView {
            active: Some(LayerState::IdleLayer { layer }),
            ..v
        },
        Some(LayerState::RelocateLayer { layer, .. }) => LayersView {
            active: Some(LayerState::IdleLayer { layer }),
            ..v
        },
        _ => v,
    }
}

/// The state after reducing one pointer event.
pub open spec fn step(v: LayersView, event: Event) -> LayersView {
    match event {
        Event::MouseDown { point } => step_down(v, point),
        Event::MouseMove { point } => step_move(v, point),
        Event::MouseUp { .. } => step_up(v),
    }
}

/// Whether reducing `event` in state `v` asks the host for a redraw: always
/// on a press, on every move that drags or grows a layer, on a move whose
/// hover target changed, and never on a release.
pub open spec fn spec_redraw(v: LayersView, event: Event) -> bool {
    match event {
        Event::MouseDown { .. } => true,
        Event::MouseMove { point } => match v.active {
            Some(LayerState::ToCreateLayer { .. }) => true,
            Some(LayerState::CreatingLayer { .. }) => true,
            Some(LayerState::ResizeLayer { .. }) => true,
            Some(LayerState::RelocateLayer { .. }) => true,
            _ => spec_topmost_hit(v.layers, point) != v.outlined,
        },
        Event::MouseUp { .. } => false,
    }
}

/// The cursor shown after an event, from the new state: over a selected
/// layer's corner zone its resize cursor, during a corner drag that corner's
/// cursor (locked, wherever the pointer is), otherwise the default.
pub open spec fn spec_cursor(v: LayersView, point: Point) -> Cursor {
    match v.active {
        Some(LayerState::IdleLayer { layer }) => match spec_first_edge_hit(
            v.layers[layer as int].object.spec_rect(),
            point,
        ) {
            Some(edge) => edge.kind.spec_cursor(),
            None => Cursor::Auto,
        },
        Some(LayerState::ResizeLayer { edge, .. }) => edge.kind.spec_cursor(),
        _ => Cursor::Auto,
    }
}

/// On an empty canvas, a press, a drag to a distinct point, and a release
/// leave exactly one new layer, whose box is the rectangle spanned by the
/// press and release points, and that layer selected.
pub proof fn lemma_press_drag_release_creates_layer(v: LayersView, start: Point, end: Point)
    requires
        v.layers.len() == 0,
        v.active is None,
        start != end,
    ensures
        ({
            let after = step(
                step(step(v, Event::MouseDown { point: start }), Event::MouseMove { point: end }),
                Event::MouseUp { point: end },
            );
            &&& after.layers.len() == 1
            &&& after.layers[0].object == Object::Rectangle(Rect::spec_new(start, end))
            &&& after.active == Some(LayerState::IdleLayer { layer: 0 })
        }),
{
}

/// A press on an empty canvas followed immediately by a release (no drag in
/// between) creates no layer and leaves nothing active: the state is exactly
/// what it was.
pub proof fn lemma_press_release_creates_nothing(v: LayersView, point: Point)
    requires
        v.layers.len() == 0,
        v.active is None,
    ensures
        step(step(v, Event::MouseDown { point }), Event::MouseUp { point }) == v,
        step(
            step(v, Event::MouseDown { point }), Event::MouseUp { point },
        ).layers.len() == 0,
        step(step(v, Event::MouseDown { point }), Event::MouseUp { point }).active is None,
{
}

/// Hovering is idempotent: while nothing is being dragged, a repeated move
/// to the same point leaves the hovered layer (and the whole state)
/// unchanged and asks for no redraw.
pub proof fn lemma_hover_idempotent(v: LayersView, point: Point)
    requires
        v.active is None || v.active matches Some(LayerState::IdleLayer { .. }),
    ensures
        ({
            let once = step(v, Event::MouseMove { point });
            &&& step(once, Event::MouseMove { point }) == once
            &&& !spec_redraw(once, Event::MouseMove { point })
        }),
{
}

/// What the host must do after an event is reduced.
#[derive(Clone, Copy, Debug, PartialEq, Eq, Structural)]
pub struct EventOutcome {
    /// Whether the scene changed visibly and must be repainted.
    pub redraw: bool,
    /// The cursor the surface should now show.
    pub cursor: Cursor,
}

/// The interaction state machine.
pub struct Layers {
    layers: Vec<Layer>,
    active_layer: Option<LayerState>,
    outlined_layer: Option<usize>,
}

impl View for Layers {
    type V = LayersView;

    closed spec fn view(&self) -> LayersView {
        LayersView {
            layers: self.layers@,
            active: self.active_layer,
            outlined: self.outlined_layer,
        }
    }
}

impl Layers {
    /// The machine's invariant; established by `new` and preserved by every
    /// event reduction.
    pub open spec fn wf(self) -> bool {
        wf_view(self@)
    }

    /// A fresh machine: no layers, nothing active, nothing outlined.
    pub fn new() -> (r: Layers)
        ensures
            r@.layers == Seq::<Layer>::empty(),
            r@.active is None,
            r@.outlined is None,
            r.wf(),
    {
        let r = Layers { layers: Vec::new(), active_layer: None, outlined_layer: None };
        proof {
            assert(r@.layers =~= Seq::<Layer>::empty());
        }
        r
    }

    /// The layer sequence, bottom to top.
    pub fn layers(&self) -> (r: &Vec<Layer>)
        ensures
            r@ == self@.layers,
    {
        &self.layers
    }

    /// The hovered layer's index, if any.
    pub fn outlined_layer(&self) -> (r: &Option<usize>)
        ensures
            *r == self@.outlined,
    {
        &self.outlined_layer
    }

    /// The manipulation state of the active layer, if any.
    pub fn active_layer(&self) -> (r: &Option<LayerState>)
        ensures
            *r == self@.active,
    {
        &self.active_layer
    }

    /// Whether the machine accepts `event` in its current state; the host
    /// tests this before calling `on_event`.
    pub fn can_handle(&self, event: Event) -> (r: bool)
        requires
            self.wf(),
        ensures
            r == event_ok(self@, event),
    {
        let point: Point = event.point();
        let point_ok: bool = -MAX_COORD <= point.x && point.x <= MAX_COORD && -MAX_COORD <= point.y
            && point.y <= MAX_COORD;
        if !point_ok {
            return false;
        }
        match (event, self.active_layer) {
            (Event::MouseMove { point }, Some(LayerState::RelocateLayer { layer, grab_point })) => {
                let rect: Rect = self.layers[layer].object.rect();
                let new_x: i64 = point.x - grab_point.x;
                let new_y: i64 = point.y - grab_point.y;
                -MAX_COORD <= new_x && new_x + rect.width <= MAX_COORD && -MAX_COORD <= new_y
                    && new_y + rect.height <= MAX_COORD
            },
            _ => true,
        }
    }

    /// Reduce one pointer event: the state becomes `step` of the old state,
    /// and the outcome carries the redraw decision and the cursor to show.
    pub fn on_event(&mut self, event: Event) -> (outcome: EventOutcome)
        requires
            old(self).wf(),
            event_ok(old(self)@, event),
        ensures
            final(self)@ == step(old(self)@, event),
            final(self).wf(),
            outcome.redraw == spec_redraw(old(self)@, event),
            outcome.cursor == spec_cursor(final(self)@, event.spec_point()),
    {
        let point: Point = event.point();
        let redraw: bool = match event {
            Event::MouseDown { .. } => true,
            Event::MouseMove { .. } => match self.active_layer {
                Some(LayerState::ToCreateLayer { .. }) => true,
                Some(LayerState::CreatingLayer { .. }) => true,
                Some(LayerState::ResizeLayer { .. }) => true,
                Some(LayerState::RelocateLayer { .. }) => true,
                _ => {
                    let hit: Option<usize> = self.find_layer_from_point(point);
                    match (hit, self.outlined_layer) {
                        (Some(a), Some(b)) => a != b,
                        (None, None) => false,
                        _ => true,
                    }
                },
            },
            Event::MouseUp { .. } => false,
        };
        match event {
            Event::MouseDown { point } => self.on_mouse_down(point),
            Event::MouseMove { point } => self.on_mouse_move(point),
            Event::MouseUp { point } => self.on_mouse_up(point),
        }
        let cursor: Cursor = self.cursor_for(point);
        EventOutcome { redraw, cursor }
    }

    /// A press: select the topmost layer under the pointer, begin a resize
    /// or relocation on an already selected layer, deselect on empty space,
    /// or arm the creation of a new layer.
    fn on_mouse_down(&mut self, point: Point)
        requires
            old(self).wf(),
            point_in_range(point),
        ensures
            final(self)@ == step_down(old(self)@, point),
            final(self).wf(),
    {
        match self.active_layer {
            None => {
                let maybe_active_layer: Option<usize> = self.find_layer_from_point(point);
                proof {
                    lemma_topmost_hit_in_bounds(self@.layers, point);
                }
                if let Some(layer) = maybe_active_layer {
                    self.active_layer = Some(LayerState::IdleLayer { layer });
                } else {
                    self.active_layer = Some(LayerState::ToCreateLayer { start: point });
                }
            },
            Some(LayerState::IdleLayer { layer }) => {
                let edge_hit: Option<Edge> = self.layers[layer].point_over_edge(point);
                if let Some(edge) = edge_hit {
                    self.active_layer = Some(LayerState::ResizeLayer { layer, edge });
                } else if let Some(hit) = self.find_layer_from_point(point) {
                    proof {
                        lemma_topmost_hit_in_bounds(self@.layers, point);
                    }
                    let grab_point: Point = self.layers[hit].object.grab_point(point);
                    self.active_layer = Some(
                        LayerState::RelocateLayer { layer: hit, grab_point },
                    );
                } else {
                    self.active_layer = None;
                }
            },
            _ => {},
        }
    }

    /// A move: grow the layer being created, drag the corner or the whole
    /// box being manipulated, or recompute which layer is hovered.
    fn on_mouse_move(&mut self, point: Point)
        requires
            old(self).wf(),
            event_ok(old(self)@, Event::MouseMove { point }),
        ensures
            final(self)@ == step_move(old(self)@, point),
            final(self).wf(),
    {
        match self.active_layer {
            Some(LayerState::ToCreateLayer { start }) => {
                self.layers.push(Layer { object: Object::Rectangle(Rect::new(start, point)) });
                let layer: usize = self.layers.len() - 1;
                self.active_layer = Some(LayerState::CreatingLayer { layer, start });
                proof {
                    assert forall|i: int|
                        0 <= i < self@.layers.len() implies (#[trigger] self@.layers[i])
                        .object.spec_rect().bounded() by {
                        if i < old(self)@.layers.len() {
                            assert(old(self)@.layers[i].object.spec_rect().bounded());
                        }
                    }
                }
            },
            Some(LayerState::CreatingLayer { layer, start }) => {
                self.layers.set(
                    layer,
                    Layer { object: Object::Rectangle(Rect::new(start, point)) },
                );
            },
            Some(LayerState::ResizeLayer { layer, edge }) => {
                let mut object: Object = self.layers[layer].object;
                object.resize(point, edge);
                self.layers.set(layer, Layer { object });
            },
            Some(LayerState::RelocateLayer { layer, grab_point }) => {
                let mut object: Object = self.layers[layer].object;
                object.relocate(point, grab_point);
                self.layers.set(layer, Layer { object });
            },
            _ => {
                let hit: Option<usize> = self.find_layer_from_point(point);
                proof {
                    lemma_topmost_hit_in_bounds(self@.layers, point);
                }
                self.outlined_layer = hit;
            },
        }
    }

    /// A release: a pending creation with no drag vanishes; any other
    /// manipulation commits and leaves its layer selected.
    fn on_mouse_up(&mut self, _point: Point)
        requires
            old(self).wf(),
        ensures
            final(self)@ == step_up(old(self)@),
            final(self).wf(),
    {
        match self.active_layer {
            Some(LayerState::ToCreateLayer { .. }) => {
                self.active_layer = None;
            },
            Some(LayerState::CreatingLayer { layer, .. }) => {
                self.active_layer = Some(LayerState::IdleLayer { layer });
            },
            Some(LayerState::ResizeLayer { layer, .. }) => {
                self.active_layer = Some(LayerState::IdleLayer { layer });
            },
            Some(LayerState::RelocateLayer { layer, .. }) => {
                self.active_layer = Some(LayerState::IdleLayer { layer });
            },
            _ => {},
        }
    }

    /// The cursor for the current state and pointer position; see
    /// `spec_cursor`.
    fn cursor_for(&self, point: Point) -> (c: Cursor)
        requires
            self.wf(),
        ensures
            c == spec_cursor(self@, point),
    {
        match self.active_layer {
            Some(LayerState::IdleLayer { layer }) => {
                let maybe_edge: Option<Edge> = self.layers[layer].point_over_edge(point);
                if let Some(edge) = maybe_edge {
                    edge.cursor()
                } else {
                    Cursor::Auto
                }
            },
            Some(LayerState::ResizeLayer { edge, .. }) => edge.cursor(),
            _ => Cursor::Auto,
        }
    }

    /// The topmost layer whose shape contains `point`: the last match in a
    /// top-to-bottom scan, so the most recently added layer wins ties.
    fn find_layer_from_point(&self, point: Point) -> (r: Option<usize>)
        requires
            self.wf(),
        ensures
            r == spec_topmost_hit(self@.layers, point),
            self@.layers.len() <= usize::MAX,
    {
        let ghost all: Seq<Layer> = self@.layers;
        let mut i: usize = self.layers.len();
        proof {
            assert(all.take(i as int) =~= all);
        }
        while i > 0
            invariant
                self.wf(),
                all == self@.layers,
                i <= self.layers.len(),
                spec_topmost_hit(all, point) == spec_topmost_hit(all.take(i as int), point),
            decreases i,
        {
            i = i - 1;
            let over: bool = self.layers[i].object.is_point_over(point);
            proof {
                assert(all.take(i as int + 1).last() == all[i as int]);
                assert(all.take(i as int + 1).drop_last() =~= all.take(i as int));
            }
            if over {
                return Some(i);
            }
        }
        proof {
            assert(all.take(0) =~= Seq::<Layer>::empty());
        }
        None
    }
}

} // verus!
