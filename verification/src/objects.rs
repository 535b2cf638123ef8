//! Shapes and their geometry: rectangles, corner hit-zones, and the
//! capability surface the interaction state machine works against.

use vstd::prelude::*;
use crate::events::{coord_in_range, point_in_range, Point, MAX_COORD};
use crate::renderer::DrawCmd;

verus! {

/// Side length of the square hit-box centered on each rectangle corner.
pub const EDGE_SIZE: i64 = 8;

/// A coordinate a derived box (a corner hit-zone) may reach: the host range
/// widened by the hit-box size, so that every sum and difference of two such
/// coordinates still fits in `i64`.
pub open spec fn coord_in_extent(v: int) -> bool {
    -(MAX_COORD + EDGE_SIZE) <= v <= MAX_COORD + EDGE_SIZE
}

/// An axis-aligned rectangle with non-negative extent.
#[derive(Clone, Copy, Debug, PartialEq, Eq, Structural)]
pub struct Rect {
    pub x: i64,
    pub y: i64,
    pub width: i64,
    pub height: i64,
}

impl Rect {
    /// The x coordinate of the left edge.
    pub open spec fn spec_left(self) -> int {
        self.x as int
    }

    /// The y coordinate of the top edge.
    pub open spec fn spec_top(self) -> int {
        self.y as int
    }

    /// The x coordinate of the right edge.
    pub open spec fn spec_right(self) -> int {
        self.x + self.width
    }

    /// The y coordinate of the bottom edge.
    pub open spec fn spec_bottom(self) -> int {
        self.y + self.height
    }

    /// Well-formed: non-negative extent, and every edge coordinate within
    /// the widened range, so edge arithmetic cannot overflow.
    pub open spec fn wf(self) -> bool {
        &&& 0 <= self.width
        &&& 0 <= self.height
        &&& coord_in_extent(self.spec_left())
        &&& coord_in_extent(self.spec_top())
        &&& coord_in_extent(self.spec_right())
        &&& coord_in_extent(self.spec_bottom())
    }

    /// Well-formed with every edge coordinate inside the host range proper;
    /// holds of every rectangle built from host pointer positions.
    pub open spec fn bounded(self) -> bool {
        &&& self.wf()
        &&& coord_in_range(self.spec_left())
        &&& coord_in_range(self.spec_top())
        &&& coord_in_range(self.spec_right())
        &&& coord_in_range(self.spec_bottom())
    }

    /// The rectangle spanned by two arbitrary corner points, normalized to
    /// non-negative width and height; the order of the points never matters.
    pub open spec fn spec_new(a: Point, b: Point) -> Rect {
        let x_start: i64 = if a.x <= b.x { a.x } else { b.x };
        let y_start: i64 = if a.y <= b.y { a.y } else { b.y };
        let x_end: i64 = if a.x <= b.x { b.x } else { a.x };
        let y_end: i64 = if a.y <= b.y { b.y } else { a.y };
        Rect {
            x: x_start,
            y: y_start,
            width: (x_end - x_start) as i64,
            height: (y_end - y_start) as i64,
        }
    }

    /// Build the rectangle spanned by two arbitrary corner points.
    pub fn new(a: Point, b: Point) -> (r: Rect)
        requires
            point_in_range(a),
            point_in_range(b),
        ensures
            r == Rect::spec_new(a, b),
            r.bounded(),
    {
        let x_start: i64 = if a.x <= b.x { a.x } else { b.x };
        let y_start: i64 = if a.y <= b.y { a.y } else { b.y };
        let x_end: i64 = if a.x <= b.x { b.x } else { a.x };
        let y_end: i64 = if a.y <= b.y { b.y } else { a.y };
        Rect { x: x_start, y: y_start, width: x_end - x_start, height: y_end - y_start }
    }

    /// The rectangle of the given extent whose center is `center`.
    pub open spec fn spec_from_center(center: Point, width: i64, height: i64) -> Rect {
        Rect {
            x: (center.x - (width as int) / 2) as i64,
            y: (center.y - (height as int) / 2) as i64,
            width: width,
            height: height,
        }
    }

    /// Build the rectangle of the given extent centered on `center`.
    pub fn from_center(center: Point, width: i64, height: i64) -> (r: Rect)
        requires
            0 <= width,
            0 <= height,
            coord_in_extent(center.x - (width as int) / 2),
            coord_in_extent(center.x - (width as int) / 2 + width),
            coord_in_extent(center.y - (height as int) / 2),
            coord_in_extent(center.y - (height as int) / 2 + height),
        ensures
            r == Rect::spec_from_center(center, width, height),
            r.wf(),
    {
        let x: i64 = center.x - width / 2;
        let y: i64 = center.y - height / 2;
        Rect { x: x, y: y, width: width, height: height }
    }

    /// The top-left corner.
    pub open spec fn spec_top_left(self) -> Point {
        Point { x: self.x, y: self.y }
    }

    /// The top-right corner.
    pub open spec fn spec_top_right(self) -> Point {
        Point { x: (self.x + self.width) as i64, y: self.y }
    }

    /// The bottom-right corner.
    pub open spec fn spec_bottom_right(self) -> Point {
        Point { x: (self.x + self.width) as i64, y: (self.y + self.height) as i64 }
    }

    /// The bottom-left corner.
    pub open spec fn spec_bottom_left(self) -> Point {
        Point { x: self.x, y: (self.y + self.height) as i64 }
    }

    /// The top-left corner.
    pub fn top_left(&self) -> (p: Point)
        ensures
            p == self.spec_top_left(),
    {
        Point { x: self.x, y: self.y }
    }

    /// The top-right corner.
    pub fn top_right(&self) -> (p: Point)
        requires
            self.wf(),
        ensures
            p == self.spec_top_right(),
    {
        Point { x: self.x + self.width, y: self.y }
    }

    /// The bottom-right corner.
    pub fn bottom_right(&self) -> (p: Point)
        requires
            self.wf(),
        ensures
            p == self.spec_bottom_right(),
    {
        Point { x: self.x + self.width, y: self.y + self.height }
    }

    /// The bottom-left corner.
    pub fn bottom_left(&self) -> (p: Point)
        requires
            self.wf(),
        ensures
            p == self.spec_bottom_left(),
    {
        Point { x: self.x, y: self.y + self.height }
    }

    /// Whether `p` lies inside the rectangle, boundary included. A drawing
    /// surface's point-in-path query against the rectangle's own path comes
    /// down to exactly this comparison, so the test needs nothing from the
    /// surface.
    pub open spec fn spec_contains(self, p: Point) -> bool {
        &&& self.spec_left() <= p.x <= self.spec_right()
        &&& self.spec_top() <= p.y <= self.spec_bottom()
    }

    /// Containment test against the rectangle's current box.
    pub fn is_point_over(&self, point: Point) -> (r: bool)
        requires
            self.wf(),
        ensures
            r == self.spec_contains(point),
    {
        self.x <= point.x && point.x <= self.x + self.width && self.y <= point.y
            && point.y <= self.y + self.height
    }

    /// The y coordinate of the top edge.
    pub fn top(&self) -> (r: i64)
        ensures
            r == self.spec_top(),
    {
        self.y
    }

    /// Move the top edge to `y`, keeping the bottom edge (and both vertical
    /// edges) where they were.
    pub fn set_top(&mut self, y: i64)
        requires
            old(self).wf(),
            coord_in_range(y as int),
            y <= old(self).spec_bottom(),
        ensures
            *final(self) == (Rect {
                y: y,
                height: (old(self).spec_bottom() - y) as i64,
                ..*old(self)
            }),
            final(self).spec_top() == y,
            final(self).spec_bottom() == old(self).spec_bottom(),
            final(self).spec_left() == old(self).spec_left(),
            final(self).spec_right() == old(self).spec_right(),
            final(self).wf(),
    {
        self.height = self.bottom() - y;
        self.y = y;
    }

    /// The x coordinate of the left edge.
    pub fn left(&self) -> (r: i64)
        ensures
            r == self.spec_left(),
    {
        self.x
    }

    /// Move the left edge to `x`, keeping the right edge (and both horizontal
    /// edges) where they were.
    pub fn set_left(&mut self, x: i64)
        requires
            old(self).wf(),
            coord_in_range(x as int),
            x <= old(self).spec_right(),
        ensures
            *final(self) == (Rect {
                x: x,
                width: (old(self).spec_right() - x) as i64,
                ..*old(self)
            }),
            final(self).spec_left() == x,
            final(self).spec_right() == old(self).spec_right(),
            final(self).spec_top() == old(self).spec_top(),
            final(self).spec_bottom() == old(self).spec_bottom(),
            final(self).wf(),
    {
        self.width = self.right() - x;
        self.x = x;
    }

    /// The y coordinate of the bottom edge.
    pub fn bottom(&self) -> (r: i64)
        requires
            self.wf(),
        ensures
            r == self.spec_bottom(),
    {
        self.y + self.height
    }

    /// Move the bottom edge to `y`, keeping the top edge (and both vertical
    /// edges) where they were.
    pub fn set_bottom(&mut self, y: i64)
        requires
            old(self).wf(),
            coord_in_range(y as int),
            old(self).spec_top() <= y,
        ensures
            *final(self) == (Rect { height: (y - old(self).spec_top()) as i64, ..*old(self) }),
            final(self).spec_bottom() == y,
            final(self).spec_top() == old(self).spec_top(),
            final(self).spec_left() == old(self).spec_left(),
            final(self).spec_right() == old(self).spec_right(),
            final(self).wf(),
    {
        self.height = y - self.y;
    }

    /// The x coordinate of the right edge.
    pub fn right(&self) -> (r: i64)
        requires
            self.wf(),
        ensures
            r == self.spec_right(),
    {
        self.x + self.width
    }

    /// Move the right edge to `x`, keeping the left edge (and both horizontal
    /// edges) where they were.
    pub fn set_right(&mut self, x: i64)
        requires
            old(self).wf(),
            coord_in_range(x as int),
            old(self).spec_left() <= x,
        ensures
            *final(self) == (Rect { width: (x - old(self).spec_left()) as i64, ..*old(self) }),
            final(self).spec_right() == x,
            final(self).spec_left() == old(self).spec_left(),
            final(self).spec_top() == old(self).spec_top(),
            final(self).spec_bottom() == old(self).spec_bottom(),
            final(self).wf(),
    {
        self.width = x - self.x;
    }

    /// Move the top-left corner to `point`, keeping the bottom-right corner
    /// where it was.
    pub fn set_top_left(&mut self, point: Point)
        requires
            old(self).wf(),
            point_in_range(point),
            point.y <= old(self).spec_bottom(),
            point.x <= old(self).spec_right(),
        ensures
            final(self).spec_top_left() == point,
            final(self).spec_bottom() == old(self).spec_bottom(),
            final(self).spec_right() == old(self).spec_right(),
            final(self).wf(),
    {
        self.set_top(point.y);
        self.set_left(point.x);
    }

    /// Move the top-right corner to `point`, keeping the bottom-left corner
    /// where it was.
    pub fn set_top_right(&mut self, point: Point)
        requires
            old(self).wf(),
            point_in_range(point),
            point.y <= old(self).spec_bottom(),
            old(self).spec_left() <= point.x,
        ensures
            final(self).spec_top_right() == point,
            final(self).spec_bottom() == old(self).spec_bottom(),
            final(self).spec_left() == old(self).spec_left(),
            final(self).wf(),
    {
        self.set_top(point.y);
        self.set_right(point.x);
    }

    /// Move the bottom-right corner to `point`, keeping the top-left corner
    /// where it was.
    pub fn set_bottom_right(&mut self, point: Point)
        requires
            old(self).wf(),
            point_in_range(point),
            old(self).spec_top() <= point.y,
            old(self).spec_left() <= point.x,
        ensures
            final(self).spec_bottom_right() == point,
            final(self).spec_top() == old(self).spec_top(),
            final(self).spec_left() == old(self).spec_left(),
            final(self).wf(),
    {
        self.set_bottom(point.y);
        self.set_right(point.x);
    }

    /// Move the bottom-left corner to `point`, keeping the top-right corner
    /// where it was.
    pub fn set_bottom_left(&mut self, point: Point)
        requires
            old(self).wf(),
            point_in_range(point),
            old(self).spec_top() <= point.y,
            point.x <= old(self).spec_right(),
        ensures
            final(self).spec_bottom_left() == point,
            final(self).spec_top() == old(self).spec_top(),
            final(self).spec_right() == old(self).spec_right(),
            final(self).wf(),
    {
        self.set_bottom(point.y);
        self.set_left(point.x);
    }

    /// The four corner hit-zones, in the fixed order top-left, top-right,
    /// bottom-right, bottom-left; hit-testing takes the first match.
    pub open spec fn spec_edges(self) -> Seq<Edge> {
        seq![
            Edge::spec_at(self.spec_top_left(), EdgeKind::TopLeft),
            Edge::spec_at(self.spec_top_right(), EdgeKind::TopRight),
            Edge::spec_at(self.spec_bottom_right(), EdgeKind::BottomRight),
            Edge::spec_at(self.spec_bottom_left(), EdgeKind::BottomLeft),
        ]
    }

    /// Build the four corner hit-zones in their fixed order.
    pub fn edges(&self) -> (es: Vec<Edge>)
        requires
            self.bounded(),
        ensures
            es@ == self.spec_edges(),
    {
        let mut es: Vec<Edge> = Vec::new();
        es.push(Edge::new(self.top_left(), EdgeKind::TopLeft));
        es.push(Edge::new(self.top_right(), EdgeKind::TopRight));
        es.push(Edge::new(self.bottom_right(), EdgeKind::BottomRight));
        es.push(Edge::new(self.bottom_left(), EdgeKind::BottomLeft));
        proof {
            assert(es@ =~= self.spec_edges());
        }
        es
    }

    /// The command that fills this box.
    pub fn draw(&self) -> (cmd: DrawCmd)
        ensures
            cmd == (DrawCmd::FillRect { rect: *self }),
    {
        DrawCmd::FillRect { rect: *self }
    }

    /// The command that strokes the selection outline just outside this box.
    pub fn draw_outline(&self) -> (cmd: DrawCmd)
        ensures
            cmd == (DrawCmd::OutlineRect { rect: *self }),
    {
        DrawCmd::OutlineRect { rect: *self }
    }

    /// The commands that mark this box active: its outline, then its four
    /// corner handles.
    pub fn draw_active(&self) -> (cmds: Vec<DrawCmd>)
        requires
            self.bounded(),
        ensures
            cmds@ == crate::renderer::spec_draw_active(*self),
    {
        let mut cmds: Vec<DrawCmd> = Vec::new();
        cmds.push(self.draw_outline());
        let es: Vec<Edge> = self.edges();
        proof {
            assert(es@.len() == 4);
        }
        cmds.push(es[0].draw());
        cmds.push(es[1].draw());
        cmds.push(es[2].draw());
        cmds.push(es[3].draw());
        proof {
            assert(cmds@ =~= crate::renderer::spec_draw_active(*self));
        }
        cmds
    }

    /// The corner diagonally opposite the corner named by `kind`: the one
    /// that stays fixed while that corner is dragged.
    pub open spec fn spec_opposite_corner(self, kind: EdgeKind) -> Point {
        match kind {
            EdgeKind::TopLeft => self.spec_bottom_right(),
            EdgeKind::TopRight => self.spec_bottom_left(),
            EdgeKind::BottomRight => self.spec_top_left(),
            EdgeKind::BottomLeft => self.spec_top_right(),
        }
    }

    /// The box after dragging the corner named by `kind` to `point`: the
    /// opposite corner stays fixed and the result is normalized, so dragging
    /// past the opposite corner still yields non-negative width and height
    /// (the corner roles flip rather than the box inverting).
    pub open spec fn spec_resize(self, point: Point, kind: EdgeKind) -> Rect {
        Rect::spec_new(point, self.spec_opposite_corner(kind))
    }

    /// Drag the corner named by `edge` to `point`.
    pub fn resize(&mut self, point: Point, edge: Edge)
        requires
            old(self).bounded(),
            point_in_range(point),
        ensures
            *final(self) == old(self).spec_resize(point, edge.kind),
            final(self).bounded(),
    {
        let opposite: Point = match edge.kind {
            EdgeKind::TopLeft => self.bottom_right(),
            EdgeKind::TopRight => self.bottom_left(),
            EdgeKind::BottomRight => self.top_left(),
            EdgeKind::BottomLeft => self.top_right(),
        };
        *self = Rect::new(point, opposite);
    }

    /// The offset of `point` from the box's top-left corner, recorded when a
    /// relocation drag starts.
    pub open spec fn spec_grab_point(self, point: Point) -> Point {
        Point { x: (point.x - self.x) as i64, y: (point.y - self.y) as i64 }
    }

    /// Record where inside the box the pointer grabbed it.
    pub fn grab_point(&self, point: Point) -> (r: Point)
        requires
            self.bounded(),
            point_in_range(point),
        ensures
            r == self.spec_grab_point(point),
    {
        Point { x: point.x - self.x, y: point.y - self.y }
    }

    /// Whether relocating this box so that `grab_point` lands on `point`
    /// keeps every edge coordinate inside the host range.
    pub open spec fn spec_relocate_in_range(self, point: Point, grab_point: Point) -> bool {
        &&& coord_in_range(point.x - grab_point.x)
        &&& coord_in_range(point.x - grab_point.x + self.width)
        &&& coord_in_range(point.y - grab_point.y)
        &&& coord_in_range(point.y - grab_point.y + self.height)
    }

    /// The box translated so that the grabbed spot follows the pointer:
    /// its top-left corner becomes `point - grab_point`, its extent is kept.
    pub open spec fn spec_relocate(self, point: Point, grab_point: Point) -> Rect {
        Rect {
            x: (point.x - grab_point.x) as i64,
            y: (point.y - grab_point.y) as i64,
            width: self.width,
            height: self.height,
        }
    }

    /// Translate the whole box so that the grabbed spot follows the pointer.
    pub fn relocate(&mut self, point: Point, grab_point: Point)
        requires
            old(self).bounded(),
            old(self).spec_relocate_in_range(point, grab_point),
        ensures
            *final(self) == old(self).spec_relocate(point, grab_point),
            final(self).bounded(),
    {
        self.x = point.x - grab_point.x;
        self.y = point.y - grab_point.y;
    }
}

/// The four corner hit-zones of a rectangle, named after the corner they sit
/// on, in the fixed hit-test order.
#[derive(Clone, Copy, Debug, PartialEq, Eq, Structural)]
pub enum EdgeKind {
    TopLeft,
    TopRight,
    BottomRight,
    BottomLeft,
}

/// The pointer cursor the host surface is asked to show.
#[derive(Clone, Copy, Debug, PartialEq, Eq, Structural)]
pub enum Cursor {
    /// The surface's default cursor.
    Auto,
    /// Diagonal resize cursor for the top-left and bottom-right corners.
    NwseResize,
    /// Diagonal resize cursor for the top-right and bottom-left corners.
    NeswResize,
}

impl EdgeKind {
    /// The resize cursor shown over this corner.
    pub open spec fn spec_cursor(self) -> Cursor {
        match self {
            EdgeKind::TopLeft => Cursor::NwseResize,
            EdgeKind::TopRight => Cursor::NeswResize,
            EdgeKind::BottomRight => Cursor::NwseResize,
            EdgeKind::BottomLeft => Cursor::NeswResize,
        }
    }
}

/// A corner hit-zone: a small square box centered on one rectangle corner,
/// carrying which corner it is.
#[derive(Clone, Copy, Debug, PartialEq, Eq, Structural)]
pub struct Edge {
    pub rect: Rect,
    pub kind: EdgeKind,
}

impl Edge {
    /// The hit-zone of kind `kind` centered on `point`.
    pub open spec fn spec_at(point: Point, kind: EdgeKind) -> Edge {
        Edge { rect: Rect::spec_from_center(point, EDGE_SIZE, EDGE_SIZE), kind: kind }
    }

    /// Build the hit-zone of kind `kind` centered on `point`.
    pub fn new(point: Point, kind: EdgeKind) -> (e: Edge)
        requires
            point_in_range(point),
        ensures
            e == Edge::spec_at(point, kind),
            e.rect.wf(),
    {
        let size: i64 = EDGE_SIZE;
        Edge { rect: Rect::from_center(point, size, size), kind: kind }
    }

    /// The command that fills this hit-zone's box.
    pub fn draw(&self) -> (cmd: DrawCmd)
        ensures
            cmd == (DrawCmd::FillRect { rect: self.rect }),
    {
        self.rect.draw()
    }

    /// Whether `point` lies inside this hit-zone.
    pub fn is_point_over(&self, point: Point) -> (r: bool)
        requires
            self.rect.wf(),
        ensures
            r == self.rect.spec_contains(point),
    {
        self.rect.is_point_over(point)
    }

    /// The resize cursor shown over this hit-zone.
    pub fn cursor(&self) -> (c: Cursor)
        ensures
            c == self.kind.spec_cursor(),
    {
        match self.kind {
            EdgeKind::TopLeft => Cursor::NwseResize,
            EdgeKind::TopRight => Cursor::NeswResize,
            EdgeKind::BottomRight => Cursor::NwseResize,
            EdgeKind::BottomLeft => Cursor::NeswResize,
        }
    }
}

/// Building a rectangle from two corner points does not depend on the order
/// of the points, and always yields non-negative width and height.
pub proof fn lemma_rect_new_order_independent(a: Point, b: Point)
    requires
        point_in_range(a),
        point_in_range(b),
    ensures
        Rect::spec_new(a, b) == Rect::spec_new(b, a),
        0 <= Rect::spec_new(a, b).width,
        0 <= Rect::spec_new(a, b).height,
{
}

/// Dragging any corner to any in-range point, even past the opposite
/// corner, yields a normalized box: non-negative width and height, every
/// edge inside the host range. The opposite corner stays fixed; on an
/// over-drag the corner roles flip instead of the box inverting.
pub proof fn lemma_resize_stays_normalized(r: Rect, point: Point, kind: EdgeKind)
    requires
        r.bounded(),
        point_in_range(point),
    ensures
        0 <= r.spec_resize(point, kind).width,
        0 <= r.spec_resize(point, kind).height,
        r.spec_resize(point, kind).bounded(),
{
}

/// The first corner hit-zone of `r` (in the fixed order top-left, top-right,
/// bottom-right, bottom-left) whose box contains `p`, if any.
pub open spec fn spec_first_edge_hit(r: Rect, p: Point) -> Option<Edge> {
    let e_tl = Edge::spec_at(r.spec_top_left(), EdgeKind::TopLeft);
    let e_tr = Edge::spec_at(r.spec_top_right(), EdgeKind::TopRight);
    let e_br = Edge::spec_at(r.spec_bottom_right(), EdgeKind::BottomRight);
    let e_bl = Edge::spec_at(r.spec_bottom_left(), EdgeKind::BottomLeft);
    if e_tl.rect.spec_contains(p) {
        Some(e_tl)
    } else if e_tr.rect.spec_contains(p) {
        Some(e_tr)
    } else if e_br.rect.spec_contains(p) {
        Some(e_br)
    } else if e_bl.rect.spec_contains(p) {
        Some(e_bl)
    } else {
        None
    }
}

/// A drawable object: a tagged union over shape kinds, today holding only
/// the rectangle primitive. The interaction state machine works only through
/// this interface, so further shape kinds can be added without touching it.
#[derive(Clone, Copy, Debug, PartialEq, Eq, Structural)]
pub enum Object {
    Rectangle(Rect),
}

impl Object {
    /// The bounding box of the shape.
    pub open spec fn spec_rect(self) -> Rect {
        match self {
            Object::Rectangle(r) => r,
        }
    }

    /// The bounding box of the shape.
    pub fn rect(&self) -> (r: Rect)
        ensures
            r == self.spec_rect(),
    {
        match self {
            Object::Rectangle(r) => *r,
        }
    }

    /// The four corner hit-zones of the shape's box, in their fixed order.
    pub open spec fn spec_edges(self) -> Seq<Edge> {
        self.spec_rect().spec_edges()
    }

    /// Build the four corner hit-zones in their fixed order.
    pub fn edges(&self) -> (es: Vec<Edge>)
        requires
            self.spec_rect().bounded(),
        ensures
            es@ == self.spec_edges(),
    {
        match self {
            Object::Rectangle(rect) => rect.edges(),
        }
    }

    /// The command that fills the shape.
    pub fn draw(&self) -> (cmd: DrawCmd)
        ensures
            cmd == (DrawCmd::FillRect { rect: self.spec_rect() }),
    {
        match self {
            Object::Rectangle(rect) => rect.draw(),
        }
    }

    /// The command that strokes the selection outline around the shape.
    pub fn draw_outline(&self) -> (cmd: DrawCmd)
        ensures
            cmd == (DrawCmd::OutlineRect { rect: self.spec_rect() }),
    {
        match self {
            Object::Rectangle(rect) => rect.draw_outline(),
        }
    }

    /// The commands that mark the shape active: outline plus corner handles.
    pub fn draw_active(&self) -> (cmds: Vec<DrawCmd>)
        requires
            self.spec_rect().bounded(),
        ensures
            cmds@ == crate::renderer::spec_draw_active(self.spec_rect()),
    {
        match self {
            Object::Rectangle(rect) => rect.draw_active(),
        }
    }

    /// Whether `point` lies inside the shape's box.
    pub fn is_point_over(&self, point: Point) -> (r: bool)
        requires
            self.spec_rect().wf(),
        ensures
            r == self.spec_rect().spec_contains(point),
    {
        match self {
            Object::Rectangle(rect) => rect.is_point_over(point),
        }
    }

    /// Drag the corner named by `edge` to `point`; see `Rect::resize`.
    pub fn resize(&mut self, point: Point, edge: Edge)
        requires
            old(self).spec_rect().bounded(),
            point_in_range(point),
        ensures
            *final(self) == Object::Rectangle(old(self).spec_rect().spec_resize(point, edge.kind)),
            final(self).spec_rect().bounded(),
    {
        match self {
            Object::Rectangle(rect) => rect.resize(point, edge),
        }
    }

    /// Translate the shape so the grabbed spot follows the pointer; see
    /// `Rect::relocate`.
    pub fn relocate(&mut self, point: Point, grab_point: Point)
        requires
            old(self).spec_rect().bounded(),
            old(self).spec_rect().spec_relocate_in_range(point, grab_point),
        ensures
            *final(self) == Object::Rectangle(
                old(self).spec_rect().spec_relocate(point, grab_point),
            ),
            final(self).spec_rect().bounded(),
    {
        match self {
            Object::Rectangle(rect) => rect.relocate(point, grab_point),
        }
    }

    /// Record where inside the shape the pointer grabbed it.
    pub fn grab_point(&self, point: Point) -> (r: Point)
        requires
            self.spec_rect().bounded(),
            point_in_range(point),
        ensures
            r == self.spec_rect().spec_grab_point(point),
    {
        match self {
            Object::Rectangle(rect) => rect.grab_point(point),
        }
    }

    /// The y coordinate of the box's top edge.
    pub fn top(&self) -> (r: i64)
        ensures
            r == self.spec_rect().spec_top(),
    {
        match self {
            Object::Rectangle(rect) => rect.top(),
        }
    }

    /// The x coordinate of the box's left edge.
    pub fn left(&self) -> (r: i64)
        ensures
            r == self.spec_rect().spec_left(),
    {
        match self {
            Object::Rectangle(rect) => rect.left(),
        }
    }

    /// The y coordinate of the box's bottom edge.
    pub fn bottom(&self) -> (r: i64)
        requires
            self.spec_rect().wf(),
        ensures
            r == self.spec_rect().spec_bottom(),
    {
        match self {
            Object::Rectangle(rect) => rect.bottom(),
        }
    }

    /// The x coordinate of the box's right edge.
    pub fn right(&self) -> (r: i64)
        requires
            self.spec_rect().wf(),
        ensures
            r == self.spec_rect().spec_right(),
    {
        match self {
            Object::Rectangle(rect) => rect.right(),
        }
    }

    /// The box's top-left corner.
    pub fn top_left(&self) -> (p: Point)
        ensures
            p == self.spec_rect().spec_top_left(),
    {
        match self {
            Object::Rectangle(rect) => rect.top_left(),
        }
    }

    /// The box's top-right corner.
    pub fn top_right(&self) -> (p: Point)
        requires
            self.spec_rect().wf(),
        ensures
            p == self.spec_rect().spec_top_right(),
    {
        match self {
            Object::Rectangle(rect) => rect.top_right(),
        }
    }

    /// The box's bottom-right corner.
    pub fn bottom_right(&self) -> (p: Point)
        requires
            self.spec_rect().wf(),
        ensures
            p == self.spec_rect().spec_bottom_right(),
    {
        match self {
            Object::Rectangle(rect) => rect.bottom_right(),
        }
    }

    /// The box's bottom-left corner.
    pub fn bottom_left(&self) -> (p: Point)
        requires
            self.spec_rect().wf(),
        ensures
            p == self.spec_rect().spec_bottom_left(),
    {
        match self {
            Object::Rectangle(rect) => rect.bottom_left(),
        }
    }
}

} // verus!
