//! Alignment guides: transient lines shown where the active layer's edge
//! coordinates exactly coincide with another layer's.

use vstd::prelude::*;
use crate::layers::Layer;
use crate::objects::Rect;

verus! {

/// A transient guide line between the active layer and one other layer;
/// recomputed on every repaint, never persisted.
#[derive(Clone, Copy, Debug, PartialEq, Eq, Structural)]
pub enum Alignment {
    /// A vertical guide at `x`, spanning the other layer's top..bottom.
    X { x: i64, top: i64, bottom: i64 },
    /// A horizontal guide at `y`, spanning the other layer's left..right.
    Y { y: i64, left: i64, right: i64 },
}

/// `s` reduced to the first occurrence of each value, in order.
pub open spec fn keep_first(s: Seq<i64>) -> Seq<i64>
    decreases s.len(),
{
    if s.len() == 0 {
        Seq::empty()
    } else if s.drop_last().contains(s.last()) {
        keep_first(s.drop_last())
    } else {
        keep_first(s.drop_last()).push(s.last())
    }
}

/// The values of `a` that also occur in `b`: first occurrences only, in the
/// order they appear in `a`.
pub open spec fn spec_intersect(a: Seq<i64>, b: Seq<i64>) -> Seq<i64> {
    keep_first(a).filter(|x: i64| b.contains(x))
}

/// Relies on `array_tool`'s vector intersection (`array_tool::vec::Intersect`
/// for `Vec`): it walks `a` with duplicates removed (first occurrences, order
/// kept) and keeps each value that also occurs in `b`.
#[verifier::external_body]
fn intersect_values(a: &Vec<i64>, b: &Vec<i64>) -> (r: Vec<i64>)
    ensures
        r@ == spec_intersect(a@, b@),
{
    array_tool::vec::Intersect::intersect(a, b.clone())
}

/// The y coordinates of `r`'s horizontal edges: top then bottom.
pub open spec fn spec_y_values(r: Rect) -> Seq<i64> {
    seq![r.y, (r.y + r.height) as i64]
}

/// The x coordinates of `r`'s vertical edges: left then right.
pub open spec fn spec_x_values(r: Rect) -> Seq<i64> {
    seq![r.x, (r.x + r.width) as i64]
}

/// One horizontal guide per shared y coordinate, spanning `other`'s width.
pub open spec fn spec_y_guides(ys: Seq<i64>, other: Rect) -> Seq<Alignment> {
    Seq::new(
        ys.len(),
        |i: int|
            Alignment::Y {
                y: ys[i],
                left: other.x,
                right: (other.x + other.width) as i64,
            },
    )
}

/// One vertical guide per shared x coordinate, spanning `other`'s height.
pub open spec fn spec_x_guides(xs: Seq<i64>, other: Rect) -> Seq<Alignment> {
    Seq::new(
        xs.len(),
        |i: int|
            Alignment::X {
                x: xs[i],
                top: other.y,
                bottom: (other.y + other.height) as i64,
            },
    )
}

/// All guides between the active layer's box and one other layer's box:
/// horizontal guides for every shared top/bottom coordinate, then vertical
/// guides for every shared left/right coordinate. Coordinates must coincide
/// exactly for a guide to appear.
pub open spec fn spec_get_alignments(active: Rect, other: Rect) -> Seq<Alignment> {
    spec_y_guides(spec_intersect(spec_y_values(other), spec_y_values(active)), other)
        + spec_x_guides(spec_intersect(spec_x_values(other), spec_x_values(active)), other)
}

/// The guides of `spec_from_layers` restricted to the first `n` layers.
pub open spec fn spec_alignments_upto(layers: Seq<Layer>, active_idx: int, n: int) -> Seq<
    Alignment,
>
    decreases n,
{
    if n <= 0 {
        Seq::empty()
    } else if n - 1 == active_idx {
        spec_alignments_upto(layers, active_idx, n - 1)
    } else {
        spec_alignments_upto(layers, active_idx, n - 1) + spec_get_alignments(
            layers[active_idx].object.spec_rect(),
            layers[n - 1].object.spec_rect(),
        )
    }
}

/// All guides between the active layer and every other layer, in layer
/// order.
pub open spec fn spec_from_layers(layers: Seq<Layer>, active_idx: int) -> Seq<Alignment> {
    spec_alignments_upto(layers, active_idx, layers.len() as int)
}

/// Every layer's box is well-formed.
pub open spec fn layer_rects_wf(layers: Seq<Layer>) -> bool {
    forall|i: int| 0 <= i < layers.len() ==> (#[trigger] layers[i]).object.spec_rect().wf()
}

/// Where the other box's top edge coincides with the active box's top edge,
/// the very first guide between the two is the horizontal guide at that y,
/// spanning the other box's left..right.
pub proof fn lemma_shared_top_yields_guide(active: Rect, other: Rect)
    requires
        other.y == active.y,
    ensures
        spec_get_alignments(active, other).len() >= 1,
        spec_get_alignments(active, other)[0] == (Alignment::Y {
            y: other.y,
            left: other.x,
            right: (other.x + other.width) as i64,
        }),
{
    reveal_with_fuel(keep_first, 4);
    let oy = spec_y_values(other);
    let ay = spec_y_values(active);
    assert(oy.drop_last() =~= seq![other.y]);
    assert(seq![other.y].drop_last() =~= Seq::<i64>::empty());
    assert(!Seq::<i64>::empty().contains(other.y));
    assert(keep_first(seq![other.y]) =~= seq![other.y]);
    let kept = keep_first(oy);
    assert(kept == seq![other.y] || kept == seq![other.y, (other.y + other.height) as i64]);
    assert(kept[0] == other.y && kept.len() >= 1);
    let pred = |x: i64| ay.contains(x);
    reveal_with_fuel(Seq::filter, 3);
    assert(ay[0] == active.y);
    assert(pred(other.y));
    if kept.len() == 1 {
        assert(kept.drop_last() =~= Seq::<i64>::empty());
        assert(kept.filter(pred) =~= seq![other.y]);
    } else {
        assert(kept.drop_last() =~= seq![other.y]);
        assert(seq![other.y].filter(pred) =~= seq![other.y]);
        assert(kept.filter(pred)[0] == other.y && kept.filter(pred).len() >= 1);
    }
    assert(spec_intersect(oy, ay)[0] == other.y && spec_intersect(oy, ay).len() >= 1);
}

/// A guide between the active layer and the layer at `other_idx` appears in
/// the combined guide list of the first `n` layers, for every `n` past
/// `other_idx`.
proof fn lemma_upto_contains(
    layers: Seq<Layer>,
    active_idx: int,
    other_idx: int,
    n: int,
    guide: Alignment,
)
    requires
        0 <= active_idx < layers.len(),
        0 <= other_idx < n <= layers.len(),
        other_idx != active_idx,
        spec_get_alignments(
            layers[active_idx].object.spec_rect(),
            layers[other_idx].object.spec_rect(),
        ).contains(guide),
    ensures
        spec_alignments_upto(layers, active_idx, n).contains(guide),
    decreases n,
{
    let prefix = spec_alignments_upto(layers, active_idx, n - 1);
    if n - 1 == other_idx {
        let block = spec_get_alignments(
            layers[active_idx].object.spec_rect(),
            layers[other_idx].object.spec_rect(),
        );
        let k = choose|k: int| 0 <= k < block.len() && block[k] == guide;
        assert(spec_alignments_upto(layers, active_idx, n)[prefix.len() + k] == guide);
    } else {
        lemma_upto_contains(layers, active_idx, other_idx, n - 1, guide);
        let k = choose|k: int| 0 <= k < prefix.len() && prefix[k] == guide;
        assert(spec_alignments_upto(layers, active_idx, n)[k] == guide);
    }
}

/// Two layers sharing a top edge yield, for the one selected, a horizontal
/// guide at that shared y spanning the other layer's left..right, among the
/// selected layer's guides.
pub proof fn lemma_shared_top_edge_guide(layers: Seq<Layer>, active_idx: int, other_idx: int)
    requires
        0 <= active_idx < layers.len(),
        0 <= other_idx < layers.len(),
        other_idx != active_idx,
        layers[other_idx].object.spec_rect().y == layers[active_idx].object.spec_rect().y,
    ensures
        ({
            let other = layers[other_idx].object.spec_rect();
            spec_from_layers(layers, active_idx).contains(
                Alignment::Y {
                    y: other.y,
                    left: other.x,
                    right: (other.x + other.width) as i64,
                },
            )
        }),
{
    let active = layers[active_idx].object.spec_rect();
    let other = layers[other_idx].object.spec_rect();
    let guide = Alignment::Y {
        y: other.y,
        left: other.x,
        right: (other.x + other.width) as i64,
    };
    lemma_shared_top_yields_guide(active, other);
    assert(spec_get_alignments(active, other).contains(guide)) by {
        assert(spec_get_alignments(active, other)[0] == guide);
    }
    lemma_upto_contains(layers, active_idx, other_idx, layers.len() as int, guide);
}

impl Alignment {
    /// Compute all guides between the layer at `active_layer_idx` and every
    /// other layer.
    pub fn from_layers(layers: &Vec<Layer>, active_layer_idx: usize) -> (r: Vec<Alignment>)
        requires
            (active_layer_idx as int) < layers@.len(),
            layer_rects_wf(layers@),
        ensures
            r@ == spec_from_layers(layers@, active_layer_idx as int),
    {
        let active_layer: &Layer = &layers[active_layer_idx];
        let mut out: Vec<Alignment> = Vec::new();
        let mut j: usize = 0;
        while j < layers.len()
            invariant
                (active_layer_idx as int) < layers@.len(),
                layer_rects_wf(layers@),
                active_layer.object == layers@[active_layer_idx as int].object,
                j <= layers@.len(),
                out@ == spec_alignments_upto(layers@, active_layer_idx as int, j as int),
            decreases layers@.len() - j,
        {
            if j != active_layer_idx {
                let mut guides: Vec<Alignment> = Alignment::get_alignments(
                    active_layer,
                    &layers[j],
                );
                out.append(&mut guides);
            }
            j = j + 1;
        }
        out
    }

    /// All guides between the active layer's box and one other layer's box.
    fn get_alignments(active_layer: &Layer, layer: &Layer) -> (r: Vec<Alignment>)
        requires
            active_layer.object.spec_rect().wf(),
            layer.object.spec_rect().wf(),
        ensures
            r@ == spec_get_alignments(
                active_layer.object.spec_rect(),
                layer.object.spec_rect(),
            ),
    {
        let active_object: Rect = active_layer.object.rect();
        let object: Rect = layer.object.rect();

        let mut object_y: Vec<i64> = Vec::new();
        object_y.push(object.top());
        object_y.push(object.bottom());
        let mut active_y: Vec<i64> = Vec::new();
        active_y.push(active_object.top());
        active_y.push(active_object.bottom());
        let ys: Vec<i64> = intersect_values(&object_y, &active_y);
        proof {
            assert(object_y@ =~= spec_y_values(object));
            assert(active_y@ =~= spec_y_values(active_object));
        }

        let mut object_x: Vec<i64> = Vec::new();
        object_x.push(object.left());
        object_x.push(object.right());
        let mut active_x: Vec<i64> = Vec::new();
        active_x.push(active_object.left());
        active_x.push(active_object.right());
        let xs: Vec<i64> = intersect_values(&object_x, &active_x);
        proof {
            assert(object_x@ =~= spec_x_values(object));
            assert(active_x@ =~= spec_x_values(active_object));
        }

        let left: i64 = object.left();
        let right: i64 = object.right();
        let top: i64 = object.top();
        let bottom: i64 = object.bottom();

        let mut out: Vec<Alignment> = Vec::new();
        let mut i: usize = 0;
        while i < ys.len()
            invariant
                i <= ys@.len(),
                out@.len() == i,
                forall|k: int|
                    0 <= k < i ==> out@[k] == spec_y_guides(ys@, object)[k],
                left == object.x,
                right == object.spec_right(),
            decreases ys@.len() - i,
        {
            out.push(Alignment::Y { y: ys[i], left, right });
            i = i + 1;
        }
        let ghost y_count: int = out@.len() as int;
        proof {
            assert(out@ =~= spec_y_guides(ys@, object));
        }
        let mut i: usize = 0;
        while i < xs.len()
            invariant
                i <= xs@.len(),
                out@.len() == y_count + i,
                out@.subrange(0, y_count) =~= spec_y_guides(ys@, object),
                forall|k: int|
                    0 <= k < i ==> out@[y_count + k] == spec_x_guides(xs@, object)[k],
                top == object.y,
                bottom == object.spec_bottom(),
                y_count == spec_y_guides(ys@, object).len(),
            decreases xs@.len() - i,
        {
            out.push(Alignment::X { x: xs[i], top, bottom });
            i = i + 1;
        }
        proof {
            assert(out@ =~= spec_get_alignments(active_object, object));
        }
        out
    }
}

} // verus!
