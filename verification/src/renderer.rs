//! Repainting: reduces the whole machine state to an ordered list of plain
//! drawing commands. The host walks the list and performs each command on
//! its surface; nothing here touches the surface itself.

use vstd::prelude::*;
use crate::alignments::{spec_from_layers, Alignment};
use crate::layers::{Layer, LayerState, Layers, LayersView};
use crate::objects::Rect;

verus! {

/// One drawing step the host performs on its surface, in list order.
#[derive(Clone, Copy, Debug, PartialEq, Eq, Structural)]
pub enum DrawCmd {
    /// Clear the whole surface before repainting.
    Clear,
    /// Fill the given box with the current fill style.
    FillRect { rect: Rect },
    /// Stroke the selection outline around the given box: the accent color,
    /// three units wide, centered half its width outside the box.
    OutlineRect { rect: Rect },
    /// Stroke a vertical alignment guide at `x` from `top` to `bottom`.
    GuideX { x: i64, top: i64, bottom: i64 },
    /// Stroke a horizontal alignment guide at `y` from `left` to `right`.
    GuideY { y: i64, left: i64, right: i64 },
}

/// The fill commands of all layers, bottom to top.
pub open spec fn spec_fill_cmds(layers: Seq<Layer>) -> Seq<DrawCmd> {
    Seq::new(layers.len(), |i: int| DrawCmd::FillRect { rect: layers[i].object.spec_rect() })
}

/// The commands that mark a layer active: its outline, then its four corner
/// handles in the fixed corner order.
pub open spec fn spec_draw_active(r: Rect) -> Seq<DrawCmd> {
    seq![
        DrawCmd::OutlineRect { rect: r },
        DrawCmd::FillRect { rect: r.spec_edges()[0].rect },
        DrawCmd::FillRect { rect: r.spec_edges()[1].rect },
        DrawCmd::FillRect { rect: r.spec_edges()[2].rect },
        DrawCmd::FillRect { rect: r.spec_edges()[3].rect },
    ]
}

/// One stroke command per alignment guide, in guide order.
pub open spec fn spec_guide_cmds(aligns: Seq<Alignment>) -> Seq<DrawCmd> {
    Seq::new(
        aligns.len(),
        |i: int|
            match aligns[i] {
                Alignment::X { x, top, bottom } => DrawCmd::GuideX { x, top, bottom },
                Alignment::Y { y, left, right } => DrawCmd::GuideY { y, left, right },
            },
    )
}

/// The layer the active state refers to, if it refers to one: a pressed but
/// not yet dragged creation refers to none.
pub open spec fn spec_active_index(active: Option<LayerState>) -> Option<usize> {
    match active {
        Some(LayerState::CreatingLayer { layer, .. }) => Some(layer),
        Some(LayerState::IdleLayer { layer }) => Some(layer),
        Some(LayerState::ResizeLayer { layer, .. }) => Some(layer),
        Some(LayerState::RelocateLayer { layer, .. }) => Some(layer),
        _ => None,
    }
}

/// A full repaint: clear, fill every layer bottom to top, outline the
/// hovered layer, then mark the active layer (outline, corner handles, and
/// its alignment guides against every other layer).
pub open spec fn spec_render(v: LayersView) -> Seq<DrawCmd> {
    let base = seq![DrawCmd::Clear] + spec_fill_cmds(v.layers);
    let with_outline = match v.outlined {
        Some(i) => base.push(
            DrawCmd::OutlineRect { rect: v.layers[i as int].object.spec_rect() },
        ),
        None => base,
    };
    match spec_active_index(v.active) {
        Some(i) => with_outline + spec_draw_active(v.layers[i as int].object.spec_rect())
            + spec_guide_cmds(spec_from_layers(v.layers, i as int)),
        None => with_outline,
    }
}

/// Reduce the machine state to the ordered command list of one repaint.
pub fn render(layers: &Layers) -> (cmds: Vec<DrawCmd>)
    requires
        layers.wf(),
    ensures
        cmds@ == spec_render(layers@),
{
    let layer_vec: &Vec<Layer> = layers.layers();
    let mut cmds: Vec<DrawCmd> = Vec::new();
    cmds.push(DrawCmd::Clear);
    let mut i: usize = 0;
    while i < layer_vec.len()
        invariant
            layer_vec@ == layers@.layers,
            layers.wf(),
            i <= layer_vec@.len(),
            cmds@.len() == 1 + i,
            cmds@[0] == DrawCmd::Clear,
            forall|k: int| 0 <= k < i ==> cmds@[1 + k] == spec_fill_cmds(layer_vec@)[k],
        decreases layer_vec@.len() - i,
    {
        cmds.push(layer_vec[i].object.draw());
        i = i + 1;
    }
    proof {
        assert(cmds@ =~= seq![DrawCmd::Clear] + spec_fill_cmds(layers@.layers));
    }
    if let Some(outlined_layer) = *layers.outlined_layer() {
        cmds.push(layer_vec[outlined_layer].object.draw_outline());
    }
    let ghost with_outline: Seq<DrawCmd> = cmds@;
    match *layers.active_layer() {
        Some(LayerState::CreatingLayer { layer, .. }) | Some(LayerState::IdleLayer { layer })
            | Some(LayerState::ResizeLayer { layer, .. }) | Some(
            LayerState::RelocateLayer { layer, .. },
        ) => {
            let mut active_cmds: Vec<DrawCmd> = layer_vec[layer].object.draw_active();
            cmds.append(&mut active_cmds);
            let ghost with_active: Seq<DrawCmd> = cmds@;
            let aligns: Vec<Alignment> = Alignment::from_layers(layer_vec, layer);
            let mut j: usize = 0;
            while j < aligns.len()
                invariant
                    j <= aligns@.len(),
                    cmds@.len() == with_active.len() + j,
                    cmds@.subrange(0, with_active.len() as int) =~= with_active,
                    forall|k: int|
                        0 <= k < j ==> cmds@[with_active.len() + k] == spec_guide_cmds(
                            aligns@,
                        )[k],
                decreases aligns@.len() - j,
            {
                let cmd: DrawCmd = match aligns[j] {
                    Alignment::X { x, top, bottom } => DrawCmd::GuideX { x, top, bottom },
                    Alignment::Y { y, left, right } => DrawCmd::GuideY { y, left, right },
                };
                cmds.push(cmd);
                j = j + 1;
            }
            proof {
                assert(cmds@ =~= with_active + spec_guide_cmds(aligns@));
                assert(cmds@ =~= spec_render(layers@));
            }
        },
        _ => {},
    }
    cmds
}

} // verus!
