//! Which window edges a keyboard resize moves.
//!
//! With Shift held the arrow keys push the matching border outwards; with
//! Alt held they pull the opposite border inwards. Along each axis the
//! change either moves the near edge (left/top: position and size change)
//! or the far edge (right/bottom: only the size changes).

use vstd::prelude::*;

verus! {

/// The kind of resize the held modifiers ask for.
#[derive(Debug, Clone, Copy, PartialEq, Eq, Structural)]
pub enum ResizeMode {
    /// Shift alone: grow the window outwards.
    Expand,
    /// Alt alone: shrink the window inwards.
    Shrink,
}

/// Which edge a resize step moves along one axis.
#[derive(Debug, Clone, Copy, PartialEq, Eq, Structural)]
pub enum EdgeMove {
    /// No change along this axis.
    Stay,
    /// The left/top edge moves by the step: position += step, size -= step.
    NearEdge,
    /// The right/bottom edge moves by the step: size += step.
    FarEdge,
}

/// The resize mode of the held modifiers: Shift alone expands, Alt alone
/// shrinks, both or neither leave the window as it is.
pub open spec fn spec_resize_mode(is_shift_down: bool, is_alt_down: bool) -> Option<ResizeMode> {
    if is_shift_down && !is_alt_down {
        Some(ResizeMode::Expand)
    } else if is_alt_down && !is_shift_down {
        Some(ResizeMode::Shrink)
    } else {
        None
    }
}

/// Computes the resize mode of the held modifiers.
pub fn resize_mode(is_shift_down: bool, is_alt_down: bool) -> (m: Option<ResizeMode>)
    ensures
        m == spec_resize_mode(is_shift_down, is_alt_down),
{
    if is_shift_down && !is_alt_down {
        Some(ResizeMode::Expand)
    } else if is_alt_down && !is_shift_down {
        Some(ResizeMode::Shrink)
    } else {
        None
    }
}

/// The edge moved along an axis by a step of sign `step_sign` (-1, 0, +1):
/// expanding moves the edge the step points to, shrinking moves the edge
/// opposite to it.
pub open spec fn spec_axis_edge(mode: Option<ResizeMode>, step_sign: i32) -> EdgeMove {
    match mode {
        None => EdgeMove::Stay,
        Some(ResizeMode::Expand) => if step_sign > 0 {
            EdgeMove::FarEdge
        } else if step_sign < 0 {
            EdgeMove::NearEdge
        } else {
            EdgeMove::Stay
        },
        Some(ResizeMode::Shrink) => if step_sign > 0 {
            EdgeMove::NearEdge
        } else if step_sign < 0 {
            EdgeMove::FarEdge
        } else {
            EdgeMove::Stay
        },
    }
}

/// Decides which edge a resize step moves along one axis.
pub fn axis_edge(mode: Option<ResizeMode>, step_sign: i32) -> (e: EdgeMove)
    ensures
        e == spec_axis_edge(mode, step_sign),
{
    match mode {
        None => EdgeMove::Stay,
        Some(ResizeMode::Expand) => {
            if step_sign > 0 {
                EdgeMove::FarEdge
            } else if step_sign < 0 {
                EdgeMove::NearEdge
            } else {
                EdgeMove::Stay
            }
        },
        Some(ResizeMode::Shrink) => {
            if step_sign > 0 {
                EdgeMove::NearEdge
            } else if step_sign < 0 {
                EdgeMove::FarEdge
            } else {
                EdgeMove::Stay
            }
        },
    }
}

/// Expanding and shrinking in the same direction move opposite edges, and
/// expanding one way moves the edge that shrinking the other way moves.
pub proof fn lemma_expand_and_shrink_move_opposite_edges(step_sign: i32)
    requires
        step_sign != 0,
        step_sign != i32::MIN,
    ensures
        spec_axis_edge(Some(ResizeMode::Expand), step_sign) != spec_axis_edge(
            Some(ResizeMode::Shrink),
            step_sign,
        ),
        spec_axis_edge(Some(ResizeMode::Expand), step_sign) == spec_axis_edge(
            Some(ResizeMode::Shrink),
            -step_sign as i32,
        ),
{
}

/// Whether a shrink step pulls the near (left/top) edge in, so that a size
/// clamped to a minimum must keep the far edge where it was.
pub fn shrinks_from_near_edge(is_alt_down: bool, step_sign: i32) -> (b: bool)
    ensures
        b == (is_alt_down && step_sign > 0),
{
    is_alt_down && step_sign > 0
}

} // verus!
