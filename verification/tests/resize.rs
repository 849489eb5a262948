use win_glide::resize::{axis_edge, resize_mode, shrinks_from_near_edge, EdgeMove, ResizeMode};

#[test]
fn modifiers_select_the_resize_mode() {
    assert_eq!(resize_mode(true, false), Some(ResizeMode::Expand));
    assert_eq!(resize_mode(false, true), Some(ResizeMode::Shrink));
    assert_eq!(resize_mode(true, true), None);
    assert_eq!(resize_mode(false, false), None);
}

#[test]
fn expanding_moves_the_edge_the_arrow_points_to() {
    let e = Some(ResizeMode::Expand);
    assert_eq!(axis_edge(e, 1), EdgeMove::FarEdge);
    assert_eq!(axis_edge(e, -1), EdgeMove::NearEdge);
    assert_eq!(axis_edge(e, 0), EdgeMove::Stay);
}

#[test]
fn shrinking_moves_the_opposite_edge() {
    let s = Some(ResizeMode::Shrink);
    assert_eq!(axis_edge(s, 1), EdgeMove::NearEdge);
    assert_eq!(axis_edge(s, -1), EdgeMove::FarEdge);
    assert_eq!(axis_edge(s, 0), EdgeMove::Stay);
    assert_eq!(axis_edge(None, 1), EdgeMove::Stay);
    assert!(shrinks_from_near_edge(true, 1));
    assert!(!shrinks_from_near_edge(true, -1));
    assert!(!shrinks_from_near_edge(false, 1));
}
