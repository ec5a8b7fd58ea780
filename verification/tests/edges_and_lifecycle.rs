use shellkit::anchoring::apply_edges;
use shellkit::config::{Edge, EdgeAnchor, EdgeMargin};
use shellkit::lifecycle::{on_timer_expired, SurfaceLife};

#[test]
fn margins_last_write_wins() {
    let margins = vec![
        EdgeMargin { edge: Edge::Top, offset: 4 },
        EdgeMargin { edge: Edge::Left, offset: 2 },
        EdgeMargin { edge: Edge::Top, offset: 9 },
    ];
    let settings = apply_edges(&margins, &vec![]);
    assert_eq!(settings.margin_top, Some(9));
    assert_eq!(settings.margin_left, Some(2));
    assert_eq!(settings.margin_bottom, None);
    assert_eq!(settings.margin_right, None);
}

#[test]
fn anchors_last_write_wins() {
    let anchors = vec![
        EdgeAnchor { edge: Edge::Right, pinned: true },
        EdgeAnchor { edge: Edge::Right, pinned: false },
        EdgeAnchor { edge: Edge::Bottom, pinned: true },
    ];
    let settings = apply_edges(&vec![], &anchors);
    assert_eq!(settings.anchor_right, Some(false));
    assert_eq!(settings.anchor_bottom, Some(true));
    assert_eq!(settings.anchor_top, None);
    assert_eq!(settings.anchor_left, None);
}

#[test]
fn negative_margins_are_kept() {
    let margins = vec![EdgeMargin { edge: Edge::Bottom, offset: -16 }];
    let settings = apply_edges(&margins, &vec![]);
    assert_eq!(settings.margin_bottom, Some(-16));
}

#[test]
fn unconfigured_edges_keep_host_defaults() {
    let settings = apply_edges(&vec![], &vec![]);
    assert_eq!(settings.margin_top, None);
    assert_eq!(settings.margin_bottom, None);
    assert_eq!(settings.margin_left, None);
    assert_eq!(settings.margin_right, None);
    assert_eq!(settings.anchor_top, None);
    assert_eq!(settings.anchor_bottom, None);
    assert_eq!(settings.anchor_left, None);
    assert_eq!(settings.anchor_right, None);
}

#[test]
fn timer_destroys_a_live_surface() {
    assert_eq!(on_timer_expired(SurfaceLife::Alive), SurfaceLife::ClosedByTimer);
}

#[test]
fn timer_leaves_an_externally_closed_surface_alone() {
    assert_eq!(
        on_timer_expired(SurfaceLife::ClosedExternally),
        SurfaceLife::ClosedExternally
    );
    assert_eq!(
        on_timer_expired(SurfaceLife::ClosedByTimer),
        SurfaceLife::ClosedByTimer
    );
}
