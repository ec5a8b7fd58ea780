use shellkit::anchoring::apply_edges;
use shellkit::bar::Bar;
use shellkit::builder::Builder;
use shellkit::config::{AppHandle, Edge, EdgeAnchor, EdgeMargin, Layer, Orientation};
use shellkit::plate::{Placement, Plate};
use shellkit::tags::{BuildError, Tag, WidgetKind};

fn app() -> AppHandle {
    AppHandle { id: 1 }
}

#[test]
fn bar_scenario_top_strip() {
    let bar = Bar::new(
        app(),
        "top-bar",
        vec![Tag::Label(10), Tag::Box(11), Tag::Button(12)],
        vec![EdgeMargin { edge: Edge::Top, offset: 0 }],
        vec![
            EdgeAnchor { edge: Edge::Top, pinned: true },
            EdgeAnchor { edge: Edge::Left, pinned: true },
            EdgeAnchor { edge: Edge::Right, pinned: true },
        ],
        Orientation::Horizontal,
    );
    let plan = bar.build().unwrap();
    assert_eq!(plan.app, app());
    assert_eq!(plan.title, "top-bar");
    assert_eq!(plan.style_name, "taskbar");
    assert_eq!(plan.orientation, Orientation::Horizontal);
    assert_eq!(plan.layer, Layer::Top);
    assert!(plan.auto_exclusive_zone);
    assert_eq!(plan.children.len(), 3);
    assert_eq!(plan.children[0].kind, WidgetKind::Label);
    assert_eq!(plan.children[0].id, 10);
    assert_eq!(plan.children[1].kind, WidgetKind::Box);
    assert_eq!(plan.children[1].id, 11);
    assert_eq!(plan.children[2].kind, WidgetKind::Button);
    assert_eq!(plan.children[2].id, 12);

    let settings = apply_edges(&plan.margins, &plan.anchors);
    assert_eq!(settings.margin_top, Some(0));
    assert_eq!(settings.margin_bottom, None);
    assert_eq!(settings.margin_left, None);
    assert_eq!(settings.margin_right, None);
    assert_eq!(settings.anchor_top, Some(true));
    assert_eq!(settings.anchor_left, Some(true));
    assert_eq!(settings.anchor_right, Some(true));
    assert_eq!(settings.anchor_bottom, None);
}

#[test]
fn bar_preserves_child_order() {
    let bar = Bar::new(
        app(),
        "all-kinds",
        vec![
            Tag::Scroller(5),
            Tag::Revealer(4),
            Tag::Button(3),
            Tag::Box(2),
            Tag::Label(1),
        ],
        vec![],
        vec![],
        Orientation::Vertical,
    );
    let plan = bar.build().unwrap();
    assert_eq!(plan.children.len(), 5);
    let kinds: Vec<WidgetKind> = plan.children.iter().map(|w| w.kind).collect();
    assert_eq!(
        kinds,
        vec![
            WidgetKind::Scroller,
            WidgetKind::Revealer,
            WidgetKind::Button,
            WidgetKind::Box,
            WidgetKind::Label,
        ]
    );
    let ids: Vec<u64> = plan.children.iter().map(|w| w.id).collect();
    assert_eq!(ids, vec![5, 4, 3, 2, 1]);
}

#[test]
fn bar_with_no_tags_plans_empty_container() {
    let bar = Bar::new(app(), "empty", vec![], vec![], vec![], Orientation::Horizontal);
    let plan = bar.build().unwrap();
    assert_eq!(plan.children.len(), 0);
    assert_eq!(plan.style_name, "taskbar");
}

#[test]
fn bar_undefined_tag_fails() {
    let bar = Bar::new(
        app(),
        "broken",
        vec![Tag::Label(1), Tag::Undefined, Tag::Button(2)],
        vec![],
        vec![],
        Orientation::Horizontal,
    );
    assert_eq!(bar.build().unwrap_err(), BuildError::UndefinedTag);
}

#[test]
fn plate_scenario_welcome() {
    let plate = Plate::new(
        app(),
        "welcome",
        Tag::Label(42),
        vec![],
        vec![EdgeAnchor { edge: Edge::Top, pinned: true }],
        5,
    );
    let plan = plate.build().unwrap();
    assert_eq!(plan.app, app());
    assert_eq!(plan.title, "welcome");
    assert_eq!(plan.child.kind, WidgetKind::Label);
    assert_eq!(plan.child.id, 42);
    assert_eq!(plan.layer, Layer::Overlay);
    assert!(!plan.decorated);
    assert!(!plan.resizable);
    assert_eq!(plan.timer_seconds, 5);

    match plan.placement(true) {
        Placement::Layered { layer, settings } => {
            assert_eq!(layer, Layer::Overlay);
            assert_eq!(settings.anchor_top, Some(true));
            assert_eq!(settings.anchor_bottom, None);
            assert_eq!(settings.anchor_left, None);
            assert_eq!(settings.anchor_right, None);
            assert_eq!(settings.margin_top, None);
            assert_eq!(settings.margin_bottom, None);
            assert_eq!(settings.margin_left, None);
            assert_eq!(settings.margin_right, None);
        },
        Placement::HostDefault => panic!("expected layered placement"),
    }
}

#[test]
fn plate_without_layer_support_falls_back() {
    let plate = Plate::new(
        app(),
        "toast",
        Tag::Button(3),
        vec![EdgeMargin { edge: Edge::Bottom, offset: 12 }],
        vec![EdgeAnchor { edge: Edge::Bottom, pinned: true }],
        2,
    );
    let plan = plate.build().unwrap();
    assert!(matches!(plan.placement(false), Placement::HostDefault));
}

#[test]
fn plate_undefined_tag_fails() {
    let plate = Plate::new(app(), "broken", Tag::Undefined, vec![], vec![], 3);
    assert_eq!(plate.build().unwrap_err(), BuildError::UndefinedTag);
}
