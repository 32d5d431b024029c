use ui_borders::{
    border_edges, edge_ring, outline_edges, resolve_thickness, CalculatedBorder, Edge,
    EdgeGeometry, Node, Outline, Rect, ResolvedThickness, UiRect, Val,
};
use ui_borders::thickness::resolve_edges;

fn rect(x0: i64, y0: i64, x1: i64, y1: i64) -> Option<Rect> {
    Some(Rect::new(x0, y0, x1, y1))
}

fn overlap(a: &Rect, b: &Rect) -> bool {
    a.min.x < b.max.x && b.min.x < a.max.x && a.min.y < b.max.y && b.min.y < a.max.y
}

fn assert_well_formed(geometry: &EdgeGeometry) {
    let edges = geometry.to_array();
    for (i, a) in edges.iter().enumerate() {
        if let Some(a) = a {
            assert!(a.min.x < a.max.x && a.min.y < a.max.y);
            for (j, b) in edges.iter().enumerate() {
                if let Some(b) = b {
                    if i != j {
                        assert!(!overlap(a, b), "edges {} and {} overlap", i, j);
                    }
                }
            }
        }
    }
}

#[test]
fn fixed_thickness_resolves_to_itself() {
    assert_eq!(resolve_thickness(Val::Px(10), 0), 10);
    assert_eq!(resolve_thickness(Val::Px(10), 500), 10);
    assert_eq!(resolve_thickness(Val::Px(0), 500), 0);
    assert_eq!(resolve_thickness(Val::Px(u32::MAX), -3), 4294967295);
}

#[test]
fn undeclared_thickness_resolves_to_zero() {
    assert_eq!(resolve_thickness(Val::Undefined, 500), 0);
    assert_eq!(resolve_thickness(Val::Auto, 500), 0);
}

#[test]
fn percent_resolves_to_hundredths_of_parent_width() {
    assert_eq!(resolve_thickness(Val::Percent(10), 200), 20);
    assert_eq!(resolve_thickness(Val::Percent(100), 200), 200);
    assert_eq!(resolve_thickness(Val::Percent(250), 200), 500);
    assert_eq!(resolve_thickness(Val::Percent(0), 200), 0);
    // rounded down
    assert_eq!(resolve_thickness(Val::Percent(33), 10), 3);
    assert_eq!(resolve_thickness(Val::Percent(1), 99), 0);
}

#[test]
fn percent_of_largest_inputs_does_not_overflow() {
    assert_eq!(
        resolve_thickness(Val::Percent(u32::MAX), i32::MAX),
        (i32::MAX as i64) * (u32::MAX as i64) / 100
    );
}

#[test]
fn percent_without_parent_resolves_to_zero() {
    assert_eq!(resolve_thickness(Val::Percent(10), 0), 0);
    assert_eq!(resolve_thickness(Val::Percent(u32::MAX), 0), 0);
    assert_eq!(resolve_thickness(Val::Percent(50), -200), 0);
}

#[test]
fn resolve_edges_resolves_each_edge() {
    let spec = UiRect::new(Val::Px(1), Val::Percent(10), Val::Auto, Val::Percent(50));
    assert_eq!(
        resolve_edges(spec, 200),
        ResolvedThickness { left: 1, right: 20, top: 0, bottom: 100 }
    );
}

#[test]
fn border_all_edges_ten_px() {
    let border = border_edges(Node::new(100, 100), UiRect::all(Val::Px(10)), 0);
    assert_eq!(border.edges.get(Edge::Left), rect(-50, -50, -40, 50));
    assert_eq!(border.edges.get(Edge::Right), rect(40, -50, 50, 50));
    assert_eq!(border.edges.get(Edge::Top), rect(-40, -50, 40, -40));
    assert_eq!(border.edges.get(Edge::Bottom), rect(-40, 40, 40, 50));
    assert_eq!(
        border.edges.to_array(),
        [
            rect(-50, -50, -40, 50),
            rect(40, -50, 50, 50),
            rect(-40, -50, 40, -40),
            rect(-40, 40, 40, 50)
        ]
    );
    assert_well_formed(&border.edges);
}

#[test]
fn border_left_only() {
    let spec = UiRect::new(Val::Px(10), Val::Undefined, Val::Undefined, Val::Undefined);
    let border = border_edges(Node::new(100, 100), spec, 0);
    assert_eq!(
        border.edges.to_array(),
        [rect(-50, -50, -40, 50), None, None, None]
    );
}

#[test]
fn border_of_box_without_width_is_empty() {
    let specs = [
        UiRect::all(Val::Px(10)),
        UiRect::all(Val::Percent(50)),
        UiRect::all(Val::Undefined),
        UiRect::new(Val::Px(1), Val::Px(2), Val::Px(3), Val::Px(4)),
    ];
    for spec in specs {
        let border = border_edges(Node::new(0, 50), spec, 300);
        assert_eq!(border.edges.to_array(), [None, None, None, None]);
    }
}

#[test]
fn border_of_collapsed_box_is_empty() {
    let spec = UiRect::all(Val::Px(10));
    for node in [
        Node::new(0, 0),
        Node::new(50, 0),
        Node::new(-1, 50),
        Node::new(50, -1),
        Node::new(i32::MIN, i32::MIN),
    ] {
        assert_eq!(border_edges(node, spec, 100), CalculatedBorder::default());
        assert_eq!(
            outline_edges(node, Outline::all(Val::Px(10)), 100).edges.to_array(),
            [None, None, None, None]
        );
    }
}

#[test]
fn border_percent_of_parent_width() {
    let border = border_edges(Node::new(100, 100), UiRect::all(Val::Percent(10)), 200);
    assert_eq!(
        border.edges.to_array(),
        [
            rect(-50, -50, -30, 50),
            rect(30, -50, 50, 50),
            rect(-30, -50, 30, -30),
            rect(-30, 30, 30, 50)
        ]
    );
}

#[test]
fn border_percent_on_root_is_empty() {
    let border = border_edges(Node::new(100, 100), UiRect::all(Val::Percent(10)), 0);
    assert_eq!(border.edges.to_array(), [None, None, None, None]);
}

#[test]
fn border_asymmetric_corners_belong_to_left_and_right() {
    let spec = UiRect::new(Val::Px(5), Val::Px(10), Val::Px(20), Val::Px(30));
    let border = border_edges(Node::new(200, 100), spec, 0);
    assert_eq!(
        border.edges.to_array(),
        [
            rect(-100, -50, -95, 50),
            rect(90, -50, 100, 50),
            rect(-95, -50, 90, -30),
            rect(-95, 20, 90, 50)
        ]
    );
    assert_well_formed(&border.edges);
}

#[test]
fn border_thicker_than_box_collapses_inner_width() {
    // left + right = 120 >= 100: left and right meet at x = 20
    let spec = UiRect::new(Val::Px(70), Val::Px(50), Val::Px(10), Val::Px(10));
    let border = border_edges(Node::new(100, 100), spec, 0);
    assert_eq!(
        border.edges.to_array(),
        [rect(-50, -50, 20, 50), rect(20, -50, 50, 50), None, None]
    );
    assert_well_formed(&border.edges);
}

#[test]
fn border_exactly_as_thick_as_box_meets_in_the_middle() {
    let spec = UiRect::new(Val::Px(50), Val::Px(50), Val::Px(50), Val::Px(50));
    let border = border_edges(Node::new(100, 100), spec, 0);
    assert_eq!(
        border.edges.to_array(),
        [rect(-50, -50, 0, 50), rect(0, -50, 50, 50), None, None]
    );
}

#[test]
fn border_thicker_than_box_collapses_inner_height() {
    let spec = UiRect::new(Val::Undefined, Val::Undefined, Val::Px(30), Val::Px(90));
    let border = border_edges(Node::new(100, 100), spec, 0);
    assert_eq!(
        border.edges.to_array(),
        [None, None, rect(-50, -50, 50, -20), rect(-50, -20, 50, 50)]
    );
    assert_well_formed(&border.edges);
}

#[test]
fn border_left_wider_than_box_drops_right() {
    let spec = UiRect::new(Val::Px(150), Val::Px(10), Val::Undefined, Val::Undefined);
    let border = border_edges(Node::new(100, 100), spec, 0);
    assert_eq!(
        border.edges.to_array(),
        [rect(-50, -50, 100, 50), None, None, None]
    );
}

#[test]
fn border_of_odd_box_uses_half_rounded_down() {
    let border = border_edges(Node::new(101, 51), UiRect::all(Val::Px(1)), 0);
    assert_eq!(
        border.edges.to_array(),
        [
            rect(-50, -25, -49, 25),
            rect(49, -25, 50, 25),
            rect(-49, -25, 49, -24),
            rect(-49, 24, 49, 25)
        ]
    );
}

#[test]
fn border_never_overlaps() {
    let values = [
        Val::Undefined,
        Val::Px(0),
        Val::Px(1),
        Val::Px(49),
        Val::Px(50),
        Val::Px(51),
        Val::Px(100),
        Val::Px(101),
        Val::Percent(10),
        Val::Percent(60),
    ];
    for left in values {
        for right in values {
            for top in values {
                for bottom in values {
                    let spec = UiRect::new(left, right, top, bottom);
                    assert_well_formed(&border_edges(Node::new(100, 60), spec, 80).edges);
                    assert_well_formed(
                        &outline_edges(Node::new(100, 60), Outline(spec), 80).edges,
                    );
                }
            }
        }
    }
}

#[test]
fn border_with_largest_inputs() {
    let spec = UiRect::all(Val::Percent(u32::MAX));
    let border = border_edges(Node::new(i32::MAX, i32::MAX), spec, i32::MAX);
    let half = (i32::MAX / 2) as i64;
    let thick = (i32::MAX as i64) * (u32::MAX as i64) / 100;
    assert_eq!(
        border.edges.to_array(),
        [rect(-half, -half, -half + thick, half), None, None, None]
    );
    let outline = outline_edges(Node::new(i32::MAX, i32::MAX), Outline(spec), i32::MAX);
    assert_eq!(
        outline.edges.to_array(),
        [
            rect(-half - thick, -half - thick, -half, half + thick),
            rect(half, -half - thick, half + thick, half + thick),
            rect(-half, -half - thick, half, -half),
            rect(-half, half, half, half + thick)
        ]
    );
}

#[test]
fn outline_all_edges_ten_px() {
    let outline = outline_edges(Node::new(100, 100), Outline::all(Val::Px(10)), 0);
    assert_eq!(
        outline.edges.to_array(),
        [
            rect(-60, -60, -50, 60),
            rect(50, -60, 60, 60),
            rect(-50, -60, 50, -50),
            rect(-50, 50, 50, 60)
        ]
    );
    assert_well_formed(&outline.edges);
}

#[test]
fn outline_stays_outside_the_box() {
    let spec = UiRect::new(Val::Px(3), Val::Px(200), Val::Percent(10), Val::Undefined);
    let outline = outline_edges(Node::new(100, 40), Outline(spec), 70);
    assert_eq!(
        outline.edges.to_array(),
        [
            rect(-53, -27, -50, 20),
            rect(50, -27, 250, 20),
            rect(-50, -27, 50, -20),
            None
        ]
    );
    let the_box = Rect::new(-50, -20, 50, 20);
    for edge in outline.edges.to_array().iter().flatten() {
        assert!(!overlap(edge, &the_box));
    }
}

#[test]
fn outline_thicker_than_box_does_not_collapse() {
    let outline = outline_edges(Node::new(100, 100), Outline::all(Val::Px(60)), 0);
    assert_eq!(
        outline.edges.to_array(),
        [
            rect(-110, -110, -50, 110),
            rect(50, -110, 110, 110),
            rect(-50, -110, 50, -50),
            rect(-50, 50, 50, 110)
        ]
    );
}

#[test]
fn outline_percent_of_parent_width() {
    let outline = outline_edges(Node::new(100, 100), Outline::all(Val::Percent(10)), 200);
    assert_eq!(outline.edges.get(Edge::Left), rect(-70, -70, -50, 70));
    assert_eq!(outline.edges.get(Edge::Bottom), rect(-50, 50, 50, 70));
    let on_root = outline_edges(Node::new(100, 100), Outline::all(Val::Percent(10)), 0);
    assert_eq!(on_root.edges.to_array(), [None, None, None, None]);
}

#[test]
fn edge_ring_of_any_outer_rectangle() {
    let t = ResolvedThickness { left: 1, right: 2, top: 3, bottom: 4 };
    let ring = edge_ring(Rect::new(10, 20, 30, 50), t);
    assert_eq!(
        ring.to_array(),
        [
            rect(10, 20, 11, 50),
            rect(28, 20, 30, 50),
            rect(11, 20, 28, 23),
            rect(11, 46, 28, 50)
        ]
    );
}

#[test]
fn edge_ring_of_inverted_outer_rectangle_is_empty() {
    let t = ResolvedThickness { left: 0, right: 0, top: 0, bottom: 0 };
    let ring = edge_ring(Rect::new(10, 10, 0, 0), t);
    assert_eq!(ring.to_array(), [None, None, None, None]);
    assert_eq!(ring, EdgeGeometry::empty());
}

#[test]
fn computing_twice_gives_the_same_geometry() {
    let spec = UiRect::new(Val::Px(5), Val::Percent(10), Val::Px(20), Val::Auto);
    let first = border_edges(Node::new(200, 100), spec, 300);
    let second = border_edges(Node::new(200, 100), spec, 300);
    assert_eq!(first, second);
    let first = outline_edges(Node::new(200, 100), Outline(spec), 300);
    let second = outline_edges(Node::new(200, 100), Outline(spec), 300);
    assert_eq!(first, second);
}

#[test]
fn node_bounds_are_centred() {
    assert_eq!(Node::new(100, 60).bounds(), Rect::new(-50, -30, 50, 30));
    assert_eq!(Node::new(-4, 60).bounds(), Rect::new(0, -30, 0, 30));
    assert!(Node::new(0, 1).collapsed());
    assert!(!Node::new(1, 1).collapsed());
    assert!(Rect::new(0, 0, 1, 1).has_area());
    assert!(!Rect::new(0, 0, 0, 1).has_area());
    assert!(!Rect::new(0, 0, 1, -1).has_area());
}

#[test]
fn edge_positions_are_left_right_top_bottom() {
    assert_eq!(Edge::Left.index(), 0);
    assert_eq!(Edge::Right.index(), 1);
    assert_eq!(Edge::Top.index(), 2);
    assert_eq!(Edge::Bottom.index(), 3);
}
