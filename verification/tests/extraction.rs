use ui_borders::{
    calculate_borders, calculate_outlines, extract_edges, extract_uinode_borders,
    extract_uinode_outlines, BorderColor, Color, Decoration, ExtractedUiNode, GlobalTransform,
    Node, Outline, OutlineColor, OutlinedNodeBundle, Rect, Style, UiNode, UiRect, Val,
};

const RED: Color = Color { red: 255, green: 0, blue: 0, alpha: 255 };
const BLUE: Color = Color { red: 0, green: 0, blue: 255, alpha: 1 };

fn node_at(x: i32, y: i32, border: UiRect, outline: UiRect) -> UiNode {
    let bundle = OutlinedNodeBundle {
        node: Node::new(100, 100),
        style: Style { border },
        global_transform: GlobalTransform { x, y },
        visible: true,
        border_color: BorderColor(RED),
        outline: Outline(outline),
        outline_color: OutlineColor(BLUE),
        ..Default::default()
    };
    UiNode::outlined(bundle, None)
}

fn computed(mut nodes: Vec<UiNode>) -> Vec<UiNode> {
    calculate_borders(&mut nodes);
    calculate_outlines(&mut nodes);
    nodes
}

fn drawn(stack_index: usize, color: Color, x0: i64, y0: i64, x1: i64, y1: i64) -> ExtractedUiNode {
    ExtractedUiNode { stack_index, rect: Rect::new(x0, y0, x1, y1), color, clip: None }
}

#[test]
fn extraction_emits_edges_in_order_left_right_top_bottom() {
    let nodes = computed(vec![node_at(1000, 2000, UiRect::all(Val::Px(10)), UiRect::default())]);
    let mut extracted = Vec::new();
    extract_uinode_borders(&mut extracted, &vec![0], &nodes);
    assert_eq!(
        extracted,
        vec![
            drawn(0, RED, 950, 1950, 960, 2050),
            drawn(0, RED, 1040, 1950, 1050, 2050),
            drawn(0, RED, 960, 1950, 1040, 1960),
            drawn(0, RED, 960, 2040, 1040, 2050),
        ]
    );
}

#[test]
fn extraction_emits_outline_with_outline_color() {
    let nodes = computed(vec![node_at(0, 0, UiRect::all(Val::Px(10)), UiRect::all(Val::Px(2)))]);
    let mut extracted = Vec::new();
    extract_uinode_outlines(&mut extracted, &vec![0], &nodes);
    assert_eq!(
        extracted,
        vec![
            drawn(0, BLUE, -52, -52, -50, 52),
            drawn(0, BLUE, 50, -52, 52, 52),
            drawn(0, BLUE, -50, -52, 50, -50),
            drawn(0, BLUE, -50, 50, 50, 52),
        ]
    );
}

#[test]
fn extraction_skips_edges_without_rectangle() {
    let spec = UiRect::new(Val::Undefined, Val::Px(10), Val::Undefined, Val::Px(5));
    let nodes = computed(vec![node_at(-7, 9, spec, UiRect::default())]);
    let mut extracted = Vec::new();
    extract_uinode_borders(&mut extracted, &vec![0], &nodes);
    assert_eq!(
        extracted,
        vec![drawn(0, RED, 33, -41, 43, 59), drawn(0, RED, -57, 54, 33, 59)]
    );
}

#[test]
fn extraction_follows_stack_order() {
    let nodes = computed(vec![
        node_at(0, 0, UiRect::new(Val::Px(1), Val::Undefined, Val::Undefined, Val::Undefined), UiRect::default()),
        node_at(1000, 0, UiRect::new(Val::Px(2), Val::Undefined, Val::Undefined, Val::Undefined), UiRect::default()),
        node_at(2000, 0, UiRect::new(Val::Px(3), Val::Undefined, Val::Undefined, Val::Undefined), UiRect::default()),
    ]);
    let mut extracted = Vec::new();
    extract_uinode_borders(&mut extracted, &vec![2, 0, 1, 0], &nodes);
    assert_eq!(
        extracted,
        vec![
            drawn(0, RED, 1950, -50, 1953, 50),
            drawn(1, RED, -50, -50, -49, 50),
            drawn(2, RED, 950, -50, 952, 50),
            drawn(3, RED, -50, -50, -49, 50),
        ]
    );
}

#[test]
fn extraction_skips_invisible_nodes() {
    let mut nodes = computed(vec![
        node_at(0, 0, UiRect::all(Val::Px(10)), UiRect::all(Val::Px(10))),
        node_at(0, 0, UiRect::new(Val::Px(1), Val::Undefined, Val::Undefined, Val::Undefined), UiRect::all(Val::Px(10))),
    ]);
    nodes[0].visible = false;
    let mut extracted = Vec::new();
    extract_uinode_borders(&mut extracted, &vec![0, 1], &nodes);
    assert_eq!(extracted, vec![drawn(1, RED, -50, -50, -49, 50)]);
    nodes[1].visible = false;
    let mut extracted = Vec::new();
    extract_uinode_borders(&mut extracted, &vec![0, 1], &nodes);
    extract_uinode_outlines(&mut extracted, &vec![0, 1], &nodes);
    assert_eq!(extracted, vec![]);
}

#[test]
fn extraction_skips_fully_transparent_color() {
    let mut nodes = computed(vec![node_at(0, 0, UiRect::all(Val::Px(10)), UiRect::all(Val::Px(10)))]);
    let mut border = nodes[0].border.unwrap();
    border.border_color = BorderColor(Color::rgba(255, 255, 255, 0));
    nodes[0].border = Some(border);
    let mut extracted = Vec::new();
    extract_uinode_borders(&mut extracted, &vec![0], &nodes);
    assert_eq!(extracted, vec![]);
    // the outline has its own colour and is still drawn
    extract_uinode_outlines(&mut extracted, &vec![0], &nodes);
    assert_eq!(extracted.len(), 4);
    let mut outline = nodes[0].outline.unwrap();
    outline.outline_color = OutlineColor(Color::none());
    nodes[0].outline = Some(outline);
    let mut extracted = Vec::new();
    extract_uinode_outlines(&mut extracted, &vec![0], &nodes);
    assert_eq!(extracted, vec![]);
}

#[test]
fn extraction_draws_faintest_color() {
    let mut nodes = computed(vec![node_at(0, 0, UiRect::all(Val::Px(10)), UiRect::default())]);
    let mut border = nodes[0].border.unwrap();
    border.border_color = BorderColor(Color::rgba(0, 0, 0, 1));
    nodes[0].border = Some(border);
    let mut extracted = Vec::new();
    extract_uinode_borders(&mut extracted, &vec![0], &nodes);
    assert_eq!(extracted.len(), 4);
}

#[test]
fn extraction_skips_entries_that_name_no_node() {
    let nodes = computed(vec![node_at(0, 0, UiRect::new(Val::Px(1), Val::Undefined, Val::Undefined, Val::Undefined), UiRect::default())]);
    let mut extracted = Vec::new();
    extract_uinode_borders(&mut extracted, &vec![5, 0, usize::MAX, 1], &nodes);
    assert_eq!(extracted, vec![drawn(1, RED, -50, -50, -49, 50)]);
}

#[test]
fn extraction_skips_nodes_without_the_decoration() {
    let mut nodes = computed(vec![node_at(0, 0, UiRect::all(Val::Px(10)), UiRect::all(Val::Px(10)))]);
    nodes[0].border = None;
    let mut extracted = Vec::new();
    extract_uinode_borders(&mut extracted, &vec![0], &nodes);
    assert_eq!(extracted, vec![]);
    extract_uinode_outlines(&mut extracted, &vec![0], &nodes);
    assert_eq!(extracted.len(), 4);
    nodes[0].outline = None;
    let mut extracted = Vec::new();
    extract_uinode_outlines(&mut extracted, &vec![0], &nodes);
    assert_eq!(extracted, vec![]);
}

#[test]
fn extraction_copies_clip_rectangle() {
    let mut nodes = computed(vec![node_at(10, 20, UiRect::new(Val::Px(1), Val::Undefined, Val::Undefined, Val::Undefined), UiRect::default())]);
    nodes[0].clip = Some(Rect::new(0, 0, 640, 480));
    let mut extracted = Vec::new();
    extract_uinode_borders(&mut extracted, &vec![0], &nodes);
    assert_eq!(
        extracted,
        vec![ExtractedUiNode {
            stack_index: 0,
            rect: Rect::new(-40, -30, -39, 70),
            color: RED,
            clip: Some(Rect::new(0, 0, 640, 480)),
        }]
    );
}

#[test]
fn extraction_appends_to_what_is_there() {
    let nodes = computed(vec![node_at(0, 0, UiRect::new(Val::Px(1), Val::Undefined, Val::Undefined, Val::Undefined), UiRect::new(Val::Undefined, Val::Px(1), Val::Undefined, Val::Undefined))]);
    let earlier = drawn(9, BLUE, 1, 2, 3, 4);
    let mut extracted = vec![earlier];
    extract_uinode_borders(&mut extracted, &vec![0], &nodes);
    extract_uinode_outlines(&mut extracted, &vec![0], &nodes);
    assert_eq!(
        extracted,
        vec![earlier, drawn(0, RED, -50, -50, -49, 50), drawn(0, BLUE, 50, -50, 51, 50)]
    );
}

#[test]
fn extraction_of_empty_stack_emits_nothing() {
    let nodes = computed(vec![node_at(0, 0, UiRect::all(Val::Px(10)), UiRect::all(Val::Px(10)))]);
    let mut extracted = Vec::new();
    extract_uinode_borders(&mut extracted, &Vec::new(), &nodes);
    extract_uinode_outlines(&mut extracted, &Vec::new(), &nodes);
    extract_uinode_borders(&mut extracted, &vec![0, 1, 2], &Vec::new());
    assert_eq!(extracted, vec![]);
}

#[test]
fn extraction_before_any_pass_emits_nothing() {
    let nodes = vec![node_at(0, 0, UiRect::all(Val::Px(10)), UiRect::all(Val::Px(10)))];
    let mut extracted = Vec::new();
    extract_uinode_borders(&mut extracted, &vec![0], &nodes);
    extract_uinode_outlines(&mut extracted, &vec![0], &nodes);
    assert_eq!(extracted, vec![]);
}

#[test]
fn extraction_at_the_far_corners_of_the_screen() {
    let mut nodes = vec![node_at(i32::MAX, i32::MIN, UiRect::default(), UiRect::all(Val::Percent(u32::MAX)))];
    nodes[0].node = Node::new(i32::MAX, i32::MAX);
    nodes.push(node_at(0, 0, UiRect::default(), UiRect::default()));
    nodes[1].node = Node::new(i32::MAX, 1);
    nodes[0].parent = Some(1);
    let nodes = computed(nodes);
    let mut extracted = Vec::new();
    extract_edges(&mut extracted, &vec![0], &nodes, Decoration::Outline);
    let half = (i32::MAX / 2) as i64;
    let thick = (i32::MAX as i64) * (u32::MAX as i64) / 100;
    let x = i32::MAX as i64;
    let y = i32::MIN as i64;
    assert_eq!(
        extracted,
        vec![
            drawn(0, BLUE, x - half - thick, y - half - thick, x - half, y + half + thick),
            drawn(0, BLUE, x + half, y - half - thick, x + half + thick, y + half + thick),
            drawn(0, BLUE, x - half, y - half - thick, x + half, y - half),
            drawn(0, BLUE, x - half, y + half, x + half, y + half + thick),
        ]
    );
}

#[test]
fn extract_edges_picks_the_decoration() {
    let nodes = computed(vec![node_at(0, 0, UiRect::all(Val::Px(10)), UiRect::all(Val::Px(2)))]);
    let mut borders = Vec::new();
    extract_uinode_borders(&mut borders, &vec![0], &nodes);
    let mut outlines = Vec::new();
    extract_uinode_outlines(&mut outlines, &vec![0], &nodes);
    let mut extracted = Vec::new();
    extract_edges(&mut extracted, &vec![0], &nodes, Decoration::Border);
    assert_eq!(extracted, borders);
    let mut extracted = Vec::new();
    extract_edges(&mut extracted, &vec![0], &nodes, Decoration::Outline);
    assert_eq!(extracted, outlines);
    assert_ne!(borders, outlines);
}
