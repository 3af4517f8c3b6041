use cranky::adapters::layout_diff::{
    layout_patch, render_tree, FlexStyleModel, LayoutBox, LayoutModel, NodeModel, PatchModel,
    StyleChange,
};
use cranky::domain::config::{FontFamily, FontSize};
use cranky::domain::layout::{AlignItems, FlexDirection, JustifyContent, PositionType};
use cranky::domain::shared::geometry::{Position, Size};

fn style(gap: Option<f64>) -> FlexStyleModel {
    FlexStyleModel {
        direction: FlexDirection::Row,
        justify: JustifyContent::Start,
        align_items: AlignItems::Center,
        position: PositionType::Relative,
        padding: (0, 0, 2.0f64.to_bits(), 2.0f64.to_bits()),
        margin: (0, 0, 0, 0),
        gap: gap.map(f64::to_bits),
    }
}

fn text(id: u32, t: &str, size: Option<f32>) -> LayoutModel {
    LayoutModel {
        id,
        node: NodeModel::Text {
            text: t.to_string(),
            font: Some(FontFamily::new("Inter".to_string())),
            size: size.map(|s| FontSize::from_bits(s.to_bits())),
        },
        children: vec![],
    }
}

fn rect(id: u32, w: u32, h: u32) -> LayoutModel {
    LayoutModel { id, node: NodeModel::Rect(Size::new(w, h)), children: vec![] }
}

fn flex(id: u32, gap: Option<f64>, children: Vec<LayoutModel>) -> LayoutModel {
    LayoutModel { id, node: NodeModel::Flex(style(gap)), children }
}

#[test]
fn unchanged_leaves_are_kept_and_changed_ones_restyled() {
    assert_eq!(layout_patch(&text(1, "12:00", Some(14.0)), &text(1, "12:00", Some(14.0))), PatchModel::Keep);
    assert_eq!(
        layout_patch(&text(1, "12:00", Some(14.0)), &text(1, "12:01", Some(14.0))),
        PatchModel::Update { style: Some(StyleChange::Measure), children: None }
    );
    assert_eq!(
        layout_patch(&text(1, "a", Some(0.0)), &text(1, "a", Some(-0.0))),
        PatchModel::Keep
    );
    assert_eq!(layout_patch(&rect(2, 4, 4), &rect(2, 4, 4)), PatchModel::Keep);
    assert_eq!(
        layout_patch(&rect(2, 4, 4), &rect(2, 8, 4)),
        PatchModel::Update { style: Some(StyleChange::Fixed(8, 4)), children: None }
    );
    assert_eq!(layout_patch(&rect(2, 4, 4), &text(2, "x", None)), PatchModel::Replace);
}

#[test]
fn containers_patch_their_children_in_place() {
    let old = flex(0, None, vec![text(1, "a", None), rect(2, 1, 1)]);
    let new = flex(0, Some(4.0), vec![text(1, "a", None), text(2, "b", None), rect(3, 2, 2)]);
    assert_eq!(
        layout_patch(&old, &new),
        PatchModel::Update {
            style: Some(StyleChange::Flex),
            children: Some(vec![PatchModel::Keep, PatchModel::Replace, PatchModel::Create]),
        }
    );
    let same = flex(0, None, vec![]);
    assert_eq!(
        layout_patch(&old, &same),
        PatchModel::Update { style: None, children: Some(vec![]) }
    );
    let nan = flex(0, Some(f64::NAN), vec![]);
    assert_eq!(
        layout_patch(&nan, &nan),
        PatchModel::Update { style: Some(StyleChange::Flex), children: Some(vec![]) }
    );
}

fn leaf_box(x: i32, y: i32, w: u32, h: u32) -> LayoutBox {
    LayoutBox { x, y, width: w, height: h, children: vec![] }
}

#[test]
fn render_tree_places_children_from_their_parent() {
    let node = flex(7, None, vec![text(8, "a", None), rect(9, 3, 3)]);
    let boxes = LayoutBox {
        x: 5,
        y: 1,
        width: 100,
        height: 20,
        children: vec![leaf_box(2, 3, 10, 10), leaf_box(20, 0, 3, 3), leaf_box(0, 0, 1, 1)],
    };
    let tree = render_tree(&node, &boxes, Position::new(100, 0)).unwrap();
    assert_eq!(tree.id, 7);
    assert_eq!((tree.rect.x(), tree.rect.y(), tree.rect.width(), tree.rect.height()), (105, 1, 100, 20));
    assert_eq!(tree.children.len(), 2);
    assert_eq!(tree.children[0].id, 8);
    assert_eq!((tree.children[0].rect.x(), tree.children[0].rect.y()), (107, 4));
    assert_eq!((tree.children[1].rect.x(), tree.children[1].rect.y()), (125, 1));
    assert_eq!(tree.hit_test(Position::new(108, 5)), vec![7, 8]);
}

#[test]
fn render_tree_refuses_corners_past_the_32_bit_range() {
    let node = flex(1, None, vec![rect(2, 1, 1)]);
    let boxes = LayoutBox { x: 0, y: 0, width: 1, height: 1, children: vec![leaf_box(i32::MAX, 0, 1, 1)] };
    assert!(render_tree(&node, &boxes, Position::new(1, 0)).is_none());
    assert!(render_tree(&node, &boxes, Position::new(0, 0)).is_some());
    assert!(render_tree(&rect(3, 1, 1), &leaf_box(0, -1, 1, 1), Position::new(0, i32::MIN)).is_none());
}
