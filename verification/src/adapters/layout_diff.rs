//! How a module's new layout tree is laid over the one the layout engine
//! already holds: which nodes are kept, restyled, rebuilt or created, and
//! the rectangles the engine's boxes give the drawn tree.
use vstd::prelude::*;
use crate::domain::config::{FontFamily, FontSize};
use crate::domain::layout::{AlignItems, FlexDirection, HitNode, JustifyContent, PositionType};
use crate::domain::shared::float_bits::{same_number, same_number64, same_number_bits64};
use crate::domain::shared::geometry::{Position, Rect, Size};

verus! {

broadcast use vstd::string::group_string_axioms;

/// A flex container's style; its lengths are double-precision bit patterns
/// (top, bottom, left, right for the padding and the margin).
#[derive(Debug, Clone, Copy)]
pub struct FlexStyleModel {
    pub direction: FlexDirection,
    pub justify: JustifyContent,
    pub align_items: AlignItems,
    pub position: PositionType,
    pub padding: (u64, u64, u64, u64),
    pub margin: (u64, u64, u64, u64),
    pub gap: Option<u64>,
}

pub open spec fn same_box(a: (u64, u64, u64, u64), b: (u64, u64, u64, u64)) -> bool {
    same_number64(a.0, b.0) && same_number64(a.1, b.1) && same_number64(a.2, b.2)
        && same_number64(a.3, b.3)
}

/// Whether two styles are equal, lengths compared as numbers.
pub open spec fn same_style(a: FlexStyleModel, b: FlexStyleModel) -> bool {
    &&& a.direction == b.direction
    &&& a.justify == b.justify
    &&& a.align_items == b.align_items
    &&& a.position == b.position
    &&& same_box(a.padding, b.padding)
    &&& same_box(a.margin, b.margin)
    &&& match (a.gap, b.gap) {
        (Some(x), Some(y)) => same_number64(x, y),
        (None, None) => true,
        _ => false,
    }
}

fn same_box_exec(a: (u64, u64, u64, u64), b: (u64, u64, u64, u64)) -> (res: bool)
    ensures
        res == same_box(a, b),
{
    same_number_bits64(a.0, b.0) && same_number_bits64(a.1, b.1) && same_number_bits64(a.2, b.2)
        && same_number_bits64(a.3, b.3)
}

impl FlexStyleModel {
    pub fn same_as(&self, other: &FlexStyleModel) -> (res: bool)
        ensures
            res == same_style(*self, *other),
    {
        let gap_same = match (self.gap, other.gap) {
            (Some(x), Some(y)) => same_number_bits64(x, y),
            (None, None) => true,
            _ => false,
        };
        self.direction == other.direction && self.justify == other.justify && self.align_items
            == other.align_items && self.position == other.position && same_box_exec(
            self.padding,
            other.padding,
        ) && same_box_exec(self.margin, other.margin) && gap_same
    }
}

/// What the layout engine compares of a node.
pub enum NodeModel {
    Flex(FlexStyleModel),
    Text { text: String, font: Option<FontFamily>, size: Option<FontSize> },
    Rect(Size),
    Image(Size),
}

/// A layout node: an identifier chosen by whoever built the tree, what the
/// engine compares of it, and its children (those of a flex container).
pub struct LayoutModel {
    pub id: u32,
    pub node: NodeModel,
    pub children: Vec<LayoutModel>,
}

/// The style a patch sets on a node that stays.
#[derive(Debug, Clone, Copy, PartialEq, Eq, Structural)]
pub enum StyleChange {
    /// The new flex style.
    Flex,
    /// The size of the new text, once measured.
    Measure,
    /// A fixed size.
    Fixed(u32, u32),
}

/// What becomes of one node of the held tree.
#[derive(Debug, PartialEq)]
pub enum PatchModel {
    /// The node stays as it is.
    Keep,
    /// The node stays, restyled when `style` says so; a flex container's
    /// children are patched one by one.
    Update { style: Option<StyleChange>, children: Option<Vec<PatchModel>> },
    /// The node is of another kind now: it is built anew.
    Replace,
    /// A child that did not exist: it is built.
    Create,
}

/// Abstract value of a [`PatchModel`].
pub enum PatchView {
    Keep,
    Update { style: Option<StyleChange>, children: Option<Seq<PatchView>> },
    Replace,
    Create,
}

pub open spec fn patch_view(p: PatchModel) -> PatchView
    decreases p,
{
    match p {
        PatchModel::Keep => PatchView::Keep,
        PatchModel::Update { style, children } => PatchView::Update {
            style,
            children: match children {
                Some(c) => Some(patches_view(c@)),
                None => None,
            },
        },
        PatchModel::Replace => PatchView::Replace,
        PatchModel::Create => PatchView::Create,
    }
}

pub open spec fn patches_view(ps: Seq<PatchModel>) -> Seq<PatchView>
    decreases ps,
{
    if ps.len() == 0 {
        Seq::empty()
    } else {
        patches_view(ps.drop_last()).push(patch_view(ps.last()))
    }
}

pub open spec fn opt_family(f: Option<FontFamily>) -> Option<Seq<char>> {
    match f {
        Some(x) => Some(x@),
        None => None,
    }
}

/// Whether a text node reads and is set the same as another.
pub open spec fn same_text(
    t1: Seq<char>,
    f1: Option<FontFamily>,
    s1: Option<FontSize>,
    t2: Seq<char>,
    f2: Option<FontFamily>,
    s2: Option<FontSize>,
) -> bool {
    &&& t1 == t2
    &&& opt_family(f1) == opt_family(f2)
    &&& match (s1, s2) {
        (Some(x), Some(y)) => same_number(x@, y@),
        (None, None) => true,
        _ => false,
    }
}

/// The patch that lays `new` over the held node `old`.
pub open spec fn patch_spec(old: LayoutModel, new: LayoutModel) -> PatchView
    decreases new, 0int,
{
    match (old.node, new.node) {
        (NodeModel::Flex(so), NodeModel::Flex(sn)) => PatchView::Update {
            style: if same_style(so, sn) {
                None
            } else {
                Some(StyleChange::Flex)
            },
            children: Some(child_patches(old.children@, new.children@, 0)),
        },
        (
            NodeModel::Text { text: t1, font: f1, size: s1 },
            NodeModel::Text { text: t2, font: f2, size: s2 },
        ) => if same_text(t1@, f1, s1, t2@, f2, s2) {
            PatchView::Keep
        } else {
            PatchView::Update { style: Some(StyleChange::Measure), children: None }
        },
        (NodeModel::Rect(a), NodeModel::Rect(b)) => size_patch(a, b),
        (NodeModel::Image(a), NodeModel::Image(b)) => size_patch(a, b),
        _ => PatchView::Replace,
    }
}

pub open spec fn size_patch(old: Size, new: Size) -> PatchView {
    if old@ == new@ {
        PatchView::Keep
    } else {
        PatchView::Update { style: Some(StyleChange::Fixed(new@.0, new@.1)), children: None }
    }
}

/// The patches of the new children from the `i`th on: each laid over the
/// held child at its place, or created where there is none.
pub open spec fn child_patches(olds: Seq<LayoutModel>, news: Seq<LayoutModel>, i: int) -> Seq<
    PatchView,
>
    decreases news, news.len() - i,
{
    if i < 0 || i >= news.len() {
        Seq::empty()
    } else {
        seq![
            if i < olds.len() {
                patch_spec(olds[i], news[i])
            } else {
                PatchView::Create
            },
        ] + child_patches(olds, news, i + 1)
    }
}

fn same_text_exec(
    t1: &String,
    f1: &Option<FontFamily>,
    s1: &Option<FontSize>,
    t2: &String,
    f2: &Option<FontFamily>,
    s2: &Option<FontSize>,
) -> (res: bool)
    ensures
        res == same_text(t1@, *f1, *s1, t2@, *f2, *s2),
{
    let fonts = match (f1, f2) {
        (Some(a), Some(b)) => {
            let x = a.as_str().to_owned();
            let y = b.as_str().to_owned();
            x == y
        },
        (None, None) => true,
        _ => false,
    };
    let sizes = match (s1, s2) {
        (Some(a), Some(b)) => *a == *b,
        (None, None) => true,
        _ => false,
    };
    *t1 == *t2 && fonts && sizes
}

/// The patch that lays the new layout `new` over the held one `old`: a node
/// of another kind is replaced; a flex container stays, restyled when its
/// style changed, with each new child laid over the held child at its place
/// (or created); a text, rectangle or image stays as it is when nothing of
/// it changed, else is restyled.
pub fn layout_patch(old: &LayoutModel, new: &LayoutModel) -> (res: PatchModel)
    ensures
        patch_view(res) == patch_spec(*old, *new),
    decreases new,
{
    match (&old.node, &new.node) {
        (NodeModel::Flex(so), NodeModel::Flex(sn)) => {
            let style = if so.same_as(sn) {
                None
            } else {
                Some(StyleChange::Flex)
            };
            let ghost olds = old.children@;
            let ghost news = new.children@;
            let mut out: Vec<PatchModel> = Vec::new();
            let mut i: usize = 0;
            assert(patches_view(out@) =~= Seq::<PatchView>::empty());
            while i < new.children.len()
                invariant
                    olds == old.children@,
                    news == new.children@,
                    i <= news.len(),
                    patches_view(out@) + child_patches(olds, news, i as int) == child_patches(
                        olds,
                        news,
                        0,
                    ),
                decreases news.len() - i,
            {
                let p = if i < old.children.len() {
                    assert(decreases_to!(*new => new.children@[i as int]));
                    layout_patch(&old.children[i], &new.children[i])
                } else {
                    PatchModel::Create
                };
                let ghost before = out@;
                let ghost pv = patch_view(p);
                assert(pv == if (i as int) < olds.len() {
                    patch_spec(olds[i as int], news[i as int])
                } else {
                    PatchView::Create
                });
                out.push(p);
                assert(out@.drop_last() =~= before);
                assert(patches_view(out@) == patches_view(before).push(pv));
                assert(patches_view(before).push(pv) + child_patches(olds, news, i + 1) =~= patches_view(
                    before,
                ) + child_patches(olds, news, i as int));
                i = i + 1;
            }
            assert(patches_view(out@) =~= child_patches(olds, news, 0));
            PatchModel::Update { style, children: Some(out) }
        },
        (
            NodeModel::Text { text: t1, font: f1, size: s1 },
            NodeModel::Text { text: t2, font: f2, size: s2 },
        ) => {
            if same_text_exec(t1, f1, s1, t2, f2, s2) {
                PatchModel::Keep
            } else {
                PatchModel::Update { style: Some(StyleChange::Measure), children: None }
            }
        },
        (NodeModel::Rect(a), NodeModel::Rect(b)) => size_patch_exec(a, b),
        (NodeModel::Image(a), NodeModel::Image(b)) => size_patch_exec(a, b),
        _ => PatchModel::Replace,
    }
}

fn size_patch_exec(old: &Size, new: &Size) -> (res: PatchModel)
    ensures
        patch_view(res) == size_patch(*old, *new),
{
    if old.width() == new.width() && old.height() == new.height() {
        PatchModel::Keep
    } else {
        PatchModel::Update {
            style: Some(StyleChange::Fixed(new.width(), new.height())),
            children: None,
        }
    }
}

/// The box the layout engine gave a node, relative to its parent's corner,
/// in whole pixels, and the boxes of its children.
pub struct LayoutBox {
    pub x: i32,
    pub y: i32,
    pub width: u32,
    pub height: u32,
    pub children: Vec<LayoutBox>,
}

pub open spec fn fits_i32(v: int) -> bool {
    i32::MIN <= v <= i32::MAX
}

pub open spec fn shared_len(a: int, b: int) -> int {
    if a < b {
        a
    } else {
        b
    }
}

/// Whether every node's corner, once made absolute from `(ox, oy)`, fits in
/// 32 bits: a flex container's children are placed from its corner, each
/// with the box at its place (children without a box, or boxes without a
/// child, are left out).
pub open spec fn tree_fits(n: LayoutModel, b: LayoutBox, ox: int, oy: int) -> bool
    decreases n, 0int,
{
    let x = ox + b.x;
    let y = oy + b.y;
    &&& fits_i32(x)
    &&& fits_i32(y)
    &&& (n.node is Flex ==> children_fit(n.children@, b.children@, x, y, 0))
}

pub open spec fn children_fit(ns: Seq<LayoutModel>, bs: Seq<LayoutBox>, x: int, y: int, i: int) -> bool
    decreases ns, ns.len() - i,
{
    if i < 0 || i >= shared_len(ns.len() as int, bs.len() as int) {
        true
    } else {
        tree_fits(ns[i], bs[i], x, y) && children_fit(ns, bs, x, y, i + 1)
    }
}

/// Whether `h` is the drawn tree of node `n` with box `b`, placed from
/// `(ox, oy)`: it carries the node's identifier and its absolute rectangle,
/// and, for a flex container, the drawn trees of the children that have a
/// box, placed from its corner.
pub open spec fn renders(n: LayoutModel, b: LayoutBox, ox: int, oy: int, h: HitNode) -> bool
    decreases h, 0int,
{
    let x = ox + b.x;
    let y = oy + b.y;
    &&& h.id == n.id
    &&& h.rect@.x == x
    &&& h.rect@.y == y
    &&& h.rect@.width == b.width
    &&& h.rect@.height == b.height
    &&& if n.node is Flex {
        &&& h.children@.len() == shared_len(n.children@.len() as int, b.children@.len() as int)
        &&& children_render(n.children@, b.children@, x, y, h.children@, 0)
    } else {
        h.children@.len() == 0
    }
}

pub open spec fn children_render(
    ns: Seq<LayoutModel>,
    bs: Seq<LayoutBox>,
    x: int,
    y: int,
    hs: Seq<HitNode>,
    i: int,
) -> bool
    decreases hs, hs.len() - i,
{
    if i < 0 || i >= hs.len() {
        true
    } else {
        renders(ns[i], bs[i], x, y, hs[i]) && children_render(ns, bs, x, y, hs, i + 1)
    }
}

proof fn lemma_children_render(
    ns: Seq<LayoutModel>,
    bs: Seq<LayoutBox>,
    x: int,
    y: int,
    hs: Seq<HitNode>,
    i: int,
)
    requires
        0 <= i,
        forall|j: int| i <= j < hs.len() ==> renders(ns[j], bs[j], x, y, #[trigger] hs[j]),
    ensures
        children_render(ns, bs, x, y, hs, i),
    decreases hs.len() - i,
{
    if i < hs.len() {
        lemma_children_render(ns, bs, x, y, hs, i + 1);
    }
}

proof fn lemma_children_fit(ns: Seq<LayoutModel>, bs: Seq<LayoutBox>, x: int, y: int, i: int)
    requires
        0 <= i,
    ensures
        children_fit(ns, bs, x, y, i) <==> forall|j: int|
            i <= j < shared_len(ns.len() as int, bs.len() as int) ==> tree_fits(
                #[trigger] ns[j],
                bs[j],
                x,
                y,
            ),
    decreases ns.len() - i,
{
    if i < shared_len(ns.len() as int, bs.len() as int) {
        lemma_children_fit(ns, bs, x, y, i + 1);
    }
}

/// The drawn tree of a node from the boxes the layout engine gave it, placed
/// from `offset`; `None` where a corner falls outside the 32-bit range.
pub fn render_tree(node: &LayoutModel, boxes: &LayoutBox, offset: Position) -> (res: Option<HitNode>)
    ensures
        match res {
            Some(h) => renders(*node, *boxes, offset@.0 as int, offset@.1 as int, h),
            None => true,
        },
        res is Some <==> tree_fits(*node, *boxes, offset@.0 as int, offset@.1 as int),
    decreases node,
{
    let x = match offset.x().checked_add(boxes.x) {
        Some(v) => v,
        None => return None,
    };
    let y = match offset.y().checked_add(boxes.y) {
        Some(v) => v,
        None => return None,
    };
    let rect = Rect::new(Position::new(x, y), Size::new(boxes.width, boxes.height));
    let mut children: Vec<HitNode> = Vec::new();
    if let NodeModel::Flex(_) = node.node {
        let n = if node.children.len() < boxes.children.len() {
            node.children.len()
        } else {
            boxes.children.len()
        };
        let ghost ns = node.children@;
        let ghost bs = boxes.children@;
        let mut i: usize = 0;
        while i < n
            invariant
                ns == node.children@,
                bs == boxes.children@,
                node.node is Flex,
                x as int == offset@.0 as int + boxes.x,
                y as int == offset@.1 as int + boxes.y,
                n == shared_len(ns.len() as int, bs.len() as int),
                i <= n,
                children@.len() == i,
                forall|j: int| 0 <= j < i ==> renders(ns[j], bs[j], x as int, y as int, #[trigger] children@[j]),
                forall|j: int| 0 <= j < i ==> tree_fits(#[trigger] ns[j], bs[j], x as int, y as int),
            decreases n - i,
        {
            assert(decreases_to!(*node => node.children@[i as int]));
            match render_tree(&node.children[i], &boxes.children[i], Position::new(x, y)) {
                Some(h) => {
                    let ghost before = children@;
                    children.push(h);
                    assert forall|j: int| 0 <= j < i + 1 implies renders(ns[j], bs[j], x as int, y as int, #[trigger] children@[j]) by {
                        if j < i {
                            assert(children@[j] == before[j]);
                        }
                    }
                },
                None => {
                    proof {
                        lemma_children_fit(ns, bs, x as int, y as int, 0);
                        assert(!tree_fits(ns[i as int], bs[i as int], x as int, y as int));
                    }
                    return None;
                },
            }
            i = i + 1;
        }
        proof {
            lemma_children_render(ns, bs, x as int, y as int, children@, 0);
            lemma_children_fit(ns, bs, x as int, y as int, 0);
        }
    }
    Some(HitNode { id: node.id, rect, children })
}

/// A text node laid over a held text node is measured again whenever its
/// text, its font or its size differs (sizes as numbers: different bit
/// patterns of which the held one is not a zero, or one size set and the
/// other not), and kept as it is when text, font and size are all the same.
pub proof fn lemma_text_patch(
    id1: u32,
    t1: String,
    f1: Option<FontFamily>,
    s1: Option<FontSize>,
    id2: u32,
    t2: String,
    f2: Option<FontFamily>,
    s2: Option<FontSize>,
    c1: Vec<LayoutModel>,
    c2: Vec<LayoutModel>,
)
    ensures
        ({
            let old = LayoutModel { id: id1, node: NodeModel::Text { text: t1, font: f1, size: s1 }, children: c1 };
            let new = LayoutModel { id: id2, node: NodeModel::Text { text: t2, font: f2, size: s2 }, children: c2 };
            let measure = PatchView::Update { style: Some(StyleChange::Measure), children: None };
            &&& t1@ != t2@ ==> patch_spec(old, new) == measure
            &&& (f1 is Some) != (f2 is Some) ==> patch_spec(old, new) == measure
            &&& (f1 is Some && f2 is Some && f1.unwrap()@ != f2.unwrap()@) ==> patch_spec(old, new) == measure
            &&& (s1 is Some) != (s2 is Some) ==> patch_spec(old, new) == measure
            &&& (s1 is Some && s2 is Some && s1.unwrap()@ != s2.unwrap()@ && s1.unwrap()@ % 0x8000_0000 != 0)
                ==> patch_spec(old, new) == measure
            &&& (t1@ == t2@ && f1 is None && f2 is None && s1 is None && s2 is None) ==> patch_spec(old, new)
                == PatchView::Keep
            &&& (t1@ == t2@ && f1 is Some && f2 is Some && f1.unwrap()@ == f2.unwrap()@ && s1 is Some
                && s2 is Some && s1.unwrap()@ == s2.unwrap()@ && (s1.unwrap()@ / 0x80_0000) % 0x100 != 0xff)
                ==> patch_spec(old, new) == PatchView::Keep
        }),
{
}

/// A rectangle or image laid over a held one of the same kind is kept when
/// its size is the same, and otherwise given its new size.
pub proof fn lemma_size_patch(id1: u32, a: Size, id2: u32, b: Size, c1: Vec<LayoutModel>, c2: Vec<LayoutModel>)
    ensures
        ({
            let r1 = LayoutModel { id: id1, node: NodeModel::Rect(a), children: c1 };
            let r2 = LayoutModel { id: id2, node: NodeModel::Rect(b), children: c2 };
            let i1 = LayoutModel { id: id1, node: NodeModel::Image(a), children: c1 };
            let i2 = LayoutModel { id: id2, node: NodeModel::Image(b), children: c2 };
            let resize = PatchView::Update { style: Some(StyleChange::Fixed(b@.0, b@.1)), children: None };
            &&& a@ == b@ ==> patch_spec(r1, r2) == PatchView::Keep && patch_spec(i1, i2) == PatchView::Keep
            &&& a@ != b@ ==> patch_spec(r1, r2) == resize && patch_spec(i1, i2) == resize
            &&& patch_spec(r1, i2) == PatchView::Replace
        }),
{
}

} // verus!
