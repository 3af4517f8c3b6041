//! Vocabulary of the flexbox layout that modules describe their content in.
use vstd::prelude::*;
use crate::application::hyprland::{first_from, lemma_first_from_found};
use crate::domain::shared::geometry::{Position, Rect, RectView};

verus! {

broadcast use vstd::string::group_string_axioms;

/// Why a layout could not be computed.
#[derive(Debug)]
pub enum LayoutError {
    EngineError(String),
}

impl LayoutError {
    /// The message of the error, as it is displayed.
    pub fn to_string(&self) -> (res: String)
        ensures
            res@ == match self {
                LayoutError::EngineError(s) => "Failed to compute layout: "@ + s@,
            },
    {
        match self {
            LayoutError::EngineError(s) => {
                let mut m = "Failed to compute layout: ".to_owned();
                m.append(s.as_str());
                m
            },
        }
    }
}

/// Main axis of a flex container.
#[derive(Debug, Clone, Copy, PartialEq, Eq, Structural)]
pub enum FlexDirection {
    Row,
    Column,
}

impl Default for FlexDirection {
    fn default() -> (res: Self)
        ensures
            res == FlexDirection::Row,
    {
        FlexDirection::Row
    }
}

/// Distribution of children along the main axis.
#[derive(Debug, Clone, Copy, PartialEq, Eq, Structural)]
pub enum JustifyContent {
    Start,
    End,
    Center,
    SpaceBetween,
    SpaceAround,
    SpaceEvenly,
}

impl Default for JustifyContent {
    fn default() -> (res: Self)
        ensures
            res == JustifyContent::Start,
    {
        JustifyContent::Start
    }
}

/// Placement of children along the cross axis.
#[derive(Debug, Clone, Copy, PartialEq, Eq, Structural)]
pub enum AlignItems {
    Start,
    End,
    Center,
    Stretch,
}

impl Default for AlignItems {
    fn default() -> (res: Self)
        ensures
            res == AlignItems::Start,
    {
        AlignItems::Start
    }
}

/// Whether a node takes part in its parent's flow.
#[derive(Debug, Clone, Copy, PartialEq, Eq, Structural)]
pub enum PositionType {
    Relative,
    Absolute,
}

impl Default for PositionType {
    fn default() -> (res: Self)
        ensures
            res == PositionType::Relative,
    {
        PositionType::Relative
    }
}

/// Text of a text node.
#[derive(Debug, Clone, PartialEq, Eq)]
pub struct TextContent {
    text: String,
}

impl View for TextContent {
    type V = Seq<char>;

    closed spec fn view(&self) -> Seq<char> {
        self.text@
    }
}

impl TextContent {
    pub fn new(text: String) -> (res: Self)
        ensures
            res@ == text@,
    {
        TextContent { text }
    }

    pub fn as_str(&self) -> (res: &str)
        ensures
            res@ == self@,
    {
        self.text.as_str()
    }
}

/// A length read as a signed 32-bit number, as the drawn tree's integer
/// arithmetic reads it: lengths past `i32::MAX` wrap round to negatives.
pub open spec fn signed_len(w: u32) -> int {
    if w <= 0x7fff_ffff {
        w as int
    } else {
        w - 0x1_0000_0000
    }
}

/// Whether the point `(x, y)` lies in the rectangle: the left and top edges
/// belong to it, the right and bottom ones do not.
pub open spec fn rect_contains(r: RectView, x: i32, y: i32) -> bool {
    &&& r.x <= x && x < r.x + signed_len(r.width)
    &&& r.y <= y && y < r.y + signed_len(r.height)
}

/// A drawn node as the pointer sees it: an identifier chosen by whoever
/// built the tree, its rectangle, and its children in drawing order.
pub struct HitNode {
    pub id: u32,
    pub rect: Rect,
    pub children: Vec<HitNode>,
}

pub open spec fn contains_point(x: i32, y: i32) -> spec_fn(HitNode) -> bool {
    |n: HitNode| rect_contains(n.rect@, x, y)
}

/// The identifiers of the nodes under the point, outermost first: the node
/// itself when it contains the point, then the path in its first child that
/// contains the point; empty when the node does not contain it.
pub open spec fn hit_path(n: HitNode, x: i32, y: i32) -> Seq<u32>
    decreases n,
{
    if rect_contains(n.rect@, x, y) {
        seq![n.id] + match first_from(n.children@, contains_point(x, y), 0) {
            Some(i) => if 0 <= i < n.children@.len() {
                hit_path(n.children@[i], x, y)
            } else {
                seq![]
            },
            None => seq![],
        }
    } else {
        seq![]
    }
}

fn signed_len_of(w: u32) -> (res: i64)
    ensures
        res == signed_len(w),
{
    if w <= 0x7fff_ffff {
        w as i64
    } else {
        w as i64 - 0x1_0000_0000
    }
}

fn contains_position(r: &Rect, pos: &Position) -> (res: bool)
    ensures
        res == rect_contains(r@, pos@.0, pos@.1),
{
    let x = pos.x() as i64;
    let y = pos.y() as i64;
    let left = r.x() as i64;
    let top = r.y() as i64;
    left <= x && x < left + signed_len_of(r.width()) && top <= y && y < top + signed_len_of(
        r.height(),
    )
}

impl HitNode {
    /// The identifiers of the nodes under `pos`, outermost first; empty when
    /// `pos` is outside this node.
    pub fn hit_test(&self, pos: Position) -> (path: Vec<u32>)
        ensures
            path@ == hit_path(*self, pos@.0, pos@.1),
    {
        let mut path: Vec<u32> = Vec::new();
        self.hit_test_into(&pos, &mut path);
        assert(path@ =~= hit_path(*self, pos@.0, pos@.1));
        path
    }

    fn hit_test_into(&self, pos: &Position, path: &mut Vec<u32>)
        ensures
            final(path)@ == old(path)@ + hit_path(*self, pos@.0, pos@.1),
        decreases *self,
    {
        let ghost start = path@;
        if contains_position(&self.rect, pos) {
            path.push(self.id);
            let ghost p = contains_point(pos@.0, pos@.1);
            let ghost cs = self.children@;
            proof {
                lemma_first_from_found(cs, p, 0);
            }
            let mut i: usize = 0;
            while i < self.children.len()
                invariant
                    cs == self.children@,
                    p == contains_point(pos@.0, pos@.1),
                    i <= cs.len(),
                    first_from(cs, p, 0) == first_from(cs, p, i as int),
                    path@ == start.push(self.id),
                    start == old(path)@,
                    rect_contains(self.rect@, pos@.0, pos@.1),
                decreases cs.len() - i,
            {
                if contains_position(&self.children[i].rect, pos) {
                    assert(p(cs[i as int]));
                    assert(first_from(cs, p, i as int) == Some(i as int));
                    assert(decreases_to!(*self => self.children@[i as int]));
                    self.children[i].hit_test_into(pos, path);
                    assert(path@ =~= start + hit_path(*self, pos@.0, pos@.1));
                    return;
                }
                i = i + 1;
            }
            assert(path@ =~= start + hit_path(*self, pos@.0, pos@.1));
        } else {
            assert(path@ =~= start + hit_path(*self, pos@.0, pos@.1));
        }
    }
}

} // verus!
