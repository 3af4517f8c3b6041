//! Bar configuration values, and the rule by which the `unfocused` section
//! overrides the bar's settings on outputs that do not have focus.
use vstd::prelude::*;
use vstd::std_specs::cmp::PartialEqSpecImpl;
use crate::domain::shared::float_bits::{same_number, same_number_bits};
use crate::domain::color::{DrawingColor, DrawingColorView};
use crate::domain::metrics::{MetricsConfig, MetricsView};
use std::collections::HashMap;

verus! {

/// Name of a font family (empty when none was configured).
#[derive(Debug, Clone, PartialEq)]
pub struct FontFamily(String);

impl View for FontFamily {
    type V = Seq<char>;

    closed spec fn view(&self) -> Seq<char> {
        self.0@
    }
}

impl FontFamily {
    pub fn new(family: String) -> (res: Self)
        ensures
            res@ == family@,
    {
        FontFamily(family)
    }

    pub fn as_str(&self) -> (res: &str)
        ensures
            res@ == self@,
    {
        self.0.as_str()
    }

    pub fn duplicate(&self) -> (res: Self)
        ensures
            res@ == self@,
    {
        FontFamily(self.0.clone())
    }
}

/// Font size in points, held as the bit pattern of a single-precision number.
#[derive(Debug, Clone, Copy)]
pub struct FontSize(u32);

impl View for FontSize {
    type V = u32;

    closed spec fn view(&self) -> u32 {
        self.0
    }
}

/// Equal as numbers: a NaN equals nothing, and the two zeros are equal.
impl PartialEq for FontSize {
    fn eq(&self, other: &Self) -> (res: bool) {
        same_number_bits(self.0, other.0)
    }
}

impl PartialEqSpecImpl for FontSize {
    open spec fn obeys_eq_spec() -> bool {
        true
    }

    open spec fn eq_spec(&self, other: &Self) -> bool {
        same_number(self@, other@)
    }
}

impl FontSize {
    pub fn from_bits(bits: u32) -> (res: Self)
        ensures
            res@ == bits,
    {
        FontSize(bits)
    }

    pub fn to_bits(&self) -> (res: u32)
        ensures
            res == self@,
    {
        self.0
    }
}

/// Border width in pixels, held as the bit pattern of a single-precision number.
#[derive(Debug, Clone, Copy)]
pub struct BorderSize(u32);

impl View for BorderSize {
    type V = u32;

    closed spec fn view(&self) -> u32 {
        self.0
    }
}

/// Equal as numbers: a NaN equals nothing, and the two zeros are equal.
impl PartialEq for BorderSize {
    fn eq(&self, other: &Self) -> (res: bool) {
        same_number_bits(self.0, other.0)
    }
}

impl PartialEqSpecImpl for BorderSize {
    open spec fn obeys_eq_spec() -> bool {
        true
    }

    open spec fn eq_spec(&self, other: &Self) -> bool {
        same_number(self@, other@)
    }
}

impl BorderSize {
    pub fn from_bits(bits: u32) -> (res: Self)
        ensures
            res@ == bits,
    {
        BorderSize(bits)
    }

    pub fn to_bits(&self) -> (res: u32)
        ensures
            res == self@,
    {
        self.0
    }
}

/// Corner radius in pixels, held as the bit pattern of a single-precision number.
#[derive(Debug, Clone, Copy)]
pub struct BorderRadius(u32);

impl View for BorderRadius {
    type V = u32;

    closed spec fn view(&self) -> u32 {
        self.0
    }
}

/// Equal as numbers: a NaN equals nothing, and the two zeros are equal.
impl PartialEq for BorderRadius {
    fn eq(&self, other: &Self) -> (res: bool) {
        same_number_bits(self.0, other.0)
    }
}

impl PartialEqSpecImpl for BorderRadius {
    open spec fn obeys_eq_spec() -> bool {
        true
    }

    open spec fn eq_spec(&self, other: &Self) -> bool {
        same_number(self@, other@)
    }
}

impl BorderRadius {
    pub fn from_bits(bits: u32) -> (res: Self)
        ensures
            res@ == bits,
    {
        BorderRadius(bits)
    }

    pub fn to_bits(&self) -> (res: u32)
        ensures
            res == self@,
    {
        self.0
    }
}

/// Offset of the bar from an edge of its output; may be negative.
#[derive(Debug, Clone, Copy, PartialEq, Eq, Structural)]
pub struct MarginOffset(i32);

impl View for MarginOffset {
    type V = i32;

    closed spec fn view(&self) -> i32 {
        self.0
    }
}

impl MarginOffset {
    pub fn new(offset: i32) -> (res: Self)
        ensures
            res@ == offset,
    {
        MarginOffset(offset)
    }

    pub fn value(&self) -> (res: i32)
        ensures
            res == self@,
    {
        self.0
    }
}

impl Default for MarginOffset {
    fn default() -> (res: Self)
        ensures
            res@ == 0,
    {
        MarginOffset(0)
    }
}

/// Space between the bar's edge and its content.
#[derive(Debug, Clone, Copy, PartialEq, Eq, Structural)]
pub struct PaddingOffset(u32);

impl View for PaddingOffset {
    type V = u32;

    closed spec fn view(&self) -> u32 {
        self.0
    }
}

impl PaddingOffset {
    pub fn new(offset: u32) -> (res: Self)
        ensures
            res@ == offset,
    {
        PaddingOffset(offset)
    }

    pub fn value(&self) -> (res: u32)
        ensures
            res == self@,
    {
        self.0
    }
}

impl Default for PaddingOffset {
    fn default() -> (res: Self)
        ensures
            res@ == 0,
    {
        PaddingOffset(0)
    }
}

/// How often the bar redraws: as fast as events come (optionally capped at
/// a frame rate), or on a fixed period.
#[derive(Debug, Clone, PartialEq, Eq, Structural)]
pub enum RenderingMode {
    Immediate { fps_limit: Option<u32> },
    Timebased { duration_ms: u64 },
}

impl RenderingMode {
    pub fn new_immediate(fps_limit: Option<u32>) -> (res: Self)
        ensures
            res == (RenderingMode::Immediate { fps_limit }),
    {
        RenderingMode::Immediate { fps_limit }
    }

    pub fn new_timebased(duration_ms: u64) -> (res: Self)
        ensures
            res == (RenderingMode::Timebased { duration_ms }),
    {
        RenderingMode::Timebased { duration_ms }
    }

    /// The frame-rate cap of immediate mode; `None` in timed mode.
    pub fn fps_limit(&self) -> (res: Option<u32>)
        ensures
            res == match *self {
                RenderingMode::Immediate { fps_limit } => fps_limit,
                RenderingMode::Timebased { .. } => None,
            },
    {
        match self {
            RenderingMode::Immediate { fps_limit } => *fps_limit,
            RenderingMode::Timebased { .. } => None,
        }
    }

    /// The period of timed mode; `None` in immediate mode.
    pub fn duration_ms(&self) -> (res: Option<u64>)
        ensures
            res == match *self {
                RenderingMode::Immediate { .. } => None,
                RenderingMode::Timebased { duration_ms } => Some(duration_ms),
            },
    {
        match self {
            RenderingMode::Immediate { .. } => None,
            RenderingMode::Timebased { duration_ms } => Some(*duration_ms),
        }
    }
}

impl Default for RenderingMode {
    /// Redraw every 100 ms.
    fn default() -> (res: Self)
        ensures
            res == (RenderingMode::Timebased { duration_ms: 100 }),
    {
        RenderingMode::Timebased { duration_ms: 100 }
    }
}

/// Where the bar's content sits vertically.
#[derive(Debug, Clone, Copy, PartialEq, Eq, Structural)]
pub enum VerticalAlignment {
    Top,
    Center,
    Bottom,
}

impl Default for VerticalAlignment {
    fn default() -> (res: Self)
        ensures
            res == VerticalAlignment::Center,
    {
        VerticalAlignment::Center
    }
}

/// The four sides of a box.
pub struct Sides<T> {
    pub top: T,
    pub bottom: T,
    pub left: T,
    pub right: T,
}

/// Margins on the four sides of the bar.
#[derive(Debug, Clone, PartialEq)]
pub struct MarginConfig {
    top: MarginOffset,
    bottom: MarginOffset,
    left: MarginOffset,
    right: MarginOffset,
}

impl View for MarginConfig {
    type V = Sides<i32>;

    closed spec fn view(&self) -> Sides<i32> {
        Sides { top: self.top@, bottom: self.bottom@, left: self.left@, right: self.right@ }
    }
}

impl MarginConfig {
    pub fn new(top: MarginOffset, bottom: MarginOffset, left: MarginOffset, right: MarginOffset) -> (res: Self)
        ensures
            res@ == (Sides { top: top@, bottom: bottom@, left: left@, right: right@ }),
    {
        MarginConfig { top, bottom, left, right }
    }

    pub fn top(&self) -> (res: MarginOffset)
        ensures
            res@ == self@.top,
    {
        self.top
    }

    pub fn bottom(&self) -> (res: MarginOffset)
        ensures
            res@ == self@.bottom,
    {
        self.bottom
    }

    pub fn left(&self) -> (res: MarginOffset)
        ensures
            res@ == self@.left,
    {
        self.left
    }

    pub fn right(&self) -> (res: MarginOffset)
        ensures
            res@ == self@.right,
    {
        self.right
    }

    pub fn duplicate(&self) -> (res: Self)
        ensures
            res@ == self@,
    {
        MarginConfig { top: self.top, bottom: self.bottom, left: self.left, right: self.right }
    }
}

impl Default for MarginConfig {
    fn default() -> (res: Self)
        ensures
            res@ == (Sides::<i32> { top: 0, bottom: 0, left: 0, right: 0 }),
    {
        MarginConfig {
            top: MarginOffset(0),
            bottom: MarginOffset(0),
            left: MarginOffset(0),
            right: MarginOffset(0),
        }
    }
}

/// Padding on the four sides of the bar.
#[derive(Debug, Clone, PartialEq)]
pub struct PaddingConfig {
    top: PaddingOffset,
    bottom: PaddingOffset,
    left: PaddingOffset,
    right: PaddingOffset,
}

impl View for PaddingConfig {
    type V = Sides<u32>;

    closed spec fn view(&self) -> Sides<u32> {
        Sides { top: self.top@, bottom: self.bottom@, left: self.left@, right: self.right@ }
    }
}

impl PaddingConfig {
    pub fn new(top: PaddingOffset, bottom: PaddingOffset, left: PaddingOffset, right: PaddingOffset) -> (res: Self)
        ensures
            res@ == (Sides { top: top@, bottom: bottom@, left: left@, right: right@ }),
    {
        PaddingConfig { top, bottom, left, right }
    }

    pub fn top(&self) -> (res: PaddingOffset)
        ensures
            res@ == self@.top,
    {
        self.top
    }

    pub fn bottom(&self) -> (res: PaddingOffset)
        ensures
            res@ == self@.bottom,
    {
        self.bottom
    }

    pub fn left(&self) -> (res: PaddingOffset)
        ensures
            res@ == self@.left,
    {
        self.left
    }

    pub fn right(&self) -> (res: PaddingOffset)
        ensures
            res@ == self@.right,
    {
        self.right
    }

    pub fn duplicate(&self) -> (res: Self)
        ensures
            res@ == self@,
    {
        PaddingConfig { top: self.top, bottom: self.bottom, left: self.left, right: self.right }
    }
}

impl Default for PaddingConfig {
    fn default() -> (res: Self)
        ensures
            res@ == (Sides::<u32> { top: 0, bottom: 0, left: 0, right: 0 }),
    {
        PaddingConfig {
            top: PaddingOffset(0),
            bottom: PaddingOffset(0),
            left: PaddingOffset(0),
            right: PaddingOffset(0),
        }
    }
}

/// Margins of which only some sides are set.
#[derive(Debug, Clone, PartialEq)]
pub struct PartialMarginConfig {
    top: Option<MarginOffset>,
    bottom: Option<MarginOffset>,
    left: Option<MarginOffset>,
    right: Option<MarginOffset>,
}

pub open spec fn opt_margin(o: Option<MarginOffset>) -> Option<i32> {
    match o {
        Some(m) => Some(m@),
        None => None,
    }
}

pub open spec fn opt_padding(o: Option<PaddingOffset>) -> Option<u32> {
    match o {
        Some(p) => Some(p@),
        None => None,
    }
}

impl View for PartialMarginConfig {
    type V = Sides<Option<i32>>;

    closed spec fn view(&self) -> Sides<Option<i32>> {
        Sides {
            top: opt_margin(self.top),
            bottom: opt_margin(self.bottom),
            left: opt_margin(self.left),
            right: opt_margin(self.right),
        }
    }
}

impl PartialMarginConfig {
    pub fn new(
        top: Option<MarginOffset>,
        bottom: Option<MarginOffset>,
        left: Option<MarginOffset>,
        right: Option<MarginOffset>,
    ) -> (res: Self)
        ensures
            res@ == (Sides {
                top: opt_margin(top),
                bottom: opt_margin(bottom),
                left: opt_margin(left),
                right: opt_margin(right),
            }),
    {
        PartialMarginConfig { top, bottom, left, right }
    }

    pub fn top(&self) -> (res: Option<MarginOffset>)
        ensures
            opt_margin(res) == self@.top,
    {
        self.top
    }

    pub fn bottom(&self) -> (res: Option<MarginOffset>)
        ensures
            opt_margin(res) == self@.bottom,
    {
        self.bottom
    }

    pub fn left(&self) -> (res: Option<MarginOffset>)
        ensures
            opt_margin(res) == self@.left,
    {
        self.left
    }

    pub fn right(&self) -> (res: Option<MarginOffset>)
        ensures
            opt_margin(res) == self@.right,
    {
        self.right
    }

    pub fn duplicate(&self) -> (res: Self)
        ensures
            res@ == self@,
    {
        PartialMarginConfig { top: self.top, bottom: self.bottom, left: self.left, right: self.right }
    }
}

impl Default for PartialMarginConfig {
    /// No side set.
    fn default() -> (res: Self)
        ensures
            res@ == (Sides::<Option<i32>> { top: None, bottom: None, left: None, right: None }),
    {
        PartialMarginConfig { top: None, bottom: None, left: None, right: None }
    }
}

/// Padding of which only some sides are set.
#[derive(Debug, Clone, PartialEq)]
pub struct PartialPaddingConfig {
    top: Option<PaddingOffset>,
    bottom: Option<PaddingOffset>,
    left: Option<PaddingOffset>,
    right: Option<PaddingOffset>,
}

impl View for PartialPaddingConfig {
    type V = Sides<Option<u32>>;

    closed spec fn view(&self) -> Sides<Option<u32>> {
        Sides {
            top: opt_padding(self.top),
            bottom: opt_padding(self.bottom),
            left: opt_padding(self.left),
            right: opt_padding(self.right),
        }
    }
}

impl PartialPaddingConfig {
    pub fn new(
        top: Option<PaddingOffset>,
        bottom: Option<PaddingOffset>,
        left: Option<PaddingOffset>,
        right: Option<PaddingOffset>,
    ) -> (res: Self)
        ensures
            res@ == (Sides {
                top: opt_padding(top),
                bottom: opt_padding(bottom),
                left: opt_padding(left),
                right: opt_padding(right),
            }),
    {
        PartialPaddingConfig { top, bottom, left, right }
    }

    pub fn top(&self) -> (res: Option<PaddingOffset>)
        ensures
            opt_padding(res) == self@.top,
    {
        self.top
    }

    pub fn bottom(&self) -> (res: Option<PaddingOffset>)
        ensures
            opt_padding(res) == self@.bottom,
    {
        self.bottom
    }

    pub fn left(&self) -> (res: Option<PaddingOffset>)
        ensures
            opt_padding(res) == self@.left,
    {
        self.left
    }

    pub fn right(&self) -> (res: Option<PaddingOffset>)
        ensures
            opt_padding(res) == self@.right,
    {
        self.right
    }

    pub fn duplicate(&self) -> (res: Self)
        ensures
            res@ == self@,
    {
        PartialPaddingConfig { top: self.top, bottom: self.bottom, left: self.left, right: self.right }
    }
}

impl Default for PartialPaddingConfig {
    /// No side set.
    fn default() -> (res: Self)
        ensures
            res@ == (Sides::<Option<u32>> { top: None, bottom: None, left: None, right: None }),
    {
        PartialPaddingConfig { top: None, bottom: None, left: None, right: None }
    }
}

/// Abstract value of a [`BorderConfig`].
pub struct BorderView {
    pub size: u32,
    pub color: DrawingColorView,
    pub radius: u32,
}

/// The bar's border: width, colour and corner radius.
#[derive(Debug, Clone, PartialEq)]
pub struct BorderConfig {
    size: BorderSize,
    color: DrawingColor,
    radius: BorderRadius,
}

impl View for BorderConfig {
    type V = BorderView;

    closed spec fn view(&self) -> BorderView {
        BorderView { size: self.size@, color: self.color@, radius: self.radius@ }
    }
}

impl BorderConfig {
    pub fn new(size: BorderSize, color: DrawingColor, radius: BorderRadius) -> (res: Self)
        ensures
            res@ == (BorderView { size: size@, color: color@, radius: radius@ }),
    {
        BorderConfig { size, color, radius }
    }

    pub fn size(&self) -> (res: BorderSize)
        ensures
            res@ == self@.size,
    {
        self.size
    }

    pub fn color(&self) -> (res: &DrawingColor)
        ensures
            res@ == self@.color,
    {
        &self.color
    }

    pub fn radius(&self) -> (res: BorderRadius)
        ensures
            res@ == self@.radius,
    {
        self.radius
    }

    pub fn duplicate(&self) -> (res: Self)
        ensures
            res@ == self@,
    {
        BorderConfig { size: self.size, color: self.color.duplicate(), radius: self.radius }
    }
}

impl Default for BorderConfig {
    /// No border: zero width and radius, black.
    fn default() -> (res: Self)
        ensures
            res@ == (BorderView {
                size: 0,
                color: DrawingColorView::Solid((0u8, 0u8, 0u8, 255u8)),
                radius: 0,
            }),
    {
        BorderConfig { size: BorderSize(0), color: DrawingColor::black(), radius: BorderRadius(0) }
    }
}

pub open spec fn opt_color(o: Option<DrawingColor>) -> Option<DrawingColorView> {
    match o {
        Some(c) => Some(c@),
        None => None,
    }
}

fn duplicate_opt_color(o: &Option<DrawingColor>) -> (res: Option<DrawingColor>)
    ensures
        opt_color(res) == opt_color(*o),
{
    match o {
        Some(c) => Some(c.duplicate()),
        None => None,
    }
}

/// Abstract value of a [`PartialBorderConfig`].
pub struct PartialBorderView {
    pub size: Option<u32>,
    pub color: Option<DrawingColorView>,
    pub radius: Option<u32>,
}

/// Border settings of which only some are set.
#[derive(Debug, Clone, PartialEq)]
pub struct PartialBorderConfig {
    size: Option<BorderSize>,
    color: Option<DrawingColor>,
    radius: Option<BorderRadius>,
}

pub open spec fn opt_bits_size(o: Option<BorderSize>) -> Option<u32> {
    match o {
        Some(v) => Some(v@),
        None => None,
    }
}

pub open spec fn opt_bits_radius(o: Option<BorderRadius>) -> Option<u32> {
    match o {
        Some(v) => Some(v@),
        None => None,
    }
}

impl View for PartialBorderConfig {
    type V = PartialBorderView;

    closed spec fn view(&self) -> PartialBorderView {
        PartialBorderView {
            size: opt_bits_size(self.size),
            color: opt_color(self.color),
            radius: opt_bits_radius(self.radius),
        }
    }
}

impl PartialBorderConfig {
    pub fn new(size: Option<BorderSize>, color: Option<DrawingColor>, radius: Option<BorderRadius>) -> (res: Self)
        ensures
            res@ == (PartialBorderView {
                size: opt_bits_size(size),
                color: opt_color(color),
                radius: opt_bits_radius(radius),
            }),
    {
        PartialBorderConfig { size, color, radius }
    }

    pub fn size(&self) -> (res: Option<BorderSize>)
        ensures
            opt_bits_size(res) == self@.size,
    {
        self.size
    }

    pub fn color(&self) -> (res: Option<&DrawingColor>)
        ensures
            match res {
                Some(c) => self@.color == Some(c@),
                None => self@.color is None,
            },
    {
        match &self.color {
            Some(c) => Some(c),
            None => None,
        }
    }

    pub fn radius(&self) -> (res: Option<BorderRadius>)
        ensures
            opt_bits_radius(res) == self@.radius,
    {
        self.radius
    }

    pub fn duplicate(&self) -> (res: Self)
        ensures
            res@ == self@,
    {
        PartialBorderConfig {
            size: self.size,
            color: duplicate_opt_color(&self.color),
            radius: self.radius,
        }
    }
}

impl Default for PartialBorderConfig {
    /// Nothing set.
    fn default() -> (res: Self)
        ensures
            res@ == (PartialBorderView { size: None, color: None, radius: None }),
    {
        PartialBorderConfig { size: None, color: None, radius: None }
    }
}

/// Abstract value of a [`PartialBarConfig`].
pub struct PartialBarView {
    pub background: Option<DrawingColorView>,
    pub height: Option<u32>,
    pub vertical_alignment: Option<VerticalAlignment>,
    pub border: Option<PartialBorderView>,
    pub margin: Option<Sides<Option<i32>>>,
    pub padding: Option<Sides<Option<u32>>>,
    pub font_family: Option<Seq<char>>,
    pub font_size: Option<u32>,
}

/// Bar settings of which only some are set: the `unfocused` section.
#[derive(Debug, Clone, PartialEq)]
pub struct PartialBarConfig {
    background: Option<DrawingColor>,
    height: Option<u32>,
    vertical_alignment: Option<VerticalAlignment>,
    border: Option<PartialBorderConfig>,
    margin: Option<PartialMarginConfig>,
    padding: Option<PartialPaddingConfig>,
    font_family: Option<FontFamily>,
    font_size: Option<FontSize>,
}

pub open spec fn opt_view<T: View>(o: Option<T>) -> Option<T::V> {
    match o {
        Some(v) => Some(v@),
        None => None,
    }
}

impl View for PartialBarConfig {
    type V = PartialBarView;

    closed spec fn view(&self) -> PartialBarView {
        PartialBarView {
            background: opt_color(self.background),
            height: self.height,
            vertical_alignment: self.vertical_alignment,
            border: opt_view(self.border),
            margin: opt_view(self.margin),
            padding: opt_view(self.padding),
            font_family: opt_view(self.font_family),
            font_size: opt_view(self.font_size),
        }
    }
}

impl PartialBarConfig {
    pub fn new(
        background: Option<DrawingColor>,
        height: Option<u32>,
        vertical_alignment: Option<VerticalAlignment>,
        border: Option<PartialBorderConfig>,
        margin: Option<PartialMarginConfig>,
        padding: Option<PartialPaddingConfig>,
        font_family: Option<FontFamily>,
        font_size: Option<FontSize>,
    ) -> (res: Self)
        ensures
            res@ == (PartialBarView {
                background: opt_color(background),
                height,
                vertical_alignment,
                border: opt_view(border),
                margin: opt_view(margin),
                padding: opt_view(padding),
                font_family: opt_view(font_family),
                font_size: opt_view(font_size),
            }),
    {
        PartialBarConfig {
            background,
            height,
            vertical_alignment,
            border,
            margin,
            padding,
            font_family,
            font_size,
        }
    }

    pub fn background(&self) -> (res: Option<&DrawingColor>)
        ensures
            match res {
                Some(c) => self@.background == Some(c@),
                None => self@.background is None,
            },
    {
        match &self.background {
            Some(c) => Some(c),
            None => None,
        }
    }

    pub fn height(&self) -> (res: Option<u32>)
        ensures
            res == self@.height,
    {
        self.height
    }

    pub fn vertical_alignment(&self) -> (res: Option<VerticalAlignment>)
        ensures
            res == self@.vertical_alignment,
    {
        self.vertical_alignment
    }

    pub fn border(&self) -> (res: Option<&PartialBorderConfig>)
        ensures
            match res {
                Some(b) => self@.border == Some(b@),
                None => self@.border is None,
            },
    {
        match &self.border {
            Some(b) => Some(b),
            None => None,
        }
    }

    pub fn margin(&self) -> (res: Option<&PartialMarginConfig>)
        ensures
            match res {
                Some(m) => self@.margin == Some(m@),
                None => self@.margin is None,
            },
    {
        match &self.margin {
            Some(m) => Some(m),
            None => None,
        }
    }

    pub fn padding(&self) -> (res: Option<&PartialPaddingConfig>)
        ensures
            match res {
                Some(p) => self@.padding == Some(p@),
                None => self@.padding is None,
            },
    {
        match &self.padding {
            Some(p) => Some(p),
            None => None,
        }
    }

    pub fn font_family(&self) -> (res: Option<&FontFamily>)
        ensures
            match res {
                Some(f) => self@.font_family == Some(f@),
                None => self@.font_family is None,
            },
    {
        match &self.font_family {
            Some(f) => Some(f),
            None => None,
        }
    }

    pub fn font_size(&self) -> (res: Option<FontSize>)
        ensures
            opt_view(res) == self@.font_size,
    {
        self.font_size
    }

    pub fn duplicate(&self) -> (res: Self)
        ensures
            res@ == self@,
    {
        PartialBarConfig {
            background: duplicate_opt_color(&self.background),
            height: self.height,
            vertical_alignment: self.vertical_alignment,
            border: match &self.border {
                Some(b) => Some(b.duplicate()),
                None => None,
            },
            margin: match &self.margin {
                Some(m) => Some(m.duplicate()),
                None => None,
            },
            padding: match &self.padding {
                Some(p) => Some(p.duplicate()),
                None => None,
            },
            font_family: match &self.font_family {
                Some(f) => Some(f.duplicate()),
                None => None,
            },
            font_size: self.font_size,
        }
    }
}

impl Default for PartialBarConfig {
    /// Nothing set.
    fn default() -> (res: Self)
        ensures
            res@ == (PartialBarView {
                background: None,
                height: None,
                vertical_alignment: None,
                border: None,
                margin: None,
                padding: None,
                font_family: None,
                font_size: None,
            }),
    {
        PartialBarConfig {
            background: None,
            height: None,
            vertical_alignment: None,
            border: None,
            margin: None,
            padding: None,
            font_family: None,
            font_size: None,
        }
    }
}

/// Abstract value of a [`BarConfig`].
pub struct BarView {
    pub background: DrawingColorView,
    pub height: u32,
    pub vertical_alignment: VerticalAlignment,
    pub border: BorderView,
    pub margin: Sides<i32>,
    pub padding: Sides<u32>,
    pub font_family: Seq<char>,
    pub font_size: u32,
    pub unfocused: Option<PartialBarView>,
}

/// Settings of the bar on an output.
#[derive(Debug, Clone, PartialEq)]
pub struct BarConfig {
    background: DrawingColor,
    height: u32,
    vertical_alignment: VerticalAlignment,
    border: BorderConfig,
    margin: MarginConfig,
    padding: PaddingConfig,
    font_family: FontFamily,
    font_size: FontSize,
    unfocused: Option<PartialBarConfig>,
}

impl View for BarConfig {
    type V = BarView;

    closed spec fn view(&self) -> BarView {
        BarView {
            background: self.background@,
            height: self.height,
            vertical_alignment: self.vertical_alignment,
            border: self.border@,
            margin: self.margin@,
            padding: self.padding@,
            font_family: self.font_family@,
            font_size: self.font_size@,
            unfocused: opt_view(self.unfocused),
        }
    }
}

/// `o`'s value where it is set, else `v`.
pub open spec fn or_keep<T>(o: Option<T>, v: T) -> T {
    match o {
        Some(x) => x,
        None => v,
    }
}

pub open spec fn override_sides<T>(p: Option<Sides<Option<T>>>, s: Sides<T>) -> Sides<T> {
    match p {
        None => s,
        Some(q) => Sides {
            top: or_keep(q.top, s.top),
            bottom: or_keep(q.bottom, s.bottom),
            left: or_keep(q.left, s.left),
            right: or_keep(q.right, s.right),
        },
    }
}

pub open spec fn override_border(p: Option<PartialBorderView>, b: BorderView) -> BorderView {
    match p {
        None => b,
        Some(q) => BorderView {
            size: or_keep(q.size, b.size),
            color: or_keep(q.color, b.color),
            radius: or_keep(q.radius, b.radius),
        },
    }
}

/// The bar as drawn on an output without focus: every setting of the
/// `unfocused` section replaces the bar's own; the rest, and the section
/// itself, stay.
pub open spec fn unfocused_view(b: BarView) -> BarView {
    match b.unfocused {
        None => b,
        Some(u) => BarView {
            background: or_keep(u.background, b.background),
            height: or_keep(u.height, b.height),
            vertical_alignment: or_keep(u.vertical_alignment, b.vertical_alignment),
            border: override_border(u.border, b.border),
            margin: override_sides(u.margin, b.margin),
            padding: override_sides(u.padding, b.padding),
            font_family: or_keep(u.font_family, b.font_family),
            font_size: or_keep(u.font_size, b.font_size),
            unfocused: b.unfocused,
        },
    }
}

impl BarConfig {
    pub fn new(
        background: DrawingColor,
        height: u32,
        vertical_alignment: VerticalAlignment,
        border: BorderConfig,
        margin: MarginConfig,
        padding: PaddingConfig,
        font_family: FontFamily,
        font_size: FontSize,
        unfocused: Option<PartialBarConfig>,
    ) -> (res: Self)
        ensures
            res@ == (BarView {
                background: background@,
                height,
                vertical_alignment,
                border: border@,
                margin: margin@,
                padding: padding@,
                font_family: font_family@,
                font_size: font_size@,
                unfocused: opt_view(unfocused),
            }),
    {
        BarConfig {
            background,
            height,
            vertical_alignment,
            border,
            margin,
            padding,
            font_family,
            font_size,
            unfocused,
        }
    }

    pub fn background(&self) -> (res: &DrawingColor)
        ensures
            res@ == self@.background,
    {
        &self.background
    }

    pub fn height(&self) -> (res: u32)
        ensures
            res == self@.height,
    {
        self.height
    }

    pub fn vertical_alignment(&self) -> (res: VerticalAlignment)
        ensures
            res == self@.vertical_alignment,
    {
        self.vertical_alignment
    }

    pub fn border(&self) -> (res: &BorderConfig)
        ensures
            res@ == self@.border,
    {
        &self.border
    }

    pub fn margin(&self) -> (res: &MarginConfig)
        ensures
            res@ == self@.margin,
    {
        &self.margin
    }

    pub fn padding(&self) -> (res: &PaddingConfig)
        ensures
            res@ == self@.padding,
    {
        &self.padding
    }

    pub fn font_family(&self) -> (res: &FontFamily)
        ensures
            res@ == self@.font_family,
    {
        &self.font_family
    }

    pub fn font_size(&self) -> (res: FontSize)
        ensures
            res@ == self@.font_size,
    {
        self.font_size
    }

    /// The `unfocused` section, if the configuration has one.
    pub fn unfocused(&self) -> (res: Option<&PartialBarConfig>)
        ensures
            match res {
                Some(u) => self@.unfocused == Some(u@),
                None => self@.unfocused is None,
            },
    {
        match &self.unfocused {
            Some(u) => Some(u),
            None => None,
        }
    }

    /// The configuration to draw with on an output that does not have focus.
    pub fn as_unfocused(&self) -> (res: BarConfig)
        ensures
            res@ == unfocused_view(self@),
    {
        match &self.unfocused {
            None => BarConfig {
                background: self.background.duplicate(),
                height: self.height,
                vertical_alignment: self.vertical_alignment,
                border: self.border.duplicate(),
                margin: self.margin.duplicate(),
                padding: self.padding.duplicate(),
                font_family: self.font_family.duplicate(),
                font_size: self.font_size,
                unfocused: None,
            },
            Some(u) => {
                let background = match &u.background {
                    Some(bg) => bg.duplicate(),
                    None => self.background.duplicate(),
                };
                let height = match u.height {
                    Some(h) => h,
                    None => self.height,
                };
                let vertical_alignment = match u.vertical_alignment {
                    Some(va) => va,
                    None => self.vertical_alignment,
                };
                let font_family = match &u.font_family {
                    Some(ff) => ff.duplicate(),
                    None => self.font_family.duplicate(),
                };
                let font_size = match u.font_size {
                    Some(fs) => fs,
                    None => self.font_size,
                };
                BarConfig {
                    background,
                    height,
                    vertical_alignment,
                    border: overridden_border(&self.border, &u.border),
                    margin: overridden_margin(&self.margin, &u.margin),
                    padding: overridden_padding(&self.padding, &u.padding),
                    font_family,
                    font_size,
                    unfocused: Some(u.duplicate()),
                }
            },
        }
    }
}

fn overridden_border(b: &BorderConfig, p: &Option<PartialBorderConfig>) -> (res: BorderConfig)
    ensures
        res@ == override_border(opt_view(*p), b@),
{
    match p {
        None => b.duplicate(),
        Some(q) => BorderConfig {
            size: match q.size {
                Some(v) => v,
                None => b.size,
            },
            color: match &q.color {
                Some(c) => c.duplicate(),
                None => b.color.duplicate(),
            },
            radius: match q.radius {
                Some(v) => v,
                None => b.radius,
            },
        },
    }
}

fn pick_margin(o: Option<MarginOffset>, v: MarginOffset) -> (res: MarginOffset)
    ensures
        res@ == or_keep(opt_margin(o), v@),
{
    match o {
        Some(x) => x,
        None => v,
    }
}

fn pick_padding(o: Option<PaddingOffset>, v: PaddingOffset) -> (res: PaddingOffset)
    ensures
        res@ == or_keep(opt_padding(o), v@),
{
    match o {
        Some(x) => x,
        None => v,
    }
}

fn overridden_margin(m: &MarginConfig, p: &Option<PartialMarginConfig>) -> (res: MarginConfig)
    ensures
        res@ == override_sides(opt_view(*p), m@),
{
    match p {
        None => m.duplicate(),
        Some(q) => MarginConfig {
            top: pick_margin(q.top, m.top),
            bottom: pick_margin(q.bottom, m.bottom),
            left: pick_margin(q.left, m.left),
            right: pick_margin(q.right, m.right),
        },
    }
}

fn overridden_padding(m: &PaddingConfig, p: &Option<PartialPaddingConfig>) -> (res: PaddingConfig)
    ensures
        res@ == override_sides(opt_view(*p), m@),
{
    match p {
        None => m.duplicate(),
        Some(q) => PaddingConfig {
            top: pick_padding(q.top, m.top),
            bottom: pick_padding(q.bottom, m.bottom),
            left: pick_padding(q.left, m.left),
            right: pick_padding(q.right, m.right),
        },
    }
}

impl BarConfig {
    /// The settings of [`BarConfig::default`].
    pub open spec fn default_view() -> BarView {
        BarView {
            background: DrawingColorView::Solid((0u8, 0u8, 0u8, 255u8)),
            height: 30,
            vertical_alignment: VerticalAlignment::Center,
            border: BorderView {
                size: 0,
                color: DrawingColorView::Solid((0u8, 0u8, 0u8, 255u8)),
                radius: 0,
            },
            margin: Sides { top: 0, bottom: 0, left: 0, right: 0 },
            padding: Sides { top: 0, bottom: 0, left: 0, right: 0 },
            font_family: Seq::empty(),
            font_size: 0x4160_0000,
            unfocused: None,
        }
    }
}

impl Default for BarConfig {
    /// A 30-pixel, black, centred bar with no border, margin or padding, no
    /// font family, 14-point text and no `unfocused` section.
    fn default() -> (res: Self)
        ensures
            res@ == BarConfig::default_view(),
    {
        BarConfig {
            background: DrawingColor::black(),
            height: 30,
            vertical_alignment: VerticalAlignment::Center,
            border: BorderConfig::default(),
            margin: MarginConfig::default(),
            padding: PaddingConfig::default(),
            font_family: FontFamily(String::new()),
            font_size: FontSize(0x4160_0000),
            unfocused: None,
        }
    }
}

/// Drawing a bar as unfocused twice is the same as doing it once: the
/// overridden settings are already those of the `unfocused` section.
pub proof fn lemma_unfocused_idempotent(b: BarView)
    ensures
        unfocused_view(unfocused_view(b)) == unfocused_view(b),
{
}

/// A bar without an `unfocused` section looks the same without focus.
pub proof fn lemma_unfocused_without_section(b: BarView)
    requires
        b.unfocused is None,
    ensures
        unfocused_view(b) == b,
{
}

/// Without focus, each side of the margin and of the padding is the side the
/// `unfocused` section sets for it when it sets one, else the bar's own
/// value on that same side.
pub proof fn lemma_unfocused_sides(b: BarView, u: PartialBarView)
    requires
        b.unfocused == Some(u),
    ensures
        u.margin is Some && u.margin.unwrap().top is Some ==> unfocused_view(b).margin.top == u.margin.unwrap().top.unwrap(),
        u.margin is None || u.margin.unwrap().top is None ==> unfocused_view(b).margin.top == b.margin.top,
        u.margin is Some && u.margin.unwrap().bottom is Some ==> unfocused_view(b).margin.bottom == u.margin.unwrap().bottom.unwrap(),
        u.margin is None || u.margin.unwrap().bottom is None ==> unfocused_view(b).margin.bottom == b.margin.bottom,
        u.margin is Some && u.margin.unwrap().left is Some ==> unfocused_view(b).margin.left == u.margin.unwrap().left.unwrap(),
        u.margin is None || u.margin.unwrap().left is None ==> unfocused_view(b).margin.left == b.margin.left,
        u.margin is Some && u.margin.unwrap().right is Some ==> unfocused_view(b).margin.right == u.margin.unwrap().right.unwrap(),
        u.margin is None || u.margin.unwrap().right is None ==> unfocused_view(b).margin.right == b.margin.right,
        u.padding is Some && u.padding.unwrap().top is Some ==> unfocused_view(b).padding.top == u.padding.unwrap().top.unwrap(),
        u.padding is None || u.padding.unwrap().top is None ==> unfocused_view(b).padding.top == b.padding.top,
        u.padding is Some && u.padding.unwrap().bottom is Some ==> unfocused_view(b).padding.bottom == u.padding.unwrap().bottom.unwrap(),
        u.padding is None || u.padding.unwrap().bottom is None ==> unfocused_view(b).padding.bottom == b.padding.bottom,
        u.padding is Some && u.padding.unwrap().left is Some ==> unfocused_view(b).padding.left == u.padding.unwrap().left.unwrap(),
        u.padding is None || u.padding.unwrap().left is None ==> unfocused_view(b).padding.left == b.padding.left,
        u.padding is Some && u.padding.unwrap().right is Some ==> unfocused_view(b).padding.right == u.padding.unwrap().right.unwrap(),
        u.padding is None || u.padding.unwrap().right is None ==> unfocused_view(b).padding.right == b.padding.right,
{
}

/// Without focus, a setting of the `unfocused` section always wins; a
/// setting the section leaves out is the bar's own; the section itself stays.
pub proof fn lemma_unfocused_section_wins(b: BarView, u: PartialBarView)
    requires
        b.unfocused == Some(u),
    ensures
        unfocused_view(b).background == or_keep(u.background, b.background),
        unfocused_view(b).height == or_keep(u.height, b.height),
        unfocused_view(b).vertical_alignment == or_keep(u.vertical_alignment, b.vertical_alignment),
        unfocused_view(b).font_family == or_keep(u.font_family, b.font_family),
        unfocused_view(b).font_size == or_keep(u.font_size, b.font_size),
        unfocused_view(b).border == override_border(u.border, b.border),
        unfocused_view(b).margin == override_sides(u.margin, b.margin),
        unfocused_view(b).padding == override_sides(u.padding, b.padding),
        unfocused_view(b).unfocused == b.unfocused,
{
}

/// A JSON value of a module's free-form options.
#[verifier::external_type_specification]
#[verifier::external_body]
pub struct ExJsonValue(serde_json::Value);

/// One module on the bar: its name, whether it runs, and its options.
#[derive(Debug, Clone, PartialEq)]
pub struct ModuleConfig {
    name: String,
    enable: bool,
    options: HashMap<String, serde_json::Value>,
}

impl ModuleConfig {
    pub closed spec fn spec_name(&self) -> Seq<char> {
        self.name@
    }

    pub closed spec fn spec_enabled(&self) -> bool {
        self.enable
    }

    pub closed spec fn spec_options(&self) -> HashMap<String, serde_json::Value> {
        self.options
    }

    pub fn new(name: String, enable: bool, options: HashMap<String, serde_json::Value>) -> (res: Self)
        ensures
            res.spec_name() == name@,
            res.spec_enabled() == enable,
            res.spec_options() == options,
    {
        ModuleConfig { name, enable, options }
    }

    pub fn name(&self) -> (res: &str)
        ensures
            res@ == self.spec_name(),
    {
        self.name.as_str()
    }

    pub fn is_enabled(&self) -> (res: bool)
        ensures
            res == self.spec_enabled(),
    {
        self.enable
    }

    pub fn options(&self) -> (res: &HashMap<String, serde_json::Value>)
        ensures
            *res == self.spec_options(),
    {
        &self.options
    }
}

/// The modules in the left, centre and right sections of the bar, in order.
#[derive(Debug, Clone, PartialEq)]
pub struct ModulesConfig {
    left: Vec<ModuleConfig>,
    center: Vec<ModuleConfig>,
    right: Vec<ModuleConfig>,
}

impl ModulesConfig {
    pub closed spec fn spec_left(&self) -> Seq<ModuleConfig> {
        self.left@
    }

    pub closed spec fn spec_center(&self) -> Seq<ModuleConfig> {
        self.center@
    }

    pub closed spec fn spec_right(&self) -> Seq<ModuleConfig> {
        self.right@
    }

    pub fn new(left: Vec<ModuleConfig>, center: Vec<ModuleConfig>, right: Vec<ModuleConfig>) -> (res: Self)
        ensures
            res.spec_left() == left@,
            res.spec_center() == center@,
            res.spec_right() == right@,
    {
        ModulesConfig { left, center, right }
    }

    pub fn left(&self) -> (res: &[ModuleConfig])
        ensures
            res@ == self.spec_left(),
    {
        self.left.as_slice()
    }

    pub fn center(&self) -> (res: &[ModuleConfig])
        ensures
            res@ == self.spec_center(),
    {
        self.center.as_slice()
    }

    pub fn right(&self) -> (res: &[ModuleConfig])
        ensures
            res@ == self.spec_right(),
    {
        self.right.as_slice()
    }
}

impl Default for ModulesConfig {
    /// No module anywhere.
    fn default() -> (res: Self)
        ensures
            res.spec_left().len() == 0,
            res.spec_center().len() == 0,
            res.spec_right().len() == 0,
    {
        ModulesConfig { left: Vec::new(), center: Vec::new(), right: Vec::new() }
    }
}

/// The whole configuration.
#[derive(Debug, Clone, PartialEq)]
pub struct Config {
    bar: BarConfig,
    modules: ModulesConfig,
    rendering: RenderingMode,
    metrics: MetricsConfig,
}

impl Config {
    pub closed spec fn spec_bar(&self) -> BarView {
        self.bar@
    }

    pub closed spec fn spec_modules(&self) -> ModulesConfig {
        self.modules
    }

    pub closed spec fn spec_rendering(&self) -> RenderingMode {
        self.rendering
    }

    pub closed spec fn spec_metrics(&self) -> MetricsView {
        self.metrics@
    }

    pub fn new(bar: BarConfig, modules: ModulesConfig, rendering: RenderingMode, metrics: MetricsConfig) -> (res: Self)
        ensures
            res.spec_bar() == bar@,
            res.spec_modules() == modules,
            res.spec_rendering() == rendering,
            res.spec_metrics() == metrics@,
    {
        Config { bar, modules, rendering, metrics }
    }

    pub fn bar(&self) -> (res: &BarConfig)
        ensures
            res@ == self.spec_bar(),
    {
        &self.bar
    }

    pub fn modules(&self) -> (res: &ModulesConfig)
        ensures
            *res == self.spec_modules(),
    {
        &self.modules
    }

    pub fn rendering(&self) -> (res: &RenderingMode)
        ensures
            *res == self.spec_rendering(),
    {
        &self.rendering
    }

    pub fn metrics(&self) -> (res: &MetricsConfig)
        ensures
            res@ == self.spec_metrics(),
    {
        &self.metrics
    }
}

impl Default for Config {
    /// The default bar, no modules, redraws every 100 ms, default metrics.
    fn default() -> (res: Self)
        ensures
            res.spec_bar() == BarConfig::default_view(),
            res.spec_modules().spec_left().len() == 0,
            res.spec_modules().spec_center().len() == 0,
            res.spec_modules().spec_right().len() == 0,
            res.spec_rendering() == (RenderingMode::Timebased { duration_ms: 100 }),
            res.spec_metrics() == crate::domain::metrics::default_metrics(),
    {
        Config {
            bar: BarConfig::default(),
            modules: ModulesConfig::default(),
            rendering: RenderingMode::default(),
            metrics: MetricsConfig::default(),
        }
    }
}

} // verus!
