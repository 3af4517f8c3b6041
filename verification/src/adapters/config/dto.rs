//! The configuration file's shape, as read from TOML, and its conversion to
//! the domain's configuration values: shorthands such as `margin = 5` or
//! `horizontal = 4` expand here, and defaults fill what the file leaves out.
use vstd::prelude::*;
use crate::domain::color::{DrawingColor, DrawingColorView};
use crate::domain::config::{
    opt_view, or_keep, BarConfig, BarView, BorderConfig, BorderSize, BorderRadius, BorderView,
    Config, FontFamily, FontSize, MarginConfig, MarginOffset, ModuleConfig, ModulesConfig,
    PaddingConfig, PaddingOffset, PartialBarConfig, PartialBarView, PartialBorderConfig,
    PartialBorderView, PartialMarginConfig, PartialPaddingConfig, RenderingMode, Sides,
    VerticalAlignment,
};
use crate::domain::metrics::MetricsConfig;
use std::collections::HashMap;

verus! {

/// `a` where it is set, else `b`.
pub open spec fn first_set<T>(a: Option<T>, b: Option<T>) -> Option<T> {
    match a {
        Some(x) => Some(x),
        None => b,
    }
}

fn first_set_of<T>(a: Option<T>, b: Option<T>) -> (res: Option<T>)
    ensures
        res == first_set(a, b),
{
    match a {
        Some(x) => Some(x),
        None => b,
    }
}

/// `vertical_alignment = "top" | "center" | "bottom"`.
#[derive(Debug, Clone, Copy, PartialEq, Eq, Structural)]
pub enum VerticalAlignmentDto {
    Top,
    Center,
    Bottom,
}

impl Default for VerticalAlignmentDto {
    fn default() -> (res: Self)
        ensures
            res == VerticalAlignmentDto::Center,
    {
        VerticalAlignmentDto::Center
    }
}

pub open spec fn alignment_of(d: VerticalAlignmentDto) -> VerticalAlignment {
    match d {
        VerticalAlignmentDto::Top => VerticalAlignment::Top,
        VerticalAlignmentDto::Center => VerticalAlignment::Center,
        VerticalAlignmentDto::Bottom => VerticalAlignment::Bottom,
    }
}

impl VerticalAlignmentDto {
    pub fn into_domain(self) -> (res: VerticalAlignment)
        ensures
            res == alignment_of(self),
    {
        match self {
            VerticalAlignmentDto::Top => VerticalAlignment::Top,
            VerticalAlignmentDto::Center => VerticalAlignment::Center,
            VerticalAlignmentDto::Bottom => VerticalAlignment::Bottom,
        }
    }
}

/// `margin = n`, or a table of sides where `vertical` stands for top and
/// bottom and `horizontal` for left and right.
#[derive(Debug, Clone, Copy, PartialEq, Eq, Structural)]
pub enum MarginConfigDto {
    All(i32),
    Fields {
        top: Option<i32>,
        bottom: Option<i32>,
        left: Option<i32>,
        right: Option<i32>,
        horizontal: Option<i32>,
        vertical: Option<i32>,
    },
}

impl Default for MarginConfigDto {
    fn default() -> (res: Self)
        ensures
            res == MarginConfigDto::All(0),
    {
        MarginConfigDto::All(0)
    }
}

/// The sides that a margin or padding table sets: a side's own key first,
/// then its axis.
pub open spec fn sides_set<T>(
    top: Option<T>,
    bottom: Option<T>,
    left: Option<T>,
    right: Option<T>,
    horizontal: Option<T>,
    vertical: Option<T>,
) -> Sides<Option<T>> {
    Sides {
        top: first_set(top, vertical),
        bottom: first_set(bottom, vertical),
        left: first_set(left, horizontal),
        right: first_set(right, horizontal),
    }
}

/// Unset sides are zero.
pub open spec fn sides_or_zero_i32(s: Sides<Option<i32>>) -> Sides<i32> {
    Sides {
        top: or_keep(s.top, 0),
        bottom: or_keep(s.bottom, 0),
        left: or_keep(s.left, 0),
        right: or_keep(s.right, 0),
    }
}

pub open spec fn sides_or_zero_u32(s: Sides<Option<u32>>) -> Sides<u32> {
    Sides {
        top: or_keep(s.top, 0),
        bottom: or_keep(s.bottom, 0),
        left: or_keep(s.left, 0),
        right: or_keep(s.right, 0),
    }
}

pub open spec fn margin_sides(d: MarginConfigDto) -> Sides<Option<i32>> {
    match d {
        MarginConfigDto::All(v) => Sides { top: Some(v), bottom: Some(v), left: Some(v), right: Some(v) },
        MarginConfigDto::Fields { top, bottom, left, right, horizontal, vertical } => sides_set(
            top,
            bottom,
            left,
            right,
            horizontal,
            vertical,
        ),
    }
}

impl MarginConfigDto {
    pub fn into_domain(self) -> (res: MarginConfig)
        ensures
            res@ == sides_or_zero_i32(margin_sides(self)),
    {
        match self {
            MarginConfigDto::All(val) => MarginConfig::new(
                MarginOffset::new(val),
                MarginOffset::new(val),
                MarginOffset::new(val),
                MarginOffset::new(val),
            ),
            MarginConfigDto::Fields { top, bottom, left, right, horizontal, vertical } => {
                let t = first_set_of(top, vertical).unwrap_or(0);
                let b = first_set_of(bottom, vertical).unwrap_or(0);
                let l = first_set_of(left, horizontal).unwrap_or(0);
                let r = first_set_of(right, horizontal).unwrap_or(0);
                MarginConfig::new(
                    MarginOffset::new(t),
                    MarginOffset::new(b),
                    MarginOffset::new(l),
                    MarginOffset::new(r),
                )
            },
        }
    }
}

/// `padding = n`, or a table of sides as for the margin.
#[derive(Debug, Clone, Copy, PartialEq, Eq, Structural)]
pub enum PaddingConfigDto {
    All(u32),
    Fields {
        top: Option<u32>,
        bottom: Option<u32>,
        left: Option<u32>,
        right: Option<u32>,
        horizontal: Option<u32>,
        vertical: Option<u32>,
    },
}

impl Default for PaddingConfigDto {
    fn default() -> (res: Self)
        ensures
            res == PaddingConfigDto::All(0),
    {
        PaddingConfigDto::All(0)
    }
}

pub open spec fn padding_sides(d: PaddingConfigDto) -> Sides<Option<u32>> {
    match d {
        PaddingConfigDto::All(v) => Sides { top: Some(v), bottom: Some(v), left: Some(v), right: Some(v) },
        PaddingConfigDto::Fields { top, bottom, left, right, horizontal, vertical } => sides_set(
            top,
            bottom,
            left,
            right,
            horizontal,
            vertical,
        ),
    }
}

impl PaddingConfigDto {
    pub fn into_domain(self) -> (res: PaddingConfig)
        ensures
            res@ == sides_or_zero_u32(padding_sides(self)),
    {
        match self {
            PaddingConfigDto::All(val) => PaddingConfig::new(
                PaddingOffset::new(val),
                PaddingOffset::new(val),
                PaddingOffset::new(val),
                PaddingOffset::new(val),
            ),
            PaddingConfigDto::Fields { top, bottom, left, right, horizontal, vertical } => {
                let t = first_set_of(top, vertical).unwrap_or(0);
                let b = first_set_of(bottom, vertical).unwrap_or(0);
                let l = first_set_of(left, horizontal).unwrap_or(0);
                let r = first_set_of(right, horizontal).unwrap_or(0);
                PaddingConfig::new(
                    PaddingOffset::new(t),
                    PaddingOffset::new(b),
                    PaddingOffset::new(l),
                    PaddingOffset::new(r),
                )
            },
        }
    }
}

/// `[rendering]`: `mode = "immediate"` with an optional `fps_limit`, or
/// `mode = "timebased"` with `duration_ms` (100 when left out).
#[derive(Debug, Clone, Copy, PartialEq, Eq, Structural)]
pub enum RenderingModeDto {
    Immediate { fps_limit: Option<u32> },
    Timebased { duration_ms: u64 },
}

impl Default for RenderingModeDto {
    fn default() -> (res: Self)
        ensures
            res == (RenderingModeDto::Timebased { duration_ms: 100 }),
    {
        RenderingModeDto::Timebased { duration_ms: 100 }
    }
}

pub open spec fn rendering_of(d: RenderingModeDto) -> RenderingMode {
    match d {
        RenderingModeDto::Immediate { fps_limit } => RenderingMode::Immediate { fps_limit },
        RenderingModeDto::Timebased { duration_ms } => RenderingMode::Timebased { duration_ms },
    }
}

impl RenderingModeDto {
    pub fn into_domain(self) -> (res: RenderingMode)
        ensures
            res == rendering_of(self),
    {
        match self {
            RenderingModeDto::Immediate { fps_limit } => RenderingMode::new_immediate(fps_limit),
            RenderingModeDto::Timebased { duration_ms } => RenderingMode::new_timebased(duration_ms),
        }
    }
}

/// The margin of the `unfocused` section: as [`MarginConfigDto`], but a side
/// left out stays unset.
#[derive(Debug, Clone, Copy, PartialEq, Eq, Structural)]
pub enum PartialMarginConfigDto {
    All(i32),
    Fields {
        top: Option<i32>,
        bottom: Option<i32>,
        left: Option<i32>,
        right: Option<i32>,
        horizontal: Option<i32>,
        vertical: Option<i32>,
    },
}

impl Default for PartialMarginConfigDto {
    fn default() -> (res: Self)
        ensures
            res == (PartialMarginConfigDto::Fields {
                top: None,
                bottom: None,
                left: None,
                right: None,
                horizontal: None,
                vertical: None,
            }),
    {
        PartialMarginConfigDto::Fields {
            top: None,
            bottom: None,
            left: None,
            right: None,
            horizontal: None,
            vertical: None,
        }
    }
}

pub open spec fn partial_margin_sides(d: PartialMarginConfigDto) -> Sides<Option<i32>> {
    match d {
        PartialMarginConfigDto::All(v) => Sides {
            top: Some(v),
            bottom: Some(v),
            left: Some(v),
            right: Some(v),
        },
        PartialMarginConfigDto::Fields { top, bottom, left, right, horizontal, vertical } => sides_set(
            top,
            bottom,
            left,
            right,
            horizontal,
            vertical,
        ),
    }
}

fn margin_offset_of(o: Option<i32>) -> (res: Option<MarginOffset>)
    ensures
        crate::domain::config::opt_margin(res) == o,
{
    match o {
        Some(v) => Some(MarginOffset::new(v)),
        None => None,
    }
}

fn padding_offset_of(o: Option<u32>) -> (res: Option<PaddingOffset>)
    ensures
        crate::domain::config::opt_padding(res) == o,
{
    match o {
        Some(v) => Some(PaddingOffset::new(v)),
        None => None,
    }
}

impl PartialMarginConfigDto {
    pub fn into_domain(self) -> (res: PartialMarginConfig)
        ensures
            res@ == partial_margin_sides(self),
    {
        match self {
            PartialMarginConfigDto::All(val) => PartialMarginConfig::new(
                Some(MarginOffset::new(val)),
                Some(MarginOffset::new(val)),
                Some(MarginOffset::new(val)),
                Some(MarginOffset::new(val)),
            ),
            PartialMarginConfigDto::Fields { top, bottom, left, right, horizontal, vertical } => {
                let t = margin_offset_of(first_set_of(top, vertical));
                let b = margin_offset_of(first_set_of(bottom, vertical));
                let l = margin_offset_of(first_set_of(left, horizontal));
                let r = margin_offset_of(first_set_of(right, horizontal));
                PartialMarginConfig::new(t, b, l, r)
            },
        }
    }
}

/// The padding of the `unfocused` section: as [`PaddingConfigDto`], but a
/// side left out stays unset.
#[derive(Debug, Clone, Copy, PartialEq, Eq, Structural)]
pub enum PartialPaddingConfigDto {
    All(u32),
    Fields {
        top: Option<u32>,
        bottom: Option<u32>,
        left: Option<u32>,
        right: Option<u32>,
        horizontal: Option<u32>,
        vertical: Option<u32>,
    },
}

impl Default for PartialPaddingConfigDto {
    fn default() -> (res: Self)
        ensures
            res == (PartialPaddingConfigDto::Fields {
                top: None,
                bottom: None,
                left: None,
                right: None,
                horizontal: None,
                vertical: None,
            }),
    {
        PartialPaddingConfigDto::Fields {
            top: None,
            bottom: None,
            left: None,
            right: None,
            horizontal: None,
            vertical: None,
        }
    }
}

pub open spec fn partial_padding_sides(d: PartialPaddingConfigDto) -> Sides<Option<u32>> {
    match d {
        PartialPaddingConfigDto::All(v) => Sides {
            top: Some(v),
            bottom: Some(v),
            left: Some(v),
            right: Some(v),
        },
        PartialPaddingConfigDto::Fields { top, bottom, left, right, horizontal, vertical } => sides_set(
            top,
            bottom,
            left,
            right,
            horizontal,
            vertical,
        ),
    }
}

impl PartialPaddingConfigDto {
    pub fn into_domain(self) -> (res: PartialPaddingConfig)
        ensures
            res@ == partial_padding_sides(self),
    {
        match self {
            PartialPaddingConfigDto::All(val) => PartialPaddingConfig::new(
                Some(PaddingOffset::new(val)),
                Some(PaddingOffset::new(val)),
                Some(PaddingOffset::new(val)),
                Some(PaddingOffset::new(val)),
            ),
            PartialPaddingConfigDto::Fields { top, bottom, left, right, horizontal, vertical } => {
                let t = padding_offset_of(first_set_of(top, vertical));
                let b = padding_offset_of(first_set_of(bottom, vertical));
                let l = padding_offset_of(first_set_of(left, horizontal));
                let r = padding_offset_of(first_set_of(right, horizontal));
                PartialPaddingConfig::new(t, b, l, r)
            },
        }
    }
}

/// `[bar.border]`: width and radius as single-precision bit patterns
/// (zero when left out), and a colour (black when left out).
#[derive(Debug, Clone, PartialEq)]
pub struct BorderConfigDto {
    pub size: u32,
    pub color: DrawingColor,
    pub radius: u32,
}

impl Default for BorderConfigDto {
    fn default() -> (res: Self)
        ensures
            res.size == 0,
            res.color@ == DrawingColorView::Solid((0u8, 0u8, 0u8, 255u8)),
            res.radius == 0,
    {
        BorderConfigDto { size: 0, color: DrawingColor::black(), radius: 0 }
    }
}

impl BorderConfigDto {
    pub fn into_domain(self) -> (res: BorderConfig)
        ensures
            res@ == (BorderView { size: self.size, color: self.color@, radius: self.radius }),
    {
        BorderConfig::new(BorderSize::from_bits(self.size), self.color, BorderRadius::from_bits(self.radius))
    }
}

/// The border of the `unfocused` section.
#[derive(Debug, Clone, PartialEq)]
pub struct PartialBorderConfigDto {
    pub size: Option<u32>,
    pub color: Option<DrawingColor>,
    pub radius: Option<u32>,
}

impl PartialBorderConfigDto {
    pub fn into_domain(self) -> (res: PartialBorderConfig)
        ensures
            res@ == (PartialBorderView {
                size: self.size,
                color: crate::domain::config::opt_color(self.color),
                radius: self.radius,
            }),
    {
        let size = match self.size {
            Some(b) => Some(BorderSize::from_bits(b)),
            None => None,
        };
        let radius = match self.radius {
            Some(b) => Some(BorderRadius::from_bits(b)),
            None => None,
        };
        PartialBorderConfig::new(size, self.color, radius)
    }
}

pub open spec fn opt_partial_border(o: Option<PartialBorderConfigDto>) -> Option<PartialBorderView> {
    match o {
        Some(b) => Some(
            PartialBorderView {
                size: b.size,
                color: crate::domain::config::opt_color(b.color),
                radius: b.radius,
            },
        ),
        None => None,
    }
}

pub open spec fn opt_string(o: Option<String>) -> Option<Seq<char>> {
    match o {
        Some(s) => Some(s@),
        None => None,
    }
}

/// The `unfocused` section: every setting optional.
#[derive(Debug, Clone, PartialEq)]
pub struct PartialBarConfigDto {
    pub font_family: Option<String>,
    pub font_size: Option<u32>,
    pub background: Option<DrawingColor>,
    pub height: Option<u32>,
    pub vertical_alignment: Option<VerticalAlignmentDto>,
    pub border: Option<PartialBorderConfigDto>,
    pub margin: Option<PartialMarginConfigDto>,
    pub padding: Option<PartialPaddingConfigDto>,
    pub module_gap: Option<u32>,
}

pub open spec fn partial_bar_view(d: PartialBarConfigDto) -> PartialBarView {
    PartialBarView {
        background: crate::domain::config::opt_color(d.background),
        height: d.height,
        vertical_alignment: match d.vertical_alignment {
            Some(v) => Some(alignment_of(v)),
            None => None,
        },
        border: opt_partial_border(d.border),
        margin: match d.margin {
            Some(m) => Some(partial_margin_sides(m)),
            None => None,
        },
        padding: match d.padding {
            Some(p) => Some(partial_padding_sides(p)),
            None => None,
        },
        font_family: opt_string(d.font_family),
        font_size: d.font_size,
    }
}

impl PartialBarConfigDto {
    /// The section's settings; the module gap has no place in the bar's
    /// settings and is dropped.
    pub fn into_domain(self) -> (res: PartialBarConfig)
        ensures
            res@ == partial_bar_view(self),
    {
        let vertical_alignment = match self.vertical_alignment {
            Some(v) => Some(v.into_domain()),
            None => None,
        };
        let border = match self.border {
            Some(b) => Some(b.into_domain()),
            None => None,
        };
        let margin = match self.margin {
            Some(m) => Some(m.into_domain()),
            None => None,
        };
        let padding = match self.padding {
            Some(p) => Some(p.into_domain()),
            None => None,
        };
        let font_family = match self.font_family {
            Some(f) => Some(FontFamily::new(f)),
            None => None,
        };
        let font_size = match self.font_size {
            Some(b) => Some(FontSize::from_bits(b)),
            None => None,
        };
        PartialBarConfig::new(
            self.background,
            self.height,
            vertical_alignment,
            border,
            margin,
            padding,
            font_family,
            font_size,
        )
    }
}

/// Decides whether a font family can be used: the platform's font lookup.
///
/// Its answer is taken to depend on the validator and the family alone, so
/// that two calls with the same family agree: a validator that looks at the
/// installed fonts should read them once, into its own state, rather than at
/// each call.
pub trait FontValidatorPort: Sized {
    /// Whether the lookup finds the family. Nothing is known of it but that
    /// it is the answer of this validator for this family: which families
    /// are found depends on the fonts installed on the machine.
    closed spec fn accepts(&self, family: Seq<char>) -> bool {
        (choose|answer: spec_fn(Self, Seq<char>) -> bool| #[trigger] answer(*self, family) || !answer(*self, family))(
            *self,
            family,
        )
    }

    fn is_valid_family(&self, family: &str) -> (res: bool)
        ensures
            res == self.accepts(family@),
    ;
}

/// Whether the validator lets the bar keep its configured font family (a
/// bar with no family configured keeps the default one).
pub open spec fn family_accepted<V: FontValidatorPort>(d: BarConfigDto, validator: V) -> bool {
    match d.font_family {
        Some(f) => validator.accepts(f@),
        None => true,
    }
}

/// `[bar]`.
#[derive(Debug, Clone, PartialEq)]
pub struct BarConfigDto {
    pub font_family: Option<String>,
    /// Single-precision bit pattern; 14 points when left out.
    pub font_size: Option<u32>,
    pub background: DrawingColor,
    pub height: u32,
    pub vertical_alignment: VerticalAlignmentDto,
    pub border: BorderConfigDto,
    pub margin: MarginConfigDto,
    pub padding: PaddingConfigDto,
    pub module_gap: u32,
    pub unfocused: Option<PartialBarConfigDto>,
}

/// The bit pattern of 14.0, the font size when none is configured.
pub const DEFAULT_FONT_SIZE_BITS: u32 = 0x4160_0000;

/// The bar settings of `d`, where `family_ok` says whether the configured
/// font family (if any) is usable: an unusable or missing family is empty.
pub open spec fn bar_view(d: BarConfigDto, family_ok: bool) -> BarView {
    BarView {
        background: d.background@,
        height: d.height,
        vertical_alignment: alignment_of(d.vertical_alignment),
        border: BorderView { size: d.border.size, color: d.border.color@, radius: d.border.radius },
        margin: sides_or_zero_i32(margin_sides(d.margin)),
        padding: sides_or_zero_u32(padding_sides(d.padding)),
        font_family: match d.font_family {
            Some(f) => if family_ok {
                f@
            } else {
                Seq::empty()
            },
            None => Seq::empty(),
        },
        font_size: or_keep(d.font_size, DEFAULT_FONT_SIZE_BITS),
        unfocused: match d.unfocused {
            Some(u) => Some(partial_bar_view(u)),
            None => None,
        },
    }
}

impl BarConfigDto {
    /// The bar settings, given whether the configured font family is usable.
    pub fn into_domain_checked(self, family_ok: bool) -> (res: BarConfig)
        ensures
            res@ == bar_view(self, family_ok),
    {
        let family = match self.font_family {
            Some(f) => if family_ok {
                f
            } else {
                String::new()
            },
            None => String::new(),
        };
        let font_size = match self.font_size {
            Some(b) => b,
            None => DEFAULT_FONT_SIZE_BITS,
        };
        let unfocused = match self.unfocused {
            Some(u) => Some(u.into_domain()),
            None => None,
        };
        BarConfig::new(
            self.background,
            self.height,
            self.vertical_alignment.into_domain(),
            self.border.into_domain(),
            self.margin.into_domain(),
            self.padding.into_domain(),
            FontFamily::new(family),
            FontSize::from_bits(font_size),
            unfocused,
        )
    }

    /// The bar settings, asking `validator` whether the configured font
    /// family is usable.
    pub fn into_domain<V: FontValidatorPort>(self, validator: &V) -> (res: BarConfig)
        ensures
            res@ == bar_view(self, family_accepted(self, *validator)),
    {
        let ok = match &self.font_family {
            Some(f) => validator.is_valid_family(f.as_str()),
            None => true,
        };
        self.into_domain_checked(ok)
    }
}

/// One entry of a module list.
#[derive(Debug, Clone, PartialEq)]
pub struct ModuleConfigDto {
    pub name: String,
    pub enable: bool,
    pub engine: Option<String>,
    pub options: HashMap<String, serde_json::Value>,
}

impl ModuleConfigDto {
    /// The module's settings; the engine choice has no place in them and is
    /// dropped.
    pub fn into_domain(self) -> (res: ModuleConfig)
        ensures
            res.spec_name() == self.name@,
            res.spec_enabled() == self.enable,
            res.spec_options() == self.options,
    {
        ModuleConfig::new(self.name, self.enable, self.options)
    }
}

fn modules_into_domain(v: Vec<ModuleConfigDto>) -> (res: Vec<ModuleConfig>)
    ensures
        modules_match(res@, v@),
{
    let mut out: Vec<ModuleConfig> = Vec::new();
    let mut rest = v;
    let ghost orig = rest@;
    while rest.len() > 0
        invariant
            out@.len() <= orig.len(),
            rest@ == orig.subrange(out@.len() as int, orig.len() as int),
            forall|i: int|
                0 <= i < out@.len() ==> {
                    &&& (#[trigger] out@[i]).spec_name() == orig[i].name@
                    &&& out@[i].spec_enabled() == orig[i].enable
                    &&& out@[i].spec_options() == orig[i].options
                },
        decreases rest@.len(),
    {
        let ghost k = out@.len();
        let m = rest.remove(0);
        assert(m == orig[k as int]);
        out.push(ModuleConfig::new(m.name, m.enable, m.options));
        assert(rest@ =~= orig.subrange(out@.len() as int, orig.len() as int));
    }
    out
}

/// `[modules]`: the left, centre and right lists.
#[derive(Debug, Clone, PartialEq)]
pub struct ModulesConfigDto {
    pub left: Vec<ModuleConfigDto>,
    pub center: Vec<ModuleConfigDto>,
    pub right: Vec<ModuleConfigDto>,
}

/// Whether `m` holds the settings of `d`, entry by entry.
pub open spec fn modules_match(m: Seq<ModuleConfig>, d: Seq<ModuleConfigDto>) -> bool {
    &&& m.len() == d.len()
    &&& forall|i: int|
        0 <= i < d.len() ==> {
            &&& (#[trigger] m[i]).spec_name() == d[i].name@
            &&& m[i].spec_enabled() == d[i].enable
            &&& m[i].spec_options() == d[i].options
        }
}

impl ModulesConfigDto {
    pub fn into_domain(self) -> (res: ModulesConfig)
        ensures
            modules_match(res.spec_left(), self.left@),
            modules_match(res.spec_center(), self.center@),
            modules_match(res.spec_right(), self.right@),
    {
        ModulesConfig::new(
            modules_into_domain(self.left),
            modules_into_domain(self.center),
            modules_into_domain(self.right),
        )
    }
}

impl Default for ModulesConfigDto {
    fn default() -> (res: Self)
        ensures
            res.left@.len() == 0,
            res.center@.len() == 0,
            res.right@.len() == 0,
    {
        ModulesConfigDto { left: Vec::new(), center: Vec::new(), right: Vec::new() }
    }
}

/// The whole file.
#[derive(Debug, Clone, PartialEq)]
pub struct ConfigDto {
    pub bar: BarConfigDto,
    pub modules: ModulesConfigDto,
    pub rendering: RenderingModeDto,
    pub metrics: MetricsConfig,
}

impl ConfigDto {
    /// The configuration, asking `validator` about the bar's font family.
    pub fn into_domain<V: FontValidatorPort>(self, validator: &V) -> (res: Config)
        ensures
            res.spec_bar() == bar_view(self.bar, family_accepted(self.bar, *validator)),
            modules_match(res.spec_modules().spec_left(), self.modules.left@),
            modules_match(res.spec_modules().spec_center(), self.modules.center@),
            modules_match(res.spec_modules().spec_right(), self.modules.right@),
            res.spec_rendering() == rendering_of(self.rendering),
            res.spec_metrics() == self.metrics@,
    {
        let bar = self.bar.into_domain(validator);
        let modules = self.modules.into_domain();
        let rendering = self.rendering.into_domain();
        Config::new(bar, modules, rendering, self.metrics)
    }
}

/// A `[bar]` section that leaves everything out gives the default bar.
pub proof fn lemma_empty_bar_section_is_default(d: BarConfigDto, family_ok: bool)
    requires
        d.font_family is None,
        d.font_size is None,
        d.background@ == DrawingColorView::Solid((0u8, 0u8, 0u8, 255u8)),
        d.height == 30,
        d.vertical_alignment == VerticalAlignmentDto::Center,
        d.border.size == 0,
        d.border.color@ == DrawingColorView::Solid((0u8, 0u8, 0u8, 255u8)),
        d.border.radius == 0,
        d.margin == MarginConfigDto::All(0),
        d.padding == PaddingConfigDto::All(0),
        d.unfocused is None,
    ensures
        bar_view(d, family_ok) == BarConfig::default_view(),
{
}

/// `margin = n` is the table that sets both axes to `n`.
pub proof fn lemma_margin_all_is_both_axes(v: i32)
    ensures
        sides_or_zero_i32(margin_sides(MarginConfigDto::All(v))) == sides_or_zero_i32(
            margin_sides(
                MarginConfigDto::Fields {
                    top: None,
                    bottom: None,
                    left: None,
                    right: None,
                    horizontal: Some(v),
                    vertical: Some(v),
                },
            ),
        ),
{
}

/// A side's own key wins over its axis, and the axis over the default zero.
pub proof fn lemma_margin_side_precedence(
    top: Option<i32>,
    bottom: Option<i32>,
    left: Option<i32>,
    right: Option<i32>,
    horizontal: Option<i32>,
    vertical: Option<i32>,
)
    ensures
        ({
            let m = sides_or_zero_i32(
                margin_sides(MarginConfigDto::Fields { top, bottom, left, right, horizontal, vertical }),
            );
            &&& m.top == or_keep(top, or_keep(vertical, 0))
            &&& m.bottom == or_keep(bottom, or_keep(vertical, 0))
            &&& m.left == or_keep(left, or_keep(horizontal, 0))
            &&& m.right == or_keep(right, or_keep(horizontal, 0))
        }),
{
}

/// A full margin is the partial margin read from the same table, with the
/// sides it leaves unset at zero.
pub proof fn lemma_margin_is_completed_partial(
    top: Option<i32>,
    bottom: Option<i32>,
    left: Option<i32>,
    right: Option<i32>,
    horizontal: Option<i32>,
    vertical: Option<i32>,
)
    ensures
        sides_or_zero_i32(
            margin_sides(MarginConfigDto::Fields { top, bottom, left, right, horizontal, vertical }),
        ) == sides_or_zero_i32(
            partial_margin_sides(
                PartialMarginConfigDto::Fields { top, bottom, left, right, horizontal, vertical },
            ),
        ),
        forall|v: i32|
            sides_or_zero_i32(margin_sides(MarginConfigDto::All(v))) == sides_or_zero_i32(
                partial_margin_sides(PartialMarginConfigDto::All(v)),
            ),
{
}

/// The same for the padding.
pub proof fn lemma_padding_is_completed_partial(
    top: Option<u32>,
    bottom: Option<u32>,
    left: Option<u32>,
    right: Option<u32>,
    horizontal: Option<u32>,
    vertical: Option<u32>,
)
    ensures
        sides_or_zero_u32(
            padding_sides(PaddingConfigDto::Fields { top, bottom, left, right, horizontal, vertical }),
        ) == sides_or_zero_u32(
            partial_padding_sides(
                PartialPaddingConfigDto::Fields { top, bottom, left, right, horizontal, vertical },
            ),
        ),
        forall|v: u32|
            sides_or_zero_u32(padding_sides(PaddingConfigDto::All(v))) == sides_or_zero_u32(
                partial_padding_sides(PartialPaddingConfigDto::All(v)),
            ),
{
}

/// Each side of the `unfocused` padding is the value its own key gives when
/// set, else the value of its axis key (`vertical` for top and bottom,
/// `horizontal` for left and right) when set; a side neither sets stays
/// unset, so the bar keeps its own padding there. `All(v)` sets every side to `v`.
pub proof fn lemma_partial_padding_sides(
    top: Option<u32>,
    bottom: Option<u32>,
    left: Option<u32>,
    right: Option<u32>,
    horizontal: Option<u32>,
    vertical: Option<u32>,
    v: u32,
)
    ensures
        ({
            let s = partial_padding_sides(PartialPaddingConfigDto::Fields { top, bottom, left, right, horizontal, vertical });
            &&& top is Some ==> s.top == top
            &&& top is None ==> s.top == vertical
            &&& bottom is Some ==> s.bottom == bottom
            &&& bottom is None ==> s.bottom == vertical
            &&& left is Some ==> s.left == left
            &&& left is None ==> s.left == horizontal
            &&& right is Some ==> s.right == right
            &&& right is None ==> s.right == horizontal
            &&& (top is None && vertical is None) ==> s.top is None
            &&& (bottom is None && vertical is None) ==> s.bottom is None
            &&& (left is None && horizontal is None) ==> s.left is None
            &&& (right is None && horizontal is None) ==> s.right is None
        }),
        ({
            let a = partial_padding_sides(PartialPaddingConfigDto::All(v));
            a.top == Some(v) && a.bottom == Some(v) && a.left == Some(v) && a.right == Some(v)
        }),
{
}

/// Each side of the `unfocused` margin is the value its own key gives when
/// set, else the value of its axis key (`vertical` for top and bottom,
/// `horizontal` for left and right) when set; a side neither sets stays
/// unset, so the bar keeps its own margin there. `All(v)` sets every side to `v`.
pub proof fn lemma_partial_margin_sides(
    top: Option<i32>,
    bottom: Option<i32>,
    left: Option<i32>,
    right: Option<i32>,
    horizontal: Option<i32>,
    vertical: Option<i32>,
    v: i32,
)
    ensures
        ({
            let s = partial_margin_sides(PartialMarginConfigDto::Fields { top, bottom, left, right, horizontal, vertical });
            &&& top is Some ==> s.top == top
            &&& top is None ==> s.top == vertical
            &&& bottom is Some ==> s.bottom == bottom
            &&& bottom is None ==> s.bottom == vertical
            &&& left is Some ==> s.left == left
            &&& left is None ==> s.left == horizontal
            &&& right is Some ==> s.right == right
            &&& right is None ==> s.right == horizontal
            &&& (top is None && vertical is None) ==> s.top is None
            &&& (bottom is None && vertical is None) ==> s.bottom is None
            &&& (left is None && horizontal is None) ==> s.left is None
            &&& (right is None && horizontal is None) ==> s.right is None
        }),
        ({
            let a = partial_margin_sides(PartialMarginConfigDto::All(v));
            a.top == Some(v) && a.bottom == Some(v) && a.left == Some(v) && a.right == Some(v)
        }),
{
}

} // verus!
