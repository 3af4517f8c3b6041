//! Colours: single RGBA colours and the `#rrggbb`, `#rrggbbaa`, `rgb(..)`,
//! `rgba(..)` and gradient notations of the configuration.
use vstd::prelude::*;
use vstd::std_specs::cmp::PartialEqSpecImpl;
use crate::domain::shared::float_bits::{same_number, same_number_bits};
use crate::text::{
    all_whitespace, char_is_whitespace, chars_of, is_whitespace, lemma_trim_idempotent, lemma_trim_within, trim,
    trim_bounds,
};
use vstd::utf8::{encode_utf8, is_char_boundary, is_ascii_chars};
use vstd::string::StringSliceAdditionalSpecFns;

verus! {

broadcast use vstd::string::group_string_axioms;

/// Why a colour string was refused.
#[derive(Debug, PartialEq)]
pub enum ColorError {
    Empty,
    NoColors(String),
    InvalidFormat(String),
    InvalidAngle(String),
}

/// Abstract value of a [`ColorError`].
pub enum ColorErrorView {
    Empty,
    NoColors(Seq<char>),
    InvalidFormat(Seq<char>),
    InvalidAngle(Seq<char>),
}

impl View for ColorError {
    type V = ColorErrorView;

    open spec fn view(&self) -> ColorErrorView {
        match self {
            ColorError::Empty => ColorErrorView::Empty,
            ColorError::NoColors(s) => ColorErrorView::NoColors(s@),
            ColorError::InvalidFormat(s) => ColorErrorView::InvalidFormat(s@),
            ColorError::InvalidAngle(s) => ColorErrorView::InvalidAngle(s@),
        }
    }
}

/// The message of a colour error.
pub open spec fn color_message(e: ColorErrorView) -> Seq<char> {
    match e {
        ColorErrorView::Empty => "Empty color string"@,
        ColorErrorView::NoColors(s) => "No colors found in input '"@ + s + "'"@,
        ColorErrorView::InvalidFormat(s) => "Invalid color format: '"@ + s + "'"@,
        ColorErrorView::InvalidAngle(s) => "Invalid angle value: '"@ + s + "'"@,
    }
}

impl ColorError {
    pub open spec fn message_spec(&self) -> Seq<char> {
        color_message(self@)
    }

    /// The message of the error, as it is displayed.
    pub fn to_string(&self) -> (res: String)
        ensures
            res@ == color_message(self@),
    {
        match self {
            ColorError::Empty => "Empty color string".to_owned(),
            ColorError::NoColors(s) => {
                let mut m = "No colors found in input '".to_owned();
                m.append(s.as_str());
                m.append("'");
                m
            },
            ColorError::InvalidFormat(s) => {
                let mut m = "Invalid color format: '".to_owned();
                m.append(s.as_str());
                m.append("'");
                m
            },
            ColorError::InvalidAngle(s) => {
                let mut m = "Invalid angle value: '".to_owned();
                m.append(s.as_str());
                m.append("'");
                m
            },
        }
    }
}

/// An 8-bit RGBA colour.
#[derive(Debug, Clone, Copy, PartialEq, Eq, Structural)]
pub struct Color {
    r: u8,
    g: u8,
    b: u8,
    a: u8,
}

impl View for Color {
    type V = (u8, u8, u8, u8);

    closed spec fn view(&self) -> (u8, u8, u8, u8) {
        (self.r, self.g, self.b, self.a)
    }
}

impl Color {
    pub fn new(r: u8, g: u8, b: u8, a: u8) -> (res: Self)
        ensures
            res@ == (r, g, b, a),
    {
        Color { r, g, b, a }
    }

    pub fn r(&self) -> (res: u8)
        ensures
            res == self@.0,
    {
        self.r
    }

    pub fn g(&self) -> (res: u8)
        ensures
            res == self@.1,
    {
        self.g
    }

    pub fn b(&self) -> (res: u8)
        ensures
            res == self@.2,
    {
        self.b
    }

    pub fn a(&self) -> (res: u8)
        ensures
            res == self@.3,
    {
        self.a
    }
}


/// Angle of a gradient, in degrees, held as the bit pattern of an IEEE-754
/// single-precision number.
#[derive(Debug, Clone, Copy)]
pub struct Angle {
    bits: u32,
}

impl View for Angle {
    type V = u32;

    closed spec fn view(&self) -> u32 {
        self.bits
    }
}

/// Equal as numbers: a NaN equals nothing, and the two zeros are equal.
impl PartialEq for Angle {
    fn eq(&self, other: &Self) -> (res: bool) {
        same_number_bits(self.bits, other.bits)
    }
}

impl PartialEqSpecImpl for Angle {
    open spec fn obeys_eq_spec() -> bool {
        true
    }

    open spec fn eq_spec(&self, other: &Self) -> bool {
        same_number(self@, other@)
    }
}

impl Angle {
    /// The angle whose single-precision bit pattern is `bits`.
    pub fn from_bits(bits: u32) -> (res: Self)
        ensures
            res@ == bits,
    {
        Angle { bits }
    }

    pub fn to_bits(&self) -> (res: u32)
        ensures
            res == self@,
    {
        self.bits
    }

    /// Zero degrees.
    pub fn zero() -> (res: Self)
        ensures
            res@ == 0,
    {
        Angle { bits: 0 }
    }
}

/// A solid colour or a linear gradient through several colours.
#[derive(Debug, Clone, PartialEq)]
pub enum DrawingColor {
    Solid(Color),
    Gradient(Vec<Color>, Angle),
}

/// Abstract value of a [`DrawingColor`].
pub enum DrawingColorView {
    Solid((u8, u8, u8, u8)),
    Gradient(Seq<(u8, u8, u8, u8)>, u32),
}

/// The views of a list of colours.
pub open spec fn colors_view(cs: Seq<Color>) -> Seq<(u8, u8, u8, u8)> {
    cs.map_values(|c: Color| c@)
}

impl View for DrawingColor {
    type V = DrawingColorView;

    open spec fn view(&self) -> DrawingColorView {
        match self {
            DrawingColor::Solid(c) => DrawingColorView::Solid(c@),
            DrawingColor::Gradient(cs, a) => DrawingColorView::Gradient(colors_view(cs@), a@),
        }
    }
}

/// One colour is solid; several make a gradient at the given angle.
pub open spec fn drawing_of(cs: Seq<(u8, u8, u8, u8)>, angle: u32) -> DrawingColorView {
    if cs.len() == 1 {
        DrawingColorView::Solid(cs[0])
    } else {
        DrawingColorView::Gradient(cs, angle)
    }
}

impl DrawingColor {
    /// The colour that the parsed colours and angle describe: one colour is
    /// solid, several make a gradient.
    pub fn from_parts(colors: Vec<Color>, angle: Angle) -> (res: Self)
        requires
            colors@.len() >= 1,
        ensures
            res@ == drawing_of(colors_view(colors@), angle@),
    {
        if colors.len() > 1 {
            DrawingColor::Gradient(colors, angle)
        } else {
            DrawingColor::Solid(colors[0])
        }
    }

    /// A copy of this colour.
    pub fn duplicate(&self) -> (res: Self)
        ensures
            res@ == self@,
    {
        match self {
            DrawingColor::Solid(c) => DrawingColor::Solid(*c),
            DrawingColor::Gradient(cs, a) => {
                let mut out: Vec<Color> = Vec::new();
                let mut i: usize = 0;
                while i < cs.len()
                    invariant
                        i <= cs@.len(),
                        out@ == cs@.subrange(0, i as int),
                    decreases cs@.len() - i,
                {
                    out.push(cs[i]);
                    i = i + 1;
                    assert(out@ =~= cs@.subrange(0, i as int));
                }
                assert(out@ =~= cs@);
                DrawingColor::Gradient(out, *a)
            },
        }
    }

    /// Black, the default background and border colour.
    pub fn black() -> (res: Self)
        ensures
            res@ == DrawingColorView::Solid((0u8, 0u8, 0u8, 255u8)),
    {
        DrawingColor::Solid(Color::new(0, 0, 0, 255))
    }
}

/// The value of an ASCII hexadecimal digit.
pub open spec fn hex_digit(u: u8) -> Option<u8> {
    if 48 <= u <= 57 {
        Some((u - 48) as u8)
    } else if 97 <= u <= 102 {
        Some((u - 87) as u8)
    } else if 65 <= u <= 70 {
        Some((u - 55) as u8)
    } else {
        None
    }
}

/// What base-16 `u8::from_str_radix` gives on the two bytes `x y`: an
/// optional leading `+`, then hexadecimal digits.
pub open spec fn radix_pair(x: u8, y: u8) -> Option<u8> {
    if x == 43 {
        hex_digit(y)
    } else {
        match (hex_digit(x), hex_digit(y)) {
            (Some(a), Some(b)) => Some((a * 16 + b) as u8),
            _ => None,
        }
    }
}

/// Outcome of reading consecutive two-byte hexadecimal fields.
pub enum PairsOutcome {
    /// A field ends inside a multi-byte character: slicing there panics.
    Panic,
    /// A field is not a number.
    Fail,
    Values(Seq<u8>),
}

/// Reads `n` two-byte fields of `b` from byte `s` on, stopping at the first
/// field that cannot be sliced or read.
pub open spec fn pairs_from(b: Seq<u8>, s: int, n: nat) -> PairsOutcome
    decreases n,
{
    if n == 0 {
        PairsOutcome::Values(seq![])
    } else if !is_char_boundary(b, s + 2) {
        PairsOutcome::Panic
    } else {
        match radix_pair(b[s], b[s + 1]) {
            None => PairsOutcome::Fail,
            Some(v) => match pairs_from(b, s + 2, (n - 1) as nat) {
                PairsOutcome::Values(vs) => PairsOutcome::Values(seq![v] + vs),
                o => o,
            },
        }
    }
}

/// Outcome of reading one colour token.
pub enum ColorOutcome {
    Panic,
    NotColor,
    Is((u8, u8, u8, u8)),
}

/// `rgba(rrggbbaa)`.
pub open spec fn rgba_outcome(b: Seq<u8>) -> ColorOutcome {
    if b.len() >= 6 && b.subrange(0, 5) == seq![114u8, 103u8, 98u8, 97u8, 40u8] && b.last() == 41
        && b.len() == 14 {
        match pairs_from(b, 5, 4) {
            PairsOutcome::Panic => ColorOutcome::Panic,
            PairsOutcome::Fail => ColorOutcome::NotColor,
            PairsOutcome::Values(v) => ColorOutcome::Is((v[0], v[1], v[2], v[3])),
        }
    } else {
        ColorOutcome::NotColor
    }
}

/// `rgb(rrggbb)`, opaque.
pub open spec fn rgb_outcome(b: Seq<u8>) -> ColorOutcome {
    if b.len() >= 5 && b.subrange(0, 4) == seq![114u8, 103u8, 98u8, 40u8] && b.last() == 41
        && b.len() == 11 {
        match pairs_from(b, 4, 3) {
            PairsOutcome::Panic => ColorOutcome::Panic,
            PairsOutcome::Fail => ColorOutcome::NotColor,
            PairsOutcome::Values(v) => ColorOutcome::Is((v[0], v[1], v[2], 255u8)),
        }
    } else {
        ColorOutcome::NotColor
    }
}

/// `#rrggbb`, opaque, or `#rrggbbaa`.
pub open spec fn hex_outcome(b: Seq<u8>) -> ColorOutcome {
    if b.len() == 7 && b[0] == 35 {
        match pairs_from(b, 1, 3) {
            PairsOutcome::Panic => ColorOutcome::Panic,
            PairsOutcome::Fail => ColorOutcome::NotColor,
            PairsOutcome::Values(v) => ColorOutcome::Is((v[0], v[1], v[2], 255u8)),
        }
    } else if b.len() == 9 && b[0] == 35 {
        match pairs_from(b, 1, 4) {
            PairsOutcome::Panic => ColorOutcome::Panic,
            PairsOutcome::Fail => ColorOutcome::NotColor,
            PairsOutcome::Values(v) => ColorOutcome::Is((v[0], v[1], v[2], v[3])),
        }
    } else {
        ColorOutcome::NotColor
    }
}

/// One token, read as `rgba(..)`, else as `rgb(..)`, else as `#..`, over
/// its UTF-8 bytes.
pub open spec fn token_outcome(t: Seq<char>) -> ColorOutcome {
    let b = encode_utf8(t);
    match rgba_outcome(b) {
        ColorOutcome::NotColor => match rgb_outcome(b) {
            ColorOutcome::NotColor => hex_outcome(b),
            o => o,
        },
        o => o,
    }
}

/// State of the tokenizer after a prefix of the input.
pub struct TokState {
    pub toks: Seq<Seq<char>>,
    pub cur: Seq<char>,
    pub depth: int,
}

pub open spec fn tok_step(st: TokState, c: char) -> TokState {
    if c == '(' {
        TokState { cur: st.cur.push(c), depth: st.depth + 1, ..st }
    } else if c == ')' {
        TokState { cur: st.cur.push(c), depth: st.depth - 1, ..st }
    } else if is_whitespace(c) && st.depth == 0 {
        if st.cur.len() > 0 {
            TokState { toks: st.toks.push(st.cur), cur: seq![], depth: st.depth }
        } else {
            st
        }
    } else {
        TokState { cur: st.cur.push(c), ..st }
    }
}

pub open spec fn tok_scan(s: Seq<char>) -> TokState
    decreases s.len(),
{
    if s.len() == 0 {
        TokState { toks: seq![], cur: seq![], depth: 0 }
    } else {
        tok_step(tok_scan(s.drop_last()), s.last())
    }
}

/// Splits at whitespace that is outside parentheses.
pub open spec fn tokenize(s: Seq<char>) -> Seq<Seq<char>> {
    let st = tok_scan(s);
    if st.cur.len() > 0 {
        st.toks.push(st.cur)
    } else {
        st.toks
    }
}

/// Outcome of reading the tokens in order.
pub enum ScanOutcome {
    Panic,
    Invalid(Seq<char>),
    Done(Seq<(u8, u8, u8, u8)>, Option<Seq<char>>),
}

/// Reads tokens `i..`: each must be a colour, except that the last of two
/// or more tokens may be an angle.
pub open spec fn scan_tokens(toks: Seq<Seq<char>>, i: int, acc: Seq<(u8, u8, u8, u8)>) -> ScanOutcome
    decreases toks.len() - i,
{
    if i < 0 || i >= toks.len() {
        ScanOutcome::Done(acc, None)
    } else {
        match token_outcome(toks[i]) {
            ColorOutcome::Panic => ScanOutcome::Panic,
            ColorOutcome::Is(c) => scan_tokens(toks, i + 1, acc.push(c)),
            ColorOutcome::NotColor => if i == toks.len() - 1 && toks.len() > 1 {
                ScanOutcome::Done(acc, Some(toks[i]))
            } else {
                ScanOutcome::Invalid(toks[i])
            },
        }
    }
}

/// Outcome of reading a colour string, up to the reading of the angle.
pub enum PartsOutcome {
    Panic,
    Error(ColorErrorView),
    Parts(Seq<(u8, u8, u8, u8)>, Option<Seq<char>>),
}

pub open spec fn parse_parts_spec(input: Seq<char>) -> PartsOutcome {
    let t = trim(input);
    if t.len() == 0 {
        PartsOutcome::Error(ColorErrorView::Empty)
    } else {
        let toks = tokenize(t);
        if toks.len() == 0 {
            PartsOutcome::Error(ColorErrorView::NoColors(t))
        } else {
            match scan_tokens(toks, 0, seq![]) {
                ScanOutcome::Panic => PartsOutcome::Panic,
                ScanOutcome::Invalid(tok) => PartsOutcome::Error(ColorErrorView::InvalidFormat(tok)),
                ScanOutcome::Done(cs, angle) => if cs.len() == 0 {
                    PartsOutcome::Error(ColorErrorView::NoColors(t))
                } else {
                    PartsOutcome::Parts(cs, angle)
                },
            }
        }
    }
}

/// `t` without a trailing `deg`.
pub open spec fn strip_deg(t: Seq<char>) -> Seq<char> {
    if t.len() >= 3 && t.subrange(t.len() - 3, t.len() as int) == seq!['d', 'e', 'g'] {
        t.subrange(0, t.len() - 3)
    } else {
        t
    }
}

pub open spec fn opt_text(o: Option<String>) -> Option<Seq<char>> {
    match o {
        Some(s) => Some(s@),
        None => None,
    }
}

pub open spec fn opt_strip_deg(o: Option<Seq<char>>) -> Option<Seq<char>> {
    match o {
        Some(t) => Some(strip_deg(t)),
        None => None,
    }
}

/// The colours of a colour string and, when its last token is not a colour,
/// that token and the text to read as its angle.
pub struct ColorParts {
    pub colors: Vec<Color>,
    pub angle_token: Option<String>,
    pub angle_text: Option<String>,
}

/// Three-way result of a reader whose input may be cut inside a character.
enum Reading<T> {
    Unsliceable,
    Rejected,
    Got(T),
}

fn hex_digit_of(u: u8) -> (res: Option<u8>)
    ensures
        res == hex_digit(u),
{
    if 48 <= u && u <= 57 {
        Some(u - 48)
    } else if 97 <= u && u <= 102 {
        Some(u - 87)
    } else if 65 <= u && u <= 70 {
        Some(u - 55)
    } else {
        None
    }
}

fn radix_pair_of(x: u8, y: u8) -> (res: Option<u8>)
    ensures
        res == radix_pair(x, y),
{
    if x == 43 {
        hex_digit_of(y)
    } else {
        match (hex_digit_of(x), hex_digit_of(y)) {
            (Some(a), Some(b)) => Some(a * 16 + b),
            _ => None,
        }
    }
}

fn read_pairs(tok: &str, b: &[u8], s: usize, n: usize) -> (res: Reading<Vec<u8>>)
    requires
        b@ == tok.spec_bytes(),
        s + 2 * n <= b.len(),
    ensures
        res matches Reading::Got(v) ==> v@.len() == n,
        match pairs_from(b@, s as int, n as nat) {
            PairsOutcome::Panic => res is Unsliceable,
            PairsOutcome::Fail => res is Rejected,
            PairsOutcome::Values(vs) => res matches Reading::Got(v) && v@ == vs,
        },
    decreases n,
{
    if n == 0 {
        return Reading::Got(Vec::new());
    }
    if !tok.is_char_boundary(s + 2) {
        return Reading::Unsliceable;
    }
    match radix_pair_of(b[s], b[s + 1]) {
        None => Reading::Rejected,
        Some(v) => match read_pairs(tok, b, s + 2, n - 1) {
            Reading::Got(mut vs) => {
                let ghost old_vs = vs@;
                vs.insert(0, v);
                assert(vs@ =~= seq![v] + old_vs);
                Reading::Got(vs)
            },
            Reading::Unsliceable => Reading::Unsliceable,
            Reading::Rejected => Reading::Rejected,
        },
    }
}

fn read_color(tok: &str) -> (res: Reading<Color>)
    ensures
        match token_outcome(tok@) {
            ColorOutcome::Panic => res is Unsliceable,
            ColorOutcome::NotColor => res is Rejected,
            ColorOutcome::Is(c) => res matches Reading::Got(col) && col@ == c,
        },
{
    let b = tok.as_bytes();
    let n = b.len();
    let ghost bs = b@;
    assert(bs == encode_utf8(tok@));
    let mut rgba_failed = true;
    if n == 14 && b[0] == 114 && b[1] == 103 && b[2] == 98 && b[3] == 97 && b[4] == 40 && b[n - 1]
        == 41 {
        assert(bs.subrange(0, 5) =~= seq![114u8, 103u8, 98u8, 97u8, 40u8]);
        match read_pairs(tok, b, 5, 4) {
            Reading::Unsliceable => {
                return Reading::Unsliceable;
            },
            Reading::Got(v) => {
                return Reading::Got(Color::new(v[0], v[1], v[2], v[3]));
            },
            Reading::Rejected => {},
        }
    } else {
        proof {
            if bs.len() >= 6 && bs.subrange(0, 5) == seq![114u8, 103u8, 98u8, 97u8, 40u8] {
                assert(bs[0] == bs.subrange(0, 5)[0]);
                assert(bs[1] == bs.subrange(0, 5)[1]);
                assert(bs[2] == bs.subrange(0, 5)[2]);
                assert(bs[3] == bs.subrange(0, 5)[3]);
                assert(bs[4] == bs.subrange(0, 5)[4]);
            }
        }
    }
    assert(rgba_outcome(bs) is NotColor);
    if n == 11 && b[0] == 114 && b[1] == 103 && b[2] == 98 && b[3] == 40 && b[n - 1] == 41 {
        assert(bs.subrange(0, 4) =~= seq![114u8, 103u8, 98u8, 40u8]);
        match read_pairs(tok, b, 4, 3) {
            Reading::Unsliceable => {
                return Reading::Unsliceable;
            },
            Reading::Got(v) => {
                return Reading::Got(Color::new(v[0], v[1], v[2], 255));
            },
            Reading::Rejected => {},
        }
    } else {
        proof {
            if bs.len() >= 5 && bs.subrange(0, 4) == seq![114u8, 103u8, 98u8, 40u8] {
                assert(bs[0] == bs.subrange(0, 4)[0]);
                assert(bs[1] == bs.subrange(0, 4)[1]);
                assert(bs[2] == bs.subrange(0, 4)[2]);
                assert(bs[3] == bs.subrange(0, 4)[3]);
            }
        }
    }
    assert(rgb_outcome(bs) is NotColor);
    if n == 7 && b[0] == 35 {
        match read_pairs(tok, b, 1, 3) {
            Reading::Unsliceable => Reading::Unsliceable,
            Reading::Got(v) => Reading::Got(Color::new(v[0], v[1], v[2], 255)),
            Reading::Rejected => Reading::Rejected,
        }
    } else if n == 9 && b[0] == 35 {
        match read_pairs(tok, b, 1, 4) {
            Reading::Unsliceable => Reading::Unsliceable,
            Reading::Got(v) => Reading::Got(Color::new(v[0], v[1], v[2], v[3])),
            Reading::Rejected => Reading::Rejected,
        }
    } else {
        Reading::Rejected
    }
}

/// The tokens of `v`, as `(start, end)` bounds of `tokenize(v)`.
fn tokenize_ranges(v: &Vec<char>) -> (res: Vec<(usize, usize)>)
    ensures
        res@.len() == tokenize(v@).len(),
        forall|k: int| 0 <= k < res@.len() ==> #[trigger] res@[k].0 <= res@[k].1 <= v@.len(),
        forall|k: int|
            0 <= k < res@.len() ==> v@.subrange(res@[k].0 as int, res@[k].1 as int)
                == #[trigger] tokenize(v@)[k],
{
    let n = v.len();
    let mut ranges: Vec<(usize, usize)> = Vec::new();
    let mut cur_start: usize = 0;
    let mut depth: i128 = 0;
    let mut i: usize = 0;
    while i < n
        invariant
            n == v@.len(),
            i <= n,
            cur_start <= i,
            -(i as int) <= depth <= i,
            ({
                let st = tok_scan(v@.subrange(0, i as int));
                &&& ranges@.len() == st.toks.len()
                &&& forall|k: int|
                    0 <= k < ranges@.len() ==> #[trigger] ranges@[k].0 <= ranges@[k].1 <= n
                &&& forall|k: int|
                    0 <= k < ranges@.len() ==> v@.subrange(ranges@[k].0 as int, ranges@[k].1 as int)
                        == #[trigger] st.toks[k]
                &&& st.cur == v@.subrange(cur_start as int, i as int)
                &&& st.depth == depth
            }),
        decreases n - i,
    {
        let ghost before = tok_scan(v@.subrange(0, i as int));
        assert(v@.subrange(0, i + 1).drop_last() =~= v@.subrange(0, i as int));
        assert(tok_scan(v@.subrange(0, i + 1)) == tok_step(before, v@[i as int]));
        let c = v[i];
        let ghost old_ranges = ranges@;
        let ghost old_start = cur_start;
        if c == '(' {
            depth = depth + 1;
        } else if c == ')' {
            depth = depth - 1;
        } else if char_is_whitespace(c) && depth == 0 {
            if cur_start < i {
                ranges.push((cur_start, i));
            }
            cur_start = i + 1;
        }
        i = i + 1;
        proof {
            let st = tok_scan(v@.subrange(0, i as int));
            if c != '(' && c != ')' && is_whitespace(c) && before.depth == 0 {
                assert(st.cur =~= v@.subrange(cur_start as int, i as int));
                if old_start < i - 1 {
                    assert(st.toks == before.toks.push(before.cur));
                    assert(ranges@ == old_ranges.push((old_start, (i - 1) as usize)));
                } else {
                    assert(st.toks == before.toks);
                    assert(ranges@ == old_ranges);
                }
            } else {
                assert(st.cur =~= v@.subrange(cur_start as int, i as int));
                assert(st.toks == before.toks);
                assert(ranges@ == old_ranges);
            }
        }
    }
    assert(v@.subrange(0, n as int) =~= v@);
    let ghost last_ranges = ranges@;
    if cur_start < n {
        ranges.push((cur_start, n));
    }
    proof {
        let st = tok_scan(v@);
        assert forall|k: int| 0 <= k < ranges@.len() implies v@.subrange(
            ranges@[k].0 as int,
            ranges@[k].1 as int,
        ) == #[trigger] tokenize(v@)[k] by {
            if k < st.toks.len() {
                assert(tokenize(v@)[k] == st.toks[k]);
            } else {
                assert(tokenize(v@)[k] == st.cur);
            }
        }
    }
    ranges
}

/// The text of an angle token, without a trailing `deg`.
fn strip_deg_of(tok: &str) -> (res: String)
    ensures
        res@ == strip_deg(tok@),
{
    let n = tok.unicode_len();
    if n >= 3 && tok.get_char(n - 3) == 'd' && tok.get_char(n - 2) == 'e' && tok.get_char(n - 1)
        == 'g' {
        assert(tok@.subrange(n - 3, n as int) =~= seq!['d', 'e', 'g']);
        tok.substring_char(0, n - 3).to_owned()
    } else {
        proof {
            if n >= 3 && tok@.subrange(n - 3, n as int) == seq!['d', 'e', 'g'] {
                assert(tok@[n - 3] == tok@.subrange(n - 3, n as int)[0]);
                assert(tok@[n - 2] == tok@.subrange(n - 3, n as int)[1]);
                assert(tok@[n - 1] == tok@.subrange(n - 3, n as int)[2]);
            }
        }
        tok.to_owned()
    }
}

/// Reads a colour string up to its angle: the colours, and the last token
/// when it is not a colour, with the text to read as its angle.
///
/// `None` where reading a two-digit field would slice the string inside a
/// multi-byte character, which string slicing refuses with a panic.
pub fn scan_color(input: &str) -> (res: Option<Result<ColorParts, ColorError>>)
    ensures
        match parse_parts_spec(input@) {
            PartsOutcome::Panic => res is None,
            PartsOutcome::Error(e) => res matches Some(Err(err)) && err@ == e,
            PartsOutcome::Parts(cs, angle) => res matches Some(Ok(p)) && colors_view(p.colors@)
                == cs && opt_text(p.angle_token) == angle && opt_text(p.angle_text)
                == opt_strip_deg(angle),
        },
{
    let all = chars_of(input);
    let (lo, hi) = trim_bounds(&all, 0, all.len());
    assert(all@.subrange(0, all@.len() as int) =~= input@);
    let t = input.substring_char(lo, hi);
    assert(t@ == trim(input@));
    if lo == hi {
        return Some(Err(ColorError::Empty));
    }
    let v = chars_of(t);
    let ranges = tokenize_ranges(&v);
    let ghost toks = tokenize(t@);
    if ranges.len() == 0 {
        return Some(Err(ColorError::NoColors(t.to_owned())));
    }
    let nt = ranges.len();
    let mut colors: Vec<Color> = Vec::new();
    assert(tokenize(v@) == toks);
    assert(colors_view(colors@) =~= seq![]);
    let mut i: usize = 0;
    while i < nt
        invariant
            nt == ranges@.len() == toks.len(),
            toks == tokenize(t@),
            t@ == trim(input@),
            t@.len() > 0,
            v@ == t@,
            i <= nt,
            forall|k: int| 0 <= k < ranges@.len() ==> #[trigger] ranges@[k].0 <= ranges@[k].1 <= v@.len(),
            forall|k: int|
                0 <= k < ranges@.len() ==> v@.subrange(ranges@[k].0 as int, ranges@[k].1 as int)
                    == #[trigger] toks[k],
            scan_tokens(toks, 0, seq![]) == scan_tokens(toks, i as int, colors_view(colors@)),
        decreases nt - i,
    {
        let (a, b) = ranges[i];
        let tok = t.substring_char(a, b);
        assert(tok@ == toks[i as int]);
        match read_color(tok) {
            Reading::Unsliceable => {
                assert(scan_tokens(toks, i as int, colors_view(colors@)) is Panic);
                return None;
            },
            Reading::Got(c) => {
                let ghost before = colors@;
                colors.push(c);
                assert(colors_view(colors@) =~= colors_view(before).push(c@));
            },
            Reading::Rejected => {
                if i == nt - 1 && nt > 1 {
                    if colors.len() == 0 {
                        return Some(Err(ColorError::NoColors(t.to_owned())));
                    }
                    let text = strip_deg_of(tok);
                    return Some(
                        Ok(ColorParts { colors, angle_token: Some(tok.to_owned()), angle_text: Some(text) }),
                    );
                } else {
                    assert(scan_tokens(toks, i as int, colors_view(colors@)) == ScanOutcome::Invalid(
                        tok@,
                    ));
                    return Some(Err(ColorError::InvalidFormat(tok.to_owned())));
                }
            },
        }
        i = i + 1;
    }
    if colors.len() == 0 {
        return Some(Err(ColorError::NoColors(t.to_owned())));
    }
    Some(Ok(ColorParts { colors, angle_token: None, angle_text: None }))
}

impl DrawingColor {
    /// Finishes reading a colour string from its scanned parts and the value
    /// read from the angle text, if there is an angle token: `angle` is
    /// `None` where that text is not a number.
    pub fn from_scan(parts: ColorParts, angle: Option<Angle>) -> (res: Result<DrawingColor, ColorError>)
        requires
            parts.colors@.len() >= 1,
        ensures
            match parts.angle_token {
                None => res matches Ok(d) && d@ == drawing_of(colors_view(parts.colors@), 0),
                Some(tok) => match angle {
                    None => res matches Err(e) && e@ == ColorErrorView::InvalidAngle(tok@),
                    Some(a) => res matches Ok(d) && d@ == drawing_of(colors_view(parts.colors@), a@),
                },
            },
    {
        match parts.angle_token {
            None => Ok(DrawingColor::from_parts(parts.colors, Angle::zero())),
            Some(tok) => match angle {
                None => Err(ColorError::InvalidAngle(tok)),
                Some(a) => Ok(DrawingColor::from_parts(parts.colors, a)),
            },
        }
    }
}

/// Whitespace around a colour string never changes how it reads.
pub proof fn lemma_parse_ignores_surrounding_whitespace(input: Seq<char>)
    ensures
        parse_parts_spec(trim(input)) == parse_parts_spec(input),
{
    lemma_trim_idempotent(input);
}

/// A colour string that scans holds at least one colour, so its parts can
/// always be finished into a drawing colour.
pub proof fn lemma_parts_nonempty(input: Seq<char>)
    ensures
        parse_parts_spec(input) matches PartsOutcome::Parts(cs, _) ==> cs.len() >= 1,
{
}

proof fn lemma_pairs_no_panic(b: Seq<u8>, s: int, n: nat)
    requires
        0 <= s,
        s + 2 * n <= b.len(),
        forall|i: int| s <= i <= b.len() ==> #[trigger] is_char_boundary(b, i),
    ensures
        pairs_from(b, s, n) !is Panic,
    decreases n,
{
    if n > 0 {
        lemma_pairs_no_panic(b, s + 2, (n - 1) as nat);
    }
}

proof fn lemma_ascii_boundaries(t: Seq<char>)
    requires
        is_ascii_chars(t),
    ensures
        forall|i: int| 0 <= i <= encode_utf8(t).len() ==> #[trigger] is_char_boundary(encode_utf8(t), i),
{
    broadcast use vstd::utf8::group_utf8_lib;

    let b = encode_utf8(t);
    vstd::utf8::is_ascii_chars_encode_utf8(t);
    assert forall|i: int| 0 <= i <= b.len() implies #[trigger] is_char_boundary(b, i) by {
        if i < b.len() {
            assert(t[i] as u8 == b[i]);
            assert((t[i] as nat) < 128);
            vstd::utf8::is_char_boundary_iff_not_is_continuation_byte(b, i);
        } else {
            vstd::utf8::is_char_boundary_start_end_of_seq(b);
        }
    }
}

/// A token of ASCII characters never cuts a character.
proof fn lemma_ascii_token_no_panic(t: Seq<char>)
    requires
        is_ascii_chars(t),
    ensures
        token_outcome(t) !is Panic,
{
    let b = encode_utf8(t);
    lemma_ascii_boundaries(t);
    if b.len() == 14 {
        lemma_pairs_no_panic(b, 5, 4);
    }
    if b.len() == 11 {
        lemma_pairs_no_panic(b, 4, 3);
    }
    if b.len() == 7 {
        lemma_pairs_no_panic(b, 1, 3);
    }
    if b.len() == 9 {
        lemma_pairs_no_panic(b, 1, 4);
    }
}

pub open spec fn all_ascii_tokens(toks: Seq<Seq<char>>) -> bool {
    forall|k: int| 0 <= k < toks.len() ==> is_ascii_chars(#[trigger] toks[k])
}

proof fn lemma_tok_scan_ascii(s: Seq<char>)
    requires
        is_ascii_chars(s),
    ensures
        all_ascii_tokens(tok_scan(s).toks),
        is_ascii_chars(tok_scan(s).cur),
    decreases s.len(),
{
    if s.len() > 0 {
        assert(is_ascii_chars(s.drop_last()));
        lemma_tok_scan_ascii(s.drop_last());
        let st = tok_scan(s.drop_last());
        let c = s.last();
        assert(is_ascii_chars(st.cur.push(c)));
        assert(all_ascii_tokens(st.toks.push(st.cur)));
    }
}

proof fn lemma_scan_no_panic(toks: Seq<Seq<char>>, i: int, acc: Seq<(u8, u8, u8, u8)>)
    requires
        all_ascii_tokens(toks),
    ensures
        scan_tokens(toks, i, acc) !is Panic,
    decreases toks.len() - i,
{
    if 0 <= i < toks.len() {
        lemma_ascii_token_no_panic(toks[i]);
        match token_outcome(toks[i]) {
            ColorOutcome::Is(c) => lemma_scan_no_panic(toks, i + 1, acc.push(c)),
            _ => {},
        }
    }
}

/// A colour string of ASCII characters never makes the reader cut a
/// character: it always scans to colours or an error.
pub proof fn lemma_ascii_never_panics(input: Seq<char>)
    requires
        is_ascii_chars(input),
    ensures
        parse_parts_spec(input) !is Panic,
{
    lemma_trim_within(input);
    let t = trim(input);
    let (a, b) = choose|a: int, b: int| 0 <= a <= b <= input.len() && trim(input) == input.subrange(a, b);
    assert(is_ascii_chars(t));
    lemma_tok_scan_ascii(t);
    let toks = tokenize(t);
    assert(all_ascii_tokens(toks));
    lemma_scan_no_panic(toks, 0, seq![]);
}

/// How many parentheses are open after `s`.
pub open spec fn paren_depth(s: Seq<char>) -> int
    decreases s.len(),
{
    if s.len() == 0 {
        0
    } else if s.last() == '(' {
        paren_depth(s.drop_last()) + 1
    } else if s.last() == ')' {
        paren_depth(s.drop_last()) - 1
    } else {
        paren_depth(s.drop_last())
    }
}

/// `s` without the whitespace that stands outside every parenthesis.
pub open spec fn without_outer_whitespace(s: Seq<char>) -> Seq<char>
    decreases s.len(),
{
    if s.len() == 0 {
        s
    } else if is_whitespace(s.last()) && paren_depth(s.drop_last()) == 0 {
        without_outer_whitespace(s.drop_last())
    } else {
        without_outer_whitespace(s.drop_last()).push(s.last())
    }
}

/// The tokens written one after the other.
pub open spec fn joined(toks: Seq<Seq<char>>) -> Seq<char>
    decreases toks.len(),
{
    if toks.len() == 0 {
        Seq::empty()
    } else {
        joined(toks.drop_last()) + toks.last()
    }
}

pub open spec fn no_empty_token(toks: Seq<Seq<char>>) -> bool {
    forall|k: int| 0 <= k < toks.len() ==> (#[trigger] toks[k]).len() > 0
}

/// Every whitespace character of `t` stands inside a parenthesis of `t`.
pub open spec fn space_only_inside(t: Seq<char>) -> bool {
    forall|i: int| 0 <= i < t.len() && is_whitespace(#[trigger] t[i]) ==> paren_depth(t.take(i)) != 0
}

pub open spec fn all_space_only_inside(toks: Seq<Seq<char>>) -> bool {
    forall|k: int| 0 <= k < toks.len() ==> space_only_inside(#[trigger] toks[k])
}

proof fn lemma_tok_scan_parts(s: Seq<char>)
    ensures
        tok_scan(s).depth == paren_depth(s),
        joined(tok_scan(s).toks) + tok_scan(s).cur == without_outer_whitespace(s),
        no_empty_token(tok_scan(s).toks),
        all_space_only_inside(tok_scan(s).toks),
        space_only_inside(tok_scan(s).cur),
        tok_scan(s).depth == paren_depth(tok_scan(s).cur),
    decreases s.len(),
{
    if s.len() == 0 {
        assert(tok_scan(s).cur =~= Seq::<char>::empty());
    } else {
        let p = s.drop_last();
        let c = s.last();
        lemma_tok_scan_parts(p);
        let st = tok_scan(p);
        let j = joined(st.toks);
        let grown = st.cur.push(c);
        assert(grown.drop_last() =~= st.cur);
        assert forall|i: int| 0 <= i < st.cur.len() implies #[trigger] grown.take(i) == st.cur.take(i) by {
            assert(grown.take(i) =~= st.cur.take(i));
        }
        assert(grown.take(st.cur.len() as int) =~= st.cur);
        if c == '(' || c == ')' {
            assert(!is_whitespace(c));
            assert(j + grown =~= (j + st.cur).push(c));
            assert(space_only_inside(grown)) by {
                assert forall|i: int| 0 <= i < grown.len() && is_whitespace(#[trigger] grown[i]) implies paren_depth(grown.take(i)) != 0 by {
                    assert(grown[i] == st.cur[i]);
                }
            }
        } else if is_whitespace(c) && st.depth == 0 {
            assert(Seq::<char>::empty().len() == 0);
            if st.cur.len() > 0 {
                assert(st.toks.push(st.cur).drop_last() =~= st.toks);
                assert(joined(st.toks.push(st.cur)) + seq![] =~= j + st.cur);
                assert(no_empty_token(st.toks.push(st.cur)));
                assert(all_space_only_inside(st.toks.push(st.cur)));
            } else {
                assert(j + st.cur =~= j);
            }
        } else {
            assert(j + grown =~= (j + st.cur).push(c));
            assert(space_only_inside(grown)) by {
                assert forall|i: int| 0 <= i < grown.len() && is_whitespace(#[trigger] grown[i]) implies paren_depth(grown.take(i)) != 0 by {
                    if i < st.cur.len() {
                        assert(grown[i] == st.cur[i]);
                    }
                }
            }
        }
    }
}

/// The tokens of a colour string are never empty, written one after the
/// other they give back the string without the whitespace outside
/// parentheses (splitting loses nothing else), and no token holds whitespace
/// outside its own parentheses (the string is split at every such run).
pub proof fn lemma_tokenize_keeps_text(s: Seq<char>)
    ensures
        no_empty_token(tokenize(s)),
        joined(tokenize(s)) == without_outer_whitespace(s),
        all_space_only_inside(tokenize(s)),
{
    lemma_tok_scan_parts(s);
    let st = tok_scan(s);
    if st.cur.len() > 0 {
        assert(st.toks.push(st.cur).drop_last() =~= st.toks);
        assert(no_empty_token(st.toks.push(st.cur)));
        assert(all_space_only_inside(st.toks.push(st.cur)));
    } else {
        assert(joined(st.toks) + st.cur =~= joined(st.toks));
    }
}

/// How the tokens of a colour string give its colours and angle token: every
/// token is a colour, in order, except that the last of two or more tokens
/// may be no colour, and is then the angle token.
pub open spec fn tokens_read_as(
    toks: Seq<Seq<char>>,
    cs: Seq<(u8, u8, u8, u8)>,
    angle: Option<Seq<char>>,
) -> bool {
    &&& forall|k: int| 0 <= k < cs.len() ==> token_outcome(#[trigger] toks[k]) == ColorOutcome::Is(cs[k])
    &&& match angle {
        None => cs.len() == toks.len(),
        Some(a) => {
            &&& toks.len() >= 2
            &&& cs.len() == toks.len() - 1
            &&& a == toks.last()
            &&& token_outcome(toks.last()) == ColorOutcome::NotColor
        },
    }
}

proof fn lemma_scan_structure(toks: Seq<Seq<char>>, i: int, acc: Seq<(u8, u8, u8, u8)>)
    requires
        0 <= i <= toks.len(),
        acc.len() == i,
        forall|k: int| 0 <= k < i ==> token_outcome(#[trigger] toks[k]) == ColorOutcome::Is(acc[k]),
    ensures
        scan_tokens(toks, i, acc) matches ScanOutcome::Done(cs, angle) ==> tokens_read_as(toks, cs, angle),
    decreases toks.len() - i,
{
    if i < toks.len() {
        match token_outcome(toks[i]) {
            ColorOutcome::Is(c) => {
                let next = acc.push(c);
                assert forall|k: int| 0 <= k < i + 1 implies token_outcome(#[trigger] toks[k])
                    == ColorOutcome::Is(next[k]) by {
                    if k < i {
                        assert(next[k] == acc[k]);
                    }
                }
                lemma_scan_structure(toks, i + 1, next);
            },
            _ => {},
        }
    }
}

/// A colour string that reads to colours (and perhaps an angle token) holds
/// at least one colour, and its tokens read as those colours in order, the
/// angle token being the last of two or more tokens, which is no colour.
pub proof fn lemma_colour_string_structure(input: Seq<char>)
    ensures
        parse_parts_spec(input) matches PartsOutcome::Parts(cs, angle) ==> cs.len() >= 1
            && tokens_read_as(tokenize(trim(input)), cs, angle),
{
    let t = trim(input);
    if t.len() > 0 {
        lemma_scan_structure(tokenize(t), 0, seq![]);
    }
}

/// Splits a colour string into its tokens: at whitespace outside
/// parentheses, dropping that whitespace.
pub fn split_tokens(input: &str) -> (res: Vec<String>)
    ensures
        res@.map_values(|t: String| t@) == tokenize(input@),
{
    let v = chars_of(input);
    let ranges = tokenize_ranges(&v);
    let ghost toks = tokenize(input@);
    let mut out: Vec<String> = Vec::new();
    let mut i: usize = 0;
    while i < ranges.len()
        invariant
            v@ == input@,
            toks == tokenize(input@),
            ranges@.len() == toks.len(),
            forall|k: int| 0 <= k < ranges@.len() ==> #[trigger] ranges@[k].0 <= ranges@[k].1 <= v@.len(),
            forall|k: int|
                0 <= k < ranges@.len() ==> v@.subrange(ranges@[k].0 as int, ranges@[k].1 as int)
                    == #[trigger] toks[k],
            i <= ranges@.len(),
            out@.len() == i,
            out@.map_values(|t: String| t@) == toks.take(i as int),
        decreases ranges@.len() - i,
    {
        let (a, b) = ranges[i];
        let tok = input.substring_char(a, b).to_owned();
        assert(tok@ == toks[i as int]);
        let ghost before = out@;
        let ghost tv = tok@;
        out.push(tok);
        let ghost ov = out@.map_values(|t: String| t@);
        assert forall|j: int| 0 <= j < i + 1 implies #[trigger] ov[j] == toks.take(i + 1)[j] by {
            if j < i {
                assert(out@[j] == before[j]);
                assert(before.map_values(|t: String| t@)[j] == toks.take(i as int)[j]);
            } else {
                assert(out@[j]@ == tv);
            }
        }
        assert(ov =~= toks.take(i + 1));
        i = i + 1;
    }
    assert(toks.take(toks.len() as int) =~= toks);
    out
}

proof fn lemma_tok_scan_concat(p: Seq<char>, b: Seq<char>)
    requires
        tok_scan(p).cur.len() == 0,
        tok_scan(p).depth == 0,
    ensures
        tok_scan(p + b) == (TokState {
            toks: tok_scan(p).toks + tok_scan(b).toks,
            cur: tok_scan(b).cur,
            depth: tok_scan(b).depth,
        }),
    decreases b.len(),
{
    if b.len() == 0 {
        assert(p + b =~= p);
        assert(tok_scan(p).toks + tok_scan(b).toks =~= tok_scan(p).toks);
        assert(tok_scan(p).cur =~= tok_scan(b).cur);
    } else {
        assert((p + b).drop_last() =~= p + b.drop_last());
        assert((p + b).last() == b.last());
        lemma_tok_scan_concat(p, b.drop_last());
        let t = tok_scan(p).toks;
        let sb = tok_scan(b.drop_last());
        assert((t + sb.toks).push(sb.cur) =~= t + sb.toks.push(sb.cur));
    }
}

proof fn lemma_tok_scan_outer_space(a: Seq<char>, w: Seq<char>)
    requires
        paren_depth(a) == 0,
        w.len() > 0,
        all_whitespace(w),
    ensures
        tok_scan(a + w) == (TokState { toks: tokenize(a), cur: seq![], depth: 0 }),
    decreases w.len(),
{
    lemma_tok_scan_parts(a);
    assert((a + w).drop_last() =~= a + w.drop_last());
    assert((a + w).last() == w.last());
    let c = w.last();
    assert(is_whitespace(w[w.len() - 1]));
    assert(c != '(' && c != ')');
    if w.len() > 1 {
        lemma_tok_scan_outer_space(a, w.drop_last());
    } else {
        assert(a + w.drop_last() =~= a);
        let st = tok_scan(a);
        if st.cur.len() == 0 {
            assert(st.cur =~= seq![]);
        }
    }
}

/// A run of whitespace outside every parenthesis ends a token: tokenizing
/// the text before it and the text after it gives the tokens of the whole.
/// For example the tokens of `rgb(ff 00 00)  #0f0` are `rgb(ff 00 00)` and
/// `#0f0`.
pub proof fn lemma_tokenize_splits_at_outer_space(a: Seq<char>, w: Seq<char>, b: Seq<char>)
    requires
        paren_depth(a) == 0,
        w.len() > 0,
        all_whitespace(w),
    ensures
        tokenize(a + w + b) == tokenize(a) + tokenize(b),
{
    lemma_tok_scan_outer_space(a, w);
    lemma_tok_scan_concat(a + w, b);
    let sb = tok_scan(b);
    if sb.cur.len() > 0 {
        assert((tokenize(a) + sb.toks).push(sb.cur) =~= tokenize(a) + sb.toks.push(sb.cur));
    }
}

} // verus!
