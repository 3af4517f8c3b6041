//! The decisions of the tray (StatusNotifierItem) adapter: where a newly
//! registered applet lives, what its status string means, which of its
//! pixmaps becomes its icon and how that pixmap is turned into RGBA, and
//! which D-Bus call a click or scroll becomes.
use vstd::prelude::*;
use crate::domain::applets::{AppletStatus, IconImage};
use crate::domain::shared::geometry::Size;
use crate::text::{chars_of, segment_is};

verus! {

broadcast use vstd::string::group_string_axioms;

/// Why the tray adapter failed.
#[derive(Debug)]
pub enum SniAdapterError {
    InitFailed(String),
    Internal(String),
}

impl SniAdapterError {
    /// The message of the error, as it is displayed.
    pub fn to_string(&self) -> (res: String)
        ensures
            res@ == match self {
                SniAdapterError::InitFailed(s) => "SNI initialization failed: "@ + s@,
                SniAdapterError::Internal(s) => "Internal SNI error: "@ + s@,
            },
    {
        let (prefix, s) = match self {
            SniAdapterError::InitFailed(s) => ("SNI initialization failed: ", s),
            SniAdapterError::Internal(s) => ("Internal SNI error: ", s),
        };
        let mut m = prefix.to_owned();
        m.append(s.as_str());
        m
    }
}

/// The meaning of an applet's `Status` property.
pub open spec fn status_of(s: Seq<char>) -> AppletStatus {
    if s == "Active"@ {
        AppletStatus::Active
    } else if s == "Passive"@ {
        AppletStatus::Passive
    } else if s == "NeedsAttention"@ {
        AppletStatus::NeedsAttention
    } else {
        AppletStatus::Unknown
    }
}

pub fn parse_status(s: &str) -> (res: AppletStatus)
    ensures
        res == status_of(s@),
{
    let v = chars_of(s);
    let n = v.len();
    if segment_is(&v, 0, n, "Active") {
        assert(v@.subrange(0, n as int) =~= s@);
        AppletStatus::Active
    } else if segment_is(&v, 0, n, "Passive") {
        assert(v@.subrange(0, n as int) =~= s@);
        AppletStatus::Passive
    } else if segment_is(&v, 0, n, "NeedsAttention") {
        assert(v@.subrange(0, n as int) =~= s@);
        AppletStatus::NeedsAttention
    } else {
        assert(v@.subrange(0, n as int) =~= s@);
        AppletStatus::Unknown
    }
}

/// Whether a registered service name is an object path.
pub open spec fn is_path(s: Seq<char>) -> bool {
    s.len() > 0 && s[0] == '/'
}

/// The bus name and object path of an applet that registered as `service`:
/// a bare bus name lives at the standard path; a path registers an object of
/// the sender (or of the path itself when the sender is unknown).
pub open spec fn registration_spec(service: Seq<char>, sender: Option<Seq<char>>) -> (Seq<char>, Seq<char>) {
    if is_path(service) {
        (
            match sender {
                Some(s) => s,
                None => service,
            },
            service,
        )
    } else {
        (service, "/StatusNotifierItem"@)
    }
}

pub open spec fn opt_str(o: Option<String>) -> Option<Seq<char>> {
    match o {
        Some(s) => Some(s@),
        None => None,
    }
}

pub fn registration_target(service: &str, sender: Option<String>) -> (res: (String, String))
    ensures
        (res.0@, res.1@) == registration_spec(service@, opt_str(sender)),
{
    let slash = service.unicode_len() > 0 && service.get_char(0) == '/';
    if slash {
        let dest = match sender {
            Some(s) => s,
            None => service.to_owned(),
        };
        (dest, service.to_owned())
    } else {
        (service.to_owned(), "/StatusNotifierItem".to_owned())
    }
}

/// The key of an applet: its bus name followed by its object path.
pub fn applet_key(dest: &str, path: &str) -> (res: String)
    ensures
        res@ == dest@ + path@,
{
    let mut k = dest.to_owned();
    k.append(path);
    k
}

/// A call that a tray action becomes.
#[derive(Debug, Clone, Copy, PartialEq, Eq, Structural)]
pub enum SniAction {
    /// `ContextMenu(0, 0)`, and `Activate(0, 0)` if that fails.
    Primary,
    /// `Activate(0, 0)`.
    Activate,
    /// `SecondaryActivate(0, 0)`.
    SecondaryActivate,
    /// `ContextMenu(0, 0)`.
    ContextMenu,
    /// `Scroll(delta, "vertical" or "horizontal")`.
    Scroll { delta: i32, vertical: bool },
}

pub open spec fn action_of(a: Seq<char>) -> Option<SniAction> {
    if a == "Primary"@ {
        Some(SniAction::Primary)
    } else if a == "Activate"@ {
        Some(SniAction::Activate)
    } else if a == "SecondaryActivate"@ {
        Some(SniAction::SecondaryActivate)
    } else if a == "ContextMenu"@ {
        Some(SniAction::ContextMenu)
    } else if a == "ScrollUp"@ {
        Some(SniAction::Scroll { delta: -1i32, vertical: true })
    } else if a == "ScrollDown"@ {
        Some(SniAction::Scroll { delta: 1i32, vertical: true })
    } else if a == "ScrollLeft"@ {
        Some(SniAction::Scroll { delta: -1i32, vertical: false })
    } else if a == "ScrollRight"@ {
        Some(SniAction::Scroll { delta: 1i32, vertical: false })
    } else {
        None
    }
}

/// The call for a named action; `None` for an action the tray ignores.
pub fn sni_action(action: &str) -> (res: Option<SniAction>)
    ensures
        res == action_of(action@),
{
    let v = chars_of(action);
    let n = v.len();
    assert(v@.subrange(0, n as int) =~= action@);
    if segment_is(&v, 0, n, "Primary") {
        Some(SniAction::Primary)
    } else if segment_is(&v, 0, n, "Activate") {
        Some(SniAction::Activate)
    } else if segment_is(&v, 0, n, "SecondaryActivate") {
        Some(SniAction::SecondaryActivate)
    } else if segment_is(&v, 0, n, "ContextMenu") {
        Some(SniAction::ContextMenu)
    } else if segment_is(&v, 0, n, "ScrollUp") {
        Some(SniAction::Scroll { delta: -1, vertical: true })
    } else if segment_is(&v, 0, n, "ScrollDown") {
        Some(SniAction::Scroll { delta: 1, vertical: true })
    } else if segment_is(&v, 0, n, "ScrollLeft") {
        Some(SniAction::Scroll { delta: -1, vertical: false })
    } else if segment_is(&v, 0, n, "ScrollRight") {
        Some(SniAction::Scroll { delta: 1, vertical: false })
    } else {
        None
    }
}

/// The icon size the tray aims for: 24 logical pixels at scale 3.
pub const TARGET_ICON_SIZE: i32 = 72;

/// How far a pixmap width is from the target size.
pub open spec fn width_distance(w: i32) -> int {
    if w >= TARGET_ICON_SIZE {
        w - TARGET_ICON_SIZE
    } else {
        TARGET_ICON_SIZE - w
    }
}

/// Widths for which the distance can be computed in 32 bits.
pub open spec fn width_in_range(w: i32) -> bool {
    w >= i32::MIN + TARGET_ICON_SIZE + 1
}

/// The pixmap the tray uses: the first of those closest to the target size,
/// among those closer than `i32::MAX`.
pub open spec fn is_best_pixmap(ws: Seq<i32>, i: int) -> bool {
    &&& 0 <= i < ws.len()
    &&& width_distance(ws[i]) < i32::MAX
    &&& forall|j: int| 0 <= j < i ==> width_distance(#[trigger] ws[j]) > width_distance(ws[i])
    &&& forall|j: int| 0 <= j < ws.len() ==> width_distance(#[trigger] ws[j]) >= width_distance(ws[i])
}

pub open spec fn pixmap_widths(ps: Seq<(i32, i32, Vec<u8>)>) -> Seq<i32> {
    ps.map_values(|p: (i32, i32, Vec<u8>)| p.0)
}

/// Index of the pixmap to use, if any.
pub fn best_pixmap(ps: &Vec<(i32, i32, Vec<u8>)>) -> (res: Option<usize>)
    requires
        forall|j: int| 0 <= j < ps@.len() ==> width_in_range(#[trigger] ps@[j].0),
    ensures
        match res {
            Some(i) => is_best_pixmap(pixmap_widths(ps@), i as int),
            None => forall|j: int|
                0 <= j < ps@.len() ==> width_distance(#[trigger] ps@[j].0) >= i32::MAX,
        },
{
    let ghost ws = pixmap_widths(ps@);
    let mut best: Option<usize> = None;
    let mut best_diff: i32 = i32::MAX;
    let mut i: usize = 0;
    while i < ps.len()
        invariant
            ws == pixmap_widths(ps@),
            i <= ps@.len(),
            forall|j: int| 0 <= j < ps@.len() ==> width_in_range(#[trigger] ps@[j].0),
            forall|j: int| 0 <= j < i ==> width_distance(#[trigger] ws[j]) >= best_diff,
            match best {
                Some(b) => b < i && best_diff < i32::MAX && best_diff == width_distance(ws[b as int]) && forall|j: int|
                    0 <= j < b ==> width_distance(#[trigger] ws[j]) > best_diff,
                None => best_diff == i32::MAX,
            },
        decreases ps@.len() - i,
    {
        let w = ps[i].0;
        assert(ws[i as int] == w);
        let d = if w >= TARGET_ICON_SIZE {
            w - TARGET_ICON_SIZE
        } else {
            TARGET_ICON_SIZE - w
        };
        if d < best_diff {
            best_diff = d;
            best = Some(i);
        }
        i = i + 1;
    }
    proof {
        assert forall|j: int| 0 <= j < ps@.len() implies width_distance(#[trigger] ps@[j].0)
            >= best_diff by {
            assert(ws[j] == ps@[j].0);
        }
    }
    best
}

/// Where each RGBA byte comes from in an ARGB pixel.
pub open spec fn argb_source(i: int) -> int {
    if i % 4 == 3 {
        i - 3
    } else {
        i + 1
    }
}

/// ARGB pixels turned into RGBA; trailing bytes short of a pixel are dropped.
pub fn argb_to_rgba(data: &Vec<u8>) -> (res: Vec<u8>)
    ensures
        res@.len() == data@.len() - data@.len() % 4,
        forall|i: int| 0 <= i < res@.len() ==> #[trigger] res@[i] == data@[argb_source(i)],
{
    let n = data.len();
    let mut out: Vec<u8> = Vec::new();
    let mut i: usize = 0;
    while n - i >= 4
        invariant
            n == data@.len(),
            i % 4 == 0,
            i <= n,
            out@.len() == i,
            forall|k: int| 0 <= k < out@.len() ==> #[trigger] out@[k] == data@[argb_source(k)],
        decreases n - i,
    {
        let a = data[i];
        let r = data[i + 1];
        let g = data[i + 2];
        let b = data[i + 3];
        out.push(r);
        out.push(g);
        out.push(b);
        out.push(a);
        i = i + 4;
    }
    assert(i == n - n % 4);
    out
}

/// Whether a pixmap's byte count can be computed in 32 bits.
pub open spec fn pixmap_size_in_range(w: i32, h: i32) -> bool {
    (w as u32) * (h as u32) * 4 <= u32::MAX
}

/// The icon of a `w` by `h` ARGB pixmap, if it holds exactly that many pixels.
pub fn icon_from_pixmap(w: i32, h: i32, data: &Vec<u8>) -> (res: Option<IconImage>)
    requires
        pixmap_size_in_range(w, h),
    ensures
        match res {
            Some(img) => {
                &&& data@.len() == (w as u32) * (h as u32) * 4
                &&& img.spec_size() == (w as u32, h as u32)
                &&& img.spec_data().len() == data@.len()
                &&& forall|i: int|
                    0 <= i < data@.len() ==> #[trigger] img.spec_data()[i] == data@[argb_source(i)]
            },
            None => data@.len() != (w as u32) * (h as u32) * 4,
        },
{
    let wu = w as u32;
    let hu = h as u32;
    let expected = wu * hu * 4;
    if data.len() == expected as usize {
        let rgba = argb_to_rgba(data);
        Some(IconImage::new(rgba, Size::new(wu, hu)))
    } else {
        None
    }
}

/// What the tray makes of an applet's pixmaps: the icon of the best pixmap
/// when its byte count matches its size, `None` when there is no best
/// pixmap or its byte count does not match.
pub open spec fn icon_of_best(ps: Seq<(i32, i32, Vec<u8>)>, res: Option<IconImage>) -> bool {
    match res {
        Some(img) => exists|j: int|
            #![trigger ps[j]]
            is_best_pixmap(pixmap_widths(ps), j) && {
                let (w, h, data) = ps[j];
                &&& data@.len() == (w as u32) * (h as u32) * 4
                &&& img.spec_size() == (w as u32, h as u32)
                &&& img.spec_data().len() == data@.len()
                &&& forall|i: int|
                    0 <= i < data@.len() ==> #[trigger] img.spec_data()[i] == data@[argb_source(i)]
            },
        None => forall|j: int|
            #![trigger ps[j]]
            is_best_pixmap(pixmap_widths(ps), j) ==> ps[j].2@.len() != (ps[j].0 as u32) * (
            ps[j].1 as u32) * 4,
    }
}

/// The icon of an applet's pixmaps: the best pixmap, when its byte count
/// matches its size; `None` when there is no usable pixmap or it does not.
pub fn icon_from_pixmaps(ps: &Vec<(i32, i32, Vec<u8>)>) -> (res: Option<IconImage>)
    requires
        forall|j: int| 0 <= j < ps@.len() ==> width_in_range(#[trigger] ps@[j].0),
        forall|j: int|
            #![trigger ps@[j]]
            is_best_pixmap(pixmap_widths(ps@), j) ==> pixmap_size_in_range(ps@[j].0, ps@[j].1),
    ensures
        icon_of_best(ps@, res),
{
    match best_pixmap(ps) {
        None => {
            proof {
                assert forall|j: int|
                    #![trigger ps@[j]]
                    is_best_pixmap(pixmap_widths(ps@), j) implies ps@[j].2@.len() != (ps@[j].0 as u32)
                    * (ps@[j].1 as u32) * 4 by {
                    assert(pixmap_widths(ps@)[j] == ps@[j].0);
                }
            }
            None
        },
        Some(i) => {
            let p = &ps[i];
            let r = icon_from_pixmap(p.0, p.1, &p.2);
            proof {
                assert forall|j: int|
                    #![trigger ps@[j]]
                    is_best_pixmap(pixmap_widths(ps@), j) implies j == i by {
                    if j < i {
                        assert(pixmap_widths(ps@)[j] == ps@[j].0);
                    } else if j > i {
                        assert(pixmap_widths(ps@)[i as int] == ps@[i as int].0);
                    }
                }
            }
            r
        },
    }
}

/// Whether the tray can work on these pixmaps without overflow: every
/// width's distance to the target size, and the best pixmap's byte count,
/// fit in 32 bits.
pub open spec fn pixmaps_usable(ps: Seq<(i32, i32, Vec<u8>)>) -> bool {
    &&& forall|j: int| 0 <= j < ps.len() ==> width_in_range(#[trigger] ps[j].0)
    &&& forall|j: int|
        #![trigger ps[j]]
        is_best_pixmap(pixmap_widths(ps), j) ==> pixmap_size_in_range(ps[j].0, ps[j].1)
}

/// The icon of an applet's pixmaps, for any pixmaps: as
/// [`icon_from_pixmaps`] where the sizes fit in 32 bits, `None` where they
/// do not.
pub fn applet_icon(ps: &Vec<(i32, i32, Vec<u8>)>) -> (res: Option<IconImage>)
    ensures
        pixmaps_usable(ps@) ==> icon_of_best(ps@, res),
        !pixmaps_usable(ps@) ==> res is None,
{
    let mut k: usize = 0;
    while k < ps.len()
        invariant
            k <= ps@.len(),
            forall|j: int| 0 <= j < k ==> width_in_range(#[trigger] ps@[j].0),
        decreases ps@.len() - k,
    {
        if ps[k].0 < i32::MIN + TARGET_ICON_SIZE + 1 {
            return None;
        }
        k = k + 1;
    }
    if let Some(i) = best_pixmap(ps) {
        let w = ps[i].0 as u32;
        let h = ps[i].1 as u32;
        let fits = match w.checked_mul(h) {
            Some(a) => a.checked_mul(4).is_some(),
            None => false,
        };
        proof {
            assert forall|j: int|
                #![trigger ps@[j]]
                is_best_pixmap(pixmap_widths(ps@), j) implies j == i by {
                if j < i {
                    assert(pixmap_widths(ps@)[j] == ps@[j].0);
                } else if j > i {
                    assert(pixmap_widths(ps@)[i as int] == ps@[i as int].0);
                }
            }
            assert(ps@[i as int] == ps@[i as int]);
        }
        if !fits {
            assert(!pixmap_size_in_range(ps@[i as int].0, ps@[i as int].1));
            return None;
        }
    }
    icon_from_pixmaps(ps)
}

} // verus!
