use vstd::prelude::*;
use crate::domain::events::{EventView, WindowAddress, WindowManagerEvent, WindowTitle};
use crate::domain::workspace::{
    Monitor, MonitorName, MonitorView, Workspace, WorkspaceId, WorkspaceName, WorkspaceView,
    lemma_name_lt_irreflexive, lemma_name_lt_total, lemma_name_lt_transitive, name_lt,
};
use crate::domain::signals::{
    HyprlandState, HyprlandStateView, apply_event_spec, monitor_names_distinct, monitors_sorted,
    state_consistent,
};
use crate::application::hyprland::{first_from, lemma_first_from_found};
use std::collections::BTreeMap;
use crate::text::{
    chars_of, find_char, find_char_in, find_pair, find_pair_in, parse_i32_in, parse_i32_spec,
    segment_is, trim, trim_bounds, trim_start, trim_end, lemma_trim_idempotent, all_whitespace, lemma_trim_padding,
    lemma_find_pair_from_bounds, is_whitespace, find_pair_from, find_char_from,
};

verus! {

broadcast use vstd::string::group_string_axioms;

/// `p` split at its first comma.
pub open spec fn split_comma(p: Seq<char>) -> Option<(Seq<char>, Seq<char>)> {
    match find_char(p, ',') {
        Some(c) => Some((p.subrange(0, c), p.subrange(c + 1, p.len() as int))),
        None => None,
    }
}

/// `p` split in three at its first two commas (what `splitn(3, ',')` gives
/// when it yields three parts).
pub open spec fn split_three(p: Seq<char>) -> Option<(Seq<char>, Seq<char>, Seq<char>)> {
    match split_comma(p) {
        Some((a, rest)) => match split_comma(rest) {
            Some((b, c)) => Some((a, b, c)),
            None => None,
        },
        None => None,
    }
}

/// An `<id>,<name>` payload.
pub open spec fn id_and_text(p: Seq<char>) -> Option<(i32, Seq<char>)> {
    match split_comma(p) {
        Some((id_s, name)) => match parse_i32_spec(id_s) {
            Some(id) => Some((id, name)),
            None => None,
        },
        None => None,
    }
}

/// The event a payload describes, given the event's name.
pub open spec fn event_of(kind: Seq<char>, p: Seq<char>) -> Option<EventView> {
    if kind == "workspacev2"@ {
        match id_and_text(p) {
            Some((id, name)) => Some(EventView::WorkspaceActivated { id, name }),
            None => None,
        }
    } else if kind == "focusedmonv2"@ {
        match split_comma(p) {
            Some((mon, id_s)) => match parse_i32_spec(id_s) {
                Some(id) => Some(EventView::MonitorFocused { monitor_name: mon, workspace_id: id }),
                None => None,
            },
            None => None,
        }
    } else if kind == "createworkspacev2"@ {
        match id_and_text(p) {
            Some((id, name)) => Some(EventView::WorkspaceCreated { id, name }),
            None => None,
        }
    } else if kind == "destroyworkspacev2"@ {
        match id_and_text(p) {
            Some((id, name)) => Some(EventView::WorkspaceDestroyed { id, name }),
            None => None,
        }
    } else if kind == "moveworkspacev2"@ {
        match split_three(p) {
            Some((id_s, name, mon)) => match parse_i32_spec(id_s) {
                Some(id) => Some(EventView::WorkspaceMoved { id, name, monitor_name: mon }),
                None => None,
            },
            None => None,
        }
    } else if kind == "renameworkspace"@ {
        match id_and_text(p) {
            Some((id, name)) => Some(EventView::WorkspaceRenamed { id, new_name: name }),
            None => None,
        }
    } else if kind == "activespecialv2"@ {
        match split_three(p) {
            Some((id_s, name, mon)) => {
                let id = match parse_i32_spec(id_s) {
                    Some(v) => if v == 0 {
                        None
                    } else {
                        Some(v)
                    },
                    None => None,
                };
                Some(
                    EventView::SpecialWorkspaceActivated {
                        id,
                        name: if id is None || name.len() == 0 {
                            None
                        } else {
                            Some(name)
                        },
                        monitor_name: mon,
                    },
                )
            },
            None => None,
        }
    } else if kind == "activewindowv2"@ {
        Some(EventView::ActiveWindowChanged { address: p })
    } else if kind == "windowtitlev2"@ {
        match split_comma(p) {
            Some((addr, title)) => Some(EventView::WindowTitleChanged { address: addr, title }),
            None => None,
        }
    } else {
        None
    }
}

/// The event a line of Hyprland's event socket announces: the trimmed line
/// is `<name>>><payload>`, split at the first `>>`.
pub open spec fn parse_event_spec(line: Seq<char>) -> Option<EventView> {
    let t = trim(line);
    match find_pair(t, '>', '>') {
        Some(k) => event_of(t.subrange(0, k), t.subrange(k + 2, t.len() as int)),
        None => None,
    }
}

/// The pure logic of the Hyprland adapter.
pub struct HyprlandAdapter;

/// The view of an optional event.
pub open spec fn opt_event_view(e: Option<WindowManagerEvent>) -> Option<EventView> {
    match e {
        Some(ev) => Some(ev@),
        None => None,
    }
}

impl HyprlandAdapter {
    /// Parses one line of Hyprland's event socket (`name>>payload`).
    pub fn parse_event(raw_line: &str) -> (res: Option<WindowManagerEvent>)
        ensures
            opt_event_view(res) == parse_event_spec(raw_line@),
    {
        let v = chars_of(raw_line);
        let n = v.len();
        let (lo, hi) = trim_bounds(&v, 0, n);
        let ghost t = raw_line@.subrange(lo as int, hi as int);
        assert(v@.subrange(0, n as int) =~= raw_line@);
        assert(t == trim(raw_line@));
        let k = match find_pair_in(&v, '>', '>', lo, hi) {
            Some(k) => k,
            None => {
                return None;
            },
        };
        let ps = k + 2;
        let ghost kind = t.subrange(0, k - lo);
        let ghost p = t.subrange(k - lo + 2, t.len() as int);
        assert(kind =~= v@.subrange(lo as int, k as int));
        assert(p =~= v@.subrange(ps as int, hi as int));
        if segment_is(&v, lo, k, "workspacev2") {
            match Self::id_and_text_in(raw_line, &v, ps, hi) {
                Some((id, name)) => Some(WindowManagerEvent::WorkspaceActivated { id, name }),
                None => None,
            }
        } else if segment_is(&v, lo, k, "focusedmonv2") {
            match find_char_in(&v, ',', ps, hi) {
                Some(c) => {
                    assert(p.subrange(0, c - ps) =~= v@.subrange(ps as int, c as int));
                    assert(p.subrange(c - ps + 1, p.len() as int) =~= v@.subrange(
                        c + 1,
                        hi as int,
                    ));
                    match parse_i32_in(&v, c + 1, hi) {
                        Some(id) => Some(
                            WindowManagerEvent::MonitorFocused {
                                monitor_name: MonitorName::new(raw_line.substring_char(ps, c)),
                                workspace_id: WorkspaceId::new(id),
                            },
                        ),
                        None => None,
                    }
                },
                None => None,
            }
        } else if segment_is(&v, lo, k, "createworkspacev2") {
            match Self::id_and_text_in(raw_line, &v, ps, hi) {
                Some((id, name)) => Some(WindowManagerEvent::WorkspaceCreated { id, name }),
                None => None,
            }
        } else if segment_is(&v, lo, k, "destroyworkspacev2") {
            match Self::id_and_text_in(raw_line, &v, ps, hi) {
                Some((id, name)) => Some(WindowManagerEvent::WorkspaceDestroyed { id, name }),
                None => None,
            }
        } else if segment_is(&v, lo, k, "moveworkspacev2") {
            match Self::split_three_in(&v, ps, hi) {
                Some((c1, c2)) => match parse_i32_in(&v, ps, c1) {
                    Some(id) => Some(
                        WindowManagerEvent::WorkspaceMoved {
                            id: WorkspaceId::new(id),
                            name: WorkspaceName::new(raw_line.substring_char(c1 + 1, c2)),
                            monitor_name: MonitorName::new(raw_line.substring_char(c2 + 1, hi)),
                        },
                    ),
                    None => None,
                },
                None => None,
            }
        } else if segment_is(&v, lo, k, "renameworkspace") {
            match Self::id_and_text_in(raw_line, &v, ps, hi) {
                Some((id, name)) => Some(WindowManagerEvent::WorkspaceRenamed { id, new_name: name }),
                None => None,
            }
        } else if segment_is(&v, lo, k, "activespecialv2") {
            match Self::split_three_in(&v, ps, hi) {
                Some((c1, c2)) => {
                    let id = match parse_i32_in(&v, ps, c1) {
                        Some(val) => if val == 0 {
                            None
                        } else {
                            Some(WorkspaceId::new(val))
                        },
                        None => None,
                    };
                    let name = if id.is_none() || c2 == c1 + 1 {
                        None
                    } else {
                        Some(WorkspaceName::new(raw_line.substring_char(c1 + 1, c2)))
                    };
                    Some(
                        WindowManagerEvent::SpecialWorkspaceActivated {
                            id,
                            name,
                            monitor_name: MonitorName::new(raw_line.substring_char(c2 + 1, hi)),
                        },
                    )
                },
                None => None,
            }
        } else if segment_is(&v, lo, k, "activewindowv2") {
            Some(
                WindowManagerEvent::ActiveWindowChanged {
                    address: WindowAddress::new(raw_line.substring_char(ps, hi)),
                },
            )
        } else if segment_is(&v, lo, k, "windowtitlev2") {
            match find_char_in(&v, ',', ps, hi) {
                Some(c) => {
                    assert(p.subrange(0, c - ps) =~= v@.subrange(ps as int, c as int));
                    assert(p.subrange(c - ps + 1, p.len() as int) =~= v@.subrange(
                        c + 1,
                        hi as int,
                    ));
                    Some(
                        WindowManagerEvent::WindowTitleChanged {
                            address: WindowAddress::new(raw_line.substring_char(ps, c)),
                            title: WindowTitle::new(raw_line.substring_char(c + 1, hi)),
                        },
                    )
                },
                None => None,
            }
        } else {
            None
        }
    }

    /// Splits `v[from..to]` as `id_and_text` does and builds the parts.
    fn id_and_text_in(line: &str, v: &Vec<char>, from: usize, to: usize) -> (res: Option<
        (WorkspaceId, WorkspaceName),
    >)
        requires
            v@ == line@,
            from <= to <= v@.len(),
        ensures
            match id_and_text(v@.subrange(from as int, to as int)) {
                Some((id, name)) => res matches Some((i, n)) && i@ == id && n@ == name,
                None => res is None,
            },
    {
        let ghost p = v@.subrange(from as int, to as int);
        match find_char_in(v, ',', from, to) {
            Some(c) => {
                assert(p.subrange(0, c - from) =~= v@.subrange(from as int, c as int));
                assert(p.subrange(c - from + 1, p.len() as int) =~= v@.subrange(
                    c + 1,
                    to as int,
                ));
                match parse_i32_in(v, from, c) {
                    Some(id) => Some(
                        (WorkspaceId::new(id), WorkspaceName::new(line.substring_char(c + 1, to))),
                    ),
                    None => None,
                }
            },
            None => None,
        }
    }

    /// Positions of the first two commas of `v[from..to]`, as `split_three` uses them.
    fn split_three_in(v: &Vec<char>, from: usize, to: usize) -> (res: Option<(usize, usize)>)
        requires
            from <= to <= v@.len(),
        ensures
            match split_three(v@.subrange(from as int, to as int)) {
                Some((a, b, c)) => res matches Some((c1, c2)) && from <= c1 < c2 < to && a
                    == v@.subrange(from as int, c1 as int) && b == v@.subrange(c1 + 1, c2 as int)
                    && c == v@.subrange(c2 + 1, to as int),
                None => res is None,
            },
    {
        let ghost p = v@.subrange(from as int, to as int);
        match find_char_in(v, ',', from, to) {
            Some(c1) => {
                let ghost rest = p.subrange(c1 - from + 1, p.len() as int);
                assert(p.subrange(0, c1 - from) =~= v@.subrange(from as int, c1 as int));
                assert(rest =~= v@.subrange(c1 + 1, to as int));
                match find_char_in(v, ',', c1 + 1, to) {
                    Some(c2) => {
                        assert(rest.subrange(0, c2 - c1 - 1) =~= v@.subrange(
                            c1 + 1,
                            c2 as int,
                        ));
                        assert(rest.subrange(c2 - c1 - 1 + 1, rest.len() as int) =~= v@.subrange(
                            c2 + 1,
                            to as int,
                        ));
                        Some((c1, c2))
                    },
                    None => None,
                }
            },
            None => None,
        }
    }
}

/// A workspace as `hyprctl -j workspaces` lists it.
pub struct HyprWorkspaceDto {
    pub id: i32,
    pub name: String,
    pub monitor: String,
}

pub open spec fn workspace_dto_view(d: HyprWorkspaceDto) -> WorkspaceView {
    WorkspaceView { id: d.id, name: d.name@, monitor: Some(d.monitor@) }
}

impl HyprWorkspaceDto {
    pub fn into_domain(self) -> (res: Workspace)
        ensures
            res@ == workspace_dto_view(self),
    {
        Workspace::new(
            WorkspaceId::new(self.id),
            WorkspaceName::new(self.name.as_str()),
            Some(MonitorName::new(self.monitor.as_str())),
        )
    }
}

/// A monitor as `hyprctl -j monitors` lists it; a special workspace id of 0
/// means none.
pub struct HyprMonitorDto {
    pub name: String,
    pub active_workspace: i32,
    pub special_workspace: i32,
    pub focused: bool,
}

pub open spec fn monitor_dto_view(d: HyprMonitorDto) -> MonitorView {
    MonitorView {
        name: d.name@,
        active: d.active_workspace,
        special: if d.special_workspace != 0 {
            Some(d.special_workspace)
        } else {
            None
        },
    }
}

impl HyprMonitorDto {
    /// The monitor, and whether it has focus.
    pub fn into_domain(self) -> (res: (Monitor, bool))
        ensures
            res.0@ == monitor_dto_view(self),
            res.1 == self.focused,
    {
        let special = if self.special_workspace != 0 {
            Some(WorkspaceId::new(self.special_workspace))
        } else {
            None
        };
        let monitor = Monitor::new(
            MonitorName::new(self.name.as_str()),
            WorkspaceId::new(self.active_workspace),
            special,
        );
        (monitor, self.focused)
    }
}

pub open spec fn workspace_dtos_view(s: Seq<HyprWorkspaceDto>) -> Seq<WorkspaceView> {
    s.map_values(|d: HyprWorkspaceDto| workspace_dto_view(d))
}

pub open spec fn monitor_dtos_view(s: Seq<HyprMonitorDto>) -> Seq<MonitorView> {
    s.map_values(|d: HyprMonitorDto| monitor_dto_view(d))
}

/// Workspaces by id; a later entry with the same id replaces an earlier one.
pub open spec fn workspaces_by_id(ws: Seq<WorkspaceView>) -> Map<i32, WorkspaceView>
    decreases ws.len(),
{
    if ws.len() == 0 {
        Map::empty()
    } else {
        workspaces_by_id(ws.drop_last()).insert(ws.last().id, ws.last())
    }
}

pub open spec fn named(name: Seq<char>) -> spec_fn(MonitorView) -> bool {
    |m: MonitorView| m.name == name
}

pub open spec fn sorts_after(name: Seq<char>) -> spec_fn(MonitorView) -> bool {
    |m: MonitorView| name_lt(name, m.name)
}

/// Where a monitor of a new name goes: before the first monitor whose name
/// sorts after its own, else at the end.
pub open spec fn insert_index(ms: Seq<MonitorView>, name: Seq<char>) -> int {
    match first_from(ms, sorts_after(name), 0) {
        Some(k) => k,
        None => ms.len() as int,
    }
}

/// Adds a monitor: it replaces the one of the same name in place, or goes
/// where its name sorts.
pub open spec fn upsert_monitor(ms: Seq<MonitorView>, m: MonitorView) -> Seq<MonitorView> {
    match first_from(ms, named(m.name), 0) {
        Some(i) => ms.update(i, m),
        None => ms.insert(insert_index(ms, m.name), m),
    }
}

/// Monitors one per name, in the order of their names, each as its last
/// entry describes it.
pub open spec fn monitors_by_name(ms: Seq<MonitorView>) -> Seq<MonitorView>
    decreases ms.len(),
{
    if ms.len() == 0 {
        Seq::empty()
    } else {
        upsert_monitor(monitors_by_name(ms.drop_last()), ms.last())
    }
}

/// Name of the last monitor listed as focused.
pub open spec fn last_focused(ms: Seq<HyprMonitorDto>) -> Option<Seq<char>>
    decreases ms.len(),
{
    if ms.len() == 0 {
        None
    } else if ms.last().focused {
        Some(ms.last().name@)
    } else {
        last_focused(ms.drop_last())
    }
}

/// Adding a monitor keeps the monitors one per name and in name order.
pub proof fn lemma_upsert_keeps_order(ms: Seq<MonitorView>, m: MonitorView)
    requires
        monitor_names_distinct(ms),
        monitors_sorted(ms),
    ensures
        monitor_names_distinct(upsert_monitor(ms, m)),
        monitors_sorted(upsert_monitor(ms, m)),
{
    lemma_first_from_found(ms, named(m.name), 0);
    let r = upsert_monitor(ms, m);
    match first_from(ms, named(m.name), 0) {
        Some(i) => {
            assert forall|a: int, b: int| 0 <= a < b < r.len() implies name_lt(
                #[trigger] r[a].name,
                #[trigger] r[b].name,
            ) by {
                assert(ms[a].name == r[a].name);
                assert(ms[b].name == r[b].name);
            }
        },
        None => {
            lemma_first_from_found(ms, sorts_after(m.name), 0);
            let k = insert_index(ms, m.name);
            assert forall|j: int| 0 <= j < k implies name_lt(#[trigger] ms[j].name, m.name) by {
                assert(!sorts_after(m.name)(ms[j]));
                assert(!named(m.name)(ms[j]));
                lemma_name_lt_total(ms[j].name, m.name);
            }
            assert forall|j: int| k <= j < ms.len() implies name_lt(m.name, #[trigger] ms[j].name) by {
                if j > k {
                    lemma_name_lt_transitive(m.name, ms[k].name, ms[j].name);
                }
            }
            assert forall|a: int, b: int| 0 <= a < b < r.len() implies name_lt(
                #[trigger] r[a].name,
                #[trigger] r[b].name,
            ) by {
                if b < k {
                    assert(r[a] == ms[a] && r[b] == ms[b]);
                } else if b == k {
                    assert(r[a] == ms[a]);
                } else if a < k {
                    assert(r[a] == ms[a] && r[b] == ms[b - 1]);
                    lemma_name_lt_transitive(ms[a].name, m.name, ms[b - 1].name);
                } else if a == k {
                    assert(r[b] == ms[b - 1]);
                } else {
                    assert(r[a] == ms[a - 1] && r[b] == ms[b - 1]);
                }
            }
        },
    }
    assert forall|a: int, b: int| 0 <= a < r.len() && 0 <= b < r.len() && a != b implies #[trigger] r[a].name
        != #[trigger] r[b].name by {
        lemma_name_lt_irreflexive(r[a].name);
        if a < b {
            assert(name_lt(r[a].name, r[b].name));
        } else {
            assert(name_lt(r[b].name, r[a].name));
        }
    }
}

fn insert_index_of(ms: &Vec<Monitor>, name: &MonitorName) -> (res: usize)
    ensures
        res as int == insert_index(ms@.map_values(|m: Monitor| m@), name@),
        res <= ms@.len(),
{
    let ghost v = ms@.map_values(|m: Monitor| m@);
    let mut i: usize = 0;
    while i < ms.len()
        invariant
            v == ms@.map_values(|m: Monitor| m@),
            i <= ms@.len(),
            first_from(v, sorts_after(name@), 0) == first_from(v, sorts_after(name@), i as int),
        decreases ms@.len() - i,
    {
        if name.precedes(ms[i].name()) {
            return i;
        }
        i = i + 1;
    }
    ms.len()
}

fn index_of_monitor(ms: &Vec<Monitor>, name: &MonitorName) -> (res: Option<usize>)
    ensures
        crate::application::hyprland::opt_index(res) == first_from(
            ms@.map_values(|m: Monitor| m@),
            named(name@),
            0,
        ),
{
    let ghost v = ms@.map_values(|m: Monitor| m@);
    let mut i: usize = 0;
    while i < ms.len()
        invariant
            v == ms@.map_values(|m: Monitor| m@),
            i <= ms@.len(),
            first_from(v, named(name@), 0) == first_from(v, named(name@), i as int),
        decreases ms@.len() - i,
    {
        if ms[i].name().same_as(name) {
            return Some(i);
        }
        i = i + 1;
    }
    None
}

/// The state that the two lists describe.
pub fn state_from_lists(workspaces: Vec<HyprWorkspaceDto>, monitors: Vec<HyprMonitorDto>) -> (res: HyprlandState)
    ensures
        res.wf(),
        res@.workspaces == workspaces_by_id(workspace_dtos_view(workspaces@)),
        res@.monitors == monitors_by_name(monitor_dtos_view(monitors@)),
        res@.focused == last_focused(monitors@),
{
    let ghost wsv = workspace_dtos_view(workspaces@);
    let ghost msv = monitor_dtos_view(monitors@);
    let ghost ms_orig = monitors@;
    let mut wmap: BTreeMap<i32, Workspace> = BTreeMap::new();
    let mut rest = workspaces;
    let n = rest.len();
    let mut i: usize = 0;
    while rest.len() > 0
        invariant
            wsv.len() == n,
            i + rest@.len() == n,
            workspace_dtos_view(rest@) == wsv.subrange(i as int, n as int),
            wmap@.map_values(|w: Workspace| w@) == workspaces_by_id(wsv.subrange(0, i as int)),
            forall|k: i32| #[trigger] wmap@.contains_key(k) ==> wmap@[k]@.id == k,
        decreases rest@.len(),
    {
        let ghost before = rest@;
        let d = rest.remove(0);
        assert(workspace_dto_view(d) == wsv[i as int]) by {
            assert(workspace_dtos_view(before)[0] == wsv.subrange(i as int, n as int)[0]);
        }
        let ws = d.into_domain();
        let id = ws.id().value();
        let ghost m0 = wmap@;
        wmap.insert(id, ws);
        proof {
            assert(wsv.subrange(0, i + 1).drop_last() =~= wsv.subrange(0, i as int));
            assert(wmap@.map_values(|w: Workspace| w@) =~= m0.map_values(|w: Workspace| w@).insert(id, wsv[i as int]));
            assert forall|k: int| 0 <= k < rest@.len() implies #[trigger] workspace_dtos_view(rest@)[k] == wsv.subrange(i + 1, n as int)[k] by {
                assert(rest@[k] == before[k + 1]);
                assert(workspace_dtos_view(before)[k + 1]
                    == wsv.subrange(i as int, n as int)[k + 1]);
            }
            assert(workspace_dtos_view(rest@) =~= wsv.subrange(i + 1, n as int));
        }
        i = i + 1;
    }
    assert(wsv.subrange(0, n as int) =~= wsv);
    let mut mlist: Vec<Monitor> = Vec::new();
    let mut focused: Option<MonitorName> = None;
    let mut mrest = monitors;
    let mn = mrest.len();
    let mut j: usize = 0;
    while mrest.len() > 0
        invariant
            msv.len() == mn,
            ms_orig.len() == mn,
            msv == monitor_dtos_view(ms_orig),
            j + mrest@.len() == mn,
            mrest@ == ms_orig.subrange(j as int, mn as int),
            mlist@.map_values(|m: Monitor| m@) == monitors_by_name(msv.subrange(0, j as int)),
            monitor_names_distinct(mlist@.map_values(|m: Monitor| m@)),
            monitors_sorted(mlist@.map_values(|m: Monitor| m@)),
            crate::domain::workspace::opt_name_view(focused) == last_focused(ms_orig.subrange(0, j as int)),
        decreases mrest@.len(),
    {
        let d = mrest.remove(0);
        assert(d == ms_orig[j as int]);
        let is_focused = d.focused;
        let (mon, f) = d.into_domain();
        let ghost mv = mon@;
        assert(mv == msv[j as int]);
        let ghost cur = mlist@.map_values(|m: Monitor| m@);
        proof {
            lemma_first_from_found(cur, named(mv.name), 0);
            lemma_upsert_keeps_order(cur, mv);
            assert(msv.subrange(0, j + 1).drop_last() =~= msv.subrange(0, j as int));
            assert(ms_orig.subrange(0, j + 1).drop_last() =~= ms_orig.subrange(0, j as int));
        }
        if f {
            focused = Some(mon.name().duplicate());
        }
        let k = index_of_monitor(&mlist, mon.name());
        proof {
            assert(msv.subrange(0, j + 1).last() == mv);
        }
        match k {
            Some(k) => {
                mlist.set(k, mon);
                assert(mlist@.map_values(|m: Monitor| m@) =~= cur.update(k as int, mv));
            },
            None => {
                let at = insert_index_of(&mlist, mon.name());
                mlist.insert(at, mon);
                assert(mlist@.map_values(|m: Monitor| m@) =~= cur.insert(at as int, mv));
            },
        }
        j = j + 1;
        assert(mrest@ =~= ms_orig.subrange(j as int, mn as int));
    }
    assert(msv.subrange(0, mn as int) =~= msv);
    assert(ms_orig.subrange(0, mn as int) =~= ms_orig);
    HyprlandState::new(wmap, mlist, focused)
}

/// What the event loop does once a burst of events has been read.
#[derive(Debug, Clone, Copy, PartialEq, Eq, Structural)]
pub enum BatchOutcome {
    /// No event changed anything.
    Idle,
    /// The state changed and is consistent: hand it on.
    Publish,
    /// The state changed but no longer adds up: fetch a full snapshot.
    Resync,
}

impl HyprlandAdapter {
    /// Reads one line of the event socket into `state`; whether it was an
    /// event the state knows.
    pub fn process_line(state: &mut HyprlandState, line: &str) -> (res: bool)
        requires
            old(state).wf(),
        ensures
            final(state).wf(),
            match parse_event_spec(line@) {
                Some(ev) => res && exists|e: WindowManagerEvent|
                    #![trigger apply_event_spec(old(state)@, e)]
                    e@ == ev && final(state)@ == apply_event_spec(old(state)@, e),
                None => !res && final(state)@ == old(state)@,
            },
    {
        match Self::parse_event(line) {
            Some(event) => {
                let ghost before = state@;
                state.apply_event(&event);
                assert(event@ == parse_event_spec(line@).unwrap());
                assert(state@ == apply_event_spec(before, event));
                true
            },
            None => false,
        }
    }

    /// What to do after a burst in which `changed` says whether any event
    /// applied.
    pub fn batch_outcome(state: &HyprlandState, changed: bool) -> (res: BatchOutcome)
        ensures
            res == if !changed {
                BatchOutcome::Idle
            } else if state_consistent(state@) {
                BatchOutcome::Publish
            } else {
                BatchOutcome::Resync
            },
    {
        if !changed {
            BatchOutcome::Idle
        } else if state.is_consistent() {
            BatchOutcome::Publish
        } else {
            BatchOutcome::Resync
        }
    }

    /// Whether the state after a burst is sent on: only when an event of the
    /// burst changed it and it differs from the state sent last.
    pub fn should_publish(last_sent: &HyprlandState, current: &HyprlandState, changed: bool) -> (res:
        bool)
        ensures
            res == (changed && last_sent@ != current@),
    {
        changed && !last_sent.same_as(current)
    }
}

/// Whitespace around a line of the event socket (its newline among it)
/// never changes the event it announces.
pub proof fn lemma_event_ignores_surrounding_whitespace(line: Seq<char>)
    ensures
        parse_event_spec(trim(line)) == parse_event_spec(line),
{
    lemma_trim_idempotent(line);
}

/// Whitespace put before or after a line of the event socket, such as the
/// newline that reading a line keeps, never changes the event it announces.
pub proof fn lemma_event_ignores_padding(before: Seq<char>, line: Seq<char>, after: Seq<char>)
    requires
        all_whitespace(before),
        all_whitespace(after),
    ensures
        parse_event_spec(before + line + after) == parse_event_spec(line),
{
    lemma_trim_padding(before, line, after);
}

/// A line with no `>>` in it, once trimmed, announces no event.
pub proof fn lemma_event_needs_arrows(line: Seq<char>)
    requires
        forall|i: int| 0 <= i < trim(line).len() - 1 ==> !(#[trigger] trim(line)[i] == '>' && trim(line)[i + 1] == '>'),
    ensures
        parse_event_spec(line) is None,
{
    lemma_find_pair_from_bounds(trim(line), '>', '>', 0);
    if let Some(k) = find_pair(trim(line), '>', '>') {
        assert(trim(line)[k] == '>');
    }
}

proof fn lemma_find_char_at(s: Seq<char>, c: char, i: int, k: int)
    requires
        0 <= i <= k < s.len(),
        s[k] == c,
        forall|j: int| i <= j < k ==> s[j] != c,
    ensures
        find_char_from(s, c, i) == Some(k),
    decreases k - i,
{
    if i < k {
        lemma_find_char_at(s, c, i + 1, k);
    }
}

/// A window-title line, `windowtitlev2>>` then the window's address (which
/// holds no comma), a comma and the title, announces that title for that
/// address: the title is everything after the first comma, commas
/// included. (A title ending in whitespace loses it, as the line is
/// trimmed.)
pub proof fn lemma_title_event(addr: Seq<char>, title: Seq<char>)
    requires
        !addr.contains(','),
        title.len() > 0 ==> !is_whitespace(title.last()),
    ensures
        parse_event_spec("windowtitlev2>>"@ + addr + seq![','] + title) == Some(
            EventView::WindowTitleChanged { address: addr, title },
        ),
{
    reveal_strlit("windowtitlev2>>");
    reveal_strlit("windowtitlev2");
    reveal_strlit("workspacev2");
    reveal_strlit("focusedmonv2");
    reveal_strlit("createworkspacev2");
    reveal_strlit("destroyworkspacev2");
    reveal_strlit("moveworkspacev2");
    reveal_strlit("renameworkspace");
    reveal_strlit("activespecialv2");
    reveal_strlit("activewindowv2");
    let k = "windowtitlev2>>"@;
    let line = k + addr + seq![','] + title;
    assert(k.len() == 15);
    assert forall|j: int| 0 <= j < 15 implies #[trigger] line[j] == k[j] by {}
    assert(line[0] == 'w');
    assert(!is_whitespace('w'));
    assert(trim_start(line) == line);
    if title.len() > 0 {
        assert(line.last() == title.last());
    } else {
        assert(line.last() == ',');
        assert(!is_whitespace(','));
    }
    assert(trim_end(line) == line);
    assert(trim(line) == line);
    assert(find_pair(line, '>', '>') == Some(13int)) by {
        reveal_with_fuel(find_pair_from, 15);
    }
    let kind = line.subrange(0, 13);
    let p = line.subrange(15, line.len() as int);
    assert(kind =~= "windowtitlev2"@);
    assert(p =~= addr + seq![','] + title);
    assert forall|j: int| 0 <= j < addr.len() implies p[j] != ',' by {
        assert(p[j] == addr[j]);
        if addr[j] == ',' {
            assert(addr.contains(','));
        }
    }
    lemma_find_char_at(p, ',', 0, addr.len() as int);
    assert(p.subrange(0, addr.len() as int) =~= addr);
    assert(p.subrange(addr.len() as int + 1, p.len() as int) =~= title);
}

} // verus!
