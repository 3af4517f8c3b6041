//! Keeping a list-based picture of Hyprland's monitors and workspaces up to
//! date from the events of its socket.
use vstd::prelude::*;
use crate::domain::workspace::{MonitorName, WorkspaceId, WorkspaceName, opt_name_view};

verus! {

/// An event of Hyprland's socket, as the updater reads it.
#[derive(Debug, Clone, PartialEq)]
pub enum HyprlandEvent {
    /// The focused monitor switched to a workspace.
    Workspace(WorkspaceId, WorkspaceName),
    /// Focus moved to a monitor, which shows the named workspace.
    FocusedMon(MonitorName, WorkspaceName),
    CreateWorkspace(WorkspaceId, WorkspaceName),
    DestroyWorkspace(WorkspaceId, WorkspaceName),
    MoveWorkspace(WorkspaceId, WorkspaceName, MonitorName),
    /// Any event the updater does not act on.
    Other,
}

pub enum HyprlandEventView {
    Workspace(i32, Seq<char>),
    FocusedMon(Seq<char>, Seq<char>),
    CreateWorkspace(i32, Seq<char>),
    DestroyWorkspace(i32, Seq<char>),
    MoveWorkspace(i32, Seq<char>, Seq<char>),
    Other,
}

impl View for HyprlandEvent {
    type V = HyprlandEventView;

    open spec fn view(&self) -> HyprlandEventView {
        match self {
            HyprlandEvent::Workspace(id, n) => HyprlandEventView::Workspace(id@, n@),
            HyprlandEvent::FocusedMon(m, n) => HyprlandEventView::FocusedMon(m@, n@),
            HyprlandEvent::CreateWorkspace(id, n) => HyprlandEventView::CreateWorkspace(id@, n@),
            HyprlandEvent::DestroyWorkspace(id, n) => HyprlandEventView::DestroyWorkspace(id@, n@),
            HyprlandEvent::MoveWorkspace(id, n, m) => HyprlandEventView::MoveWorkspace(id@, n@, m@),
            HyprlandEvent::Other => HyprlandEventView::Other,
        }
    }
}

/// A monitor: its name, the workspace it shows, and whether it has focus.
pub struct MonitorEntry {
    pub name: MonitorName,
    pub active_workspace_id: WorkspaceId,
    pub focused: bool,
}

pub struct MonitorEntryView {
    pub name: Seq<char>,
    pub active: i32,
    pub focused: bool,
}

impl View for MonitorEntry {
    type V = MonitorEntryView;

    open spec fn view(&self) -> MonitorEntryView {
        MonitorEntryView { name: self.name@, active: self.active_workspace_id@, focused: self.focused }
    }
}

/// A workspace: its id, its name, and the monitor it is on, if known.
pub struct WorkspaceEntry {
    pub id: WorkspaceId,
    pub name: WorkspaceName,
    pub monitor: Option<MonitorName>,
}

pub struct WorkspaceEntryView {
    pub id: i32,
    pub name: Seq<char>,
    pub monitor: Option<Seq<char>>,
}

impl View for WorkspaceEntry {
    type V = WorkspaceEntryView;

    open spec fn view(&self) -> WorkspaceEntryView {
        WorkspaceEntryView { id: self.id@, name: self.name@, monitor: opt_name_view(self.monitor) }
    }
}

/// The monitors and workspaces in the order Hyprland listed them.
pub struct TrackedState {
    pub monitors: Vec<MonitorEntry>,
    pub workspaces: Vec<WorkspaceEntry>,
}

pub struct TrackedView {
    pub monitors: Seq<MonitorEntryView>,
    pub workspaces: Seq<WorkspaceEntryView>,
}

pub open spec fn monitors_view(ms: Seq<MonitorEntry>) -> Seq<MonitorEntryView> {
    ms.map_values(|m: MonitorEntry| m@)
}

pub open spec fn workspaces_view(ws: Seq<WorkspaceEntry>) -> Seq<WorkspaceEntryView> {
    ws.map_values(|w: WorkspaceEntry| w@)
}

impl View for TrackedState {
    type V = TrackedView;

    open spec fn view(&self) -> TrackedView {
        TrackedView { monitors: monitors_view(self.monitors@), workspaces: workspaces_view(self.workspaces@) }
    }
}

/// Index of the first element of `s` from `i` on that satisfies `p`.
pub open spec fn first_from<T>(s: Seq<T>, p: spec_fn(T) -> bool, i: int) -> Option<int>
    decreases s.len() - i,
{
    if i < 0 || i >= s.len() {
        None
    } else if p(s[i]) {
        Some(i)
    } else {
        first_from(s, p, i + 1)
    }
}

pub proof fn lemma_first_from_found<T>(s: Seq<T>, p: spec_fn(T) -> bool, i: int)
    requires
        0 <= i,
    ensures
        match first_from(s, p, i) {
            Some(k) => i <= k < s.len() && p(s[k]) && forall|j: int| i <= j < k ==> !p(#[trigger] s[j]),
            None => forall|j: int| i <= j < s.len() ==> !p(#[trigger] s[j]),
        },
    decreases s.len() - i,
{
    if i < s.len() && !p(s[i]) {
        lemma_first_from_found(s, p, i + 1);
    }
}

pub open spec fn is_focused() -> spec_fn(MonitorEntryView) -> bool {
    |m: MonitorEntryView| m.focused
}

pub open spec fn monitor_named(name: Seq<char>) -> spec_fn(MonitorEntryView) -> bool {
    |m: MonitorEntryView| m.name == name
}

pub open spec fn workspace_named(name: Seq<char>) -> spec_fn(WorkspaceEntryView) -> bool {
    |w: WorkspaceEntryView| w.name == name
}

pub open spec fn workspace_without_id(id: i32) -> spec_fn(WorkspaceEntryView) -> bool {
    |w: WorkspaceEntryView| w.id != id
}

pub open spec fn workspace_with_id(id: i32) -> spec_fn(WorkspaceEntryView) -> bool {
    |w: WorkspaceEntryView| w.id == id
}

/// Sets the active workspace of the monitor at `k`, if there is one.
pub open spec fn activate_at(ms: Seq<MonitorEntryView>, k: Option<int>, id: i32) -> Seq<MonitorEntryView> {
    match k {
        Some(i) => ms.update(i, MonitorEntryView { active: id, ..ms[i] }),
        None => ms,
    }
}

/// Puts the workspace at `k`, if there is one, on the named monitor.
pub open spec fn place_at(ws: Seq<WorkspaceEntryView>, k: Option<int>, mon: Seq<char>) -> Seq<WorkspaceEntryView> {
    match k {
        Some(i) => ws.update(i, WorkspaceEntryView { monitor: Some(mon), ..ws[i] }),
        None => ws,
    }
}

/// Focus on exactly the monitors with the given name.
pub open spec fn focus_only(ms: Seq<MonitorEntryView>, mon: Seq<char>) -> Seq<MonitorEntryView> {
    ms.map_values(|m: MonitorEntryView| MonitorEntryView { focused: m.name == mon, ..m })
}

/// The state after one event.
pub open spec fn updated(st: TrackedView, ev: HyprlandEventView) -> TrackedView {
    match ev {
        HyprlandEventView::Workspace(id, _) => TrackedView {
            monitors: activate_at(st.monitors, first_from(st.monitors, is_focused(), 0), id),
            ..st
        },
        HyprlandEventView::FocusedMon(mon, ws_name) => {
            let ms = focus_only(st.monitors, mon);
            match first_from(st.workspaces, workspace_named(ws_name), 0) {
                None => TrackedView { monitors: ms, ..st },
                Some(j) => TrackedView {
                    monitors: activate_at(ms, first_from(ms, monitor_named(mon), 0), st.workspaces[j].id),
                    workspaces: place_at(st.workspaces, Some(j), mon),
                },
            }
        },
        HyprlandEventView::CreateWorkspace(id, name) => TrackedView {
            workspaces: st.workspaces.push(WorkspaceEntryView { id, name, monitor: None }),
            ..st
        },
        HyprlandEventView::DestroyWorkspace(id, _) => TrackedView {
            workspaces: st.workspaces.filter(workspace_without_id(id)),
            ..st
        },
        HyprlandEventView::MoveWorkspace(id, _, mon) => TrackedView {
            workspaces: place_at(st.workspaces, first_from(st.workspaces, workspace_with_id(id), 0), mon),
            ..st
        },
        HyprlandEventView::Other => st,
    }
}

pub open spec fn opt_index(o: Option<usize>) -> Option<int> {
    match o {
        Some(i) => Some(i as int),
        None => None,
    }
}

fn first_focused(ms: &Vec<MonitorEntry>) -> (res: Option<usize>)
    ensures
        opt_index(res) == first_from(monitors_view(ms@), is_focused(), 0),
{
    let ghost v = monitors_view(ms@);
    let mut i: usize = 0;
    while i < ms.len()
        invariant
            v == monitors_view(ms@),
            i <= ms@.len(),
            first_from(v, is_focused(), 0) == first_from(v, is_focused(), i as int),
        decreases ms@.len() - i,
    {
        if ms[i].focused {
            return Some(i);
        }
        i = i + 1;
    }
    None
}

fn first_monitor_named(ms: &Vec<MonitorEntry>, name: &MonitorName) -> (res: Option<usize>)
    ensures
        opt_index(res) == first_from(monitors_view(ms@), monitor_named(name@), 0),
{
    let ghost v = monitors_view(ms@);
    let mut i: usize = 0;
    while i < ms.len()
        invariant
            v == monitors_view(ms@),
            i <= ms@.len(),
            first_from(v, monitor_named(name@), 0) == first_from(v, monitor_named(name@), i as int),
        decreases ms@.len() - i,
    {
        if ms[i].name.same_as(name) {
            return Some(i);
        }
        i = i + 1;
    }
    None
}

fn first_workspace_named(ws: &Vec<WorkspaceEntry>, name: &WorkspaceName) -> (res: Option<usize>)
    ensures
        opt_index(res) == first_from(workspaces_view(ws@), workspace_named(name@), 0),
{
    let ghost v = workspaces_view(ws@);
    let mut i: usize = 0;
    while i < ws.len()
        invariant
            v == workspaces_view(ws@),
            i <= ws@.len(),
            first_from(v, workspace_named(name@), 0) == first_from(v, workspace_named(name@), i as int),
        decreases ws@.len() - i,
    {
        if ws[i].name.same_as(name) {
            return Some(i);
        }
        i = i + 1;
    }
    None
}

fn first_workspace_with_id(ws: &Vec<WorkspaceEntry>, id: WorkspaceId) -> (res: Option<usize>)
    ensures
        opt_index(res) == first_from(workspaces_view(ws@), workspace_with_id(id@), 0),
{
    let ghost v = workspaces_view(ws@);
    let mut i: usize = 0;
    while i < ws.len()
        invariant
            v == workspaces_view(ws@),
            i <= ws@.len(),
            first_from(v, workspace_with_id(id@), 0) == first_from(v, workspace_with_id(id@), i as int),
        decreases ws@.len() - i,
    {
        if ws[i].id.value() == id.value() {
            return Some(i);
        }
        i = i + 1;
    }
    None
}

fn set_active(ms: &mut Vec<MonitorEntry>, k: Option<usize>, id: WorkspaceId)
    requires
        match k {
            Some(i) => i < old(ms)@.len(),
            None => true,
        },
    ensures
        monitors_view(final(ms)@) == activate_at(monitors_view(old(ms)@), opt_index(k), id@),
{
    if let Some(i) = k {
        ms[i].active_workspace_id = id;
        assert(monitors_view(ms@) =~= activate_at(monitors_view(old(ms)@), opt_index(k), id@));
    }
}

fn place(ws: &mut Vec<WorkspaceEntry>, k: Option<usize>, mon: MonitorName)
    requires
        match k {
            Some(i) => i < old(ws)@.len(),
            None => true,
        },
    ensures
        workspaces_view(final(ws)@) == place_at(workspaces_view(old(ws)@), opt_index(k), mon@),
{
    if let Some(i) = k {
        ws[i].monitor = Some(mon);
        assert(workspaces_view(ws@) =~= place_at(workspaces_view(old(ws)@), opt_index(k), mon@));
    }
}

fn focus_monitor(ms: &mut Vec<MonitorEntry>, name: &MonitorName)
    ensures
        monitors_view(final(ms)@) == focus_only(monitors_view(old(ms)@), name@),
{
    let mut i: usize = 0;
    while i < ms.len()
        invariant
            ms@.len() == old(ms)@.len(),
            i <= ms@.len(),
            forall|j: int|
                0 <= j < i ==> #[trigger] monitors_view(ms@)[j] == focus_only(
                    monitors_view(old(ms)@),
                    name@,
                )[j],
            forall|j: int| i <= j < ms@.len() ==> #[trigger] ms@[j] == old(ms)@[j],
        decreases ms@.len() - i,
    {
        let f = ms[i].name.same_as(name);
        let ghost before = ms@;
        ms[i].focused = f;
        assert(ms@ == before.update(i as int, MonitorEntry { focused: f, ..before[i as int] }));
        assert(monitors_view(ms@)[i as int] == focus_only(monitors_view(old(ms)@), name@)[i as int]);
        assert forall|j: int| 0 <= j < i implies #[trigger] monitors_view(ms@)[j] == focus_only(
            monitors_view(old(ms)@),
            name@,
        )[j] by {
            assert(ms@[j] == before[j]);
            assert(monitors_view(before)[j] == before[j]@);
            assert(monitors_view(ms@)[j] == ms@[j]@);
        }
        i = i + 1;
    }
    assert(monitors_view(ms@) =~= focus_only(monitors_view(old(ms)@), name@));
}

fn remove_workspaces_with_id(ws: &mut Vec<WorkspaceEntry>, id: WorkspaceId)
    ensures
        workspaces_view(final(ws)@) == workspaces_view(old(ws)@).filter(workspace_without_id(id@)),
{
    let ghost orig = workspaces_view(ws@);
    let ghost pred = workspace_without_id(id@);
    let mut kept: Vec<WorkspaceEntry> = Vec::new();
    let mut rest: Vec<WorkspaceEntry> = Vec::new();
    std::mem::swap(&mut rest, ws);
    let ghost all = rest@;
    let mut n: usize = 0;
    let len = rest.len();
    while rest.len() > 0
        invariant
            all.len() == len,
            orig == workspaces_view(all),
            n + rest@.len() == len,
            rest@ == all.subrange(n as int, len as int),
            pred == workspace_without_id(id@),
            workspaces_view(kept@) == orig.subrange(0, n as int).filter(pred),
        decreases rest@.len(),
    {
        let w = rest.remove(0);
        assert(w == all[n as int]);
        proof {
            reveal(Seq::filter);
            assert(orig.subrange(0, n + 1).drop_last() =~= orig.subrange(0, n as int));
            assert(orig.subrange(0, n + 1).last() == w@);
        }
        let ghost before = kept@;
        let ghost step = orig.subrange(0, n + 1).filter(pred);
        if w.id.value() != id.value() {
            assert(pred(w@));
            assert(step == orig.subrange(0, n as int).filter(pred).push(w@));
            kept.push(w);
            assert(workspaces_view(kept@) =~= workspaces_view(before).push(all[n as int]@));
        } else {
            assert(!pred(w@));
            assert(step == orig.subrange(0, n as int).filter(pred));
        }
        n = n + 1;
        assert(rest@ =~= all.subrange(n as int, len as int));
    }
    assert(orig.subrange(0, len as int) =~= orig);
    *ws = kept;
}

/// Applies socket events to a [`TrackedState`].
pub struct HyprlandStateUpdater;

impl HyprlandStateUpdater {
    /// The state after `event`: see [`updated`].
    pub fn apply_event(state: &mut TrackedState, event: HyprlandEvent)
        ensures
            final(state)@ == updated(old(state)@, event@),
    {
        match event {
            HyprlandEvent::Workspace(id, _name) => {
                let k = first_focused(&state.monitors);
                proof {
                    lemma_first_from_found(monitors_view(state.monitors@), is_focused(), 0);
                }
                set_active(&mut state.monitors, k, id);
            },
            HyprlandEvent::FocusedMon(mon, ws_name) => {
                focus_monitor(&mut state.monitors, &mon);
                let j = first_workspace_named(&state.workspaces, &ws_name);
                proof {
                    lemma_first_from_found(workspaces_view(state.workspaces@), workspace_named(ws_name@), 0);
                }
                if let Some(j) = j {
                    let ws_id = state.workspaces[j].id;
                    let k = first_monitor_named(&state.monitors, &mon);
                    proof {
                        lemma_first_from_found(monitors_view(state.monitors@), monitor_named(mon@), 0);
                    }
                    set_active(&mut state.monitors, k, ws_id);
                    place(&mut state.workspaces, Some(j), mon);
                }
            },
            HyprlandEvent::CreateWorkspace(id, name) => {
                let ghost before = state.workspaces@;
                state.workspaces.push(WorkspaceEntry { id, name, monitor: None });
                assert(workspaces_view(state.workspaces@) =~= workspaces_view(before).push(
                    WorkspaceEntryView { id: id@, name: name@, monitor: None },
                ));
            },
            HyprlandEvent::DestroyWorkspace(id, _name) => {
                remove_workspaces_with_id(&mut state.workspaces, id);
            },
            HyprlandEvent::MoveWorkspace(id, _name, mon) => {
                let k = first_workspace_with_id(&state.workspaces, id);
                proof {
                    lemma_first_from_found(workspaces_view(state.workspaces@), workspace_with_id(id@), 0);
                }
                place(&mut state.workspaces, k, mon);
            },
            HyprlandEvent::Other => {},
        }
    }
}

/// No event adds or removes a monitor.
pub proof fn lemma_monitors_kept(st: TrackedView, ev: HyprlandEventView)
    ensures
        updated(st, ev).monitors.len() == st.monitors.len(),
{
    lemma_first_from_found(st.monitors, is_focused(), 0);
    match ev {
        HyprlandEventView::FocusedMon(mon, _) => {
            lemma_first_from_found(focus_only(st.monitors, mon), monitor_named(mon), 0);
        },
        _ => {},
    }
}

/// After focus moves to a monitor, exactly the monitors with that name have
/// focus.
pub proof fn lemma_focus_exclusive(st: TrackedView, mon: Seq<char>, ws: Seq<char>)
    ensures
        forall|i: int|
            0 <= i < st.monitors.len() ==> (#[trigger] updated(st, HyprlandEventView::FocusedMon(mon, ws)).monitors[i]).focused
                == (st.monitors[i].name == mon),
{
    let ms = focus_only(st.monitors, mon);
    lemma_first_from_found(ms, monitor_named(mon), 0);
    assert forall|i: int| 0 <= i < st.monitors.len() implies (#[trigger] updated(
        st,
        HyprlandEventView::FocusedMon(mon, ws),
    ).monitors[i]).focused == (st.monitors[i].name == mon) by {
        assert(ms[i].focused == (st.monitors[i].name == mon));
    }
}

/// After a workspace is destroyed, no workspace has its id, and every other
/// workspace is still there.
pub proof fn lemma_destroy_removes(st: TrackedView, id: i32, name: Seq<char>)
    ensures
        forall|i: int|
            0 <= i < updated(st, HyprlandEventView::DestroyWorkspace(id, name)).workspaces.len()
                ==> (#[trigger] updated(st, HyprlandEventView::DestroyWorkspace(id, name)).workspaces[i]).id
                != id,
        forall|i: int|
            0 <= i < st.workspaces.len() && st.workspaces[i].id != id ==> updated(
                st,
                HyprlandEventView::DestroyWorkspace(id, name),
            ).workspaces.contains(#[trigger] st.workspaces[i]),
        st.monitors == updated(st, HyprlandEventView::DestroyWorkspace(id, name)).monitors,
{
    broadcast use vstd::seq_lib::group_filter_ensures;
}

/// A created workspace is appended, on no monitor yet.
pub proof fn lemma_create_appends(st: TrackedView, id: i32, name: Seq<char>)
    ensures
        ({
            let ws = updated(st, HyprlandEventView::CreateWorkspace(id, name)).workspaces;
            &&& ws.len() == st.workspaces.len() + 1
            &&& ws.last() == (WorkspaceEntryView { id, name, monitor: None })
            &&& ws.drop_last() == st.workspaces
        }),
{
    assert(st.workspaces.push(WorkspaceEntryView { id, name, monitor: None }).drop_last() =~= st.workspaces);
}

/// A workspace switch lands on the first monitor that has focus.
pub proof fn lemma_switch_on_focused(st: TrackedView, id: i32, name: Seq<char>, k: int)
    requires
        0 <= k < st.monitors.len(),
        st.monitors[k].focused,
        forall|j: int| 0 <= j < k ==> !(#[trigger] st.monitors[j]).focused,
    ensures
        updated(st, HyprlandEventView::Workspace(id, name)).monitors[k].active == id,
        updated(st, HyprlandEventView::Workspace(id, name)).workspaces == st.workspaces,
{
    lemma_first_from_found(st.monitors, is_focused(), 0);
}

} // verus!
