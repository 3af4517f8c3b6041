use vstd::prelude::*;
use std::collections::BTreeMap;
use crate::domain::events::WindowManagerEvent;
use crate::domain::workspace::{
    Monitor, MonitorName, MonitorView, Workspace, WorkspaceId, WorkspaceName, WorkspaceView,
    name_lt, opt_id_view, opt_name_view,
};

verus! {

broadcast use vstd::laws_cmp::group_laws_cmp;

/// The sources a module can subscribe to.
#[derive(Debug, Clone, PartialEq, Eq, Hash)]
pub enum SignalKind {
    Time,
    Hyprland,
    DBus(crate::domain::dbus::DBusSubscription),
    Applets,
    Metrics,
}

/// What the bar knows of the window manager: workspaces by identifier,
/// monitors (at most one per name, in name order) and the focused monitor.
#[derive(Clone, Debug, PartialEq)]
pub struct HyprlandState {
    workspaces: BTreeMap<i32, Workspace>,
    monitors: Vec<Monitor>,
    focused_monitor: Option<MonitorName>,
}

/// Abstract value of a [`HyprlandState`].
pub struct HyprlandStateView {
    pub workspaces: Map<i32, WorkspaceView>,
    pub monitors: Seq<MonitorView>,
    pub focused: Option<Seq<char>>,
}

impl View for HyprlandState {
    type V = HyprlandStateView;

    closed spec fn view(&self) -> HyprlandStateView {
        HyprlandStateView {
            workspaces: self.workspaces@.map_values(|w: Workspace| w@),
            monitors: self.monitors@.map_values(|m: Monitor| m@),
            focused: opt_name_view(self.focused_monitor),
        }
    }
}

/// Monitors are known by their names: no two share one, and they are kept
/// in the order of their names.
pub open spec fn state_wf(s: HyprlandStateView) -> bool {
    monitor_names_distinct(s.monitors) && monitors_sorted(s.monitors)
}

/// Each monitor's name sorts before the names of the monitors after it.
pub open spec fn monitors_sorted(ms: Seq<MonitorView>) -> bool {
    forall|i: int, j: int|
        0 <= i < j < ms.len() ==> name_lt(#[trigger] ms[i].name, #[trigger] ms[j].name)
}

pub open spec fn monitor_names_distinct(ms: Seq<MonitorView>) -> bool {
    forall|i: int, j: int|
        0 <= i < ms.len() && 0 <= j < ms.len() && i != j ==> #[trigger] ms[i].name
            != #[trigger] ms[j].name
}

/// Adds an unnamed-monitor workspace unless the identifier is known.
pub open spec fn insert_if_absent(
    ws: Map<i32, WorkspaceView>,
    id: i32,
    name: Seq<char>,
) -> Map<i32, WorkspaceView> {
    if ws.contains_key(id) {
        ws
    } else {
        ws.insert(id, WorkspaceView { id, name, monitor: None })
    }
}

/// Moves a known workspace to a monitor; unknown identifiers are ignored.
pub open spec fn assign_monitor(
    ws: Map<i32, WorkspaceView>,
    id: i32,
    monitor: Seq<char>,
) -> Map<i32, WorkspaceView> {
    if ws.contains_key(id) {
        ws.insert(id, WorkspaceView { monitor: Some(monitor), ..ws[id] })
    } else {
        ws
    }
}

/// Sets the active workspace of the monitor called `name`, if there is one.
pub open spec fn set_active_of(ms: Seq<MonitorView>, name: Seq<char>, id: i32) -> Seq<
    MonitorView,
> {
    ms.map_values(|m: MonitorView| if m.name == name { MonitorView { active: id, ..m } } else { m })
}

/// Sets the special workspace of the monitor called `name`, if there is one.
pub open spec fn set_special_of(ms: Seq<MonitorView>, name: Seq<char>, id: Option<i32>) -> Seq<
    MonitorView,
> {
    ms.map_values(
        |m: MonitorView| if m.name == name { MonitorView { special: id, ..m } } else { m },
    )
}

/// The state after one window-manager event.
pub open spec fn apply_event_spec(s: HyprlandStateView, e: WindowManagerEvent) -> HyprlandStateView {
    match e {
        WindowManagerEvent::WorkspaceActivated { id, name } => HyprlandStateView {
            workspaces: insert_if_absent(s.workspaces, id@, name@),
            monitors: match s.focused {
                Some(f) => set_active_of(s.monitors, f, id@),
                None => s.monitors,
            },
            ..s
        },
        WindowManagerEvent::WorkspaceCreated { id, name } => HyprlandStateView {
            workspaces: insert_if_absent(s.workspaces, id@, name@),
            ..s
        },
        WindowManagerEvent::WorkspaceDestroyed { id, name: _ } => HyprlandStateView {
            workspaces: s.workspaces.remove(id@),
            ..s
        },
        WindowManagerEvent::WorkspaceMoved { id, name, monitor_name } => HyprlandStateView {
            workspaces: if s.workspaces.contains_key(id@) {
                assign_monitor(s.workspaces, id@, monitor_name@)
            } else {
                s.workspaces.insert(
                    id@,
                    WorkspaceView { id: id@, name: name@, monitor: Some(monitor_name@) },
                )
            },
            ..s
        },
        WindowManagerEvent::WorkspaceRenamed { id, new_name } => HyprlandStateView {
            workspaces: if s.workspaces.contains_key(id@) {
                s.workspaces.insert(
                    id@,
                    WorkspaceView { id: id@, name: new_name@, monitor: s.workspaces[id@].monitor },
                )
            } else {
                s.workspaces
            },
            ..s
        },
        WindowManagerEvent::MonitorFocused { monitor_name, workspace_id } => HyprlandStateView {
            workspaces: assign_monitor(s.workspaces, workspace_id@, monitor_name@),
            monitors: set_active_of(s.monitors, monitor_name@, workspace_id@),
            focused: Some(monitor_name@),
        },
        WindowManagerEvent::SpecialWorkspaceActivated { id, name: _, monitor_name } =>
            HyprlandStateView {
            monitors: set_special_of(s.monitors, monitor_name@, opt_id_view(id)),
            ..s
        },
        WindowManagerEvent::ActiveWindowChanged { .. } => s,
        WindowManagerEvent::WindowTitleChanged { .. } => s,
    }
}


/// Applying an event never adds, removes or renames a monitor.
pub proof fn lemma_apply_event_keeps_monitor_names(s: HyprlandStateView, e: WindowManagerEvent)
    ensures
        apply_event_spec(s, e).monitors.len() == s.monitors.len(),
        forall|i: int|
            0 <= i < s.monitors.len() ==> #[trigger] apply_event_spec(s, e).monitors[i].name
                == s.monitors[i].name,
{
}

/// Renaming a known workspace gives it the new name, keeping its identifier
/// and its monitor; no other workspace, no monitor and not the focus
/// changes. Renaming an unknown workspace changes nothing.
pub proof fn lemma_rename_renames(s: HyprlandStateView, id: WorkspaceId, new_name: WorkspaceName)
    ensures
        ({
            let t = apply_event_spec(s, WindowManagerEvent::WorkspaceRenamed { id, new_name });
            &&& s.workspaces.contains_key(id@) ==> {
                &&& t.workspaces.contains_key(id@)
                &&& t.workspaces[id@].name == new_name@
                &&& t.workspaces[id@].id == id@
                &&& t.workspaces[id@].monitor == s.workspaces[id@].monitor
            }
            &&& t.workspaces.dom() == s.workspaces.dom()
            &&& forall|k: i32| k != id@ && #[trigger] s.workspaces.contains_key(k) ==> t.workspaces[k] == s.workspaces[k]
            &&& t.monitors == s.monitors
            &&& t.focused == s.focused
            &&& !s.workspaces.contains_key(id@) ==> t == s
        }),
{
    let t = apply_event_spec(s, WindowManagerEvent::WorkspaceRenamed { id, new_name });
    if s.workspaces.contains_key(id@) {
        assert(t.workspaces.dom() =~= s.workspaces.dom());
    }
}

/// Every event keeps the state well formed.
pub proof fn lemma_apply_event_keeps_wf(s: HyprlandStateView, e: WindowManagerEvent)
    requires
        state_wf(s),
    ensures
        state_wf(apply_event_spec(s, e)),
{
    lemma_apply_event_keeps_monitor_names(s, e);
    let t = apply_event_spec(s, e);
    assert forall|i: int, j: int|
        0 <= i < t.monitors.len() && 0 <= j < t.monitors.len() && i != j implies #[trigger] t.monitors[i].name
            != #[trigger] t.monitors[j].name by {
        assert(t.monitors[i].name == s.monitors[i].name);
        assert(t.monitors[j].name == s.monitors[j].name);
    }
    assert forall|i: int, j: int|
        0 <= i < j < t.monitors.len() implies name_lt(#[trigger] t.monitors[i].name, #[trigger] t.monitors[j].name) by {
        assert(t.monitors[i].name == s.monitors[i].name);
        assert(t.monitors[j].name == s.monitors[j].name);
    }
}

/// Applying the same event twice leaves the state as applying it once.
pub proof fn lemma_apply_event_idempotent(s: HyprlandStateView, e: WindowManagerEvent)
    requires
        state_wf(s),
    ensures
        apply_event_spec(apply_event_spec(s, e), e) == apply_event_spec(s, e),
{
    let t = apply_event_spec(s, e);
    let u = apply_event_spec(t, e);
    assert(u.workspaces =~= t.workspaces);
    assert(u.monitors =~= t.monitors);
}

/// Only a focus event changes which monitor is focused.
pub proof fn lemma_focus_changes_only_on_focus_event(s: HyprlandStateView, e: WindowManagerEvent)
    ensures
        !(e is MonitorFocused) ==> apply_event_spec(s, e).focused == s.focused,
        e matches WindowManagerEvent::MonitorFocused { monitor_name, .. } ==> apply_event_spec(
            s,
            e,
        ).focused == Some(monitor_name@),
{
}

/// Creating a workspace the state did not know and then destroying it
/// restores the state.
pub proof fn lemma_create_then_destroy_restores(
    s: HyprlandStateView,
    id: WorkspaceId,
    name: WorkspaceName,
    other_name: WorkspaceName,
)
    requires
        !s.workspaces.contains_key(id@),
    ensures
        apply_event_spec(
            apply_event_spec(s, WindowManagerEvent::WorkspaceCreated { id, name }),
            WindowManagerEvent::WorkspaceDestroyed { id, name: other_name },
        ) == s,
{
    let t = apply_event_spec(s, WindowManagerEvent::WorkspaceCreated { id, name });
    let u = apply_event_spec(t, WindowManagerEvent::WorkspaceDestroyed { id, name: other_name });
    assert(u.workspaces =~= s.workspaces);
}

/// After a workspace is destroyed the state no longer knows it, whatever it knew before.
pub proof fn lemma_destroy_forgets(s: HyprlandStateView, id: WorkspaceId, name: WorkspaceName)
    ensures
        !apply_event_spec(s, WindowManagerEvent::WorkspaceDestroyed { id, name }).workspaces.contains_key(id@),
{
}


/// Every workspace is on a monitor, and every monitor's active and special
/// workspaces are known and placed on that monitor.
pub open spec fn state_consistent(s: HyprlandStateView) -> bool {
    &&& forall|k: i32| #[trigger] s.workspaces.contains_key(k) ==> s.workspaces[k].monitor is Some
    &&& forall|i: int|
        0 <= i < s.monitors.len() ==> {
            let m = #[trigger] s.monitors[i];
            &&& s.workspaces.contains_key(m.active)
            &&& s.workspaces[m.active].monitor == Some(m.name)
            &&& (m.special matches Some(sp) ==> s.workspaces.contains_key(sp)
                && s.workspaces[sp].monitor == Some(m.name))
        }
}

impl HyprlandState {
    pub open spec fn wf(&self) -> bool {
        state_wf(self@)
    }

    /// Builds a state from its parts: workspaces by identifier, monitors by name.
    pub fn new(
        workspaces: BTreeMap<i32, Workspace>,
        monitors: Vec<Monitor>,
        focused_monitor: Option<MonitorName>,
    ) -> (res: Self)
        requires
            monitor_names_distinct(monitors@.map_values(|m: Monitor| m@)),
            monitors_sorted(monitors@.map_values(|m: Monitor| m@)),
        ensures
            res.wf(),
            res@.workspaces == workspaces@.map_values(|w: Workspace| w@),
            res@.monitors == monitors@.map_values(|m: Monitor| m@),
            res@.focused == opt_name_view(focused_monitor),
    {
        HyprlandState { workspaces, monitors, focused_monitor }
    }

    /// A state with no workspace, no monitor and no focus.
    pub fn empty() -> (res: Self)
        ensures
            res.wf(),
            res@.workspaces == Map::<i32, WorkspaceView>::empty(),
            res@.monitors == Seq::<MonitorView>::empty(),
            res@.focused is None,
    {
        let res = HyprlandState {
            workspaces: BTreeMap::new(),
            monitors: Vec::new(),
            focused_monitor: None,
        };
        assert(res@.workspaces =~= Map::<i32, WorkspaceView>::empty());
        assert(res@.monitors =~= Seq::<MonitorView>::empty());
        res
    }

    pub fn monitors(&self) -> (res: &Vec<Monitor>)
        ensures
            res@.map_values(|m: Monitor| m@) == self@.monitors,
    {
        &self.monitors
    }

    pub fn workspaces(&self) -> (res: &BTreeMap<i32, Workspace>)
        ensures
            res@.map_values(|w: Workspace| w@) == self@.workspaces,
    {
        &self.workspaces
    }

    pub fn focused_monitor(&self) -> (res: Option<&MonitorName>)
        ensures
            match res {
                Some(m) => self@.focused == Some(m@),
                None => self@.focused is None,
            },
    {
        match &self.focused_monitor {
            Some(m) => Some(m),
            None => None,
        }
    }


    /// Whether both states hold the same workspaces, monitors and focus.
    pub fn same_as(&self, other: &HyprlandState) -> (res: bool)
        ensures
            res == (self@ == other@),
    {
        let ghost a = self@;
        let ghost b = other@;
        let focus_same = match (&self.focused_monitor, &other.focused_monitor) {
            (Some(x), Some(y)) => x.same_as(y),
            (None, None) => true,
            _ => false,
        };
        if !focus_same {
            return false;
        }
        if self.monitors.len() != other.monitors.len() {
            assert(a.monitors.len() != b.monitors.len());
            return false;
        }
        let mut i: usize = 0;
        while i < self.monitors.len()
            invariant
                a == self@,
                b == other@,
                self.monitors@.len() == other.monitors@.len(),
                i <= self.monitors@.len(),
                forall|j: int| 0 <= j < i ==> #[trigger] a.monitors[j] == b.monitors[j],
            decreases self.monitors@.len() - i,
        {
            assert(a.monitors[i as int] == self.monitors@[i as int]@);
            assert(b.monitors[i as int] == other.monitors@[i as int]@);
            if !self.monitors[i].same_as(&other.monitors[i]) {
                return false;
            }
            i = i + 1;
        }
        assert(a.monitors =~= b.monitors);
        let keys = self.workspaces.keys();
        for k in it: keys
            invariant
                a == self@,
                b == other@,
                it.seq().unref().to_set() == self.workspaces@.dom(),
                forall|j: int|
                    0 <= j < it.index() ==> #[trigger] b.workspaces.contains_key(*it.seq()[j])
                        && a.workspaces[*it.seq()[j]] == b.workspaces[*it.seq()[j]],
                it.index() == it.seq().len() ==> forall|kk: i32| #[trigger] a.workspaces.contains_key(kk)
                    ==> b.workspaces.contains_key(kk) && a.workspaces[kk] == b.workspaces[kk],
        {
            match (self.workspaces.get(k), other.workspaces.get(k)) {
                (Some(w1), Some(w2)) => {
                    if !w1.same_as(w2) {
                        assert(a.workspaces[*k] == w1@);
                        assert(b.workspaces[*k] == w2@);
                        return false;
                    }
                    assert(a.workspaces[*k] == w1@);
                    assert(b.workspaces[*k] == w2@);
                },
                (Some(_), None) => {
                    assert(a.workspaces.contains_key(*k));
                    assert(!b.workspaces.contains_key(*k));
                    return false;
                },
                (None, _) => {
                    assert(self.workspaces@.contains_key(*k)) by {
                        assert(it.seq().unref()[it.index() as int] == *k);
                        assert(it.seq().unref().to_set().contains(*k));
                    }
                },
            }
            assert forall|kk: i32|
                it.index() + 1 == it.seq().len() && #[trigger] a.workspaces.contains_key(kk) implies b.workspaces.contains_key(kk)
                    && a.workspaces[kk] == b.workspaces[kk] by {
                assert(it.seq().unref().to_set().contains(kk));
                let j = choose|j: int| 0 <= j < it.seq().len() && it.seq()[j] == &kk;
                if j < it.index() {
                    assert(b.workspaces.contains_key(*it.seq()[j]));
                }
            }
        }
        let okeys = other.workspaces.keys();
        for k in it2: okeys
            invariant
                a == self@,
                b == other@,
                it2.seq().unref().to_set() == other.workspaces@.dom(),
                forall|j: int| 0 <= j < it2.index() ==> #[trigger] a.workspaces.contains_key(*it2.seq()[j]),
                it2.index() == it2.seq().len() ==> forall|kk: i32| #[trigger] b.workspaces.contains_key(kk)
                    ==> a.workspaces.contains_key(kk),
                forall|kk: i32| #[trigger] a.workspaces.contains_key(kk) ==> b.workspaces.contains_key(kk)
                    && a.workspaces[kk] == b.workspaces[kk],
        {
            if !self.workspaces.contains_key(k) {
                assert(b.workspaces.contains_key(*k)) by {
                    assert(it2.seq().unref()[it2.index() as int] == *k);
                    assert(it2.seq().unref().to_set().contains(*k));
                }
                return false;
            }
            assert forall|kk: i32|
                it2.index() + 1 == it2.seq().len() && #[trigger] b.workspaces.contains_key(kk) implies a.workspaces.contains_key(kk) by {
                assert(it2.seq().unref().to_set().contains(kk));
                let j = choose|j: int| 0 <= j < it2.seq().len() && it2.seq()[j] == &kk;
                if j < it2.index() {
                    assert(a.workspaces.contains_key(*it2.seq()[j]));
                }
            }
        }
        assert(a.workspaces =~= b.workspaces);
        true
    }

    /// Whether the workspaces and monitors agree with each other; when they
    /// do not, the caller fetches a full snapshot again.
    pub fn is_consistent(&self) -> (res: bool)
        ensures
            res == state_consistent(self@),
    {
        let ghost v = self@;
        let keys = self.workspaces.keys();
        for k in it: keys
            invariant
                v == self@,
                it.seq().unref().to_set() == self.workspaces@.dom(),
                forall|j: int|
                    0 <= j < it.index() ==> #[trigger] v.workspaces[*it.seq()[j]].monitor is Some,
                it.index() == it.seq().len() ==> forall|k: i32| #[trigger] v.workspaces.contains_key(k)
                    ==> v.workspaces[k].monitor is Some,
        {
            match self.workspaces.get(k) {
                Some(w) => {
                    if w.monitor().is_none() {
                        assert(self.workspaces@.contains_key(*k));
                        assert(self.workspaces@[*k] == *w);
                        assert(v.workspaces.contains_key(*k));
                        assert(v.workspaces[*k] == w@);
                        return false;
                    }
                },
                None => {},
            }
            assert forall|kk: i32|
                it.index() + 1 == it.seq().len() && #[trigger] v.workspaces.contains_key(kk) implies v.workspaces[kk].monitor is Some by {
                assert(it.seq().unref().to_set().contains(kk));
                let j = choose|j: int| 0 <= j < it.seq().len() && it.seq()[j] == &kk;
                if j < it.index() {
                    assert(v.workspaces[*it.seq()[j]].monitor is Some);
                }
            }
        }
        let mut i: usize = 0;
        while i < self.monitors.len()
            invariant
                v == self@,
                i <= self.monitors@.len(),
                forall|k: i32| #[trigger] v.workspaces.contains_key(k) ==> v.workspaces[k].monitor is Some,
                forall|j: int|
                    0 <= j < i ==> {
                        let m = #[trigger] v.monitors[j];
                        &&& v.workspaces.contains_key(m.active)
                        &&& v.workspaces[m.active].monitor == Some(m.name)
                        &&& (m.special matches Some(sp) ==> v.workspaces.contains_key(sp)
                            && v.workspaces[sp].monitor == Some(m.name))
                    },
            decreases self.monitors@.len() - i,
        {
            let mon = &self.monitors[i];
            assert(v.monitors[i as int] == mon@);
            let active = mon.active_workspace_id().value();
            match self.workspaces.get(&active) {
                Some(w) => {
                    match w.monitor() {
                        Some(wm) => {
                            if !wm.same_as(mon.name()) {
                                return false;
                            }
                        },
                        None => {
                            return false;
                        },
                    }
                },
                None => {
                    return false;
                },
            }
            match mon.special_workspace_id() {
                Some(sp) => {
                    let spk = sp.value();
                    match self.workspaces.get(&spk) {
                        Some(w) => {
                            match w.monitor() {
                                Some(wm) => {
                                    if !wm.same_as(mon.name()) {
                                        return false;
                                    }
                                },
                                None => {
                                    return false;
                                },
                            }
                        },
                        None => {
                            return false;
                        },
                    }
                },
                None => {},
            }
            i = i + 1;
        }
        true
    }

    /// Index of the monitor with the given name.
    fn find_monitor(&self, name: &MonitorName) -> (res: Option<usize>)
        ensures
            match res {
                Some(i) => i < self.monitors@.len() && self.monitors@[i as int]@.name == name@,
                None => forall|i: int|
                    0 <= i < self.monitors@.len() ==> self.monitors@[i]@.name != name@,
            },
    {
        let mut i: usize = 0;
        while i < self.monitors.len()
            invariant
                i <= self.monitors@.len(),
                forall|j: int| 0 <= j < i ==> self.monitors@[j]@.name != name@,
            decreases self.monitors@.len() - i,
        {
            if self.monitors[i].name().same_as(name) {
                return Some(i);
            }
            i = i + 1;
        }
        None
    }

    fn set_monitor_active(&mut self, name: &MonitorName, id: WorkspaceId)
        requires
            old(self).wf(),
        ensures
            final(self).wf(),
            final(self)@ == (HyprlandStateView {
                monitors: set_active_of(old(self)@.monitors, name@, id@),
                ..old(self)@
            }),
    {
        let ghost old_ms = self@.monitors;
        match self.find_monitor(name) {
            Some(i) => {
                let ghost old_vec = self.monitors@;
                let mut m = self.monitors.remove(i);
                m.set_active_workspace(id);
                self.monitors.insert(i, m);
                assert(self.monitors@ =~= old_vec.update(i as int, m));
                assert forall|j: int| 0 <= j < old_ms.len() implies #[trigger] self@.monitors[j]
                    == set_active_of(old_ms, name@, id@)[j] by {
                    if j != i {
                        assert(old_ms[j].name != old_ms[i as int].name);
                    }
                }
                assert(self@.monitors =~= set_active_of(old_ms, name@, id@));
            },
            None => {
                assert(self@.monitors =~= set_active_of(old_ms, name@, id@));
            },
        }
    }

    fn set_monitor_special(&mut self, name: &MonitorName, id: Option<WorkspaceId>)
        requires
            old(self).wf(),
        ensures
            final(self).wf(),
            final(self)@ == (HyprlandStateView {
                monitors: set_special_of(old(self)@.monitors, name@, opt_id_view(id)),
                ..old(self)@
            }),
    {
        let ghost old_ms = self@.monitors;
        match self.find_monitor(name) {
            Some(i) => {
                let ghost old_vec = self.monitors@;
                let mut m = self.monitors.remove(i);
                m.set_special_workspace(id);
                self.monitors.insert(i, m);
                assert(self.monitors@ =~= old_vec.update(i as int, m));
                assert forall|j: int| 0 <= j < old_ms.len() implies #[trigger] self@.monitors[j]
                    == set_special_of(old_ms, name@, opt_id_view(id))[j] by {
                    if j != i {
                        assert(old_ms[j].name != old_ms[i as int].name);
                    }
                }
                assert(self@.monitors =~= set_special_of(old_ms, name@, opt_id_view(id)));
            },
            None => {
                assert(self@.monitors =~= set_special_of(old_ms, name@, opt_id_view(id)));
            },
        }
    }

    fn put_workspace(&mut self, key: i32, w: Workspace)
        requires
            old(self).wf(),
        ensures
            final(self).wf(),
            final(self)@ == (HyprlandStateView {
                workspaces: old(self)@.workspaces.insert(key, w@),
                ..old(self)@
            }),
    {
        let ghost old_ws = self@.workspaces;
        self.workspaces.insert(key, w);
        assert(self@.workspaces =~= old_ws.insert(key, w@));
    }

    fn assign_workspace_monitor(&mut self, id: &WorkspaceId, monitor: &MonitorName)
        requires
            old(self).wf(),
        ensures
            final(self).wf(),
            final(self)@ == (HyprlandStateView {
                workspaces: assign_monitor(old(self)@.workspaces, id@, monitor@),
                ..old(self)@
            }),
    {
        let key = id.value();
        match self.workspaces.get(&key) {
            Some(w) => {
                let mut w2 = w.duplicate();
                w2.set_monitor(monitor.duplicate());
                self.put_workspace(key, w2);
            },
            None => {},
        }
    }

    /// Applies one window-manager event.
    pub fn apply_event(&mut self, event: &WindowManagerEvent)
        requires
            old(self).wf(),
        ensures
            final(self).wf(),
            final(self)@ == apply_event_spec(old(self)@, *event),
    {
        match event {
            WindowManagerEvent::WorkspaceActivated { id, name } => {
                let key = id.value();
                if !self.workspaces.contains_key(&key) {
                    self.put_workspace(key, Workspace::new(*id, name.duplicate(), None));
                }
                let mon = match &self.focused_monitor {
                    Some(m) => Some(m.duplicate()),
                    None => None,
                };
                if let Some(mon_name) = mon {
                    self.set_monitor_active(&mon_name, *id);
                }
            },
            WindowManagerEvent::WorkspaceCreated { id, name } => {
                let key = id.value();
                if !self.workspaces.contains_key(&key) {
                    self.put_workspace(key, Workspace::new(*id, name.duplicate(), None));
                }
            },
            WindowManagerEvent::WorkspaceDestroyed { id, name: _ } => {
                let ghost old_ws = self@.workspaces;
                let key = id.value();
                self.workspaces.remove(&key);
                assert(self@.workspaces =~= old_ws.remove(key));
            },
            WindowManagerEvent::WorkspaceMoved { id, name, monitor_name } => {
                let key = id.value();
                if self.workspaces.contains_key(&key) {
                    self.assign_workspace_monitor(id, monitor_name);
                } else {
                    self.put_workspace(
                        key,
                        Workspace::new(*id, name.duplicate(), Some(monitor_name.duplicate())),
                    );
                }
            },
            WindowManagerEvent::WorkspaceRenamed { id, new_name } => {
                let key = id.value();
                match self.workspaces.get(&key) {
                    Some(old) => {
                        let monitor = match old.monitor() {
                            Some(m) => Some(m.duplicate()),
                            None => None,
                        };
                        let new_ws = Workspace::new(*id, new_name.duplicate(), monitor);
                        self.put_workspace(key, new_ws);
                    },
                    None => {},
                }
            },
            WindowManagerEvent::MonitorFocused { monitor_name, workspace_id } => {
                self.focused_monitor = Some(monitor_name.duplicate());
                self.set_monitor_active(monitor_name, *workspace_id);
                self.assign_workspace_monitor(workspace_id, monitor_name);
            },
            WindowManagerEvent::SpecialWorkspaceActivated { id, name: _, monitor_name } => {
                self.set_monitor_special(monitor_name, *id);
            },
            WindowManagerEvent::ActiveWindowChanged { .. } => {},
            WindowManagerEvent::WindowTitleChanged { .. } => {},
        }
    }
}

} // verus!
