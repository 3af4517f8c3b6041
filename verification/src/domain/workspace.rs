use vstd::prelude::*;

verus! {

/// Hyprland workspace identifier (negative for special workspaces).
#[derive(Debug, Clone, Copy, PartialEq, Eq, Structural, PartialOrd, Ord, Hash)]
pub struct WorkspaceId(i32);

impl View for WorkspaceId {
    type V = i32;

    closed spec fn view(&self) -> i32 {
        self.0
    }
}

impl WorkspaceId {
    pub fn new(id: i32) -> (res: Self)
        ensures
            res@ == id,
    {
        WorkspaceId(id)
    }

    /// The raw identifier.
    pub fn value(&self) -> (res: i32)
        ensures
            res == self@,
    {
        self.0
    }
}

/// Name of an output as Hyprland reports it (e.g. `DP-1`).
#[derive(Debug, Clone, PartialEq, Eq, PartialOrd, Ord, Hash)]
pub struct MonitorName(String);

impl View for MonitorName {
    type V = Seq<char>;

    closed spec fn view(&self) -> Seq<char> {
        self.0@
    }
}

impl MonitorName {
    pub fn new(name: &str) -> (res: Self)
        ensures
            res@ == name@,
    {
        MonitorName(name.to_owned())
    }

    pub fn as_str(&self) -> (res: &str)
        ensures
            res@ == self@,
    {
        self.0.as_str()
    }

    /// A copy carrying the same name.
    pub fn duplicate(&self) -> (res: Self)
        ensures
            res@ == self@,
    {
        MonitorName(self.0.clone())
    }

    /// Whether both names are the same text.
    pub fn same_as(&self, other: &MonitorName) -> (res: bool)
        ensures
            res == (self@ == other@),
    {
        self.0 == other.0
    }

    /// Whether this name sorts before `other`.
    pub fn precedes(&self, other: &MonitorName) -> (res: bool)
        ensures
            res == name_lt(self@, other@),
    {
        let a = self.0.as_str();
        let b = other.0.as_str();
        let la = a.unicode_len();
        let lb = b.unicode_len();
        let mut i: usize = 0;
        assert(a@.skip(0) =~= a@);
        assert(b@.skip(0) =~= b@);
        while i < la && i < lb
            invariant
                a@ == self@,
                b@ == other@,
                la == a@.len(),
                lb == b@.len(),
                i <= la,
                i <= lb,
                name_lt(a@, b@) == name_lt(a@.skip(i as int), b@.skip(i as int)),
            decreases la - i,
        {
            let ca = a.get_char(i);
            let cb = b.get_char(i);
            assert(a@.skip(i as int)[0] == ca);
            assert(b@.skip(i as int)[0] == cb);
            if ca != cb {
                return (ca as u32) < (cb as u32);
            }
            assert(a@.skip(i as int).drop_first() =~= a@.skip(i + 1));
            assert(b@.skip(i as int).drop_first() =~= b@.skip(i + 1));
            i = i + 1;
        }
        assert(a@.skip(i as int).len() == 0 || b@.skip(i as int).len() == 0);
        i == la && i < lb
    }
}

/// Names in the order their texts sort: character by character by code
/// point, a proper prefix first. This is the order of the texts' UTF-8
/// bytes, the order in which a sorted map of names walks them.
pub open spec fn name_lt(a: Seq<char>, b: Seq<char>) -> bool
    decreases a.len(),
{
    if a.len() == 0 {
        b.len() > 0
    } else if b.len() == 0 {
        false
    } else if a[0] != b[0] {
        (a[0] as int) < (b[0] as int)
    } else {
        name_lt(a.drop_first(), b.drop_first())
    }
}

pub proof fn lemma_name_lt_irreflexive(a: Seq<char>)
    ensures
        !name_lt(a, a),
    decreases a.len(),
{
    if a.len() > 0 {
        lemma_name_lt_irreflexive(a.drop_first());
    }
}

pub proof fn lemma_name_lt_transitive(a: Seq<char>, b: Seq<char>, c: Seq<char>)
    requires
        name_lt(a, b),
        name_lt(b, c),
    ensures
        name_lt(a, c),
    decreases a.len(),
{
    if a.len() > 0 && b.len() > 0 && c.len() > 0 && a[0] == b[0] && b[0] == c[0] {
        lemma_name_lt_transitive(a.drop_first(), b.drop_first(), c.drop_first());
    }
}

pub proof fn lemma_name_lt_total(a: Seq<char>, b: Seq<char>)
    requires
        a != b,
    ensures
        name_lt(a, b) || name_lt(b, a),
    decreases a.len(),
{
    if a.len() > 0 && b.len() > 0 {
        if a[0] == b[0] {
            if a.drop_first() == b.drop_first() {
                assert(a =~= seq![a[0]] + a.drop_first());
                assert(b =~= seq![b[0]] + b.drop_first());
            }
            lemma_name_lt_total(a.drop_first(), b.drop_first());
        } else {
            assert((a[0] as int) != (b[0] as int));
        }
    } else if a.len() == 0 && b.len() == 0 {
        assert(a =~= b);
    }
}

/// Human readable workspace name.
#[derive(Debug, Clone, PartialEq, Eq, Hash)]
pub struct WorkspaceName(String);

impl View for WorkspaceName {
    type V = Seq<char>;

    closed spec fn view(&self) -> Seq<char> {
        self.0@
    }
}

impl WorkspaceName {
    pub fn new(name: &str) -> (res: Self)
        ensures
            res@ == name@,
    {
        WorkspaceName(name.to_owned())
    }

    pub fn as_str(&self) -> (res: &str)
        ensures
            res@ == self@,
    {
        self.0.as_str()
    }

    /// A copy carrying the same name.
    pub fn duplicate(&self) -> (res: Self)
        ensures
            res@ == self@,
    {
        WorkspaceName(self.0.clone())
    }

    /// Whether both names are the same text.
    pub fn same_as(&self, other: &WorkspaceName) -> (res: bool)
        ensures
            res == (self@ == other@),
    {
        self.0 == other.0
    }
}

/// The view of an optional monitor name.
pub open spec fn opt_name_view(m: Option<MonitorName>) -> Option<Seq<char>> {
    match m {
        Some(n) => Some(n@),
        None => None,
    }
}

/// The view of an optional workspace identifier.
pub open spec fn opt_id_view(m: Option<WorkspaceId>) -> Option<i32> {
    match m {
        Some(n) => Some(n@),
        None => None,
    }
}

/// A workspace: its identifier, its name and the monitor showing it, if known.
#[derive(Debug, Clone, PartialEq)]
pub struct Workspace {
    id: WorkspaceId,
    name: WorkspaceName,
    monitor: Option<MonitorName>,
}

/// Abstract value of a workspace: identifier, name, monitor name.
pub struct WorkspaceView {
    pub id: i32,
    pub name: Seq<char>,
    pub monitor: Option<Seq<char>>,
}

impl View for Workspace {
    type V = WorkspaceView;

    closed spec fn view(&self) -> WorkspaceView {
        WorkspaceView { id: self.id@, name: self.name@, monitor: opt_name_view(self.monitor) }
    }
}

impl Workspace {
    pub fn new(id: WorkspaceId, name: WorkspaceName, monitor: Option<MonitorName>) -> (res: Self)
        ensures
            res@ == (WorkspaceView { id: id@, name: name@, monitor: opt_name_view(monitor) }),
    {
        Workspace { id, name, monitor }
    }

    pub fn id(&self) -> (res: &WorkspaceId)
        ensures
            res@ == self@.id,
    {
        &self.id
    }

    pub fn name(&self) -> (res: &WorkspaceName)
        ensures
            res@ == self@.name,
    {
        &self.name
    }

    pub fn monitor(&self) -> (res: Option<&MonitorName>)
        ensures
            match res {
                Some(m) => self@.monitor == Some(m@),
                None => self@.monitor is None,
            },
    {
        match &self.monitor {
            Some(m) => Some(m),
            None => None,
        }
    }

    pub fn set_monitor(&mut self, monitor: MonitorName)
        ensures
            final(self)@ == (WorkspaceView { monitor: Some(monitor@), ..old(self)@ }),
    {
        self.monitor = Some(monitor);
    }

    /// A copy with the same identifier, name and monitor.
    pub fn duplicate(&self) -> (res: Self)
        ensures
            res@ == self@,
    {
        let monitor = match &self.monitor {
            Some(m) => Some(m.duplicate()),
            None => None,
        };
        Workspace { id: self.id, name: self.name.duplicate(), monitor }
    }

    /// Whether both workspaces have the same identifier, name and monitor.
    pub fn same_as(&self, other: &Workspace) -> (res: bool)
        ensures
            res == (self@ == other@),
    {
        let same_monitor = match (&self.monitor, &other.monitor) {
            (Some(a), Some(b)) => a.same_as(b),
            (None, None) => true,
            _ => false,
        };
        self.id.value() == other.id.value() && self.name.same_as(&other.name) && same_monitor
    }
}

/// A monitor: its name, the workspace it shows and its open special workspace.
#[derive(Debug, Clone, PartialEq)]
pub struct Monitor {
    name: MonitorName,
    active_workspace_id: WorkspaceId,
    special_workspace_id: Option<WorkspaceId>,
}

/// Abstract value of a monitor.
pub struct MonitorView {
    pub name: Seq<char>,
    pub active: i32,
    pub special: Option<i32>,
}

impl View for Monitor {
    type V = MonitorView;

    closed spec fn view(&self) -> MonitorView {
        MonitorView {
            name: self.name@,
            active: self.active_workspace_id@,
            special: opt_id_view(self.special_workspace_id),
        }
    }
}

impl Monitor {
    pub fn new(
        name: MonitorName,
        active_workspace_id: WorkspaceId,
        special_workspace_id: Option<WorkspaceId>,
    ) -> (res: Self)
        ensures
            res@ == (MonitorView {
                name: name@,
                active: active_workspace_id@,
                special: opt_id_view(special_workspace_id),
            }),
    {
        Monitor { name, active_workspace_id, special_workspace_id }
    }

    pub fn name(&self) -> (res: &MonitorName)
        ensures
            res@ == self@.name,
    {
        &self.name
    }

    pub fn active_workspace_id(&self) -> (res: &WorkspaceId)
        ensures
            res@ == self@.active,
    {
        &self.active_workspace_id
    }

    pub fn special_workspace_id(&self) -> (res: Option<&WorkspaceId>)
        ensures
            match res {
                Some(w) => self@.special == Some(w@),
                None => self@.special is None,
            },
    {
        match &self.special_workspace_id {
            Some(w) => Some(w),
            None => None,
        }
    }

    pub fn set_active_workspace(&mut self, id: WorkspaceId)
        ensures
            final(self)@ == (MonitorView { active: id@, ..old(self)@ }),
    {
        self.active_workspace_id = id;
    }

    pub fn set_special_workspace(&mut self, id: Option<WorkspaceId>)
        ensures
            final(self)@ == (MonitorView { special: opt_id_view(id), ..old(self)@ }),
    {
        self.special_workspace_id = id;
    }

    /// Whether both monitors have the same name, workspace and special workspace.
    pub fn same_as(&self, other: &Monitor) -> (res: bool)
        ensures
            res == (self@ == other@),
    {
        let same_special = match (&self.special_workspace_id, &other.special_workspace_id) {
            (Some(a), Some(b)) => a.value() == b.value(),
            (None, None) => true,
            _ => false,
        };
        self.name.same_as(&other.name)
            && self.active_workspace_id.value() == other.active_workspace_id.value() && same_special
    }
}

} // verus!
