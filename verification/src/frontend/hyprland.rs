//! Hyprland's monitors and workspaces as the Wayland front end reads them.
use vstd::prelude::*;

verus! {

/// A workspace and the output it is on.
#[derive(Debug, Clone)]
pub struct Workspace {
    id: i32,
    monitor: String,
}

impl Workspace {
    pub closed spec fn spec_id(&self) -> i32 {
        self.id
    }

    pub closed spec fn spec_monitor(&self) -> Seq<char> {
        self.monitor@
    }

    pub fn new(id: i32, monitor: String) -> (res: Self)
        ensures
            res.spec_id() == id,
            res.spec_monitor() == monitor@,
    {
        Workspace { id, monitor }
    }

    pub fn id(&self) -> (res: i32)
        ensures
            res == self.spec_id(),
    {
        self.id
    }

    pub fn monitor(&self) -> (res: &str)
        ensures
            res@ == self.spec_monitor(),
    {
        self.monitor.as_str()
    }
}

/// The workspace an output shows.
#[derive(Debug, Clone, Copy, PartialEq, Eq, Structural)]
pub struct ActiveWorkspace {
    pub id: i32,
}

/// An output: its name, the workspace it shows, and whether it has focus.
#[derive(Debug, Clone)]
pub struct Monitor {
    name: String,
    active_workspace: ActiveWorkspace,
    focused: bool,
}

impl Monitor {
    pub closed spec fn spec_name(&self) -> Seq<char> {
        self.name@
    }

    pub closed spec fn spec_active(&self) -> i32 {
        self.active_workspace.id
    }

    pub closed spec fn spec_focused(&self) -> bool {
        self.focused
    }

    pub fn new(name: String, active_workspace_id: i32, focused: bool) -> (res: Self)
        ensures
            res.spec_name() == name@,
            res.spec_active() == active_workspace_id,
            res.spec_focused() == focused,
    {
        Monitor { name, active_workspace: ActiveWorkspace { id: active_workspace_id }, focused }
    }

    pub fn name(&self) -> (res: &str)
        ensures
            res@ == self.spec_name(),
    {
        self.name.as_str()
    }

    pub fn active_workspace_id(&self) -> (res: i32)
        ensures
            res == self.spec_active(),
    {
        self.active_workspace.id
    }

    pub fn focused(&self) -> (res: bool)
        ensures
            res == self.spec_focused(),
    {
        self.focused
    }
}

/// A path with `part` appended as the path type of the platform appends a
/// relative or absolute component: an absolute `part` replaces the path,
/// otherwise a `/` separates the two unless `base` is empty or already ends
/// with one.
pub open spec fn path_join(base: Seq<char>, part: Seq<char>) -> Seq<char> {
    if part.len() > 0 && part[0] == '/' {
        part
    } else if base.len() == 0 || base.last() == '/' {
        base + part
    } else {
        base + seq!['/'] + part
    }
}

/// Appends `part` to the path `base`.
pub fn join_path(base: &str, part: &str) -> (res: String)
    ensures
        res@ == path_join(base@, part@),
{
    if part.unicode_len() > 0 && part.get_char(0) == '/' {
        return part.to_owned();
    }
    let mut out = base.to_owned();
    let n = base.unicode_len();
    if n > 0 && base.get_char(n - 1) != '/' {
        proof {
            reveal_strlit("/");
        }
        out.append("/");
    }
    out.append(part);
    out
}

/// The provider that asks the running Hyprland over its sockets.
pub struct RealHyprlandProvider;

impl RealHyprlandProvider {
    /// Where the socket named `socket` of the Hyprland instance `signature`
    /// lies, under the user's runtime directory:
    /// `<runtime_dir>/hypr/<signature>/<socket>`.
    pub fn socket_path(&self, runtime_dir: &str, signature: &str, socket: &str) -> (res: String)
        ensures
            res@ == path_join(path_join(path_join(runtime_dir@, "hypr"@), signature@), socket@),
    {
        let hypr = join_path(runtime_dir, "hypr");
        let instance = join_path(hypr.as_str(), signature);
        join_path(instance.as_str(), socket)
    }
}

} // verus!
