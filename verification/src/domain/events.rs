use vstd::prelude::*;
use crate::domain::workspace::{MonitorName, WorkspaceId, WorkspaceName};

verus! {

/// Address of a window, as Hyprland prints it (e.g. `0x55d1`).
#[derive(Debug, Clone, PartialEq, Eq, Hash)]
pub struct WindowAddress(String);

impl View for WindowAddress {
    type V = Seq<char>;

    closed spec fn view(&self) -> Seq<char> {
        self.0@
    }
}

impl WindowAddress {
    pub fn new(addr: &str) -> (res: Self)
        ensures
            res@ == addr@,
    {
        WindowAddress(addr.to_owned())
    }
}

/// Title of a window.
#[derive(Debug, Clone, PartialEq, Eq, Hash)]
pub struct WindowTitle(String);

impl View for WindowTitle {
    type V = Seq<char>;

    closed spec fn view(&self) -> Seq<char> {
        self.0@
    }
}

impl WindowTitle {
    pub fn new(title: &str) -> (res: Self)
        ensures
            res@ == title@,
    {
        WindowTitle(title.to_owned())
    }
}

/// An event reported by the window manager.
#[derive(Debug, Clone, PartialEq)]
pub enum WindowManagerEvent {
    WorkspaceActivated { id: WorkspaceId, name: WorkspaceName },
    MonitorFocused { monitor_name: MonitorName, workspace_id: WorkspaceId },
    WorkspaceCreated { id: WorkspaceId, name: WorkspaceName },
    WorkspaceDestroyed { id: WorkspaceId, name: WorkspaceName },
    WorkspaceMoved { id: WorkspaceId, name: WorkspaceName, monitor_name: MonitorName },
    WorkspaceRenamed { id: WorkspaceId, new_name: WorkspaceName },
    SpecialWorkspaceActivated {
        id: Option<WorkspaceId>,
        name: Option<WorkspaceName>,
        monitor_name: MonitorName,
    },
    ActiveWindowChanged { address: WindowAddress },
    WindowTitleChanged { address: WindowAddress, title: WindowTitle },
}

/// Abstract value of a [`WindowManagerEvent`]: identifiers and texts.
pub enum EventView {
    WorkspaceActivated { id: i32, name: Seq<char> },
    MonitorFocused { monitor_name: Seq<char>, workspace_id: i32 },
    WorkspaceCreated { id: i32, name: Seq<char> },
    WorkspaceDestroyed { id: i32, name: Seq<char> },
    WorkspaceMoved { id: i32, name: Seq<char>, monitor_name: Seq<char> },
    WorkspaceRenamed { id: i32, new_name: Seq<char> },
    SpecialWorkspaceActivated {
        id: Option<i32>,
        name: Option<Seq<char>>,
        monitor_name: Seq<char>,
    },
    ActiveWindowChanged { address: Seq<char> },
    WindowTitleChanged { address: Seq<char>, title: Seq<char> },
}

impl View for WindowManagerEvent {
    type V = EventView;

    open spec fn view(&self) -> EventView {
        match *self {
            WindowManagerEvent::WorkspaceActivated { id, name } => EventView::WorkspaceActivated {
                id: id@,
                name: name@,
            },
            WindowManagerEvent::MonitorFocused { monitor_name, workspace_id } =>
                EventView::MonitorFocused {
                monitor_name: monitor_name@,
                workspace_id: workspace_id@,
            },
            WindowManagerEvent::WorkspaceCreated { id, name } => EventView::WorkspaceCreated {
                id: id@,
                name: name@,
            },
            WindowManagerEvent::WorkspaceDestroyed { id, name } => EventView::WorkspaceDestroyed {
                id: id@,
                name: name@,
            },
            WindowManagerEvent::WorkspaceMoved { id, name, monitor_name } =>
                EventView::WorkspaceMoved { id: id@, name: name@, monitor_name: monitor_name@ },
            WindowManagerEvent::WorkspaceRenamed { id, new_name } => EventView::WorkspaceRenamed {
                id: id@,
                new_name: new_name@,
            },
            WindowManagerEvent::SpecialWorkspaceActivated { id, name, monitor_name } =>
                EventView::SpecialWorkspaceActivated {
                id: match id {
                    Some(i) => Some(i@),
                    None => None,
                },
                name: match name {
                    Some(n) => Some(n@),
                    None => None,
                },
                monitor_name: monitor_name@,
            },
            WindowManagerEvent::ActiveWindowChanged { address } =>
                EventView::ActiveWindowChanged { address: address@ },
            WindowManagerEvent::WindowTitleChanged { address, title } =>
                EventView::WindowTitleChanged { address: address@, title: title@ },
        }
    }
}

} // verus!
