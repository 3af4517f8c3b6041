use cranky::adapters::hyprland::{
    state_from_lists, BatchOutcome, HyprMonitorDto, HyprWorkspaceDto, HyprlandAdapter,
};
use cranky::application::hyprland::{
    HyprlandEvent, HyprlandStateUpdater, MonitorEntry, TrackedState, WorkspaceEntry,
};
use cranky::domain::events::{WindowAddress, WindowManagerEvent, WindowTitle};
use cranky::domain::signals::HyprlandState;
use cranky::domain::workspace::{Monitor, MonitorName, Workspace, WorkspaceId, WorkspaceName};
use cranky::frontend::hyprland::{Monitor as HyprMonitor, Workspace as HyprWorkspace};
use std::collections::BTreeMap;

#[test]
fn test_parse_event() {
    let e = HyprlandAdapter::parse_event("workspacev2>>1,test_ws").unwrap();
    assert_eq!(e, WindowManagerEvent::WorkspaceActivated {
        id: WorkspaceId::new(1),
        name: WorkspaceName::new("test_ws"),
    });

    let e = HyprlandAdapter::parse_event("focusedmonv2>>DP-1,2").unwrap();
    assert_eq!(e, WindowManagerEvent::MonitorFocused {
        monitor_name: MonitorName::new("DP-1"),
        workspace_id: WorkspaceId::new(2),
    });

    let e = HyprlandAdapter::parse_event("createworkspacev2>>3,new_ws").unwrap();
    assert_eq!(e, WindowManagerEvent::WorkspaceCreated {
        id: WorkspaceId::new(3),
        name: WorkspaceName::new("new_ws"),
    });

    let e = HyprlandAdapter::parse_event("destroyworkspacev2>>4,old_ws").unwrap();
    assert_eq!(e, WindowManagerEvent::WorkspaceDestroyed {
        id: WorkspaceId::new(4),
        name: WorkspaceName::new("old_ws"),
    });

    let e = HyprlandAdapter::parse_event("moveworkspacev2>>5,moved_ws,HDMI-1").unwrap();
    assert_eq!(e, WindowManagerEvent::WorkspaceMoved {
        id: WorkspaceId::new(5),
        name: WorkspaceName::new("moved_ws"),
        monitor_name: MonitorName::new("HDMI-1"),
    });

    let e = HyprlandAdapter::parse_event("renameworkspace>>6,renamed_ws").unwrap();
    assert_eq!(e, WindowManagerEvent::WorkspaceRenamed {
        id: WorkspaceId::new(6),
        new_name: WorkspaceName::new("renamed_ws"),
    });

    let e = HyprlandAdapter::parse_event("activespecialv2>>7,special,DP-2").unwrap();
    assert_eq!(e, WindowManagerEvent::SpecialWorkspaceActivated {
        id: Some(WorkspaceId::new(7)),
        name: Some(WorkspaceName::new("special")),
        monitor_name: MonitorName::new("DP-2"),
    });

    let e = HyprlandAdapter::parse_event("activespecialv2>>0,,DP-2").unwrap();
    assert_eq!(e, WindowManagerEvent::SpecialWorkspaceActivated {
        id: None,
        name: None,
        monitor_name: MonitorName::new("DP-2"),
    });

    let e = HyprlandAdapter::parse_event("activespecialv2>>-98,special:magic,DP-2").unwrap();
    assert_eq!(e, WindowManagerEvent::SpecialWorkspaceActivated {
        id: Some(WorkspaceId::new(-98)),
        name: Some(WorkspaceName::new("special:magic")),
        monitor_name: MonitorName::new("DP-2"),
    });

    let e = HyprlandAdapter::parse_event("activewindowv2>>0x123").unwrap();
    assert_eq!(e, WindowManagerEvent::ActiveWindowChanged {
        address: WindowAddress::new("0x123"),
    });

    let e = HyprlandAdapter::parse_event("windowtitlev2>>0x456,Title").unwrap();
    assert_eq!(e, WindowManagerEvent::WindowTitleChanged {
        address: WindowAddress::new("0x456"),
        title: WindowTitle::new("Title"),
    });

    assert_eq!(HyprlandAdapter::parse_event("invalid>>data"), None);
    assert_eq!(HyprlandAdapter::parse_event("missing"), None);
}

#[test]
fn parse_event_rejects_bad_ids() {
    assert_eq!(HyprlandAdapter::parse_event("workspacev2>>x,ws"), None);
    assert_eq!(HyprlandAdapter::parse_event("moveworkspacev2>>1,ws"), None);
}

#[test]
fn test_workspace_getters() {
    let ws = HyprWorkspace::new(1, "eDP-1".to_string());
    assert_eq!(ws.id(), 1);
    assert_eq!(ws.monitor(), "eDP-1");
}

#[test]
fn test_monitor_getters() {
    let m = HyprMonitor::new("eDP-1".to_string(), 1, true);
    assert_eq!(m.name(), "eDP-1");
    assert_eq!(m.active_workspace_id(), 1);
    assert!(m.focused());
}

fn two_monitor_state() -> HyprlandState {
    let mut ws = BTreeMap::new();
    ws.insert(
        1,
        Workspace::new(WorkspaceId::new(1), WorkspaceName::new("1"), Some(MonitorName::new("DP-1"))),
    );
    let monitors = vec![
        Monitor::new(MonitorName::new("DP-1"), WorkspaceId::new(1), None),
        Monitor::new(MonitorName::new("HDMI-1"), WorkspaceId::new(1), None),
    ];
    HyprlandState::new(ws, monitors, Some(MonitorName::new("DP-1")))
}

#[test]
fn state_applies_create_activate_destroy() {
    let mut st = two_monitor_state();
    st.apply_event(&WindowManagerEvent::WorkspaceCreated {
        id: WorkspaceId::new(2),
        name: WorkspaceName::new("two"),
    });
    assert!(st.workspaces().contains_key(&2));
    st.apply_event(&WindowManagerEvent::WorkspaceActivated {
        id: WorkspaceId::new(2),
        name: WorkspaceName::new("two"),
    });
    assert_eq!(st.monitors()[0].active_workspace_id().value(), 2);
    assert_eq!(st.monitors()[1].active_workspace_id().value(), 1);
    st.apply_event(&WindowManagerEvent::WorkspaceDestroyed {
        id: WorkspaceId::new(2),
        name: WorkspaceName::new("two"),
    });
    assert!(!st.workspaces().contains_key(&2));
}

fn sample_state() -> TrackedState {
    TrackedState {
        monitors: vec![
            MonitorEntry {
                name: MonitorName::new("DP-1"),
                active_workspace_id: WorkspaceId::new(1),
                focused: true,
            },
            MonitorEntry {
                name: MonitorName::new("HDMI-1"),
                active_workspace_id: WorkspaceId::new(2),
                focused: false,
            },
        ],
        workspaces: vec![
            WorkspaceEntry { id: WorkspaceId::new(1), name: WorkspaceName::new("one"), monitor: None },
            WorkspaceEntry { id: WorkspaceId::new(2), name: WorkspaceName::new("two"), monitor: None },
        ],
    }
}

#[test]
fn updater_focus_moves_and_activates() {
    let mut st = sample_state();
    HyprlandStateUpdater::apply_event(
        &mut st,
        HyprlandEvent::FocusedMon(MonitorName::new("HDMI-1"), WorkspaceName::new("one")),
    );
    assert!(!st.monitors[0].focused);
    assert!(st.monitors[1].focused);
    assert_eq!(st.monitors[1].active_workspace_id.value(), 1);
    assert_eq!(st.workspaces[0].monitor.as_ref().map(|m| m.as_str()), Some("HDMI-1"));
    HyprlandStateUpdater::apply_event(&mut st, HyprlandEvent::Workspace(WorkspaceId::new(2), WorkspaceName::new("two")));
    assert_eq!(st.monitors[1].active_workspace_id.value(), 2);
    assert_eq!(st.monitors[0].active_workspace_id.value(), 1);
}

#[test]
fn updater_create_move_destroy() {
    let mut st = sample_state();
    HyprlandStateUpdater::apply_event(&mut st, HyprlandEvent::CreateWorkspace(WorkspaceId::new(3), WorkspaceName::new("three")));
    assert_eq!(st.workspaces.len(), 3);
    assert!(st.workspaces[2].monitor.is_none());
    HyprlandStateUpdater::apply_event(
        &mut st,
        HyprlandEvent::MoveWorkspace(WorkspaceId::new(3), WorkspaceName::new("three"), MonitorName::new("DP-1")),
    );
    assert_eq!(st.workspaces[2].monitor.as_ref().map(|m| m.as_str()), Some("DP-1"));
    HyprlandStateUpdater::apply_event(&mut st, HyprlandEvent::DestroyWorkspace(WorkspaceId::new(1), WorkspaceName::new("one")));
    assert_eq!(st.workspaces.len(), 2);
    assert!(st.workspaces.iter().all(|w| w.id.value() != 1));
    HyprlandStateUpdater::apply_event(&mut st, HyprlandEvent::Other);
    assert_eq!(st.workspaces.len(), 2);
    assert_eq!(st.monitors.len(), 2);
}

#[test]
fn state_from_lists_last_entry_wins() {
    let workspaces = vec![
        HyprWorkspaceDto { id: 1, name: "a".into(), monitor: "DP-1".into() },
        HyprWorkspaceDto { id: 1, name: "b".into(), monitor: "DP-2".into() },
    ];
    let monitors = vec![
        HyprMonitorDto { name: "DP-1".into(), active_workspace: 1, special_workspace: 0, focused: true },
        HyprMonitorDto { name: "DP-2".into(), active_workspace: 2, special_workspace: -98, focused: false },
        HyprMonitorDto { name: "DP-1".into(), active_workspace: 3, special_workspace: 0, focused: false },
    ];
    let st = state_from_lists(workspaces, monitors);
    assert_eq!(st.workspaces().len(), 1);
    assert_eq!(st.workspaces()[&1].name().as_str(), "b");
    assert_eq!(st.monitors().len(), 2);
    assert_eq!(st.monitors()[0].active_workspace_id().value(), 3);
    assert_eq!(st.monitors()[1].special_workspace_id().map(|w| w.value()), Some(-98));
    assert_eq!(st.focused_monitor().map(|m| m.as_str()), Some("DP-1"));
}

#[test]
fn consistency_check() {
    let st = two_monitor_state();
    assert!(!st.is_consistent());
    let mut ws = BTreeMap::new();
    ws.insert(
        1,
        Workspace::new(WorkspaceId::new(1), WorkspaceName::new("1"), Some(MonitorName::new("DP-1"))),
    );
    let ok = HyprlandState::new(
        ws,
        vec![Monitor::new(MonitorName::new("DP-1"), WorkspaceId::new(1), None)],
        None,
    );
    assert!(ok.is_consistent());
}

#[test]
fn event_lines_drive_the_state() {
    let mut ws = BTreeMap::new();
    ws.insert(
        1,
        Workspace::new(WorkspaceId::new(1), WorkspaceName::new("1"), Some(MonitorName::new("DP-1"))),
    );
    let mut st = HyprlandState::new(
        ws,
        vec![Monitor::new(MonitorName::new("DP-1"), WorkspaceId::new(1), None)],
        Some(MonitorName::new("DP-1")),
    );
    assert!(!HyprlandAdapter::process_line(&mut st, "openwindow>>abc"));
    assert_eq!(HyprlandAdapter::batch_outcome(&st, false), BatchOutcome::Idle);
    assert!(HyprlandAdapter::process_line(&mut st, "moveworkspacev2>>1,1,DP-1\n"));
    assert_eq!(HyprlandAdapter::batch_outcome(&st, true), BatchOutcome::Publish);
    assert!(HyprlandAdapter::process_line(&mut st, "workspacev2>>2,two\n"));
    assert_eq!(HyprlandAdapter::batch_outcome(&st, true), BatchOutcome::Resync);
}

#[test]
fn applying_an_event_twice_is_applying_it_once() {
    let events = vec![
        WindowManagerEvent::WorkspaceCreated { id: WorkspaceId::new(5), name: WorkspaceName::new("five") },
        WindowManagerEvent::MonitorFocused { monitor_name: MonitorName::new("HDMI-1"), workspace_id: WorkspaceId::new(1) },
        WindowManagerEvent::WorkspaceMoved {
            id: WorkspaceId::new(1),
            name: WorkspaceName::new("1"),
            monitor_name: MonitorName::new("HDMI-1"),
        },
        WindowManagerEvent::WorkspaceRenamed { id: WorkspaceId::new(1), new_name: WorkspaceName::new("uno") },
    ];
    for e in events {
        let mut once = two_monitor_state();
        once.apply_event(&e);
        let mut twice = once.clone();
        twice.apply_event(&e);
        assert_eq!(once, twice);
    }
}

#[test]
fn create_then_destroy_restores() {
    let before = two_monitor_state();
    let mut st = before.clone();
    st.apply_event(&WindowManagerEvent::WorkspaceCreated { id: WorkspaceId::new(9), name: WorkspaceName::new("x") });
    st.apply_event(&WindowManagerEvent::WorkspaceDestroyed { id: WorkspaceId::new(9), name: WorkspaceName::new("y") });
    assert_eq!(st, before);
}

#[test]
fn only_focus_events_move_focus() {
    let mut st = two_monitor_state();
    st.apply_event(&WindowManagerEvent::ActiveWindowChanged { address: WindowAddress::new("0x1") });
    assert_eq!(st.focused_monitor().map(|m| m.as_str()), Some("DP-1"));
    st.apply_event(&WindowManagerEvent::MonitorFocused {
        monitor_name: MonitorName::new("HDMI-1"),
        workspace_id: WorkspaceId::new(1),
    });
    assert_eq!(st.focused_monitor().map(|m| m.as_str()), Some("HDMI-1"));
    assert_eq!(st.monitors().len(), 2);
    assert_eq!(st.monitors()[0].name().as_str(), "DP-1");
    assert_eq!(st.monitors()[1].name().as_str(), "HDMI-1");
}

#[test]
fn event_lines_ignore_surrounding_whitespace() {
    assert_eq!(
        HyprlandAdapter::parse_event("  workspacev2>>1,a \n"),
        HyprlandAdapter::parse_event("workspacev2>>1,a")
    );
}

#[test]
fn state_from_lists_orders_monitors_by_name() {
    let monitors = vec![
        HyprMonitorDto { name: "HDMI-1".into(), active_workspace: 2, special_workspace: 0, focused: false },
        HyprMonitorDto { name: "DP-2".into(), active_workspace: 3, special_workspace: 0, focused: true },
        HyprMonitorDto { name: "DP-1".into(), active_workspace: 1, special_workspace: 0, focused: false },
        HyprMonitorDto { name: "DP-10".into(), active_workspace: 4, special_workspace: 0, focused: false },
    ];
    let st = state_from_lists(vec![], monitors);
    let names: Vec<&str> = st.monitors().iter().map(|m| m.name().as_str()).collect();
    assert_eq!(names, vec!["DP-1", "DP-10", "DP-2", "HDMI-1"]);
    assert_eq!(st.monitors()[2].active_workspace_id().value(), 3);
    assert_eq!(st.focused_monitor().map(|m| m.as_str()), Some("DP-2"));
}

#[test]
fn a_state_goes_out_only_when_it_changed_and_differs() {
    let sent = two_monitor_state();
    let same = two_monitor_state();
    assert!(!HyprlandAdapter::should_publish(&sent, &same, true));
    let mut moved = two_monitor_state();
    moved.apply_event(&WindowManagerEvent::MonitorFocused {
        monitor_name: MonitorName::new("HDMI-1"),
        workspace_id: WorkspaceId::new(1),
    });
    assert!(HyprlandAdapter::should_publish(&sent, &moved, true));
    assert!(!HyprlandAdapter::should_publish(&sent, &moved, false));
    let mut created = two_monitor_state();
    created.apply_event(&WindowManagerEvent::WorkspaceCreated { id: WorkspaceId::new(4), name: WorkspaceName::new("four") });
    assert!(HyprlandAdapter::should_publish(&sent, &created, true));
    assert!(HyprlandAdapter::should_publish(&created, &sent, true));
    assert!(sent.same_as(&same));
    assert!(!sent.same_as(&created));
}

#[test]
fn padding_around_an_event_line_changes_nothing() {
    let plain = HyprlandAdapter::parse_event("workspacev2>>2,two");
    assert_eq!(HyprlandAdapter::parse_event("workspacev2>>2,two\n"), plain);
    assert_eq!(HyprlandAdapter::parse_event("  workspacev2>>2,two"), plain);
    assert!(plain.is_some());
    assert_eq!(HyprlandAdapter::parse_event("workspacev2 2,two"), None);
}
