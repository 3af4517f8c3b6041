use cranky::adapters::sni::{applet_icon, icon_from_pixmaps};
use cranky::domain::app::{batch_continues, AppAction, AppReadModel, CommandStep, ModuleLists};
use cranky::domain::applets::AppletId;
use cranky::domain::commands::AppCommand;
use cranky::domain::config::Config;
use cranky::domain::layout::HitNode;
use cranky::domain::shared::geometry::{Position, Rect, Size};
use cranky::domain::workspace::MonitorName;
use cranky::domain::{ModuleId, MonitorId};
use cranky::frontend::hyprland::{join_path, RealHyprlandProvider};
use cranky::frontend::outputs::Outputs;
use cranky::frontend::ReloadState;
use cranky::services::builtins::{BuiltinError, BuiltinModules};
use cranky::services::commands::ModuleName;
use cranky::services::registry::RegistryLoadError;

fn ids(v: &[u32]) -> Vec<ModuleId> {
    v.iter().map(|&i| ModuleId::new(i)).collect()
}

fn lists(l: &[u32], c: &[u32], r: &[u32]) -> ModuleLists {
    ModuleLists { left: ids(l), center: ids(c), right: ids(r) }
}

fn id_values(v: &[ModuleId]) -> Vec<u32> {
    v.iter().map(|m| m.get()).collect()
}

fn model() -> AppReadModel {
    AppReadModel::new(Config::default(), lists(&[1, 2], &[3], &[]))
}

#[test]
fn a_burst_stops_after_fifty_one_commands() {
    assert!(batch_continues(1));
    assert!(batch_continues(50));
    assert!(!batch_continues(51));
    assert!(!batch_continues(u32::MAX));
}

#[test]
fn size_changes_are_recorded_and_redraw() {
    let mut m = model();
    let dp1 = MonitorId::new("DP-1");
    assert_eq!(m.module_size(&dp1, ModuleId::new(1)), None);
    let step = m.on_command(AppCommand::ModuleSizeChanged(
        MonitorId::new("DP-1"),
        ModuleId::new(1),
        Size::new(40, 20),
    ));
    assert_eq!(step, CommandStep { render: true, action: AppAction::Nothing });
    assert_eq!(m.module_size(&dp1, ModuleId::new(1)), Some(Size::new(40, 20)));
    m.on_command(AppCommand::ModuleSizeChanged(MonitorId::new("DP-2"), ModuleId::new(1), Size::new(7, 8)));
    m.on_command(AppCommand::ModuleSizeChanged(MonitorId::new("DP-1"), ModuleId::new(1), Size::new(50, 20)));
    assert_eq!(m.module_size(&dp1, ModuleId::new(1)), Some(Size::new(50, 20)));
    assert_eq!(m.module_size(&MonitorId::new("DP-2"), ModuleId::new(1)), Some(Size::new(7, 8)));
    assert_eq!(m.module_size(&dp1, ModuleId::new(2)), None);
}

#[test]
fn other_commands_name_their_action_and_do_not_redraw() {
    let mut m = model();
    assert_eq!(
        m.on_command(AppCommand::RequestRender),
        CommandStep { render: false, action: AppAction::Nothing }
    );
    assert_eq!(
        m.on_command(AppCommand::Exec("notify-send hi".to_string())),
        CommandStep { render: false, action: AppAction::RunCommand("notify-send hi".to_string()) }
    );
    assert_eq!(
        m.on_command(AppCommand::AppletAction {
            id: AppletId::new("test_applet"),
            action: "Primary".to_string(),
            pos: Some(Position::new(100, 200)),
        }),
        CommandStep {
            render: false,
            action: AppAction::TriggerApplet {
                id: AppletId::new("test_applet"),
                action: "Primary".to_string(),
                pos: Some(Position::new(100, 200)),
            },
        }
    );
    assert_eq!(
        m.on_command(AppCommand::ShowTooltip { text: "12:00".to_string() }),
        CommandStep { render: false, action: AppAction::ShowTooltip { text: "12:00".to_string() } }
    );
    assert_eq!(
        m.on_command(AppCommand::HideTooltip),
        CommandStep { render: false, action: AppAction::HideTooltip }
    );
    assert_eq!(id_values(m.left_modules()), vec![1, 2]);
    assert_eq!(m.module_size(&MonitorId::new("DP-1"), ModuleId::new(1)), None);
}

#[test]
fn a_new_configuration_forgets_sizes_and_reloads_modules() {
    let mut m = model();
    m.on_command(AppCommand::ModuleSizeChanged(MonitorId::new("DP-1"), ModuleId::new(1), Size::new(4, 4)));
    assert_eq!(m.on_config_changed(Config::default()), AppAction::ReloadRegistry);
    assert_eq!(m.module_size(&MonitorId::new("DP-1"), ModuleId::new(1)), None);
    assert_eq!(id_values(m.left_modules()), vec![1, 2]);
    assert_eq!(id_values(m.center_modules()), vec![3]);
}

#[test]
fn a_registry_load_takes_the_new_sections_only_on_success() {
    let mut m = model();
    assert!(!m.on_registry_loaded(Err(RegistryLoadError::Internal("boom".to_string()))));
    assert_eq!(id_values(m.left_modules()), vec![1, 2]);
    assert!(m.on_registry_loaded(Ok(lists(&[], &[7], &[8, 9]))));
    assert!(m.left_modules().is_empty());
    assert_eq!(id_values(m.center_modules()), vec![7]);
    assert_eq!(id_values(m.right_modules()), vec![8, 9]);
}

#[test]
fn focus_changes_redraw_only_when_the_monitor_changes() {
    let mut m = model();
    assert_eq!(m.focused_monitor(), "");
    assert!(!m.on_focus_changed(None));
    assert!(m.on_focus_changed(Some(MonitorName::new("DP-1"))));
    assert_eq!(m.focused_monitor(), "DP-1");
    assert!(!m.on_focus_changed(Some(MonitorName::new("DP-1"))));
    assert!(m.on_focus_changed(Some(MonitorName::new("HDMI-1"))));
    assert!(m.on_focus_changed(None));
    assert_eq!(m.focused_monitor(), "");
}

#[test]
fn an_unnamed_focused_monitor_is_no_focus() {
    let mut m = model();
    assert!(!m.on_focus_changed(Some(MonitorName::new(""))));
    assert!(!m.on_focus_changed(None));
}

#[test]
fn a_reload_keeps_the_old_configuration_when_it_fails() {
    let mut st = ReloadState::new(Config::default());
    assert!(st.error_message().is_none());
    st.apply_reload(Err("bad toml".to_string()), None);
    assert_eq!(st.error_message().map(|s| s.as_str()), Some("bad toml"));
    st.apply_reload(Ok(Config::default()), Some("Module not found: clock".to_string()));
    assert_eq!(st.error_message().map(|s| s.as_str()), Some("Module not found: clock"));
    st.apply_reload(Ok(Config::default()), None);
    assert!(st.error_message().is_none());
    assert_eq!(st.config().bar().height(), Config::default().bar().height());
}

#[test]
fn outputs_keep_their_handles_in_order() {
    let mut outs: Outputs<&'static str> = Outputs::new();
    outs.add_output(7, "first");
    outs.add_output(9, "second");
    outs.add_output(11, "third");
    assert_eq!(outs.remove_output(9), Some(String::new()));
    let handles: Vec<&str> = outs.entries().iter().map(|o| *o.output()).collect();
    assert_eq!(handles, vec!["first", "third"]);
}

#[test]
fn applet_icon_refuses_sizes_that_overflow() {
    let huge = vec![(70000, 70000, vec![0u8; 4])];
    assert!(applet_icon(&huge).is_none());
    let low = vec![(i32::MIN, 1, vec![])];
    assert!(applet_icon(&low).is_none());
    let ok = vec![(1, 1, vec![10u8, 20, 30, 40]), (72, 1, vec![0u8; 7])];
    assert!(applet_icon(&ok).is_none());
    let good = vec![(2, 1, vec![1u8, 2, 3, 4, 5, 6, 7, 8])];
    let icon = applet_icon(&good).unwrap();
    assert_eq!(icon.data(), &[2u8, 3, 4, 1, 6, 7, 8, 5][..]);
    assert_eq!(icon.size(), Size::new(2, 1));
    assert_eq!(icon_from_pixmaps(&good).unwrap().data(), icon.data());
}

#[test]
fn socket_paths_join_like_paths() {
    let p = RealHyprlandProvider;
    assert_eq!(p.socket_path("/run/user/1000", "abc", ".socket.sock"), "/run/user/1000/hypr/abc/.socket.sock");
    assert_eq!(p.socket_path("/run/user/1000/", "abc", ".socket2.sock"), "/run/user/1000/hypr/abc/.socket2.sock");
    assert_eq!(join_path("", "hypr"), "hypr");
    assert_eq!(join_path("/tmp", "/etc"), "/etc");
}

#[test]
fn test_hit_test() {
    let rect1 = Rect::new(Position::new(0, 0), Size::new(100, 100));
    let rect2 = Rect::new(Position::new(10, 10), Size::new(50, 50));
    let child_node = HitNode { id: 2, rect: rect2, children: vec![] };
    let parent_node = HitNode { id: 1, rect: rect1, children: vec![child_node] };

    // Hit child
    let hit = parent_node.hit_test(Position::new(20, 20));
    assert_eq!(*hit.last().unwrap(), 2);

    // Hit parent only
    let hit2 = parent_node.hit_test(Position::new(80, 80));
    assert_eq!(*hit2.last().unwrap(), 1);

    // Miss
    assert!(parent_node.hit_test(Position::new(200, 200)).is_empty());
}

#[test]
fn hit_test_takes_the_first_child_that_contains_the_point() {
    let leaf = |id: u32, x: i32| HitNode {
        id,
        rect: Rect::new(Position::new(x, 0), Size::new(10, 10)),
        children: vec![],
    };
    let inner = HitNode {
        id: 5,
        rect: Rect::new(Position::new(0, 0), Size::new(20, 10)),
        children: vec![leaf(6, 5)],
    };
    let root = HitNode {
        id: 1,
        rect: Rect::new(Position::new(0, 0), Size::new(40, 10)),
        children: vec![leaf(2, 30), inner, leaf(3, 0)],
    };
    assert_eq!(root.hit_test(Position::new(7, 3)), vec![1, 5, 6]);
    assert_eq!(root.hit_test(Position::new(2, 3)), vec![1, 5]);
    assert_eq!(root.hit_test(Position::new(39, 9)), vec![1, 2]);
    assert_eq!(root.hit_test(Position::new(40, 9)), Vec::<u32>::new());
    let wide = HitNode { id: 8, rect: Rect::new(Position::new(0, 0), Size::new(u32::MAX, 10)), children: vec![] };
    assert!(wide.hit_test(Position::new(5, 5)).is_empty());
}

fn engines() -> Vec<String> {
    vec!["lua".to_string(), "rhai".to_string()]
}

#[test]
fn test_find_module_unsupported_engine() {
    let err = BuiltinModules::select_engines(&ModuleName::new("clock"), Some("python"), &engines())
        .err()
        .expect("Expected error");
    assert_eq!(
        err,
        BuiltinError::UnsupportedEngine {
            engine: "python".to_string(),
            module_name: ModuleName::new("clock"),
        }
    );
}

#[test]
fn test_find_module_not_found() {
    let name = ModuleName::new("nonexistent_module_test");
    assert_eq!(BuiltinModules::select_engines(&name, None, &engines()), Ok(vec![0, 1]));
    let err = BuiltinModules::not_found(&name, None);
    assert_eq!(
        err,
        BuiltinError::ModuleNotFound {
            module_name: ModuleName::new("nonexistent_module_test"),
            engine_suffix: String::new(),
        }
    );
}

#[test]
fn test_find_module_not_found_with_engine() {
    let name = ModuleName::new("nonexistent_module_test");
    assert_eq!(BuiltinModules::select_engines(&name, Some("rhai"), &engines()), Ok(vec![1]));
    let err = BuiltinModules::not_found(&name, Some("rhai"));
    assert_eq!(
        err,
        BuiltinError::ModuleNotFound {
            module_name: ModuleName::new("nonexistent_module_test"),
            engine_suffix: " (engine: rhai)".to_string(),
        }
    );
}

#[test]
fn explicit_engine_selection_keeps_every_match() {
    let es = vec!["lua".to_string(), "rhai".to_string(), "lua".to_string()];
    assert_eq!(BuiltinModules::select_engines(&ModuleName::new("clock"), Some("lua"), &es), Ok(vec![0, 2]));
    assert_eq!(BuiltinModules::select_engines(&ModuleName::new("clock"), None, &vec![]), Ok(vec![]));
}

#[test]
fn test_real_provider_paths() {
    let provider = RealHyprlandProvider;
    let requests = provider.socket_path("/run/user/1000", "sig", ".socket.sock");
    let events = provider.socket_path("/run/user/1000", "sig", ".socket2.sock");
    assert_eq!(requests, "/run/user/1000/hypr/sig/.socket.sock");
    assert_eq!(events, "/run/user/1000/hypr/sig/.socket2.sock");
}

#[test]
fn sizes_of_removed_monitors_are_forgotten() {
    let mut m = model();
    m.on_command(AppCommand::ModuleSizeChanged(MonitorId::new("DP-1"), ModuleId::new(1), Size::new(4, 4)));
    m.on_command(AppCommand::ModuleSizeChanged(MonitorId::new("HDMI-1"), ModuleId::new(1), Size::new(5, 5)));
    m.on_command(AppCommand::ModuleSizeChanged(MonitorId::new("DP-1"), ModuleId::new(2), Size::new(6, 6)));
    m.prune_removed_monitors(&vec![MonitorId::new("DP-1"), MonitorId::new("eDP-1")]);
    assert_eq!(m.module_size(&MonitorId::new("DP-1"), ModuleId::new(1)), Some(Size::new(4, 4)));
    assert_eq!(m.module_size(&MonitorId::new("DP-1"), ModuleId::new(2)), Some(Size::new(6, 6)));
    assert_eq!(m.module_size(&MonitorId::new("HDMI-1"), ModuleId::new(1)), None);
    m.prune_removed_monitors(&vec![]);
    assert_eq!(m.module_size(&MonitorId::new("DP-1"), ModuleId::new(1)), None);
}
