use cranky::adapters::sni::{
    applet_key, argb_to_rgba, best_pixmap, icon_from_pixmaps, parse_status, registration_target,
    sni_action, SniAction, SniAdapterError,
};
use cranky::adapters::wayland::SurfaceCommand;
use cranky::adapters::zbus::DBusPortError;
use cranky::adapters::config::ConfigAdapterError;
use cranky::config::RenderingMode as LegacyRenderingMode;
use cranky::config::{MarginConfig as LegacyMargin, PartialMarginConfig as LegacyPartialMargin};
use cranky::domain::applets::{
    AppletId, AppletItem, AppletStatus, CreateAppletCommand, Destination, IconImage, IconName,
    ObjectPath, Title,
};
use cranky::domain::bar_app::AppError as DomainAppError;
use cranky::domain::errors::{DomainError, PortError};
use cranky::domain::color::ColorError;
use cranky::domain::layout::{LayoutError, TextContent};
use cranky::domain::metrics::{
    disk_metric_of, network_totals, CpuMode, DiskMetric, DiskName, DiskMode, MemoryBytes,
    MemoryMode, MetricsConfig, MountPoint, NetworkMode, NetworkSpeed, UpdateInterval,
};
use cranky::domain::shared::geometry::{BarWidth, Position, Rect, Size};
use cranky::domain::shared::render::RenderBuffer;
use cranky::domain::{ModuleId, MonitorId};
use cranky::frontend::bar::{exclusive_zone, BarState, PixelSize, Resize};
use cranky::frontend::{tick_cadence, CoreError, TickCadence};
use cranky::services::builtins::{BuiltinError, BuiltinModules};
use cranky::services::commands::{reload_for_script, ModuleName, StyleSheetName, SystemCommand};
use cranky::services::registry::{ModuleError, RegistryLoadError};
use cranky::services::state::AppError;
use std::time::Duration;
use cranky::services::supervisor::{millis_to_next_second, AdapterKind, AdapterStart, AdapterSupervisor};
use cranky::frontend::outputs::{
    draws_focused, focus_after_poll, focused_monitor_of, should_create_bar, Outputs,
};
use cranky::frontend::hyprland::Monitor as FrontMonitor;

fn cadence_duration(c: TickCadence) -> Option<Duration> {
    match c {
        TickCadence::SleepMillis(ms) => Some(Duration::from_millis(ms)),
        TickCadence::SleepPerFrame(fps) => Some(Duration::from_secs_f64(1.0 / (fps as f64))),
        TickCadence::Yield => None,
    }
}

#[test]
fn test_surface_command_struct() {
    let module_id = ModuleId::new(2);
    let monitor_id = MonitorId::new("HDMI-1");
    let buffer = RenderBuffer::new(vec![0; 1600], Size::new(20, 20));
    let cmd = SurfaceCommand { module_id, monitor_id: monitor_id.clone(), buffer };

    assert_eq!(cmd.module_id, module_id);
    assert_eq!(cmd.monitor_id, monitor_id);
    assert_eq!(cmd.buffer.height(), 20);
}

#[test]
fn test_builtin_error_display() {
    assert_eq!(
        BuiltinError::Env("var".into()).to_string(),
        "HOME environment variable not set: var"
    );
    assert_eq!(BuiltinError::Io("error".into()).to_string(), "IO error: error");
    assert_eq!(
        BuiltinError::UnsupportedEngine { engine: "py".into(), module_name: ModuleName::new("mod") }
            .to_string(),
        "Unsupported engine 'py' for module 'mod' (expected 'rhai' or 'lua')"
    );
    assert_eq!(
        BuiltinError::ModuleNotFound {
            module_name: ModuleName::new("mod"),
            engine_suffix: " (engine: rhai)".to_string(),
        }
        .to_string(),
        "Module 'mod' not found (engine: rhai)"
    );
}

#[test]
fn test_system_command_equality() {
    let cmd1 = SystemCommand::ReloadModule(ModuleName::new("hour"));
    let cmd2 = SystemCommand::ReloadModule(ModuleName::new("hour"));
    let cmd3 = SystemCommand::ReloadStyle(StyleSheetName::new("bar").unwrap());
    assert_eq!(cmd1, cmd2);
    assert_ne!(cmd1, cmd3);
}

#[test]
fn test_module_error_display() {
    let err2 = ModuleError::Internal { message: "error".into() };
    assert_eq!(err2.to_string(), "Internal module error: error");
}

#[test]
fn test_app_error_fmt() {
    let err1 = AppError::Module(RegistryLoadError::ModuleNotFound(ModuleName::new("test")));
    assert_eq!(err1.to_string(), "Module error: Module not found: test");
    let err2 = AppError::Internal { message: "test".into() };
    assert_eq!(err2.to_string(), "Internal error: test");
}

#[test]
fn test_tick_cadence_timebased() {
    let cadence = tick_cadence(&LegacyRenderingMode::Timebased { duration_ms: 100 });
    assert_eq!(cadence_duration(cadence), Some(Duration::from_millis(100)));
}

#[test]
fn test_tick_cadence_timebased_zero_is_clamped() {
    let cadence = tick_cadence(&LegacyRenderingMode::Timebased { duration_ms: 0 });
    assert_eq!(cadence_duration(cadence), Some(Duration::from_millis(1)));
}

#[test]
fn test_tick_cadence_immediate_with_limit() {
    let cadence = tick_cadence(&LegacyRenderingMode::Immediate { fps_limit: Some(60) });
    assert_eq!(cadence_duration(cadence), Some(Duration::from_secs_f64(1.0 / 60.0)));
}

#[test]
fn test_tick_cadence_immediate_unlimited() {
    let cadence = tick_cadence(&LegacyRenderingMode::Immediate { fps_limit: None });
    assert_eq!(cadence, TickCadence::Yield);
}

#[test]
fn test_tick_cadence_immediate_zero_is_unlimited() {
    let cadence = tick_cadence(&LegacyRenderingMode::Immediate { fps_limit: Some(0) });
    assert_eq!(cadence, TickCadence::Yield);
}

#[test]
fn test_applet_types() {
    assert_eq!(AppletId::new("id").as_str(), "id");
    assert_eq!(Destination::new("dest").as_str(), "dest");
    assert_eq!(ObjectPath::new("/path").as_str(), "/path");
    assert_eq!(Title::new("title").as_str(), "title");
    assert_eq!(IconName::new("icon").as_str(), "icon");
    let size = Size::new(10, 10);
    let img = IconImage::new(vec![0], size);
    assert_eq!(img.size(), size);
}

#[test]
fn test_applet_item() {
    let cmd = CreateAppletCommand {
        id: AppletId::new("1"),
        destination: Destination::new("dest"),
        path: ObjectPath::new("/"),
        title: Title::new("t"),
        status: AppletStatus::Active,
        icon_name: None,
        icon_image: None,
        menu_path: None,
    };
    let item = AppletItem::new(cmd);
    assert_eq!(item.id(), &AppletId::new("1"));
    assert_eq!(item.destination(), &Destination::new("dest"));
    assert_eq!(item.path(), &ObjectPath::new("/"));
}

#[test]
fn test_text_content() {
    let text = TextContent::new("hello".to_string());
    assert_eq!(text.as_str(), "hello");
}

#[test]
fn test_metrics_config() {
    let config = MetricsConfig::default();
    assert_eq!(*config.cpu(), CpuMode::Percentage0to100);
    assert_eq!(config.network(), None);
    assert_eq!(config.temperature(), None);
    assert_eq!(config.disk(), None);
    assert_eq!(config.update_interval_ms().value(), 1000);
}

#[test]
fn test_disk_metric() {
    let dm = DiskMetric::new(
        DiskName::new("nvme0n1"),
        MountPoint::new("/"),
        MemoryBytes::new(100),
        MemoryBytes::new(20),
        MemoryBytes::new(80),
    );
    assert_eq!(dm.name(), &DiskName::new("nvme0n1"));
    assert_eq!(dm.mount_point(), &MountPoint::new("/"));
}

#[test]
fn test_bar_state_dimensions() {
    let state = BarState { width: 100, height: 30, scale: 2 };
    assert_eq!(state.width * state.scale as u32, 200);
    assert_eq!(state.height * state.scale as u32, 60);
    assert_eq!(state.scaled_width(), 200);
    assert_eq!(state.scaled_height(), 60);
    assert_eq!(state.required_size(), 200 * 60 * 4);
}

#[test]
fn test_bar_state_default() {
    let state = BarState::default();
    assert_eq!(state.width, 0);
    assert_eq!(state.height, 0);
    assert_eq!(state.scale, 0);
}

#[test]
fn bar_state_resizes() {
    let mut state = BarState { width: 100, height: 30, scale: 1 };
    assert_eq!(state.set_width(100, 0), Resize::Unchanged);
    assert_eq!(
        state.set_width(200, 100 * 30 * 4),
        Resize::Redraw { grow_to: Some(PixelSize { width: 200, height: 30 }) }
    );
    assert_eq!(state.set_scale(2, 1_000_000), Resize::Redraw { grow_to: None });
    assert_eq!(state, BarState { width: 200, height: 30, scale: 2 });
    assert_eq!(state.set_height(40, 0), Resize::Redraw { grow_to: Some(PixelSize { width: 400, height: 80 }) });
    assert_eq!(exclusive_zone(30, 5, 3), 38);
    assert_eq!(exclusive_zone(30, -40, 0), -10);
}

#[test]
fn geometry_accessors() {
    let r = Rect::new(Position::new(-3, 4), Size::new(10, 20));
    assert_eq!((r.x(), r.y(), r.width(), r.height()), (-3, 4, 10, 20));
    assert_eq!(*r.position(), Position::new(-3, 4));
    assert_eq!(*r.size(), Size::new(10, 20));
    assert_eq!(BarWidth::new(1920).value(), 1920);
    let b = RenderBuffer::new(vec![1, 2, 3, 4], Size::new(1, 1));
    assert_eq!(b.data(), &[1, 2, 3, 4]);
    assert_eq!(b.width(), 1);
    assert_eq!(b.into_data(), vec![1, 2, 3, 4]);
}

#[test]
fn metric_values() {
    assert_eq!(MemoryBytes::new(1024).value(), 1024);
    assert_eq!(NetworkSpeed::new(512).value(), 512);
    assert_eq!(DiskName::new("sda1").as_str(), "sda1");
    assert_eq!(MountPoint::new("/mnt").as_str(), "/mnt");
}

#[test]
fn sni_status_and_actions() {
    assert_eq!(parse_status("Active"), AppletStatus::Active);
    assert_eq!(parse_status("Passive"), AppletStatus::Passive);
    assert_eq!(parse_status("NeedsAttention"), AppletStatus::NeedsAttention);
    assert_eq!(parse_status("active"), AppletStatus::Unknown);
    assert_eq!(sni_action("Primary"), Some(SniAction::Primary));
    assert_eq!(sni_action("ScrollUp"), Some(SniAction::Scroll { delta: -1, vertical: true }));
    assert_eq!(sni_action("ScrollRight"), Some(SniAction::Scroll { delta: 1, vertical: false }));
    assert_eq!(sni_action("Jump"), None);
}

#[test]
fn sni_registration() {
    assert_eq!(
        registration_target("org.app", None),
        ("org.app".to_string(), "/StatusNotifierItem".to_string())
    );
    assert_eq!(
        registration_target("/org/ayatana/item", Some(":1.42".to_string())),
        (":1.42".to_string(), "/org/ayatana/item".to_string())
    );
    assert_eq!(
        registration_target("/item", None),
        ("/item".to_string(), "/item".to_string())
    );
    assert_eq!(applet_key(":1.42", "/item"), ":1.42/item");
}

#[test]
fn sni_pixmaps() {
    let ps = vec![(16, 16, vec![0u8; 16 * 16 * 4]), (64, 64, vec![0u8; 64 * 64 * 4]), (80, 80, vec![0u8; 3])];
    assert_eq!(best_pixmap(&ps), Some(1));
    let icon = icon_from_pixmaps(&ps).unwrap();
    assert_eq!(icon.size(), Size::new(64, 64));
    let bad = vec![(72, 1, vec![1u8, 2, 3])];
    assert!(icon_from_pixmaps(&bad).is_none());
    assert_eq!(argb_to_rgba(&vec![1, 2, 3, 4, 5, 6, 7, 8, 9]), vec![2, 3, 4, 1, 6, 7, 8, 5]);
    let tie = vec![(70, 1, vec![]), (74, 1, vec![])];
    assert_eq!(best_pixmap(&tie), Some(0));
}

#[test]
fn error_messages() {
    assert_eq!(SniAdapterError::InitFailed("x".into()).to_string(), "SNI initialization failed: x");
    assert_eq!(SniAdapterError::Internal("y".into()).to_string(), "Internal SNI error: y");
    assert_eq!(DBusPortError::DBusError { reason: "r".into() }.to_string(), "DBus error: r");
    assert_eq!(
        ConfigAdapterError::ConfigParseError { reason: "bad".into() }.to_string(),
        "Failed to parse configuration: bad"
    );
    assert_eq!(ConfigAdapterError::Internal { message: "m".into() }.to_string(), "Internal error: m");
    assert_eq!(CoreError::Connection("c".into()).to_string(), "Wayland connection failed: c");
    assert_eq!(CoreError::Global("g".into()).to_string(), "Wayland global error: g");
    assert_eq!(CoreError::Dispatch("d".into()).to_string(), "Wayland dispatch error: d");
    assert_eq!(LayoutError::EngineError("e".into()).to_string(), "Failed to compute layout: e");
    assert_eq!(DomainAppError::Module("m".into()).to_string(), "Module error: m");
    assert_eq!(DomainAppError::Internal { message: "i".into() }.to_string(), "Internal error: i");
    assert_eq!(
        DomainError::ModuleNotFound { module_name: "clock".into() }.to_string(),
        "Module 'clock' not found in registry"
    );
    assert_eq!(
        DomainError::ScriptError { module_name: "clock".into(), message: "boom".into() }.to_string(),
        "Script error in module 'clock': boom"
    );
    assert_eq!(DomainError::from(ColorError::Empty).to_string(), "Color error: Empty color string");
    assert_eq!(
        PortError::SurfaceError { target_id: 305, reason: "gone".into() }.to_string(),
        "Surface error for target 305: gone"
    );
    assert_eq!(PortError::Io("denied".into()).to_string(), "I/O error: denied");
    assert_eq!(PortError::SurfaceError { target_id: 0, reason: "r".into() }.to_string(), "Surface error for target 0: r");
}

#[test]
fn registry_errors_from_lookup() {
    let e = RegistryLoadError::from_lookup(BuiltinError::ModuleNotFound {
        module_name: ModuleName::new("clock"),
        engine_suffix: String::new(),
    });
    assert_eq!(e, RegistryLoadError::ModuleNotFound(ModuleName::new("clock")));
    assert_eq!(
        RegistryLoadError::from_lookup(BuiltinError::Io("disk".into())),
        RegistryLoadError::Internal("disk".into())
    );
    assert_eq!(
        BuiltinModules::not_found(&ModuleName::new("m"), Some("lua")).to_string(),
        "Module 'm' not found (engine: lua)"
    );
    assert_eq!(BuiltinModules::not_found(&ModuleName::new("m"), None).to_string(), "Module 'm' not found");
    assert_eq!(BuiltinModules::script_file_name(&ModuleName::new("clock"), "rhai"), "clock.rhai");
    assert_eq!(reload_for_script("clock"), SystemCommand::ReloadModule(ModuleName::new("clock")));
    assert!(StyleSheetName::new("").is_none());
}

#[test]
fn legacy_margins() {
    let m = LegacyMargin::new(1, 2, 3, 4);
    let p = LegacyPartialMargin { top: Some(9), right: Some(8), ..LegacyPartialMargin::default() };
    let o = m.overridden(&p);
    assert_eq!((o.top(), o.bottom(), o.left(), o.right()), (9, 2, 3, 8));
    assert_eq!(LegacyMargin::default().top(), 0);
    assert_eq!(LegacyRenderingMode::default().duration_ms(), Some(100));
    assert_eq!(LegacyRenderingMode::Immediate { fps_limit: None }.fps_limit(), None);
}

#[test]
fn supervisor_starts_each_adapter_once() {
    let mut s = AdapterSupervisor::new();
    assert_eq!(s.ensure(AdapterKind::Metrics), Some(AdapterStart::Metrics));
    assert_eq!(s.ensure(AdapterKind::Metrics), None);
    s.mark_started(AdapterKind::Time);
    assert_eq!(s.ensure(AdapterKind::Time), None);
    assert_eq!(s.ensure(AdapterKind::Systray), None);
    assert!(s.is_started(AdapterKind::Systray));
    assert!(!s.is_started(AdapterKind::Mpris));
    assert_eq!(millis_to_next_second(250), 750);
    assert_eq!(millis_to_next_second(1500), 0);
}

#[test]
fn outputs_bookkeeping() {
    let mut outs: Outputs<&'static str> = Outputs::new();
    outs.add_output(7, "wl-7");
    outs.add_output(9, "wl-9");
    outs.set_name(9, "DP-1".to_string());
    outs.set_scale(9, 2);
    assert_eq!(outs.entries()[1].name(), "DP-1");
    assert_eq!(outs.entries()[1].scale(), 2);
    assert_eq!(outs.entries()[0].scale(), 1);
    assert_eq!(*outs.entries()[0].output(), "wl-7");
    assert_eq!(outs.remove_output(9), Some("DP-1".to_string()));
    assert_eq!(outs.remove_output(9), None);
    assert_eq!(outs.entries().len(), 1);
    let bars = vec!["DP-1".to_string()];
    assert!(!should_create_bar("", &bars));
    assert!(!should_create_bar("DP-1", &bars));
    assert!(should_create_bar("HDMI-1", &bars));
    assert!(draws_focused("DP-1", &Some("DP-1".to_string())));
    assert!(!draws_focused("DP-1", &None));
}

#[test]
fn focused_monitor_is_first_focused() {
    let ms = vec![
        FrontMonitor::new("A".into(), 1, false),
        FrontMonitor::new("B".into(), 2, true),
        FrontMonitor::new("C".into(), 3, true),
    ];
    assert_eq!(focused_monitor_of(&ms), Some("B".to_string()));
    assert_eq!(focused_monitor_of(&vec![]), None);
}

#[test]
fn dbus_keys() {
    assert!(cranky::adapters::zbus::is_properties_changed("PropertiesChanged"));
    assert!(!cranky::adapters::zbus::is_properties_changed("Seeked"));
    assert_eq!(
        cranky::adapters::zbus::property_key("org.mpris.MediaPlayer2.Player", "Metadata"),
        "org.mpris.MediaPlayer2.Player.Metadata"
    );
}

#[test]
fn sampled_metrics() {
    let on = MetricsConfig::new(
        CpuMode::Disabled,
        MemoryMode::Absolute,
        MemoryMode::Disabled,
        Some(NetworkMode::TxRx),
        None,
        Some(DiskMode::Absolute),
        UpdateInterval::new(500),
    );
    let (tx, rx) = network_totals(&on, &vec![10, 20, 30], &vec![1, 2]);
    assert_eq!((tx.value(), rx.value()), (60, 3));
    let (tx0, rx0) = network_totals(&MetricsConfig::default(), &vec![10], &vec![1]);
    assert_eq!((tx0.value(), rx0.value()), (0, 0));
    let d = disk_metric_of("sda", "/", 100, 30);
    assert_eq!(d.used_bytes().value(), 70);
    let odd = disk_metric_of("sdb", "/mnt", 10, 30);
    assert_eq!(odd.used_bytes().value(), 0);
    assert_eq!(odd.total_bytes().value(), 10);
    assert_eq!(odd.available_bytes().value(), 30);
}

#[test]
fn focus_poll_redraws_only_on_change() {
    let ms = vec![FrontMonitor::new("A".into(), 1, false), FrontMonitor::new("B".into(), 2, true)];
    assert_eq!(focus_after_poll(&Some("B".to_string()), &ms), (Some("B".to_string()), false));
    assert_eq!(focus_after_poll(&Some("A".to_string()), &ms), (Some("B".to_string()), true));
    assert_eq!(focus_after_poll(&None, &vec![]), (None, false));
    assert_eq!(focus_after_poll(&Some("A".to_string()), &vec![]), (None, true));
}
