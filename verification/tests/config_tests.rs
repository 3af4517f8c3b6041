use cranky::adapters::config::dto::{
    MarginConfigDto, PaddingConfigDto, PartialMarginConfigDto, PartialPaddingConfigDto,
    RenderingModeDto, VerticalAlignmentDto, BarConfigDto, BorderConfigDto, PartialBarConfigDto,
    FontValidatorPort,
};
use cranky::domain::color::{Color, DrawingColor, Angle};
use cranky::domain::config::{
    BarConfig, BorderConfig, BorderRadius, BorderSize, Config, FontFamily, FontSize,
    MarginConfig, MarginOffset, ModuleConfig, ModulesConfig, PaddingConfig, PaddingOffset,
    PartialBarConfig, PartialMarginConfig, RenderingMode, VerticalAlignment,
};
use cranky::domain::metrics::MetricsConfig;
use std::collections::HashMap;

#[test]
fn test_margin_dto_all() {
    let dto = MarginConfigDto::All(10);
    let domain = dto.into_domain();
    assert_eq!(domain.top().value(), 10);
    assert_eq!(domain.bottom().value(), 10);
    assert_eq!(domain.left().value(), 10);
    assert_eq!(domain.right().value(), 10);
}

#[test]
fn test_margin_dto_fields() {
    let dto = MarginConfigDto::Fields {
        top: Some(5),
        bottom: None,
        left: None,
        right: None,
        horizontal: Some(10),
        vertical: Some(20),
    };
    let domain = dto.into_domain();
    assert_eq!(domain.top().value(), 5);
    assert_eq!(domain.bottom().value(), 20);
    assert_eq!(domain.left().value(), 10);
    assert_eq!(domain.right().value(), 10);
}

#[test]
fn test_padding_dto_fields() {
    let dto = PaddingConfigDto::Fields {
        top: Some(5),
        bottom: None,
        left: None,
        right: None,
        horizontal: Some(10),
        vertical: Some(20),
    };
    let domain = dto.into_domain();
    assert_eq!(domain.top().value(), 5);
    assert_eq!(domain.bottom().value(), 20);
    assert_eq!(domain.left().value(), 10);
    assert_eq!(domain.right().value(), 10);
}

#[test]
fn test_rendering_mode_dto() {
    let mode1 = RenderingModeDto::Immediate { fps_limit: Some(60) };
    if let RenderingMode::Immediate { fps_limit } = mode1.into_domain() {
        assert_eq!(fps_limit, Some(60));
    } else {
        panic!("Expected Immediate");
    }

    let mode2 = RenderingModeDto::Timebased { duration_ms: 50 };
    if let RenderingMode::Timebased { duration_ms } = mode2.into_domain() {
        assert_eq!(duration_ms, 50);
    } else {
        panic!("Expected Timebased");
    }
}

#[test]
fn test_font_family() {
    let f = FontFamily::new("Inter".into());
    assert_eq!(f.as_str(), "Inter");
}

#[test]
fn test_font_size() {
    let s = FontSize::from_bits(12.5f32.to_bits());
    assert_eq!(f32::from_bits(s.to_bits()), 12.5);
}

#[test]
fn test_border_size() {
    let s = BorderSize::from_bits(2.0f32.to_bits());
    assert_eq!(f32::from_bits(s.to_bits()), 2.0);
}

#[test]
fn test_border_radius() {
    let r = BorderRadius::from_bits(5.0f32.to_bits());
    assert_eq!(f32::from_bits(r.to_bits()), 5.0);
}

#[test]
fn test_padding_offset() {
    let p = PaddingOffset::new(10);
    assert_eq!(p.value(), 10);
}

#[test]
fn test_margin_offset() {
    let m = MarginOffset::new(15);
    assert_eq!(m.value(), 15);
}

#[test]
fn test_margin_config() {
    let m = MarginConfig::new(
        MarginOffset::new(1),
        MarginOffset::new(2),
        MarginOffset::new(3),
        MarginOffset::new(4),
    );
    assert_eq!(m.top().value(), 1);
    assert_eq!(m.bottom().value(), 2);
    assert_eq!(m.left().value(), 3);
    assert_eq!(m.right().value(), 4);
}

#[test]
fn test_padding_config() {
    let p = PaddingConfig::new(
        PaddingOffset::new(1),
        PaddingOffset::new(2),
        PaddingOffset::new(3),
        PaddingOffset::new(4),
    );
    assert_eq!(p.top().value(), 1);
    assert_eq!(p.bottom().value(), 2);
    assert_eq!(p.left().value(), 3);
    assert_eq!(p.right().value(), 4);
}

#[test]
fn test_border_config() {
    let c = DrawingColor::Solid(Color::new(255, 0, 0, 255));
    let b = BorderConfig::new(
        BorderSize::from_bits(2.0f32.to_bits()),
        c.clone(),
        BorderRadius::from_bits(4.0f32.to_bits()),
    );
    assert_eq!(f32::from_bits(b.size().to_bits()), 2.0);
    assert_eq!(b.color(), &c);
    assert_eq!(f32::from_bits(b.radius().to_bits()), 4.0);
}

#[test]
fn config_test_bar_config_defaults() {
    let bar = BarConfig::default();
    assert_eq!(bar.height(), 30);
    assert_eq!(bar.vertical_alignment(), VerticalAlignment::Center);
    assert_eq!(bar.font_family().as_str(), "");
    assert_eq!(f32::from_bits(bar.font_size().to_bits()), 14.0);

    let unfocused = bar.as_unfocused();
    assert_eq!(unfocused.height(), 30);
}

#[test]
fn test_module_position() {
    let left = vec![ModuleConfig::new("time".to_string(), true, HashMap::new())];
    let modules = ModulesConfig::new(left, vec![], vec![]);

    let config = Config::new(
        BarConfig::default(),
        modules,
        RenderingMode::default(),
        MetricsConfig::default(),
    );
    assert_eq!(config.modules().left().len(), 1);
    assert_eq!(config.modules().left()[0].name(), "time");
    assert_eq!(config.modules().center().len(), 0);
    assert_eq!(config.modules().right().len(), 0);
}

fn unfocused_bar() -> BarConfig {
    let partial = PartialBarConfig::new(
        Some(DrawingColor::Solid(Color::new(10, 20, 30, 40))),
        Some(20),
        None,
        None,
        Some(PartialMarginConfig::new(Some(MarginOffset::new(7)), None, None, None)),
        None,
        Some(FontFamily::new("Mono".to_string())),
        None,
    );
    BarConfig::new(
        DrawingColor::black(),
        30,
        VerticalAlignment::Top,
        BorderConfig::default(),
        MarginConfig::new(
            MarginOffset::new(1),
            MarginOffset::new(2),
            MarginOffset::new(3),
            MarginOffset::new(4),
        ),
        PaddingConfig::default(),
        FontFamily::new("Inter".to_string()),
        FontSize::from_bits(12.0f32.to_bits()),
        Some(partial),
    )
}

#[test]
fn unfocused_section_overrides_only_what_it_sets() {
    let bar = unfocused_bar();
    let u = bar.as_unfocused();
    assert_eq!(u.background(), &DrawingColor::Solid(Color::new(10, 20, 30, 40)));
    assert_eq!(u.height(), 20);
    assert_eq!(u.vertical_alignment(), VerticalAlignment::Top);
    assert_eq!(u.margin().top().value(), 7);
    assert_eq!(u.margin().bottom().value(), 2);
    assert_eq!(u.margin().left().value(), 3);
    assert_eq!(u.margin().right().value(), 4);
    assert_eq!(u.font_family().as_str(), "Mono");
    assert_eq!(f32::from_bits(u.font_size().to_bits()), 12.0);
    assert!(u.unfocused().is_some());
}

#[test]
fn unfocused_twice_is_unfocused_once() {
    let bar = unfocused_bar();
    assert_eq!(bar.as_unfocused().as_unfocused(), bar.as_unfocused());
}

#[test]
fn bar_without_section_is_unchanged_when_unfocused() {
    let bar = BarConfig::default();
    assert_eq!(bar.as_unfocused(), bar);
}

#[test]
fn margin_all_equals_both_axes() {
    let all = MarginConfigDto::All(6).into_domain();
    let axes = MarginConfigDto::Fields {
        top: None,
        bottom: None,
        left: None,
        right: None,
        horizontal: Some(6),
        vertical: Some(6),
    }
    .into_domain();
    assert_eq!(all, axes);
}

#[test]
fn partial_margin_leaves_unset_sides_unset() {
    let p = PartialMarginConfigDto::Fields {
        top: None,
        bottom: Some(3),
        left: None,
        right: None,
        horizontal: Some(9),
        vertical: None,
    }
    .into_domain();
    assert_eq!(p.top(), None);
    assert_eq!(p.bottom(), Some(MarginOffset::new(3)));
    assert_eq!(p.left(), Some(MarginOffset::new(9)));
    assert_eq!(p.right(), Some(MarginOffset::new(9)));
    assert_eq!(PartialMarginConfigDto::default().into_domain(), PartialMarginConfig::default());
}

#[test]
fn partial_padding_all_sets_every_side() {
    let p = PartialPaddingConfigDto::All(4).into_domain();
    assert_eq!(p.top(), Some(PaddingOffset::new(4)));
    assert_eq!(p.bottom(), Some(PaddingOffset::new(4)));
    assert_eq!(p.left(), Some(PaddingOffset::new(4)));
    assert_eq!(p.right(), Some(PaddingOffset::new(4)));
}

#[test]
fn dto_defaults() {
    assert_eq!(MarginConfigDto::default(), MarginConfigDto::All(0));
    assert_eq!(PaddingConfigDto::default(), PaddingConfigDto::All(0));
    assert_eq!(RenderingModeDto::default(), RenderingModeDto::Timebased { duration_ms: 100 });
    assert_eq!(VerticalAlignmentDto::default().into_domain(), VerticalAlignment::Center);
    assert_eq!(VerticalAlignmentDto::Bottom.into_domain(), VerticalAlignment::Bottom);
}

struct Rejecting;
impl FontValidatorPort for Rejecting {
    fn is_valid_family(&self, _family: &str) -> bool {
        false
    }
}

struct Accepting;
impl FontValidatorPort for Accepting {
    fn is_valid_family(&self, _family: &str) -> bool {
        true
    }
}

struct OnlyInter;
impl FontValidatorPort for OnlyInter {
    fn is_valid_family(&self, family: &str) -> bool {
        family == "Inter"
    }
}

#[test]
fn bar_dto_asks_the_validator_about_the_configured_family() {
    assert_eq!(bar_dto(Some("Inter")).into_domain(&OnlyInter).font_family().as_str(), "Inter");
    assert_eq!(bar_dto(Some("Other")).into_domain(&OnlyInter).font_family().as_str(), "");
}

fn bar_dto(font: Option<&str>) -> BarConfigDto {
    BarConfigDto {
        font_family: font.map(|f| f.to_string()),
        font_size: None,
        background: DrawingColor::black(),
        height: 30,
        vertical_alignment: VerticalAlignmentDto::Center,
        border: BorderConfigDto::default(),
        margin: MarginConfigDto::All(2),
        padding: PaddingConfigDto::All(1),
        module_gap: 0,
        unfocused: Some(PartialBarConfigDto {
            font_family: None,
            font_size: None,
            background: None,
            height: Some(12),
            vertical_alignment: None,
            border: None,
            margin: None,
            padding: None,
            module_gap: None,
        }),
    }
}

#[test]
fn bar_dto_font_family_checked_by_validator() {
    let ok = bar_dto(Some("Inter")).into_domain(&Accepting);
    assert_eq!(ok.font_family().as_str(), "Inter");
    let rejected = bar_dto(Some("Nope")).into_domain(&Rejecting);
    assert_eq!(rejected.font_family().as_str(), "");
    let missing = bar_dto(None).into_domain(&Accepting);
    assert_eq!(missing.font_family().as_str(), "");
    assert_eq!(f32::from_bits(ok.font_size().to_bits()), 14.0);
    assert_eq!(ok.margin().left().value(), 2);
    assert_eq!(ok.padding().bottom().value(), 1);
    assert_eq!(ok.as_unfocused().height(), 12);
}

#[test]
fn rendering_mode_accessors() {
    let m = RenderingMode::new_immediate(Some(30));
    assert_eq!(m.fps_limit(), Some(30));
    assert_eq!(m.duration_ms(), None);
    let t = RenderingMode::new_timebased(250);
    assert_eq!(t.fps_limit(), None);
    assert_eq!(t.duration_ms(), Some(250));
    assert_eq!(RenderingMode::default(), RenderingMode::Timebased { duration_ms: 100 });
}

#[test]
fn drawing_color_gradient_from_parts() {
    let g = DrawingColor::from_parts(
        vec![Color::new(1, 2, 3, 4), Color::new(5, 6, 7, 8)],
        Angle::from_bits(90.0f32.to_bits()),
    );
    match g {
        DrawingColor::Gradient(cs, a) => {
            assert_eq!(cs.len(), 2);
            assert_eq!(f32::from_bits(a.to_bits()), 90.0);
        },
        _ => panic!("expected gradient"),
    }
}

#[test]
fn full_margin_is_completed_partial() {
    let full = MarginConfigDto::Fields {
        top: None,
        bottom: Some(4),
        left: None,
        right: None,
        horizontal: None,
        vertical: Some(2),
    }
    .into_domain();
    let partial = PartialMarginConfigDto::Fields {
        top: None,
        bottom: Some(4),
        left: None,
        right: None,
        horizontal: None,
        vertical: Some(2),
    }
    .into_domain();
    let complete = |o: Option<MarginOffset>| o.map(|m| m.value()).unwrap_or(0);
    assert_eq!(full.top().value(), complete(partial.top()));
    assert_eq!(full.bottom().value(), complete(partial.bottom()));
    assert_eq!(full.left().value(), complete(partial.left()));
    assert_eq!(full.right().value(), complete(partial.right()));
    assert_eq!((full.top().value(), full.bottom().value(), full.left().value()), (2, 4, 0));
}

#[test]
fn empty_bar_section_is_default_bar() {
    let d = BarConfigDto {
        font_family: None,
        font_size: None,
        background: DrawingColor::black(),
        height: 30,
        vertical_alignment: VerticalAlignmentDto::default(),
        border: BorderConfigDto::default(),
        margin: MarginConfigDto::default(),
        padding: PaddingConfigDto::default(),
        module_gap: 0,
        unfocused: None,
    };
    assert_eq!(d.into_domain(&Accepting), BarConfig::default());
}

#[test]
fn sizes_compare_as_numbers() {
    assert_eq!(FontSize::from_bits(0.0f32.to_bits()), FontSize::from_bits((-0.0f32).to_bits()));
    assert_ne!(BorderSize::from_bits(f32::NAN.to_bits()), BorderSize::from_bits(f32::NAN.to_bits()));
    assert_eq!(BorderRadius::from_bits(4.0f32.to_bits()), BorderRadius::from_bits(4.0f32.to_bits()));
    assert_ne!(BorderRadius::from_bits(4.0f32.to_bits()), BorderRadius::from_bits(5.0f32.to_bits()));
}
