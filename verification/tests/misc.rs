use qingjian_windows::edit_anchor::{anchor_rect, mouse_anchor, usable_range_rect};
use qingjian_windows::geometry::{Point, Rect};
use qingjian_windows::layered::{copy_rgba_to_bgra, presentable, window_origin};
use qingjian_windows::mode_icon::{coverage_to_alpha, fill_description, glyph_color, icon_size, mode_char, GLYPH_ON_DARK, GLYPH_ON_LIGHT};
use qingjian_windows::palette::{rgb, Palette};
use qingjian_windows::reload::{apply_plan, fuma_step, FumaStep, ReloadState};
use qingjian_windows::router_config::RouterConfig;
use qingjian_windows::render_data::Frame;
use qingjian_windows::sink::{CandidateSink, NoopSink};
use qingjian_windows::status_bar::client_x;
use qingjian_windows::theme::{effective_dpi, initial_dpi, needs_system_theme, palette_for, resolve_dark, ColorScheme, ThemeFollower, ThemeMode};

#[test]
fn anchor_falls_back_to_previous_then_mouse() {
    let measured = Rect { left: 10, top: 20, right: 30, bottom: 40 };
    let empty = Rect { left: 5, top: 5, right: 5, bottom: 5 };
    let previous = Rect { left: 1, top: 2, right: 3, bottom: 4 };
    let mouse = Point { x: 100, y: 200 };
    assert_eq!(anchor_rect(Some(measured), Some(previous), mouse), measured);
    assert_eq!(anchor_rect(Some(empty), Some(previous), mouse), previous);
    assert_eq!(anchor_rect(None, None, mouse), Rect { left: 100, top: 200, right: 100, bottom: 216 });
    assert_eq!(mouse_anchor(mouse).bottom, 216);
    assert_eq!(usable_range_rect(Some(Rect { left: 5, top: 5, right: 5, bottom: 9 })), Some(Rect { left: 5, top: 5, right: 5, bottom: 9 }));
}

#[test]
fn bitmap_channels_swap() {
    let src = vec![1, 2, 3, 4, 5, 6, 7, 8];
    let mut dst = vec![0u8; 10];
    copy_rgba_to_bgra(&mut dst, &src);
    assert_eq!(dst, vec![3, 2, 1, 4, 7, 6, 5, 8, 0, 0]);
    assert!(presentable(1, 1));
    assert!(!presentable(0, 5));
    assert_eq!(window_origin((100, 50), (12, 12)), (88, 38));
}

#[test]
fn mode_icon_pixels() {
    let mut pixels = vec![0, 0x0000_0080, 0x00ff_1020];
    coverage_to_alpha(&mut pixels, GLYPH_ON_DARK);
    assert_eq!(pixels, vec![0, 0x80ff_ffff, 0xffff_ffff]);
    let mut pixels = vec![0x0000_4000];
    coverage_to_alpha(&mut pixels, GLYPH_ON_LIGHT);
    assert_eq!(pixels, vec![0x4019_1919]);
    assert_eq!(glyph_color(true), 0x0019_1919);
    assert_eq!(icon_size(8), 16);
    assert_eq!(icon_size(24), 24);
    assert_eq!(icon_size(128), 64);
    assert_eq!(mode_char(true), '英');
    assert_eq!(mode_char(false), '中');
    let mut field = vec![9u16; 4];
    fill_description(&mut field, &vec![1, 2]);
    assert_eq!(field, vec![1, 2, 9, 9]);
    let mut short = vec![0u16; 2];
    fill_description(&mut short, &vec![1, 2, 3]);
    assert_eq!(short, vec![1, 2]);
}

#[test]
fn colours_and_theme() {
    assert_eq!(rgb(0x31, 0x57, 0xd8), 0x00d8_5731);
    assert_eq!(Palette::light().accent_color, 0x00d8_5731);
    assert_eq!(Palette::dark().background, 0x0033_2017);
    assert!(!resolve_dark(ThemeMode::Light, true));
    assert!(resolve_dark(ThemeMode::Dark, false));
    assert!(resolve_dark(ThemeMode::System, true));
    assert!(needs_system_theme(ThemeMode::System));
    assert_eq!(initial_dpi(72), 96);
    assert_eq!(initial_dpi(144), 144);
    assert_eq!(effective_dpi(0, 120), 120);
    assert_eq!(effective_dpi(96, 120), 96);
    assert_eq!(palette_for(ColorScheme::Latte, true).scheme, ColorScheme::Latte);
    let mut follower = ThemeFollower { dark: false, applied_scheme: ColorScheme::Zizai };
    let step = follower.follow(true, ColorScheme::Zizai);
    assert!(step.switch_theme && !step.apply_visuals);
    let step = follower.follow(true, ColorScheme::Zizai);
    assert!(!step.switch_theme && !step.apply_visuals);
    let step = follower.follow(true, ColorScheme::Forest);
    assert!(step.switch_theme && step.apply_visuals);
}

#[test]
fn reload_polls_once_a_second_and_once_per_change() {
    let mut state = ReloadState::new(0, Some(5));
    assert!(!state.begin_poll(999));
    assert!(state.begin_poll(1000));
    assert!(!state.observe(Some(5)));
    assert!(!state.begin_poll(1500));
    assert!(state.begin_poll(2000));
    assert!(state.observe(Some(6)));
    assert!(!state.observe(Some(6)));
    assert!(state.observe(None));
    assert_eq!(fuma_step(false, true, true), FumaStep::Disable);
    assert_eq!(fuma_step(true, false, true), FumaStep::LoadAndEnable);
    assert_eq!(fuma_step(true, false, false), FumaStep::Enable);
    assert_eq!(fuma_step(true, true, true), FumaStep::Enable);
}

#[test]
fn applying_a_configuration_rebuilds_only_what_changed() {
    let plan = apply_plan(true, true, false, true);
    assert!(plan.reconfigure_candidates && !plan.reattach_cloud && plan.reload_dictionaries);
    let plan = apply_plan(false, false, true, true);
    assert!(!plan.reconfigure_candidates && !plan.reattach_cloud && !plan.reload_dictionaries);
}

#[test]
fn client_x_is_signed() {
    assert_eq!(client_x(0x0012_0034), 0x34);
    assert_eq!(client_x(0xffff), -1);
    assert_eq!(client_x(0x7fff), 0x7fff);
    assert_eq!(client_x(-2), -2);
}

#[test]
fn router_config_trims_the_font_and_pairs_the_position() {
    let config = RouterConfig::from_values(5, ThemeMode::System, "  Segoe UI ", ('[', ']'), true, false, true, Some(10), None);
    assert_eq!(config.font, "Segoe UI");
    assert_eq!(config.status_pos, None);
    let config = RouterConfig::from_values(5, ThemeMode::System, "", ('[', ']'), true, false, true, Some(10), Some(20));
    assert_eq!(config.status_pos, Some((10, 20)));
}

#[test]
fn noop_sink_draws_nothing() {
    let sink = NoopSink;
    let frame = Frame {
        preedit: Vec::new(),
        cursor: 0,
        candidates: Vec::new(),
        highlight: usize::MAX,
        page: 0,
        page_count: 0,
        notice: None,
        color_scheme: ColorScheme::Zizai,
    };
    sink.show(frame, Rect { left: 0, top: 0, right: 0, bottom: 0 });
    sink.hide_window();
    sink.set_font("Arial".to_owned());
}
