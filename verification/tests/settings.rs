use shadowrocket::port::{ClashStrategy, ExternalControllerPortStrategy};
use shadowrocket::settings::{IVerge, IVergeTheme, LoggingLevel, WindowState};
use shadowrocket::supervisor::LaunchSettings;
use shadowrocket::variant::ClashCore;

#[test]
fn template_of_a_first_launch() {
    let settings = IVerge::template(Some(String::from("zh-TW")));
    assert_eq!(settings.clash_core, Some(ClashCore::MihomoAlpha));
    assert_eq!(settings.language.as_deref(), Some("zh"));
    assert_eq!(settings.app_log_level, Some(LoggingLevel::Info));
    assert_eq!(settings.theme_mode.as_deref(), Some("system"));
    assert_eq!(settings.theme_blur, Some(false));
    assert_eq!(settings.traffic_graph, Some(true));
    assert_eq!(settings.enable_memory_usage, Some(true));
    assert_eq!(settings.enable_auto_launch, Some(false));
    assert_eq!(settings.enable_silent_start, Some(false));
    assert_eq!(settings.enable_system_proxy, Some(false));
    assert_eq!(settings.enable_random_port, Some(false));
    assert_eq!(settings.verge_mixed_port, Some(7890));
    assert_eq!(settings.enable_proxy_guard, Some(false));
    assert_eq!(settings.proxy_guard_duration, Some(30));
    assert_eq!(settings.auto_close_connection, Some(true));
    assert_eq!(settings.enable_builtin_enhanced, Some(true));
    assert_eq!(settings.enable_clash_fields, Some(true));
    assert_eq!(settings.page_transition_animation.as_deref(), Some("slide"));
    assert_eq!(settings.max_log_files, Some(7));
    assert_eq!(settings.disable_auto_check_update, Some(true));
    assert_eq!(settings.clash_tray_selector, Some(true));
    assert_eq!(settings.app_singleton_port, None);
    assert_eq!(settings.enable_tun_mode, None);
    assert_eq!(settings.enable_service_mode, None);
    assert_eq!(settings.system_proxy_bypass, None);
    assert!(settings.theme_setting.is_none());
    assert_eq!(settings.web_ui_list, None);
    assert_eq!(settings.hotkeys, None);
    assert_eq!(settings.default_latency_test, None);
    assert_eq!(settings.proxy_layout_column, None);
    assert_eq!(settings.auto_log_clean, None);
    assert_eq!(settings.window_size_position, None);
    assert_eq!(settings.window_size_state, None);
    assert_eq!(settings.clash_strategy, None);
}

#[test]
fn template_language_follows_the_locale() {
    assert_eq!(IVerge::template(None).language.as_deref(), Some("en"));
    assert_eq!(IVerge::template(Some(String::from("fr-FR"))).language.as_deref(), Some("en"));
    assert_eq!(IVerge::template(Some(String::from("zh-CN"))).language.as_deref(), Some("zh"));
}

#[test]
fn new_takes_what_was_loaded_or_the_template() {
    let mut loaded = IVerge::default();
    loaded.verge_mixed_port = Some(1);
    let settings = IVerge::new(Some(loaded), Some(String::from("zh-CN")));
    assert_eq!(settings.verge_mixed_port, Some(1));
    assert_eq!(settings.language, None);
    let settings = IVerge::new(None, Some(String::from("zh-CN")));
    assert_eq!(settings.verge_mixed_port, Some(7890));
    assert_eq!(settings.language.as_deref(), Some("zh"));
}

#[test]
fn patch_sets_only_what_it_holds() {
    let mut settings = IVerge::template(None);
    let mut patch = IVerge::default();
    patch.verge_mixed_port = Some(7891);
    patch.clash_core = Some(ClashCore::Mihomo);
    patch.theme_mode = Some(String::from("dark"));
    patch.hotkeys = Some(vec![String::from("open,Ctrl+O")]);
    patch.enable_tun_mode = Some(true);
    patch.window_size_state = Some(WindowState { width: 800, height: 600, x: -1, y: 2, maximized: true, fullscreen: false });
    patch.clash_strategy = Some(ClashStrategy { external_controller_port_strategy: ExternalControllerPortStrategy::Fixed });
    let mut theme = IVergeTheme::default();
    theme.primary_color = Some(String::from("#fff"));
    theme.page_transition_duration = Some(0.5f64.to_bits());
    patch.theme_setting = Some(theme);
    settings.patch_config(patch);
    assert_eq!(settings.verge_mixed_port, Some(7891));
    assert_eq!(settings.clash_core, Some(ClashCore::Mihomo));
    assert_eq!(settings.theme_mode.as_deref(), Some("dark"));
    assert_eq!(settings.hotkeys, Some(vec![String::from("open,Ctrl+O")]));
    assert_eq!(settings.enable_tun_mode, Some(true));
    assert_eq!(settings.window_size_state.map(|w| (w.width, w.height, w.x, w.y, w.maximized, w.fullscreen)), Some((800, 600, -1, 2, true, false)));
    assert_eq!(settings.clash_strategy.map(|s| s.external_controller_port_strategy), Some(ExternalControllerPortStrategy::Fixed));
    let theme = settings.theme_setting.as_ref().unwrap();
    assert_eq!(theme.primary_color.as_deref(), Some("#fff"));
    assert_eq!(theme.page_transition_duration.map(f64::from_bits), Some(0.5));
    assert_eq!(settings.language.as_deref(), Some("en"));
    assert_eq!(settings.traffic_graph, Some(true));
    assert_eq!(settings.max_log_files, Some(7));
    assert_eq!(settings.enable_service_mode, None);
}

#[test]
fn patch_leaves_the_unpatched_fields() {
    let mut settings = IVerge::default();
    settings.app_singleton_port = Some(33331);
    settings.auto_log_clean = Some(60);
    settings.window_size_position = Some(vec![1.0f64.to_bits()]);
    let mut patch = IVerge::default();
    patch.app_singleton_port = Some(1);
    patch.auto_log_clean = Some(2);
    patch.window_size_position = Some(vec![]);
    patch.language = Some(String::from("zh"));
    settings.patch_config(patch);
    assert_eq!(settings.app_singleton_port, Some(33331));
    assert_eq!(settings.auto_log_clean, Some(60));
    assert_eq!(settings.window_size_position, Some(vec![1.0f64.to_bits()]));
    assert_eq!(settings.language.as_deref(), Some("zh"));
}

#[test]
fn empty_patch_changes_nothing() {
    let mut settings = IVerge::template(Some(String::from("zh-CN")));
    settings.patch_config(IVerge::default());
    assert_eq!(settings.language.as_deref(), Some("zh"));
    assert_eq!(settings.verge_mixed_port, Some(7890));
    assert_eq!(settings.clash_core, Some(ClashCore::MihomoAlpha));
    assert_eq!(settings.enable_tun_mode, None);
}

#[test]
fn launch_settings_fall_back_on_defaults() {
    let settings = IVerge::default();
    assert_eq!(
        settings.launch_settings(),
        LaunchSettings { core: ClashCore::Mihomo, service_mode: false, tun_mode: false }
    );
    let mut settings = IVerge::template(None);
    settings.enable_service_mode = Some(true);
    settings.enable_tun_mode = Some(false);
    assert_eq!(
        settings.launch_settings(),
        LaunchSettings { core: ClashCore::MihomoAlpha, service_mode: true, tun_mode: false }
    );
    settings.enable_tun_mode = Some(true);
    settings.enable_service_mode = Some(false);
    assert_eq!(
        settings.launch_settings(),
        LaunchSettings { core: ClashCore::MihomoAlpha, service_mode: false, tun_mode: true }
    );
}

#[test]
fn defaults_of_the_small_types() {
    assert_eq!(LoggingLevel::default(), LoggingLevel::Info);
    assert_eq!(
        WindowState::default(),
        WindowState { width: 0, height: 0, x: 0, y: 0, maximized: false, fullscreen: false }
    );
    let theme = IVergeTheme::default();
    assert!(theme.primary_color.is_none() && theme.css_injection.is_none());
    assert!(theme.page_transition_duration.is_none());
}

#[test]
fn clone_says_the_same() {
    let mut settings = IVerge::template(Some(String::from("zh-CN")));
    settings.hotkeys = Some(vec![String::from("a,b"), String::from("c,d")]);
    settings.web_ui_list = Some(vec![]);
    settings.window_size_position = Some(vec![1.5f64.to_bits(), 2.0f64.to_bits()]);
    let mut theme = IVergeTheme::default();
    theme.font_family = Some(String::from("mono"));
    theme.page_transition_duration = Some(0.25f64.to_bits());
    settings.theme_setting = Some(theme);
    let copy = settings.clone();
    assert_eq!(format!("{:?}", copy), format!("{:?}", settings));
    let theme = copy.theme_setting.clone().unwrap();
    assert_eq!(theme.font_family.as_deref(), Some("mono"));
    assert_eq!(theme.page_transition_duration, Some(0.25f64.to_bits()));
}

#[test]
fn fresh_draft_of_the_settings_equals_the_committed_settings() {
    let mut settings = IVerge::template(None);
    settings.hotkeys = Some(vec![String::from("open,Ctrl+O")]);
    let mut store = shadowrocket::draft::ConfigDraft::new(settings);
    let committed = format!("{:?}", store.latest());
    assert_eq!(format!("{:?}", store.draft()), committed);
    store.draft().verge_mixed_port = Some(1);
    assert_eq!(format!("{:?}", store.latest()), committed);
}
