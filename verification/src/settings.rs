//! The application settings, as far as the library reads and patches them.

use crate::help::{get_system_locale, mapping_to_i18n_key};
use crate::port::ClashStrategy;
use crate::supervisor::LaunchSettings;
use crate::variant::ClashCore;
use vstd::prelude::*;
use vstd::string::StringExecFns;

verus! {

/// How much the application logs.
#[derive(Debug, Clone, Copy, PartialEq, Eq, Structural)]
pub enum LoggingLevel {
    Silent,
    Trace,
    Debug,
    Info,
    Warn,
    Error,
}

impl Default for LoggingLevel {
    fn default() -> (level: LoggingLevel)
        ensures
            level == LoggingLevel::Info,
    {
        LoggingLevel::Info
    }
}

/// The size, position and state of the window.
#[derive(Debug, Clone, Copy, PartialEq, Eq, Structural)]
pub struct WindowState {
    pub width: u32,
    pub height: u32,
    pub x: i32,
    pub y: i32,
    pub maximized: bool,
    pub fullscreen: bool,
}

impl Default for WindowState {
    fn default() -> (state: WindowState)
        ensures
            state == (WindowState {
                width: 0,
                height: 0,
                x: 0,
                y: 0,
                maximized: false,
                fullscreen: false,
            }),
    {
        WindowState { width: 0, height: 0, x: 0, y: 0, maximized: false, fullscreen: false }
    }
}

/// The colours and fonts of the interface.
#[derive(Debug)]
pub struct IVergeTheme {
    pub primary_color: Option<String>,
    pub secondary_color: Option<String>,
    pub primary_text: Option<String>,
    pub secondary_text: Option<String>,
    pub info_color: Option<String>,
    pub error_color: Option<String>,
    pub warning_color: Option<String>,
    pub success_color: Option<String>,
    pub font_family: Option<String>,
    pub css_injection: Option<String>,
    /// The duration of a page transition in seconds, as the bits of a 64-bit
    /// float.
    pub page_transition_duration: Option<u64>,
}

impl Default for IVergeTheme {
    fn default() -> (theme: IVergeTheme)
        ensures
            theme.primary_color is None,
            theme.secondary_color is None,
            theme.primary_text is None,
            theme.secondary_text is None,
            theme.info_color is None,
            theme.error_color is None,
            theme.warning_color is None,
            theme.success_color is None,
            theme.font_family is None,
            theme.css_injection is None,
            theme.page_transition_duration is None,
    {
        IVergeTheme {
            primary_color: None,
            secondary_color: None,
            primary_text: None,
            secondary_text: None,
            info_color: None,
            error_color: None,
            warning_color: None,
            success_color: None,
            font_family: None,
            css_injection: None,
            page_transition_duration: None,
        }
    }
}

/// The application settings. A field that is not set says nothing: the
/// reader falls back on a default, and a patch leaves the field alone.
#[derive(Debug)]
pub struct IVerge {
    /// The port on which the application listens to stay the only instance.
    pub app_singleton_port: Option<u16>,
    /// How much the application logs.
    pub app_log_level: Option<LoggingLevel>,
    /// The language of the interface.
    pub language: Option<String>,
    /// `light`, `dark` or `system`.
    pub theme_mode: Option<String>,
    /// Whether the window is blurred.
    pub theme_blur: Option<bool>,
    /// Whether the traffic graph is shown.
    pub traffic_graph: Option<bool>,
    /// Whether the memory use of the core is shown.
    pub enable_memory_usage: Option<bool>,
    /// The animation between pages.
    pub page_transition_animation: Option<String>,
    /// Whether the core runs in tunnel mode.
    pub enable_tun_mode: Option<bool>,
    /// Whether the core is run by the background service.
    pub enable_service_mode: Option<bool>,
    /// Whether the application starts with the system.
    pub enable_auto_launch: Option<bool>,
    /// Whether the window stays hidden at launch.
    pub enable_silent_start: Option<bool>,
    /// Whether the system proxy is set.
    pub enable_system_proxy: Option<bool>,
    /// Whether the system proxy is guarded against changes.
    pub enable_proxy_guard: Option<bool>,
    /// The hosts that bypass the system proxy.
    pub system_proxy_bypass: Option<String>,
    /// The seconds between two looks of the proxy guard.
    pub proxy_guard_duration: Option<u64>,
    /// The colours and fonts of the interface.
    pub theme_setting: Option<IVergeTheme>,
    /// The web interfaces that the user added.
    pub web_ui_list: Option<Vec<String>>,
    /// The core variant in use.
    pub clash_core: Option<ClashCore>,
    /// The hotkeys, each as function and key.
    pub hotkeys: Option<Vec<String>>,
    /// Whether connections are closed when the proxy changes.
    pub auto_close_connection: Option<bool>,
    /// The address that latency is measured against.
    pub default_latency_test: Option<String>,
    /// Whether the fields of the configuration are filtered.
    pub enable_clash_fields: Option<bool>,
    /// Whether the built-in chain items apply.
    pub enable_builtin_enhanced: Option<bool>,
    /// The number of columns of the proxy page.
    pub proxy_layout_column: Option<i32>,
    /// The minutes after which logs are cleaned; superseded by `max_log_files`.
    pub auto_log_clean: Option<i64>,
    /// The days for which log files are kept.
    pub max_log_files: Option<usize>,
    /// The size and position of the window, each number as the bits of a
    /// 64-bit float; superseded by `window_size_state`.
    pub window_size_position: Option<Vec<u64>>,
    /// The size, position and state of the window.
    pub window_size_state: Option<WindowState>,
    /// Whether the mixed port is picked at random.
    pub enable_random_port: Option<bool>,
    /// The mixed port that overrides the one of the core configuration.
    pub verge_mixed_port: Option<u16>,
    /// Whether the check for updates at launch is off.
    pub disable_auto_check_update: Option<bool>,
    /// The strategies attached to the core configuration.
    pub clash_strategy: Option<ClashStrategy>,
    /// Whether proxies can be picked from the tray.
    pub clash_tray_selector: Option<bool>,
}

/// A field after a patch: the patch's value where it has one.
pub open spec fn spec_or<T>(patch: Option<T>, current: Option<T>) -> Option<T> {
    match patch {
        Some(_) => patch,
        None => current,
    }
}

fn or<T>(patch: Option<T>, current: Option<T>) -> (field: Option<T>)
    ensures
        field == spec_or(patch, current),
{
    match patch {
        Some(value) => Some(value),
        None => current,
    }
}

/// The language that the settings start with on a system of this locale.
pub open spec fn spec_language(locale: Option<String>) -> Seq<char> {
    let key = match locale {
        Some(found) => found@,
        None => "en-US"@,
    };
    if "zh-"@.is_prefix_of(key) {
        "zh"@
    } else {
        "en"@
    }
}

impl IVerge {
    /// Settings in which no field is set.
    pub open spec fn spec_unset() -> IVerge {
        IVerge {
            app_singleton_port: None,
            app_log_level: None,
            language: None,
            theme_mode: None,
            theme_blur: None,
            traffic_graph: None,
            enable_memory_usage: None,
            page_transition_animation: None,
            enable_tun_mode: None,
            enable_service_mode: None,
            enable_auto_launch: None,
            enable_silent_start: None,
            enable_system_proxy: None,
            enable_proxy_guard: None,
            system_proxy_bypass: None,
            proxy_guard_duration: None,
            theme_setting: None,
            web_ui_list: None,
            clash_core: None,
            hotkeys: None,
            auto_close_connection: None,
            default_latency_test: None,
            enable_clash_fields: None,
            enable_builtin_enhanced: None,
            proxy_layout_column: None,
            auto_log_clean: None,
            max_log_files: None,
            window_size_position: None,
            window_size_state: None,
            enable_random_port: None,
            verge_mixed_port: None,
            disable_auto_check_update: None,
            clash_strategy: None,
            clash_tray_selector: None,
        }
    }

    /// The settings after a patch. The port of the single instance and the
    /// two superseded fields are not patched.
    pub open spec fn spec_patched(self, patch: IVerge) -> IVerge {
        IVerge {
            app_singleton_port: self.app_singleton_port,
            app_log_level: spec_or(patch.app_log_level, self.app_log_level),
            language: spec_or(patch.language, self.language),
            theme_mode: spec_or(patch.theme_mode, self.theme_mode),
            theme_blur: spec_or(patch.theme_blur, self.theme_blur),
            traffic_graph: spec_or(patch.traffic_graph, self.traffic_graph),
            enable_memory_usage: spec_or(patch.enable_memory_usage, self.enable_memory_usage),
            page_transition_animation: spec_or(patch.page_transition_animation, self.page_transition_animation),
            enable_tun_mode: spec_or(patch.enable_tun_mode, self.enable_tun_mode),
            enable_service_mode: spec_or(patch.enable_service_mode, self.enable_service_mode),
            enable_auto_launch: spec_or(patch.enable_auto_launch, self.enable_auto_launch),
            enable_silent_start: spec_or(patch.enable_silent_start, self.enable_silent_start),
            enable_system_proxy: spec_or(patch.enable_system_proxy, self.enable_system_proxy),
            enable_proxy_guard: spec_or(patch.enable_proxy_guard, self.enable_proxy_guard),
            system_proxy_bypass: spec_or(patch.system_proxy_bypass, self.system_proxy_bypass),
            proxy_guard_duration: spec_or(patch.proxy_guard_duration, self.proxy_guard_duration),
            theme_setting: spec_or(patch.theme_setting, self.theme_setting),
            web_ui_list: spec_or(patch.web_ui_list, self.web_ui_list),
            clash_core: spec_or(patch.clash_core, self.clash_core),
            hotkeys: spec_or(patch.hotkeys, self.hotkeys),
            auto_close_connection: spec_or(patch.auto_close_connection, self.auto_close_connection),
            default_latency_test: spec_or(patch.default_latency_test, self.default_latency_test),
            enable_clash_fields: spec_or(patch.enable_clash_fields, self.enable_clash_fields),
            enable_builtin_enhanced: spec_or(patch.enable_builtin_enhanced, self.enable_builtin_enhanced),
            proxy_layout_column: spec_or(patch.proxy_layout_column, self.proxy_layout_column),
            auto_log_clean: self.auto_log_clean,
            max_log_files: spec_or(patch.max_log_files, self.max_log_files),
            window_size_position: self.window_size_position,
            window_size_state: spec_or(patch.window_size_state, self.window_size_state),
            enable_random_port: spec_or(patch.enable_random_port, self.enable_random_port),
            verge_mixed_port: spec_or(patch.verge_mixed_port, self.verge_mixed_port),
            disable_auto_check_update: spec_or(patch.disable_auto_check_update, self.disable_auto_check_update),
            clash_strategy: spec_or(patch.clash_strategy, self.clash_strategy),
            clash_tray_selector: spec_or(patch.clash_tray_selector, self.clash_tray_selector),
        }
    }

    /// How the settings have the core launched: unset fields mean the
    /// `mihomo` variant, no service and no tunnel mode.
    pub open spec fn spec_launch_settings(self) -> LaunchSettings {
        LaunchSettings {
            core: match self.clash_core {
                Some(core) => core,
                None => ClashCore::Mihomo,
            },
            service_mode: self.enable_service_mode == Some(true),
            tun_mode: self.enable_tun_mode == Some(true),
        }
    }

    /// The settings that were loaded, or the template where none could be
    /// loaded.
    pub fn new(loaded: Option<IVerge>, locale: Option<String>) -> (settings: IVerge)
        ensures
            loaded matches Some(found) ==> settings == found,
            loaded is None ==> Self::spec_is_template(settings, locale),
    {
        match loaded {
            Some(found) => found,
            None => Self::template(locale),
        }
    }

    /// Whether settings are the ones a first launch starts with.
    pub open spec fn spec_is_template(settings: IVerge, locale: Option<String>) -> bool {
        &&& settings.app_singleton_port is None
        &&& settings.app_log_level == Some(LoggingLevel::Info)
        &&& settings.language matches Some(language) && language@ == spec_language(locale)
        &&& settings.theme_mode matches Some(mode) && mode@ == "system"@
        &&& settings.theme_blur == Some(false)
        &&& settings.traffic_graph == Some(true)
        &&& settings.enable_memory_usage == Some(true)
        &&& settings.page_transition_animation matches Some(animation) && animation@ == "slide"@
        &&& settings.enable_tun_mode is None
        &&& settings.enable_service_mode is None
        &&& settings.enable_auto_launch == Some(false)
        &&& settings.enable_silent_start == Some(false)
        &&& settings.enable_system_proxy == Some(false)
        &&& settings.enable_proxy_guard == Some(false)
        &&& settings.system_proxy_bypass is None
        &&& settings.proxy_guard_duration == Some(30u64)
        &&& settings.theme_setting is None
        &&& settings.web_ui_list is None
        &&& settings.clash_core == Some(ClashCore::MihomoAlpha)
        &&& settings.hotkeys is None
        &&& settings.auto_close_connection == Some(true)
        &&& settings.default_latency_test is None
        &&& settings.enable_clash_fields == Some(true)
        &&& settings.enable_builtin_enhanced == Some(true)
        &&& settings.proxy_layout_column is None
        &&& settings.auto_log_clean is None
        &&& settings.max_log_files == Some(7usize)
        &&& settings.window_size_position is None
        &&& settings.window_size_state is None
        &&& settings.enable_random_port == Some(false)
        &&& settings.verge_mixed_port == Some(7890u16)
        &&& settings.disable_auto_check_update == Some(true)
        &&& settings.clash_strategy is None
        &&& settings.clash_tray_selector == Some(true)
    }

    /// The settings that a first launch starts with, on a system of this
    /// locale.
    pub fn template(locale: Option<String>) -> (settings: IVerge)
        ensures
            Self::spec_is_template(settings, locale),
    {
        let locale = get_system_locale(locale);
        IVerge {
            app_singleton_port: None,
            app_log_level: Some(LoggingLevel::default()),
            language: Some(String::from_str(mapping_to_i18n_key(locale.as_str()))),
            theme_mode: Some(String::from_str("system")),
            theme_blur: Some(false),
            traffic_graph: Some(true),
            enable_memory_usage: Some(true),
            page_transition_animation: Some(String::from_str("slide")),
            enable_tun_mode: None,
            enable_service_mode: None,
            enable_auto_launch: Some(false),
            enable_silent_start: Some(false),
            enable_system_proxy: Some(false),
            enable_proxy_guard: Some(false),
            system_proxy_bypass: None,
            proxy_guard_duration: Some(30),
            theme_setting: None,
            web_ui_list: None,
            clash_core: Some(ClashCore::default()),
            hotkeys: None,
            auto_close_connection: Some(true),
            default_latency_test: None,
            enable_clash_fields: Some(true),
            enable_builtin_enhanced: Some(true),
            proxy_layout_column: None,
            auto_log_clean: None,
            max_log_files: Some(7),
            window_size_position: None,
            window_size_state: None,
            enable_random_port: Some(false),
            verge_mixed_port: Some(7890),
            disable_auto_check_update: Some(true),
            clash_strategy: None,
            clash_tray_selector: Some(true),
        }
    }

    /// Patches the settings: every field that the patch sets takes the
    /// patch's value, every other field stays.
    pub fn patch_config(&mut self, patch: IVerge)
        ensures
            *final(self) == old(self).spec_patched(patch),
    {
        let IVerge {
            app_singleton_port: _,
            app_log_level,
            language,
            theme_mode,
            theme_blur,
            traffic_graph,
            enable_memory_usage,
            page_transition_animation,
            enable_tun_mode,
            enable_service_mode,
            enable_auto_launch,
            enable_silent_start,
            enable_system_proxy,
            enable_proxy_guard,
            system_proxy_bypass,
            proxy_guard_duration,
            theme_setting,
            web_ui_list,
            clash_core,
            hotkeys,
            auto_close_connection,
            default_latency_test,
            enable_clash_fields,
            enable_builtin_enhanced,
            proxy_layout_column,
            auto_log_clean: _,
            max_log_files,
            window_size_position: _,
            window_size_state,
            enable_random_port,
            verge_mixed_port,
            disable_auto_check_update,
            clash_strategy,
            clash_tray_selector,
        } = patch;
        self.app_log_level = or(app_log_level, self.app_log_level.take());
        self.language = or(language, self.language.take());
        self.theme_mode = or(theme_mode, self.theme_mode.take());
        self.theme_blur = or(theme_blur, self.theme_blur.take());
        self.traffic_graph = or(traffic_graph, self.traffic_graph.take());
        self.enable_memory_usage = or(enable_memory_usage, self.enable_memory_usage.take());
        self.page_transition_animation = or(page_transition_animation, self.page_transition_animation.take());
        self.disable_auto_check_update = or(disable_auto_check_update, self.disable_auto_check_update.take());
        self.enable_tun_mode = or(enable_tun_mode, self.enable_tun_mode.take());
        self.enable_service_mode = or(enable_service_mode, self.enable_service_mode.take());
        self.enable_auto_launch = or(enable_auto_launch, self.enable_auto_launch.take());
        self.enable_silent_start = or(enable_silent_start, self.enable_silent_start.take());
        self.enable_system_proxy = or(enable_system_proxy, self.enable_system_proxy.take());
        self.enable_random_port = or(enable_random_port, self.enable_random_port.take());
        self.verge_mixed_port = or(verge_mixed_port, self.verge_mixed_port.take());
        self.enable_proxy_guard = or(enable_proxy_guard, self.enable_proxy_guard.take());
        self.system_proxy_bypass = or(system_proxy_bypass, self.system_proxy_bypass.take());
        self.proxy_guard_duration = or(proxy_guard_duration, self.proxy_guard_duration.take());
        self.theme_setting = or(theme_setting, self.theme_setting.take());
        self.web_ui_list = or(web_ui_list, self.web_ui_list.take());
        self.clash_core = or(clash_core, self.clash_core.take());
        self.hotkeys = or(hotkeys, self.hotkeys.take());
        self.auto_close_connection = or(auto_close_connection, self.auto_close_connection.take());
        self.default_latency_test = or(default_latency_test, self.default_latency_test.take());
        self.enable_builtin_enhanced = or(enable_builtin_enhanced, self.enable_builtin_enhanced.take());
        self.proxy_layout_column = or(proxy_layout_column, self.proxy_layout_column.take());
        self.enable_clash_fields = or(enable_clash_fields, self.enable_clash_fields.take());
        self.max_log_files = or(max_log_files, self.max_log_files.take());
        self.window_size_state = or(window_size_state, self.window_size_state.take());
        self.clash_strategy = or(clash_strategy, self.clash_strategy.take());
        self.clash_tray_selector = or(clash_tray_selector, self.clash_tray_selector.take());
    }

    /// How the settings have the core launched.
    pub fn launch_settings(&self) -> (launch: LaunchSettings)
        ensures
            launch == self.spec_launch_settings(),
    {
        LaunchSettings {
            core: match self.clash_core {
                Some(core) => core,
                None => ClashCore::Mihomo,
            },
            service_mode: match self.enable_service_mode {
                Some(enabled) => enabled,
                None => false,
            },
            tun_mode: match self.enable_tun_mode {
                Some(enabled) => enabled,
                None => false,
            },
        }
    }
}

impl Default for IVerge {
    fn default() -> (settings: IVerge)
        ensures
            settings == IVerge::spec_unset(),
    {
        IVerge {
            app_singleton_port: None,
            app_log_level: None,
            language: None,
            theme_mode: None,
            theme_blur: None,
            traffic_graph: None,
            enable_memory_usage: None,
            page_transition_animation: None,
            enable_tun_mode: None,
            enable_service_mode: None,
            enable_auto_launch: None,
            enable_silent_start: None,
            enable_system_proxy: None,
            enable_proxy_guard: None,
            system_proxy_bypass: None,
            proxy_guard_duration: None,
            theme_setting: None,
            web_ui_list: None,
            clash_core: None,
            hotkeys: None,
            auto_close_connection: None,
            default_latency_test: None,
            enable_clash_fields: None,
            enable_builtin_enhanced: None,
            proxy_layout_column: None,
            auto_log_clean: None,
            max_log_files: None,
            window_size_position: None,
            window_size_state: None,
            enable_random_port: None,
            verge_mixed_port: None,
            disable_auto_check_update: None,
            clash_strategy: None,
            clash_tray_selector: None,
        }
    }
}

/// Whether two lists hold the same texts in the same order, or are both
/// not there.
pub open spec fn spec_same_texts(a: Option<Vec<String>>, b: Option<Vec<String>>) -> bool {
    match (a, b) {
        (Some(a), Some(b)) => a@.len() == b@.len() && forall|i: int|
            0 <= i < a@.len() ==> (#[trigger] a@[i])@ == b@[i]@,
        (None, None) => true,
        _ => false,
    }
}

/// Whether two lists hold the same numbers in the same order, or are both
/// not there.
pub open spec fn spec_same_numbers(a: Option<Vec<u64>>, b: Option<Vec<u64>>) -> bool {
    match (a, b) {
        (Some(a), Some(b)) => a@ == b@,
        (None, None) => true,
        _ => false,
    }
}

fn copy_text(text: &Option<String>) -> (copy: Option<String>)
    ensures
        copy == *text,
{
    match text {
        Some(text) => Some(text.clone()),
        None => None,
    }
}

fn copy_texts(texts: &Option<Vec<String>>) -> (copy: Option<Vec<String>>)
    ensures
        spec_same_texts(copy, *texts),
{
    match texts {
        Some(texts) => {
            let mut copy: Vec<String> = Vec::new();
            let mut at: usize = 0;
            while at < texts.len()
                invariant
                    at <= texts.len(),
                    copy@.len() == at,
                    forall|i: int| 0 <= i < at ==> (#[trigger] copy@[i])@ == texts@[i]@,
                decreases texts.len() - at,
            {
                copy.push(texts[at].clone());
                at += 1;
            }
            Some(copy)
        },
        None => None,
    }
}

fn copy_numbers(numbers: &Option<Vec<u64>>) -> (copy: Option<Vec<u64>>)
    ensures
        spec_same_numbers(copy, *numbers),
{
    match numbers {
        Some(numbers) => {
            let mut copy: Vec<u64> = Vec::new();
            let mut at: usize = 0;
            while at < numbers.len()
                invariant
                    at <= numbers.len(),
                    copy@ == numbers@.take(at as int),
                decreases numbers.len() - at,
            {
                copy.push(numbers[at]);
                proof {
                    assert(numbers@.take(at + 1) =~= numbers@.take(at as int).push(
                        numbers@[at as int],
                    ));
                }
                at += 1;
            }
            proof {
                assert(numbers@.take(at as int) =~= numbers@);
            }
            Some(copy)
        },
        None => None,
    }
}

fn copy_theme(theme: &Option<IVergeTheme>) -> (copy: Option<IVergeTheme>)
    ensures
        copy == *theme,
{
    match theme {
        Some(theme) => Some(theme.clone()),
        None => None,
    }
}

impl Clone for IVergeTheme {
    /// A copy with the same colours and fonts.
    fn clone(&self) -> (copy: IVergeTheme)
        ensures
            copy == *self,
    {
        IVergeTheme {
            primary_color: copy_text(&self.primary_color),
            secondary_color: copy_text(&self.secondary_color),
            primary_text: copy_text(&self.primary_text),
            secondary_text: copy_text(&self.secondary_text),
            info_color: copy_text(&self.info_color),
            error_color: copy_text(&self.error_color),
            warning_color: copy_text(&self.warning_color),
            success_color: copy_text(&self.success_color),
            font_family: copy_text(&self.font_family),
            css_injection: copy_text(&self.css_injection),
            page_transition_duration: self.page_transition_duration,
        }
    }
}

impl IVerge {
    /// Whether two settings say the same: every field is set to the same
    /// value in both or in neither, lists compared item by item.
    pub open spec fn spec_same(self, other: IVerge) -> bool {
        &&& spec_same_texts(self.web_ui_list, other.web_ui_list)
        &&& spec_same_texts(self.hotkeys, other.hotkeys)
        &&& spec_same_numbers(self.window_size_position, other.window_size_position)
        &&& self.app_singleton_port == other.app_singleton_port
        &&& self.app_log_level == other.app_log_level
        &&& self.language == other.language
        &&& self.theme_mode == other.theme_mode
        &&& self.theme_blur == other.theme_blur
        &&& self.traffic_graph == other.traffic_graph
        &&& self.enable_memory_usage == other.enable_memory_usage
        &&& self.page_transition_animation == other.page_transition_animation
        &&& self.enable_tun_mode == other.enable_tun_mode
        &&& self.enable_service_mode == other.enable_service_mode
        &&& self.enable_auto_launch == other.enable_auto_launch
        &&& self.enable_silent_start == other.enable_silent_start
        &&& self.enable_system_proxy == other.enable_system_proxy
        &&& self.enable_proxy_guard == other.enable_proxy_guard
        &&& self.system_proxy_bypass == other.system_proxy_bypass
        &&& self.proxy_guard_duration == other.proxy_guard_duration
        &&& self.theme_setting == other.theme_setting
        &&& self.clash_core == other.clash_core
        &&& self.auto_close_connection == other.auto_close_connection
        &&& self.default_latency_test == other.default_latency_test
        &&& self.enable_clash_fields == other.enable_clash_fields
        &&& self.enable_builtin_enhanced == other.enable_builtin_enhanced
        &&& self.proxy_layout_column == other.proxy_layout_column
        &&& self.auto_log_clean == other.auto_log_clean
        &&& self.max_log_files == other.max_log_files
        &&& self.window_size_state == other.window_size_state
        &&& self.enable_random_port == other.enable_random_port
        &&& self.verge_mixed_port == other.verge_mixed_port
        &&& self.disable_auto_check_update == other.disable_auto_check_update
        &&& self.clash_strategy == other.clash_strategy
        &&& self.clash_tray_selector == other.clash_tray_selector
    }
}

impl Clone for IVerge {
    /// A copy that says the same as the settings.
    fn clone(&self) -> (copy: IVerge)
        ensures
            copy.spec_same(*self),
    {
        IVerge {
            app_singleton_port: self.app_singleton_port,
            app_log_level: self.app_log_level,
            language: copy_text(&self.language),
            theme_mode: copy_text(&self.theme_mode),
            theme_blur: self.theme_blur,
            traffic_graph: self.traffic_graph,
            enable_memory_usage: self.enable_memory_usage,
            page_transition_animation: copy_text(&self.page_transition_animation),
            enable_tun_mode: self.enable_tun_mode,
            enable_service_mode: self.enable_service_mode,
            enable_auto_launch: self.enable_auto_launch,
            enable_silent_start: self.enable_silent_start,
            enable_system_proxy: self.enable_system_proxy,
            enable_proxy_guard: self.enable_proxy_guard,
            system_proxy_bypass: copy_text(&self.system_proxy_bypass),
            proxy_guard_duration: self.proxy_guard_duration,
            theme_setting: copy_theme(&self.theme_setting),
            web_ui_list: copy_texts(&self.web_ui_list),
            clash_core: self.clash_core,
            hotkeys: copy_texts(&self.hotkeys),
            auto_close_connection: self.auto_close_connection,
            default_latency_test: copy_text(&self.default_latency_test),
            enable_clash_fields: self.enable_clash_fields,
            enable_builtin_enhanced: self.enable_builtin_enhanced,
            proxy_layout_column: self.proxy_layout_column,
            auto_log_clean: self.auto_log_clean,
            max_log_files: self.max_log_files,
            window_size_position: copy_numbers(&self.window_size_position),
            window_size_state: self.window_size_state,
            enable_random_port: self.enable_random_port,
            verge_mixed_port: self.verge_mixed_port,
            disable_auto_check_update: self.disable_auto_check_update,
            clash_strategy: self.clash_strategy,
            clash_tray_selector: self.clash_tray_selector,
        }
    }
}

/// A clone of the settings says the same as the settings, and so does the
/// draft that a draft store opens on them.
pub proof fn clone_says_the_same(settings: IVerge, copy: IVerge)
    requires
        vstd::pervasive::cloned(settings, copy),
    ensures
        copy.spec_same(settings),
{
}

/// A patch that sets nothing changes nothing, and patching twice with the
/// same patch is patching once.
pub proof fn patch_laws(settings: IVerge, patch: IVerge)
    ensures
        settings.spec_patched(IVerge::spec_unset()) == settings,
        settings.spec_patched(patch).spec_patched(patch) == settings.spec_patched(patch),
{
}

} // verus!
