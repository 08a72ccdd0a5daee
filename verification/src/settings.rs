//! Global settings, kept in `settings.json` next to the executable.
use vstd::prelude::*;

use crate::entry::{clone_opt, opt_view};
use crate::text::append_str;
use crate::theme::ThemeMode;

verus! {

/// Update interval used unless the user picks another.
pub const DEFAULT_UPDATE_INTERVAL_HOURS: u64 = 24;

/// Listen address of the mixed inbound when the field is left blank.
pub const DEFAULT_MIXED_LISTEN: &'static str = "127.0.0.1";

/// Listen port of the mixed inbound when the field is left blank.
pub const DEFAULT_MIXED_LISTEN_PORT: u16 = 2080;

/// Address prefix of the TUN interface that the override creates.
pub const DEFAULT_TUN_ADDRESS: &'static str = "172.19.0.1/30";

/// Kind of inbound that the runtime override puts in the config.
#[derive(Clone, Copy, Debug, PartialEq, Eq, Structural)]
pub enum InboundOverrideKind {
    MixedIn,
    Tun,
}

/// Level of sing-box's own log.
#[derive(Clone, Copy, Debug, PartialEq, Eq, Structural)]
pub enum LogLevel {
    Trace,
    Debug,
    Info,
    Warn,
    Error,
    Fatal,
    Panic,
}

/// The name sing-box knows a level by.
pub open spec fn level_text(l: LogLevel) -> Seq<char> {
    match l {
        LogLevel::Trace => "trace"@,
        LogLevel::Debug => "debug"@,
        LogLevel::Info => "info"@,
        LogLevel::Warn => "warn"@,
        LogLevel::Error => "error"@,
        LogLevel::Fatal => "fatal"@,
        LogLevel::Panic => "panic"@,
    }
}

impl LogLevel {
    /// The name sing-box knows the level by.
    pub fn as_str(&self) -> (r: &'static str)
        ensures
            r@ == level_text(*self),
    {
        match self {
            LogLevel::Trace => "trace",
            LogLevel::Debug => "debug",
            LogLevel::Info => "info",
            LogLevel::Warn => "warn",
            LogLevel::Error => "error",
            LogLevel::Fatal => "fatal",
            LogLevel::Panic => "panic",
        }
    }
}

/// The inbound override, as values.
pub ghost struct InboundOverrideView {
    pub enabled: bool,
    pub kind: InboundOverrideKind,
    pub mixed_listen: Seq<char>,
    pub mixed_listen_port: Seq<char>,
    pub tun_mtu: Seq<char>,
    pub tun_endpoint_independent_nat: bool,
}

/// Replaces the config's inbounds, at run time only, with one inbound of
/// the chosen kind. The text fields hold what was typed; they are read
/// when sing-box is started.
pub struct InboundOverrideSettings {
    pub enabled: bool,
    pub kind: InboundOverrideKind,
    /// Listen address of the mixed inbound; blank for the default.
    pub mixed_listen: String,
    /// Listen port of the mixed inbound; blank for the default.
    pub mixed_listen_port: String,
    /// MTU of the TUN interface; blank to leave it to sing-box.
    pub tun_mtu: String,
    pub tun_endpoint_independent_nat: bool,
}

impl View for InboundOverrideSettings {
    type V = InboundOverrideView;

    open spec fn view(&self) -> InboundOverrideView {
        InboundOverrideView {
            enabled: self.enabled,
            kind: self.kind,
            mixed_listen: self.mixed_listen@,
            mixed_listen_port: self.mixed_listen_port@,
            tun_mtu: self.tun_mtu@,
            tun_endpoint_independent_nat: self.tun_endpoint_independent_nat,
        }
    }
}

/// The inbound override of a fresh install: off, mixed, every field blank.
pub open spec fn default_inbound_override() -> InboundOverrideView {
    InboundOverrideView {
        enabled: false,
        kind: InboundOverrideKind::MixedIn,
        mixed_listen: Seq::empty(),
        mixed_listen_port: Seq::empty(),
        tun_mtu: Seq::empty(),
        tun_endpoint_independent_nat: false,
    }
}

impl Default for InboundOverrideSettings {
    fn default() -> (s: Self)
        ensures
            s@ == default_inbound_override(),
    {
        InboundOverrideSettings {
            enabled: false,
            kind: InboundOverrideKind::MixedIn,
            mixed_listen: String::new(),
            mixed_listen_port: String::new(),
            tun_mtu: String::new(),
            tun_endpoint_independent_nat: false,
        }
    }
}

impl Clone for InboundOverrideSettings {
    fn clone(&self) -> (r: Self)
        ensures
            r@ == self@,
    {
        InboundOverrideSettings {
            enabled: self.enabled,
            kind: self.kind,
            mixed_listen: self.mixed_listen.clone(),
            mixed_listen_port: self.mixed_listen_port.clone(),
            tun_mtu: self.tun_mtu.clone(),
            tun_endpoint_independent_nat: self.tun_endpoint_independent_nat,
        }
    }
}

/// Replaces the config's `log` section, at run time only.
#[derive(Clone, Copy, Debug, PartialEq, Eq, Structural)]
pub struct LogOverrideSettings {
    pub enabled: bool,
    /// Turn sing-box's log off.
    pub disabled: bool,
    pub level: LogLevel,
    /// Also write the log to `box.log` in the working directory.
    pub save_logs: bool,
}

/// The log override of a fresh install: off, at level info.
pub open spec fn default_log_override() -> LogOverrideSettings {
    LogOverrideSettings { enabled: false, disabled: false, level: LogLevel::Info, save_logs: false }
}

impl Default for LogOverrideSettings {
    fn default() -> (s: Self)
        ensures
            s == default_log_override(),
    {
        LogOverrideSettings { enabled: false, disabled: false, level: LogLevel::Info, save_logs: false }
    }
}

/// The settings, as values.
pub ghost struct SettingsView {
    pub selected_config: Option<Seq<char>>,
    pub selected_core: Option<Seq<char>>,
    pub auto_start: bool,
    pub auto_start_sing_box: bool,
    pub always_admin: bool,
    pub auto_update: bool,
    pub update_interval_hours: u64,
    pub close_to_tray: bool,
    pub silent_start: bool,
    pub theme_mode: ThemeMode,
    pub inbound_override: InboundOverrideView,
    pub log_override: LogOverrideSettings,
}

/// Global launcher settings. Per-config metadata lives in each config's
/// folder, not here.
pub struct Settings {
    /// Folder slug of the active config.
    pub selected_config: Option<String>,
    /// File name inside `core/` that is run.
    pub selected_core: Option<String>,
    /// Launch the launcher when Windows starts.
    pub auto_start: bool,
    /// Start the selected core when the launcher starts.
    pub auto_start_sing_box: bool,
    /// Relaunch as administrator on every start through a scheduled task.
    pub always_admin: bool,
    /// Periodically re-fetch the selected config from its source.
    pub auto_update: bool,
    pub update_interval_hours: u64,
    /// The close button hides the launcher to the tray.
    pub close_to_tray: bool,
    /// Start hidden, reachable from the tray.
    pub silent_start: bool,
    /// Visual theme.
    pub theme_mode: ThemeMode,
    pub inbound_override: InboundOverrideSettings,
    pub log_override: LogOverrideSettings,
}

impl View for Settings {
    type V = SettingsView;

    open spec fn view(&self) -> SettingsView {
        SettingsView {
            selected_config: opt_view(self.selected_config),
            selected_core: opt_view(self.selected_core),
            auto_start: self.auto_start,
            auto_start_sing_box: self.auto_start_sing_box,
            always_admin: self.always_admin,
            auto_update: self.auto_update,
            update_interval_hours: self.update_interval_hours,
            close_to_tray: self.close_to_tray,
            silent_start: self.silent_start,
            theme_mode: self.theme_mode,
            inbound_override: self.inbound_override@,
            log_override: self.log_override,
        }
    }
}

/// The settings of a fresh install.
pub open spec fn default_settings() -> SettingsView {
    SettingsView {
        selected_config: None,
        selected_core: None,
        auto_start: false,
        auto_start_sing_box: false,
        always_admin: false,
        auto_update: false,
        update_interval_hours: DEFAULT_UPDATE_INTERVAL_HOURS,
        close_to_tray: false,
        silent_start: false,
        theme_mode: ThemeMode::System,
        inbound_override: default_inbound_override(),
        log_override: default_log_override(),
    }
}

impl Default for Settings {
    fn default() -> (s: Self)
        ensures
            s@ == default_settings(),
            s.selected_config is None,
            s.selected_core is None,
            !s.auto_start,
            !s.auto_start_sing_box,
            !s.always_admin,
            !s.auto_update,
            s.update_interval_hours == 24,
            !s.close_to_tray,
            !s.silent_start,
            s.theme_mode == ThemeMode::System,
            !s.inbound_override.enabled,
            !s.log_override.enabled,
    {
        Settings {
            selected_config: None,
            selected_core: None,
            auto_start: false,
            auto_start_sing_box: false,
            always_admin: false,
            auto_update: false,
            update_interval_hours: DEFAULT_UPDATE_INTERVAL_HOURS,
            close_to_tray: false,
            silent_start: false,
            theme_mode: ThemeMode::System,
            inbound_override: InboundOverrideSettings::default(),
            log_override: LogOverrideSettings::default(),
        }
    }
}

impl Clone for Settings {
    fn clone(&self) -> (r: Self)
        ensures
            r@ == self@,
    {
        Settings {
            selected_config: clone_opt(&self.selected_config),
            selected_core: clone_opt(&self.selected_core),
            auto_start: self.auto_start,
            auto_start_sing_box: self.auto_start_sing_box,
            always_admin: self.always_admin,
            auto_update: self.auto_update,
            update_interval_hours: self.update_interval_hours,
            close_to_tray: self.close_to_tray,
            silent_start: self.silent_start,
            theme_mode: self.theme_mode,
            inbound_override: self.inbound_override.clone(),
            log_override: self.log_override,
        }
    }
}

/// What reading `settings.json` gave.
pub enum SettingsRead {
    /// The file was read and parsed.
    Loaded(Settings),
    /// There is no such file.
    Missing,
    /// The file could not be read; the error's text.
    ReadFailed(String),
    /// The file is not valid settings; the parser's message.
    ParseFailed(String),
}

/// The settings and warning that a read outcome leads to: parsed settings
/// without warning; defaults without warning for a missing file; defaults
/// with a warning naming the file otherwise.
pub open spec fn settings_after_read(path: Seq<char>, read: SettingsRead) -> (SettingsView, Option<
    Seq<char>,
>) {
    match read {
        SettingsRead::Loaded(s) => (s@, None),
        SettingsRead::Missing => (default_settings(), None),
        SettingsRead::ReadFailed(e) => (
            default_settings(),
            Some("Failed to read settings file "@ + path + ": "@ + e@),
        ),
        SettingsRead::ParseFailed(e) => (
            default_settings(),
            Some("Failed to parse settings file "@ + path + ": "@ + e@),
        ),
    }
}

/// Law: without a usable `settings.json` (missing, unreadable or not
/// parsable) the launcher starts from the settings of a fresh install:
/// nothing selected, every switch off (closing the window quits, nothing
/// starts by itself, the window shows, no administrator relaunch, no
/// automatic update, no override), a 24-hour update interval and the
/// system theme. Only an unusable file that was there is reported.
pub proof fn law_settings_without_file_are_defaults(path: Seq<char>, read: SettingsRead)
    requires
        !(read is Loaded),
    ensures
        ({
            let (s, warning) = settings_after_read(path, read);
            &&& s.selected_config is None
            &&& s.selected_core is None
            &&& !s.auto_start
            &&& !s.auto_start_sing_box
            &&& !s.always_admin
            &&& !s.auto_update
            &&& s.update_interval_hours == 24
            &&& !s.close_to_tray
            &&& !s.silent_start
            &&& s.theme_mode == ThemeMode::System
            &&& !s.inbound_override.enabled
            &&& !s.log_override.enabled
            &&& (warning is None <==> read is Missing)
        }),
{
}

impl Settings {
    /// The settings to use after reading `settings.json` at `path`, and a
    /// warning to show when the file was there but unusable.
    pub fn load_with_warning(path: &str, read: SettingsRead) -> (r: (Settings, Option<String>))
        ensures
            r.0@ == settings_after_read(path@, read).0,
            opt_view(r.1) == settings_after_read(path@, read).1,
    {
        match read {
            SettingsRead::Loaded(s) => (s, None),
            SettingsRead::Missing => (Settings::default(), None),
            SettingsRead::ReadFailed(e) => {
                let mut w = String::new();
                append_str(&mut w, "Failed to read settings file ");
                append_str(&mut w, path);
                append_str(&mut w, ": ");
                append_str(&mut w, e.as_str());
                (Settings::default(), Some(w))
            },
            SettingsRead::ParseFailed(e) => {
                let mut w = String::new();
                append_str(&mut w, "Failed to parse settings file ");
                append_str(&mut w, path);
                append_str(&mut w, ": ");
                append_str(&mut w, e.as_str());
                (Settings::default(), Some(w))
            },
        }
    }
}

impl Settings {
    /// The settings to use after reading `settings.json` at `path`; the
    /// warning is dropped.
    pub fn load(path: &str, read: SettingsRead) -> (r: Settings)
        ensures
            r@ == settings_after_read(path@, read).0,
    {
        Settings::load_with_warning(path, read).0
    }
}

} // verus!
