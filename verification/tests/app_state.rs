use sing_box_for_windows::app::{
    auto_update_target, can_attempt_auto_update, close_hides_to_tray, extract_short_version,
    hand_off_to_admin_task, initial_hide, interval_from_input, interval_input_text, lookup_entry,
    needs_listing, not_found, should_auto_update_at, summarize_config_load_errors,
    summarize_startup_warnings, tray_action, update_due, AddDialogState, AppState, BgCmd, BgEvent,
    CoreVersionCache, InitialHide, Listing, SourceKind, TrayAction, LOG_BACKLOG_CAP,
};
use sing_box_for_windows::entry::{ConfigEntry, ConfigMetadata, Source};
use sing_box_for_windows::log_bus::LogEvent;
use sing_box_for_windows::paths::Paths;
use sing_box_for_windows::settings::Settings;

fn entry(slug: &str, name: &str, remote: bool, last: Option<&str>) -> ConfigEntry {
    ConfigEntry {
        slug: slug.to_string(),
        metadata: ConfigMetadata {
            name: name.to_string(),
            source: if remote {
                Source::Remote { url: "https://example.com/c.json".to_string() }
            } else {
                Source::Local { path: "C:\\c.json".to_string() }
            },
            last_updated: last.map(|s| s.to_string()),
        },
        folder: format!("C:\\r\\config\\{slug}"),
    }
}

fn listing(slugs: &[&str], cores: &[&str]) -> Listing {
    Listing {
        configs: slugs.iter().map(|s| entry(s, &s.to_uppercase(), true, None)).collect(),
        cores: cores.iter().map(|s| s.to_string()).collect(),
        errors: Vec::new(),
    }
}

fn state_with(selected: Option<&str>, core: Option<&str>, l: Listing) -> (AppState, bool) {
    let mut s = Settings::default();
    s.selected_config = selected.map(|x| x.to_string());
    s.selected_core = core.map(|x| x.to_string());
    AppState::new(s, l, None)
}

#[test]
fn dialog_validation() {
    let mut d = AddDialogState::new();
    assert!(!d.open && d.kind == SourceKind::Remote);
    d.name = "   ".to_string();
    d.url = " ".to_string();
    assert!(d.submit().is_none());
    assert_eq!(d.name_error.as_deref(), Some("Name is required"));
    assert_eq!(d.url_error.as_deref(), Some("URL is required"));
    assert!(!d.busy);
    d.kind = SourceKind::Local;
    d.name = " Home ".to_string();
    assert!(d.submit().is_none());
    assert_eq!(d.path_error.as_deref(), Some("File path is required"));
    assert!(d.name_error.is_none());
    d.path = " C:\\cfg.json ".to_string();
    match d.submit() {
        Some(BgCmd::AddConfig(spec)) => {
            assert_eq!(spec.name, "Home");
            assert!(matches!(spec.source, Source::Local { ref path } if path == "C:\\cfg.json"));
        }
        _ => panic!("expected an add command"),
    }
    assert!(d.busy);
    d.clear_errors();
    d.reset();
    assert!(d.name.is_empty() && !d.busy && !d.open);
}

#[test]
fn dialog_edit_mode() {
    let mut d = AddDialogState::new();
    d.open_for_edit(&entry("abc", "Work", true, None));
    assert!(d.open && d.is_edit());
    assert_eq!(d.url, "https://example.com/c.json");
    match d.submit() {
        Some(BgCmd::EditConfig { slug, spec }) => {
            assert_eq!(slug, "abc");
            assert_eq!(spec.name, "Work");
        }
        _ => panic!("expected an edit command"),
    }
}

#[test]
fn warnings_summaries() {
    assert_eq!(summarize_config_load_errors(&vec![]), None);
    assert_eq!(summarize_config_load_errors(&vec!["e1".to_string()]).as_deref(), Some("e1"));
    assert_eq!(
        summarize_config_load_errors(&vec!["e1".to_string(), "e2".to_string(), "e3".to_string()]).as_deref(),
        Some("Failed to load 3 config entries. First error: e1")
    );
    assert_eq!(
        summarize_startup_warnings(Some("w".to_string()), &vec!["e1".to_string()]).as_deref(),
        Some("w\ne1")
    );
    assert_eq!(summarize_startup_warnings(None, &vec![]), None);
    assert_eq!(summarize_startup_warnings(Some("w".to_string()), &vec![]).as_deref(), Some("w"));
}

#[test]
fn short_versions() {
    assert_eq!(
        extract_short_version("sing-box version 1.10.0\n\nEnvironment: go1.22").as_deref(),
        Some("1.10.0")
    );
    assert_eq!(extract_short_version("sing-box version 1.9.3\r\nTags: x").as_deref(), Some("1.9.3"));
    assert_eq!(extract_short_version("   \nsecond line"), None);
    assert_eq!(extract_short_version(""), None);
    assert_eq!(extract_short_version("single").as_deref(), Some("single"));
}

#[test]
fn interval_field() {
    assert_eq!(interval_from_input(""), Some(24));
    assert_eq!(interval_from_input(" 6 "), Some(6));
    assert_eq!(interval_from_input("0"), Some(1));
    assert_eq!(interval_from_input("5000"), Some(720));
    assert_eq!(interval_from_input("99999999999999999999"), None);
    assert_eq!(interval_from_input("six"), None);
    assert_eq!(interval_input_text(24), "");
    assert_eq!(interval_input_text(48), "48");
    let (mut st, _) = state_with(None, None, listing(&[], &[]));
    assert!(st.update_interval_typed("12".to_string()));
    assert_eq!(st.settings.update_interval_hours, 12);
    assert!(!st.update_interval_typed("12".to_string()));
    assert!(!st.update_interval_typed("abc".to_string()));
    assert_eq!(st.settings.update_interval_hours, 12);
    st.interval_field_left();
    assert_eq!(st.update_interval_input, "12");
}

#[test]
fn version_cache() {
    let mut c = CoreVersionCache::default();
    assert!(c.begin_check(5000));
    assert!(!c.begin_check(5500));
    assert!(c.begin_check(6000));
    assert!(!c.is_current("sb.exe", Some(1)));
    c.record("sb.exe".to_string(), Some(1), Some("sing-box version 1.11.4\n".to_string()), 6000);
    assert!(c.is_current("sb.exe", Some(1)));
    assert!(!c.is_current("sb.exe", Some(2)));
    assert_eq!(c.short.as_deref(), Some("1.11.4"));
    c.record("sb.exe".to_string(), Some(2), None, 7000);
    assert!(c.full.is_none() && c.short.is_none());
    c.clear_without_core(8000);
    assert!(!c.is_current("sb.exe", Some(2)));
}

#[test]
fn startup_prunes_stale_selection() {
    let (st, changed) = state_with(Some("gone"), Some("sb.exe"), listing(&["a1"], &["sb.exe"]));
    assert!(changed);
    assert!(st.settings.selected_config.is_none());
    assert_eq!(st.settings.selected_core.as_deref(), Some("sb.exe"));
    let (st, changed) = state_with(Some("a1"), Some("old.exe"), listing(&["a1"], &["sb.exe"]));
    assert!(changed);
    assert_eq!(st.settings.selected_config.as_deref(), Some("a1"));
    assert!(st.settings.selected_core.is_none());
    let (st, changed) = state_with(Some("a1"), Some("sb.exe"), listing(&["a1"], &["sb.exe"]));
    assert!(!changed);
    assert_eq!(st.selected_entry(), Some(0));
}

#[test]
fn startup_warning_becomes_the_error_banner() {
    let mut l = listing(&[], &[]);
    l.errors = vec!["bad folder".to_string()];
    let (st, _) = AppState::new(Settings::default(), l, Some("settings broken".to_string()));
    assert_eq!(st.last_error.as_deref(), Some("settings broken\nbad folder"));
}

#[test]
fn log_backlog_is_capped() {
    let (mut st, _) = state_with(None, None, listing(&[], &[]));
    for i in 0..(LOG_BACKLOG_CAP + 5) {
        let ev = BgEvent::Log(LogEvent { timestamp: "00:00:00".to_string(), message: format!("m{i}") });
        assert!(!needs_listing(&ev));
        assert!(!st.handle_event(ev, None));
    }
    assert_eq!(st.logs.len(), LOG_BACKLOG_CAP);
    assert_eq!(st.logs.front().map(|e| e.message.as_str()), Some("m5"));
    assert_eq!(st.logs.back().map(|e| e.message.as_str()), Some(format!("m{}", LOG_BACKLOG_CAP + 4).as_str()));
}

#[test]
fn added_config_becomes_selected() {
    let (mut st, _) = state_with(None, None, listing(&[], &[]));
    st.add_dialog.busy = true;
    let ev = BgEvent::AddDone(Ok("n1".to_string()));
    assert!(needs_listing(&ev));
    assert!(st.handle_event(ev, Some(listing(&["n1"], &[]))));
    assert_eq!(st.settings.selected_config.as_deref(), Some("n1"));
    assert_eq!(st.last_info.as_deref(), Some("Added 'n1'"));
    assert!(st.last_error.is_none());
    assert!(!st.add_dialog.busy && !st.add_dialog.open);
}

#[test]
fn deleted_config_is_unselected() {
    let (mut st, _) = state_with(Some("a1"), None, listing(&["a1", "b2"], &[]));
    let persist = st.handle_event(BgEvent::DeleteDone(Ok("a1".to_string())), Some(listing(&["b2"], &[])));
    assert!(persist);
    assert!(st.settings.selected_config.is_none());
    assert_eq!(st.last_info.as_deref(), Some("Deleted 'a1'"));
    assert_eq!(st.configs.len(), 1);
}

#[test]
fn refresh_warning_replaces_success_banner() {
    let (mut st, _) = state_with(Some("a1"), None, listing(&["a1"], &[]));
    let mut l = listing(&["a1"], &[]);
    l.errors = vec!["broken metadata".to_string()];
    let persist = st.handle_event(BgEvent::UpdateDone(Ok("a1".to_string())), Some(l));
    assert!(!persist);
    assert_eq!(st.last_error.as_deref(), Some("broken metadata"));
    assert!(st.last_info.is_none());
}

#[test]
fn failures_only_raise_the_banner() {
    let (mut st, _) = state_with(Some("a1"), None, listing(&["a1"], &[]));
    st.add_dialog.busy = true;
    assert!(!st.handle_event(BgEvent::EditDone(Err("URL is empty".to_string())), None));
    assert_eq!(st.last_error.as_deref(), Some("URL is empty"));
    assert!(!st.add_dialog.busy);
    assert_eq!(st.settings.selected_config.as_deref(), Some("a1"));
    assert!(!st.handle_event(BgEvent::SettingsSaved(Err("disk full".to_string())), None));
    assert_eq!(st.last_error.as_deref(), Some("Failed to save settings: disk full"));
    assert!(!st.handle_event(BgEvent::LoopbackDone(Err("HTTP 404".to_string())), None));
    assert_eq!(st.last_error.as_deref(), Some("Loopback utility failed: HTTP 404"));
}

#[test]
fn loopback_request_and_answer() {
    let (mut st, _) = state_with(None, None, listing(&[], &[]));
    st.last_error = Some("old".to_string());
    assert!(st.request_loopback());
    assert!(st.loopback_busy && st.last_error.is_none());
    assert_eq!(st.last_info.as_deref(), Some("Preparing AppContainer loopback utility\u{2026}"));
    assert!(!st.request_loopback());
    assert!(!st.handle_event(BgEvent::LoopbackDone(Ok(())), None));
    assert!(!st.loopback_busy);
    assert_eq!(st.last_info.as_deref(), Some("Launched AppContainer loopback utility"));
}

#[test]
fn selection_changes() {
    let (mut st, _) = state_with(None, None, listing(&["a1"], &["x.exe", "y.exe"]));
    assert!(st.select_config("a1".to_string()));
    assert!(!st.select_config("a1".to_string()));
    assert!(st.select_core(Some("x.exe".to_string())));
    assert!(!st.select_core(Some("x.exe".to_string())));
    assert!(st.select_core(None));
}

#[test]
fn start_plans() {
    let paths = Paths::under_root("C:\\r");
    let (st, _) = state_with(Some("a1"), None, listing(&["a1"], &["sb.exe"]));
    assert_eq!(st.start_plan(&paths).err().as_deref(), Some("No sing-box core selected"));
    let (st, _) = state_with(None, Some("sb.exe"), listing(&["a1"], &["sb.exe"]));
    assert_eq!(st.start_plan(&paths).err().as_deref(), Some("No config selected"));
    let (mut st, _) = state_with(Some("a1"), Some("sb.exe"), listing(&["a1"], &["sb.exe"]));
    let plan = st.start_plan(&paths).ok().unwrap();
    assert_eq!(plan.core_exe, "C:\\r\\core\\sb.exe");
    assert_eq!(plan.config_file, "C:\\r\\config\\a1\\config.json");
    assert_eq!(plan.runtime_config, "C:\\r\\sing-box\\config.json");
    st.record_start(Err("core not found: x".to_string()));
    assert_eq!(st.last_error.as_deref(), Some("core not found: x"));
    st.last_info = Some("i".to_string());
    st.record_start(Ok(()));
    assert!(st.last_error.is_none() && st.last_info.is_none());
    st.show_exit_error("sing-box exited (exit code 1). See log for details.".to_string());
    assert!(st.last_error.is_some());
}

#[test]
fn tray_and_window_decisions() {
    assert_eq!(tray_action(true, false, false), TrayAction::Spawn);
    assert_eq!(tray_action(false, true, false), TrayAction::Spawn);
    assert_eq!(tray_action(false, false, true), TrayAction::Remove);
    assert_eq!(tray_action(true, true, true), TrayAction::Keep);
    assert_eq!(tray_action(false, false, false), TrayAction::Keep);
    assert!(close_hides_to_tray(true, true, true));
    assert!(!close_hides_to_tray(true, true, false));
    assert!(!close_hides_to_tray(true, false, true));
    assert_eq!(initial_hide(false, true, true), InitialHide::Wait);
    assert_eq!(initial_hide(true, false, true), InitialHide::Wait);
    assert_eq!(initial_hide(true, true, true), InitialHide::HideToTray);
    assert_eq!(initial_hide(true, true, false), InitialHide::Show);
    assert!(hand_off_to_admin_task(true, true, false, true));
    assert!(!hand_off_to_admin_task(true, true, true, true));
    assert!(!hand_off_to_admin_task(false, true, false, true));
}

#[test]
fn entry_lookup() {
    assert_eq!(not_found("zz"), "config 'zz' not found");
    assert_eq!(lookup_entry(None, "zz").err().as_deref(), Some("config 'zz' not found"));
    let e = lookup_entry(Some(entry("a1", "A", true, None)), "a1").ok().unwrap();
    assert_eq!(e.slug, "a1");
}

#[test]
fn automatic_updates() {
    let mut s = Settings::default();
    assert!(auto_update_target(&s).is_none());
    s.auto_update = true;
    assert!(auto_update_target(&s).is_none());
    s.selected_config = Some("a1".to_string());
    s.update_interval_hours = 0;
    assert_eq!(auto_update_target(&s), Some(("a1".to_string(), 3600)));
    s.update_interval_hours = 24;
    assert_eq!(auto_update_target(&s), Some(("a1".to_string(), 86400)));
    s.update_interval_hours = u64::MAX;
    assert_eq!(auto_update_target(&s), Some(("a1".to_string(), u64::MAX)));

    assert!(update_due(100, 50, 10));
    assert!(update_due(0, 10, 10));
    assert!(!update_due(0, 9, 10));
    let t0 = 1709210096i64;
    let e = entry("a1", "A", true, Some("2024-02-29 12:34:56"));
    assert!(!should_auto_update_at(&e, 3600, t0 + 3599));
    assert!(should_auto_update_at(&e, 3600, t0 + 3600));
    assert!(should_auto_update_at(&e, 3600, t0 - 1));
    assert!(should_auto_update_at(&entry("a1", "A", true, None), 3600, t0));
    assert!(should_auto_update_at(&entry("a1", "A", true, Some("garbage")), 3600, t0));

    assert!(can_attempt_auto_update(&None, "a1"));
    assert!(can_attempt_auto_update(&Some(("b2".to_string(), 0)), "a1"));
    assert!(!can_attempt_auto_update(&Some(("a1".to_string(), 599)), "a1"));
    assert!(can_attempt_auto_update(&Some(("a1".to_string(), 600)), "a1"));
}

use sing_box_for_windows::app::{copy_config_error, runtime_dir_error};
use sing_box_for_windows::elevation::{
    run_task_precheck, schtasks_create_args, schtasks_delete_args, schtasks_query_args, schtasks_run_args,
};
use sing_box_for_windows::process::{spawn_error, STOPPED_LINE};

#[test]
fn start_and_task_messages() {
    assert_eq!(runtime_dir_error("C:\\r\\sing-box"), "failed to create runtime config directory C:\\r\\sing-box");
    assert_eq!(copy_config_error("a.json", "b.json"), "failed to copy config a.json to b.json");
    assert_eq!(spawn_error("C:\\r\\core\\x.exe"), "failed to spawn: C:\\r\\core\\x.exe");
    assert_eq!(STOPPED_LINE, "[launcher] sing-box stopped");
    assert_eq!(run_task_precheck(true), Ok(()));
    assert_eq!(
        run_task_precheck(false),
        Err("Scheduled task 'sing-box-for-windows-elevated' is not registered".to_string())
    );
    assert_eq!(
        schtasks_create_args("C:\\t\\task.xml"),
        vec!["/create", "/tn", "sing-box-for-windows-elevated", "/xml", "C:\\t\\task.xml", "/f"]
    );
    assert_eq!(schtasks_query_args(), vec!["/query", "/tn", "sing-box-for-windows-elevated"]);
    assert_eq!(schtasks_run_args(), vec!["/run", "/tn", "sing-box-for-windows-elevated"]);
    assert_eq!(schtasks_delete_args("old"), vec!["/delete", "/tn", "old", "/f"]);
}

use sing_box_for_windows::app::{admin_switch, drop_elevation_error, elevate_error, AdminSwitch};

#[test]
fn administrator_mode() {
    assert_eq!(admin_switch(true, true), AdminSwitch::Elevate);
    assert_eq!(admin_switch(false, true), AdminSwitch::DropElevation { clear_always_admin: true });
    assert_eq!(admin_switch(false, false), AdminSwitch::DropElevation { clear_always_admin: false });
    assert_eq!(
        elevate_error(true, "ignored"),
        "Elevation cancelled. Click Yes on the UAC prompt to enable Administrator Mode."
    );
    assert_eq!(elevate_error(false, "error 5"), "Restart as admin failed: error 5");
    assert_eq!(drop_elevation_error("error 2"), "Restart as standard user failed: error 2");
    let (mut st, _) = state_with(None, None, listing(&[], &[]));
    assert!(st.set_always_admin(true));
    assert!(st.settings.always_admin);
    assert_eq!(
        st.last_info.as_deref(),
        Some("Persistent admin enabled. Future launches will start as Administrator with no UAC prompt.")
    );
    st.last_info = None;
    assert!(!st.set_always_admin(true));
    assert!(st.last_info.is_none());
    assert!(st.set_always_admin(false));
    assert_eq!(
        st.last_info.as_deref(),
        Some("Persistent admin disabled. Future launches will run as standard user.")
    );
}

use sing_box_for_windows::app::{
    destroy_prompt_title, last_updated_label, primary_action_label, replace_command, save_as_default_name,
};

#[test]
fn config_card_actions() {
    let remote = entry("a1", "Home", true, Some("2024-01-01 00:00:00"));
    let local = entry("b2", "Work", false, None);
    assert_eq!(primary_action_label(&remote.metadata.source), "Update");
    assert_eq!(primary_action_label(&local.metadata.source), "Replace");
    assert_eq!(last_updated_label(&remote), "2024-01-01 00:00:00");
    assert_eq!(last_updated_label(&local), "(never)");
    match replace_command(&local, "D:\\new.json".to_string()) {
        BgCmd::EditConfig { slug, spec } => {
            assert_eq!(slug, "b2");
            assert_eq!(spec.name, "Work");
            assert!(matches!(spec.source, Source::Local { ref path } if path == "D:\\new.json"));
        }
        _ => panic!("expected an edit"),
    }
    assert_eq!(save_as_default_name("Home"), "Home.json");
    assert_eq!(destroy_prompt_title(true), "Stop sing-box first");
    assert_eq!(destroy_prompt_title(false), "Destroy working directory");
}

#[test]
fn confirmations_and_results() {
    let (mut st, _) = state_with(None, None, listing(&["a1"], &[]));
    st.delete_confirm = Some("a1".to_string());
    assert_eq!(st.delete_target().as_deref(), Some("a1"));
    assert_eq!(st.delete_confirm.as_deref(), Some("a1"));
    st.delete_confirm = Some("gone".to_string());
    assert_eq!(st.delete_target(), None);
    assert!(st.delete_confirm.is_none());
    st.record_purge(Ok(()));
    assert_eq!(st.last_info.as_deref(), Some("Working directory cleared"));
    st.record_purge(Err("failed to delete: x".to_string()));
    assert_eq!(st.last_error.as_deref(), Some("failed to delete: x"));
    st.record_save_as("D:\\c.json", Ok(()));
    assert!(st.last_error.is_none());
    assert_eq!(st.last_info.as_deref(), Some("Saved to D:\\c.json"));
    st.record_save_as("D:\\c.json", Err("denied".to_string()));
    assert_eq!(st.last_error.as_deref(), Some("Save As failed: denied"));
}

use sing_box_for_windows::app::{dialog_confirm_label, dialog_title};

#[test]
fn dialog_texts_and_edits() {
    assert_eq!(dialog_title(false), "Add config");
    assert_eq!(dialog_title(true), "Edit config");
    assert_eq!(dialog_confirm_label(false, false), "Add");
    assert_eq!(dialog_confirm_label(true, false), "Save");
    assert_eq!(dialog_confirm_label(false, true), "Adding\u{2026}");
    assert_eq!(dialog_confirm_label(true, true), "Saving\u{2026}");
    let (mut st, _) = state_with(None, None, listing(&[], &[]));
    st.last_error = Some("old".to_string());
    assert!(st.submit_add_dialog().is_none());
    assert_eq!(st.last_error.as_deref(), Some("old"));
    assert!(st.add_dialog.name_error.is_some() && st.add_dialog.url_error.is_some());
    st.add_dialog.name_edited("N".to_string());
    assert!(st.add_dialog.name_error.is_none());
    st.add_dialog.kind_changed(SourceKind::Local);
    assert!(st.add_dialog.url_error.is_none());
    st.add_dialog.path_edited("C:\\x.json".to_string());
    st.add_dialog.url_edited("ignored".to_string());
    assert!(matches!(st.submit_add_dialog(), Some(BgCmd::AddConfig(_))));
    assert!(st.last_error.is_none());
    assert!(st.add_dialog.busy);
}

#[test]
fn open_dialogs_block_the_page() {
    let (mut st, _) = state_with(None, None, listing(&[], &[]));
    assert!(!st.modal_window_open());
    st.about_open = true;
    assert!(st.modal_window_open());
    st.about_open = false;
    st.delete_confirm = Some("a".to_string());
    assert!(st.modal_window_open());
}

use sing_box_for_windows::app::{main_window_visible, uptime_ticks};

#[test]
fn window_visibility() {
    assert!(main_window_visible(false, false));
    assert!(main_window_visible(true, true));
    assert!(!main_window_visible(true, false));
    assert!(uptime_ticks(true, true));
    assert!(!uptime_ticks(true, false));
    assert!(!uptime_ticks(false, true));
}

#[test]
fn interval_field_reads_back_what_it_shows() {
    for h in 1u64..=720 {
        assert_eq!(interval_from_input(&interval_input_text(h)), Some(h));
    }
}
