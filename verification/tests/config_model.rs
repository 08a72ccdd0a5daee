use sing_box_for_windows::entry::{
    join_path, slug_from, ConfigEntry, ConfigMetadata, SlugIo, SlugSource, Source, SLUG_LEN,
    SLUG_TRIES,
};
use sing_box_for_windows::loopback::{
    installer_download_error, installer_paths, open_or_download, validate_pe_bytes, LoopbackIo,
    INSTALLED_PATH, INSTALLER_FILENAME,
};
use sing_box_for_windows::updater::{config_download_error, DownloadFailure, JobOutcome};
use sing_box_for_windows::paths::{sort_configs, DirItem, FolderScan, Paths};
use sing_box_for_windows::settings::{
    InboundOverrideKind, Settings, SettingsRead, DEFAULT_UPDATE_INTERVAL_HOURS,
};
use sing_box_for_windows::sorting::lex_less;
use sing_box_for_windows::theme::ThemeMode;
use sing_box_for_windows::ui::{
    clash_webui_url, config_log_level, format_duration, inbound_override_kind_label,
    non_empty_or_default, parse_optional_port, webui_link,
};

fn entry(slug: &str, name: &str) -> ConfigEntry {
    ConfigEntry {
        slug: slug.to_string(),
        metadata: ConfigMetadata {
            name: name.to_string(),
            source: Source::Remote { url: "https://example.com/c.json".to_string() },
            last_updated: None,
        },
        folder: format!("C:\\r\\config\\{slug}"),
    }
}

#[test]
fn joining_paths() {
    assert_eq!(join_path("C:\\r", "config"), "C:\\r\\config");
    assert_eq!(join_path("C:\\r\\", "config"), "C:\\r\\config");
    assert_eq!(join_path("C:/r/", "x"), "C:/r/x");
    assert_eq!(join_path("", "x"), "x");
    let p = Paths::under_root("C:\\Apps\\sb");
    assert_eq!(p.core_dir, "C:\\Apps\\sb\\core");
    assert_eq!(p.config_dir, "C:\\Apps\\sb\\config");
    assert_eq!(p.working_dir, "C:\\Apps\\sb\\sing-box");
    assert_eq!(p.settings_file, "C:\\Apps\\sb\\settings.json");
    assert_eq!(p.config_folder("abc"), "C:\\Apps\\sb\\config\\abc");
    assert_eq!(p.core_path("sing-box.exe"), "C:\\Apps\\sb\\core\\sing-box.exe");
    assert_eq!(p.runtime_config_file(), "C:\\Apps\\sb\\sing-box\\config.json");
    assert!(p.load_entry("abc", false, Some(entry("x", "Home").metadata)).is_none());
    assert!(p.load_entry("abc", true, None).is_none());
    let e = p.load_entry("abc", true, Some(entry("x", "Home").metadata)).unwrap();
    assert_eq!(e.slug, "abc");
    assert_eq!(e.folder, "C:\\Apps\\sb\\config\\abc");
    assert_eq!(e.config_file(), "C:\\Apps\\sb\\config\\abc\\config.json");
    assert_eq!(e.metadata_file(), "C:\\Apps\\sb\\config\\abc\\metadata.json");
}

#[test]
fn sources() {
    let l = Source::Local { path: "C:\\a.json".to_string() };
    let r = Source::Remote { url: "https://x".to_string() };
    assert_eq!(l.kind_label(), "Local");
    assert_eq!(r.kind_label(), "Remote");
    assert!(r.is_remote() && !l.is_remote());
    assert!(l.same_as(&l.clone()));
    assert!(!l.same_as(&Source::Local { path: "C:\\b.json".to_string() }));
    assert!(!l.same_as(&Source::Remote { url: "C:\\a.json".to_string() }));
}

fn reference_slug(nanos: u64, counter: u64) -> String {
    let mut state = nanos ^ counter.wrapping_mul(0x9E37_79B9_7F4A_7C15);
    if state == 0 {
        state = 0xDEAD_BEEF_CAFE_BABE;
    }
    let hex = b"0123456789abcdef";
    let mut out = String::new();
    for _ in 0..12 {
        state ^= state << 13;
        state ^= state >> 7;
        state ^= state << 17;
        out.push(hex[(state as usize) & 0xF] as char);
    }
    out
}

#[test]
fn slugs_follow_the_xorshift_draw() {
    for (n, c) in [(0u64, 0u64), (1, 0), (123456789, 3), (u64::MAX, 77), (0x9E37_79B9_7F4A_7C15, 1)] {
        let s = slug_from(n, c);
        assert_eq!(s, reference_slug(n, c));
        assert_eq!(s.len(), SLUG_LEN);
        assert!(s.chars().all(|ch| ch.is_ascii_hexdigit() && !ch.is_ascii_uppercase()));
    }
    assert_ne!(slug_from(5, 0), slug_from(5, 1));
}

#[test]
fn slug_source_draws_fresh_names() {
    let mut src = SlugSource::new();
    let a = src.random_slug();
    let (mut search, io) = src.unique_slug("C:\\r\\config");
    let first = match io {
        SlugIo::Exists(p) => p,
        SlugIo::Done(_) => panic!("the first candidate is always checked"),
    };
    assert!(first.starts_with("C:\\r\\config\\"));
    let b = first["C:\\r\\config\\".len()..].to_string();
    for s in [&a, &b] {
        assert_eq!(s.len(), 12);
        assert!(s.chars().all(|ch| matches!(ch, '0'..='9' | 'a'..='f')));
    }
    match search.step(false, &mut src) {
        SlugIo::Done(found) => {
            assert_eq!(found.slug(), b);
            assert!(found.checked_free());
        }
        SlugIo::Exists(_) => panic!("a free folder ends the search"),
    }
}

#[test]
fn taken_folders_are_skipped() {
    let mut src = SlugSource::new();
    let (mut search, io) = src.unique_slug("D:\\cfg\\");
    let mut asked = vec![match io {
        SlugIo::Exists(p) => p,
        SlugIo::Done(_) => panic!("the first candidate is always checked"),
    }];
    let found = loop {
        match search.step(asked.len() < 3, &mut src) {
            SlugIo::Exists(p) => asked.push(p),
            SlugIo::Done(f) => break f,
        }
    };
    assert_eq!(asked.len(), 3);
    assert!(asked.iter().all(|p| p.starts_with("D:\\cfg\\") && p.len() == "D:\\cfg\\".len() + 12));
    assert_ne!(asked[0], asked[1]);
    assert_eq!(format!("D:\\cfg\\{}", found.slug()), asked[2]);
    assert!(found.checked_free());
}

#[test]
fn search_gives_up_after_every_try_collides() {
    let mut src = SlugSource::new();
    let (mut search, _) = src.unique_slug("C:\\c");
    let mut checks: u64 = 1;
    let found = loop {
        match search.step(true, &mut src) {
            SlugIo::Exists(_) => checks += 1,
            SlugIo::Done(f) => break f,
        }
    };
    assert_eq!(checks, SLUG_TRIES);
    assert!(!found.checked_free());
    assert_eq!(found.slug().len(), 12);
    match search.step(false, &mut src) {
        SlugIo::Done(again) => {
            assert_eq!(again.slug(), found.slug());
            assert!(!again.checked_free());
        }
        SlugIo::Exists(_) => panic!("a finished search stays finished"),
    }
}

#[test]
fn cores_are_exe_files_sorted() {
    let items = vec![
        DirItem { name: "sing-box.exe".to_string(), is_file: true },
        DirItem { name: "README.md".to_string(), is_file: true },
        DirItem { name: "Alpha.EXE".to_string(), is_file: true },
        DirItem { name: "folder.exe".to_string(), is_file: false },
        DirItem { name: ".exe".to_string(), is_file: true },
        DirItem { name: "beta.exe".to_string(), is_file: true },
    ];
    let p = Paths::under_root("C:\\r");
    assert_eq!(p.list_cores(&items), vec!["Alpha.EXE", "beta.exe", "sing-box.exe"]);
}

#[test]
fn configs_sort_by_lowercase_name_stably() {
    let sorted = sort_configs(vec![
        entry("s1", "beta"),
        entry("s2", "Alpha"),
        entry("s3", "alpha"),
        entry("s4", "Émile"),
        entry("s5", "BETA"),
    ]);
    let slugs: Vec<&str> = sorted.iter().map(|e| e.slug.as_str()).collect();
    assert_eq!(slugs, vec!["s2", "s3", "s1", "s5", "s4"]);
}

#[test]
fn lexicographic_order() {
    let v = |s: &str| s.chars().collect::<Vec<char>>();
    assert!(lex_less(&v("abc"), &v("abd")));
    assert!(lex_less(&v("ab"), &v("abc")));
    assert!(!lex_less(&v("abc"), &v("abc")));
    assert!(!lex_less(&v("b"), &v("abc")));
    assert!(lex_less(&v(""), &v("a")));
}

fn pe_image(offset: u32, len: usize) -> Vec<u8> {
    let mut b = vec![0u8; len];
    b[0] = b'M';
    b[1] = b'Z';
    b[0x3C..0x40].copy_from_slice(&offset.to_le_bytes());
    let o = offset as usize;
    if o + 4 <= len {
        b[o..o + 4].copy_from_slice(b"PE\0\0");
    }
    b
}

#[test]
fn installer_header_checks() {
    assert_eq!(validate_pe_bytes(&pe_image(0x80, 0x100)), Ok(()));
    assert_eq!(validate_pe_bytes(&[0u8; 10]), Err("downloaded file is too small".to_string()));
    let mut html = pe_image(0x80, 0x100);
    html[0] = b'<';
    assert_eq!(validate_pe_bytes(&html), Err("downloaded file is not a Windows executable".to_string()));
    assert_eq!(validate_pe_bytes(&pe_image(0x200, 0x100)), Err("invalid PE header signature".to_string()));
    let mut bad_sig = pe_image(0x80, 0x100);
    bad_sig[0x82] = 1;
    assert_eq!(validate_pe_bytes(&bad_sig), Err("invalid PE header signature".to_string()));
    assert_eq!(validate_pe_bytes(&pe_image(0xFFFF_FFFF, 0x100)), Err("invalid PE header signature".to_string()));
}

#[test]
fn loopback_paths() {
    let p = installer_paths("C:\\r");
    assert_eq!(p.tools_dir, "C:\\r\\tools");
    assert_eq!(p.dest, format!("C:\\r\\tools\\{INSTALLER_FILENAME}"));
    assert_eq!(p.partial, "C:\\r\\tools\\enableloopbackutility.exe.partial");
}

fn op_name(io: &LoopbackIo) -> String {
    match io {
        LoopbackIo::Exists(p) => format!("exists {p}"),
        LoopbackIo::CreateDir(p) => format!("mkdir {p}"),
        LoopbackIo::ReadFile(p) => format!("read {p}"),
        LoopbackIo::RemoveFile(p) => format!("rm {p}"),
        LoopbackIo::Download => "download".to_string(),
        LoopbackIo::WriteFile(p, b) => format!("write {p} {}", b.len()),
        LoopbackIo::Rename(a, b) => format!("mv {a} {b}"),
        LoopbackIo::Open(p) => format!("open {p}"),
        LoopbackIo::Finish(r) => format!("finish {r:?}"),
    }
}

fn run_loopback(answer: &dyn Fn(&LoopbackIo) -> JobOutcome) -> Vec<String> {
    let (mut job, mut io) = open_or_download("C:\\r");
    let mut ops = Vec::new();
    loop {
        ops.push(op_name(&io));
        if matches!(io, LoopbackIo::Finish(_)) {
            assert!(job.is_finished());
            return ops;
        }
        let ev = answer(&io);
        io = job.step(ev);
    }
}

#[test]
fn loopback_prefers_the_installed_copy() {
    let ops = run_loopback(&|io: &LoopbackIo| match io {
        LoopbackIo::Exists(_) => JobOutcome::Found(true),
        _ => JobOutcome::Done,
    });
    assert_eq!(ops, vec![format!("exists {INSTALLED_PATH}"), format!("open {INSTALLED_PATH}"), "finish Ok(())".to_string()]);
}

#[test]
fn loopback_reuses_a_valid_cache_and_replaces_a_bad_one() {
    let dest = "C:\\r\\tools\\enableloopbackutility.exe";
    let ops = run_loopback(&|io: &LoopbackIo| match io {
        LoopbackIo::Exists(p) => JobOutcome::Found(p.as_str() != INSTALLED_PATH),
        LoopbackIo::ReadFile(_) => JobOutcome::Bytes(pe_image(0x80, 0x100)),
        _ => JobOutcome::Done,
    });
    assert_eq!(ops[1], "mkdir C:\\r\\tools");
    assert_eq!(ops[3], format!("read {dest}"));
    assert_eq!(ops[4], format!("open {dest}"));
    let ops = run_loopback(&|io: &LoopbackIo| match io {
        LoopbackIo::Exists(p) => JobOutcome::Found(p.as_str() != INSTALLED_PATH),
        LoopbackIo::ReadFile(_) => JobOutcome::Bytes(b"<html>".to_vec()),
        LoopbackIo::Download => JobOutcome::Bytes(pe_image(0x40, 0x80)),
        _ => JobOutcome::Done,
    });
    assert_eq!(&ops[4..], &[
        format!("rm {dest}"),
        "download".to_string(),
        format!("write {dest}.partial 128"),
        format!("mv {dest}.partial {dest}"),
        format!("open {dest}"),
        "finish Ok(())".to_string(),
    ]);
}

#[test]
fn loopback_refuses_a_download_that_is_no_executable() {
    let ops = run_loopback(&|io: &LoopbackIo| match io {
        LoopbackIo::Exists(_) => JobOutcome::Found(false),
        LoopbackIo::Download => JobOutcome::Bytes(b"<html>error page</html>".to_vec()),
        _ => JobOutcome::Done,
    });
    assert_eq!(ops.last().unwrap(), "finish Err(\"downloaded file is too small\")");
    assert!(!ops.iter().any(|o| o.starts_with("write") || o.starts_with("open")));
    let ops = run_loopback(&|io: &LoopbackIo| match io {
        LoopbackIo::Exists(_) => JobOutcome::Found(false),
        LoopbackIo::Download => JobOutcome::Failed("download failed: HTTP 403 Forbidden".to_string()),
        _ => JobOutcome::Done,
    });
    assert_eq!(ops.last().unwrap(), "finish Err(\"download failed: HTTP 403 Forbidden\")");
}

#[test]
fn download_failures_are_described() {
    let f = DownloadFailure::Status("404 Not Found".to_string());
    assert_eq!(config_download_error(&f), "HTTP 404 Not Found");
    assert_eq!(installer_download_error(&f), "download failed: HTTP 404 Not Found");
    let f = DownloadFailure::Request("dns error".to_string());
    assert_eq!(config_download_error(&f), "request failed");
    assert_eq!(installer_download_error(&f), "download request failed: dns error");
    let f = DownloadFailure::ClientInit("tls".to_string());
    assert_eq!(config_download_error(&f), "failed to build HTTP client");
    assert_eq!(installer_download_error(&f), "HTTP client init failed: tls");
    let f = DownloadFailure::Body("reset".to_string());
    assert_eq!(config_download_error(&f), "failed to read response");
    assert_eq!(installer_download_error(&f), "download read failed: reset");
}

#[test]
fn settings_after_reading_the_file() {
    let (s, w) = Settings::load_with_warning("C:\\r\\settings.json", SettingsRead::Missing);
    assert!(w.is_none());
    assert_eq!(s.update_interval_hours, DEFAULT_UPDATE_INTERVAL_HOURS);
    assert_eq!(s.theme_mode, ThemeMode::System);
    assert!(s.selected_config.is_none() && !s.auto_update && !s.always_admin);
    let (_, w) = Settings::load_with_warning("C:\\r\\settings.json", SettingsRead::ParseFailed("bad".into()));
    assert_eq!(w.as_deref(), Some("Failed to parse settings file C:\\r\\settings.json: bad"));
    let (_, w) = Settings::load_with_warning("s.json", SettingsRead::ReadFailed("denied".into()));
    assert_eq!(w.as_deref(), Some("Failed to read settings file s.json: denied"));
    let s = Settings::load("s.json", SettingsRead::ParseFailed("bad".into()));
    assert_eq!(s.update_interval_hours, 24);
    let mut mine = Settings::default();
    mine.selected_core = Some("sb.exe".into());
    let (s, w) = Settings::load_with_warning("s.json", SettingsRead::Loaded(mine));
    assert!(w.is_none());
    assert_eq!(s.selected_core.as_deref(), Some("sb.exe"));
}

#[test]
fn theme_resolution() {
    assert!(ThemeMode::Dark.resolve(false));
    assert!(!ThemeMode::Light.resolve(true));
    assert!(ThemeMode::System.resolve(true));
    assert!(!ThemeMode::System.resolve(false));
}

#[test]
fn interface_formulas() {
    assert_eq!(format_duration(0), "00:00:00");
    assert_eq!(format_duration(3725), "01:02:05");
    assert_eq!(format_duration(360000), "100:00:00");
    assert_eq!(clash_webui_url("0.0.0.0:9090"), "http://127.0.0.1:9090/ui/");
    assert_eq!(clash_webui_url(" https://h:1/ "), "https://h:1/ui/");
    assert_eq!(clash_webui_url("127.0.0.1:9090//"), "http://127.0.0.1:9090/ui/");
    assert_eq!(webui_link(Some("0.0.0.0:9090".into()), Some("ui".into())).as_deref(), Some("http://127.0.0.1:9090/ui/"));
    assert_eq!(webui_link(Some(" ".into()), Some("ui".into())), None);
    assert_eq!(webui_link(Some("h:1".into()), None), None);
    assert_eq!(config_log_level(false, Some(true), Some("info".into())), None);
    assert_eq!(config_log_level(true, Some(true), Some("info".into())).as_deref(), Some("disabled"));
    assert_eq!(config_log_level(true, Some(false), Some("warn".into())).as_deref(), Some("warn"));
    assert_eq!(config_log_level(true, None, None), None);
    assert_eq!(inbound_override_kind_label(InboundOverrideKind::MixedIn), "mixedin");
    assert_eq!(inbound_override_kind_label(InboundOverrideKind::Tun), "tun");
    assert_eq!(non_empty_or_default("  ", "127.0.0.1"), "127.0.0.1");
    assert_eq!(non_empty_or_default(" ::1 ", "127.0.0.1"), "::1");
    assert_eq!(parse_optional_port("", 2080, "mixed port"), Ok(2080));
    assert_eq!(parse_optional_port(" 7890 ", 2080, "mixed port"), Ok(7890));
    assert_eq!(parse_optional_port("0", 2080, "mixed port"), Err("invalid mixed port: 0".to_string()));
    assert_eq!(parse_optional_port("70000", 2080, "mixed port"), Err("invalid mixed port: 70000".to_string()));
    assert_eq!(parse_optional_port("x1", 2080, "mixed port"), Err("invalid mixed port: x1".to_string()));
}

use sing_box_for_windows::theme::FabIcon;
use sing_box_for_windows::ui::{core_label, fab_for, status_text, toolbar_text, ConfigSummary, SelectedConfigCache};

#[test]
fn run_card_texts() {
    assert_eq!(fab_for(true), (FabIcon::Stop, "Stop sing-box"));
    assert_eq!(fab_for(false), (FabIcon::Play, "Start sing-box"));
    assert_eq!(status_text(true), "Running");
    assert_eq!(status_text(false), "Stopped");
    assert_eq!(toolbar_text(None, None), "Log: info    Uptime: stopped");
    assert_eq!(toolbar_text(Some("warn".into()), Some(61)), "Log: warn    Uptime: 00:01:01");
    assert_eq!(core_label(&None), "Core: ?");
    assert_eq!(core_label(&Some("1.11.4".into())), "Core: 1.11.4");
}

#[test]
fn selected_config_cache() {
    let mut c = SelectedConfigCache::new();
    assert!(!c.is_current("a1", Some(5)));
    c.store("a1".into(), Some(5), Some(ConfigSummary { log_level: Some("debug".into()), webui: None }));
    assert!(c.is_current("a1", Some(5)));
    assert!(!c.is_current("a1", Some(6)));
    assert!(!c.is_current("b2", Some(5)));
    assert_eq!(c.get().as_ref().and_then(|s| s.log_level.as_deref()), Some("debug"));
    c.store("a1".into(), None, None);
    assert!(c.is_current("a1", None));
    assert!(c.get().is_none());
}

use sing_box_for_windows::paths::ScanIssue;

#[test]
fn listing_problems_are_worded() {
    let m = ScanIssue::ReadDir { dir: "C:\\r\\config".into(), error: "denied".into() }.message();
    assert_eq!(m, "Failed to read config directory C:\\r\\config: denied");
    assert_eq!(ScanIssue::ReadEntry { error: "io".into() }.message(), "Failed to read config directory entry: io");
    assert_eq!(
        ScanIssue::Inspect { path: "C:\\x".into(), error: "e".into() }.message(),
        "Failed to inspect config path C:\\x: e"
    );
    assert_eq!(ScanIssue::NonUtf8 { path: "C:\\?".into() }.message(), "Skipped config folder with non-UTF-8 name: C:\\?");
    assert_eq!(
        ScanIssue::LoadMetadata { path: "C:\\a\\metadata.json".into(), error: "missing field `name`".into() }.message(),
        "Failed to load config metadata C:\\a\\metadata.json: missing field `name`"
    );
}

fn meta(name: &str) -> ConfigMetadata {
    ConfigMetadata {
        name: name.to_string(),
        source: Source::Local { path: "C:\\x.json".to_string() },
        last_updated: None,
    }
}

#[test]
fn config_scan_lists_loadable_folders_sorted() {
    let paths = Paths::under_root("C:\\r");
    let scan = Ok(vec![
        FolderScan::Folder { slug: "b1".to_string(), metadata: Ok(meta("beta")) },
        FolderScan::NotFolder,
        FolderScan::ReadFailed { error: "x".to_string() },
        FolderScan::Folder { slug: "a1".to_string(), metadata: Ok(meta("Alpha")) },
        FolderScan::Folder { slug: "c1".to_string(), metadata: Err("missing".to_string()) },
        FolderScan::NonUtf8 { path: "C:\\r\\config\\?".to_string() },
        FolderScan::InspectFailed { path: "C:\\r\\config\\d".to_string(), error: "busy".to_string() },
    ]);
    let (entries, errors) = paths.list_configs(&scan);
    let slugs: Vec<&str> = entries.iter().map(|e| e.slug.as_str()).collect();
    assert_eq!(slugs, vec!["a1", "b1"]);
    assert_eq!(entries[0].folder, "C:\\r\\config\\a1");
    assert_eq!(
        errors,
        vec![
            "Failed to read config directory entry: x".to_string(),
            "Failed to load config metadata C:\\r\\config\\c1\\metadata.json: missing".to_string(),
            "Skipped config folder with non-UTF-8 name: C:\\r\\config\\?".to_string(),
            "Failed to inspect config path C:\\r\\config\\d: busy".to_string(),
        ]
    );
}

#[test]
fn unreadable_config_dir_gives_one_warning() {
    let paths = Paths::under_root("C:\\r");
    let (entries, errors) = paths.list_configs(&Err("denied".to_string()));
    assert!(entries.is_empty());
    assert_eq!(errors, vec!["Failed to read config directory C:\\r\\config: denied".to_string()]);
}

#[test]
fn joining_follows_windows_paths() {
    assert_eq!(join_path("C:\\r", "config"), "C:\\r\\config");
    assert_eq!(join_path("C:\\r\\", "config"), "C:\\r\\config");
    assert_eq!(join_path("C:/r/", "x"), "C:/r/x");
    assert_eq!(join_path("C:", "config.json"), "C:config.json");
    assert_eq!(join_path("", "a"), "a");
    assert_eq!(join_path("C:\\r", "D:\\core.exe"), "D:\\core.exe");
    assert_eq!(join_path("C:\\r", "d:x"), "d:x");
    assert_eq!(join_path("C:\\r", "\\core.exe"), "C:\\core.exe");
    assert_eq!(join_path("rel\\dir", "/x"), "/x");
    assert_eq!(join_path("C:\\r", ""), "C:\\r\\");
}
