use std::collections::{BTreeMap, BTreeSet};

use sing_box_for_windows::entry::{ConfigEntry, ConfigMetadata, SlugFound, SlugIo, SlugSource, Source};
use sing_box_for_windows::paths::Paths;
use sing_box_for_windows::persist::{with_suffix, FsOp, FsOutcome, ReplaceJob};
use sing_box_for_windows::app::{run_delete, run_edit, run_update_one, AddDialogState, BgCmd};
use sing_box_for_windows::updater::{
    add_config, check_json, delete_entry, edit_entry, refresh_entry, Io, Job, JobOutcome, NewConfigSpec,
};

/// A small in-memory disk for driving the jobs.
#[derive(Default)]
struct Disk {
    files: BTreeMap<String, Vec<u8>>,
    dirs: BTreeSet<String>,
    fail_rename_to: Option<String>,
    fail_remove: Option<String>,
}

impl Disk {
    fn replace(&mut self, dest: &str, bytes: &[u8]) -> Result<(), String> {
        let (mut job, mut op) = ReplaceJob::start(dest);
        loop {
            let outcome = match op {
                FsOp::CreateDirAll(d) => {
                    self.dirs.insert(d);
                    FsOutcome::Done
                }
                FsOp::WriteFile(p) => {
                    self.files.insert(p, bytes.to_vec());
                    FsOutcome::Done
                }
                FsOp::Exists(p) => FsOutcome::Found(self.files.contains_key(&p)),
                FsOp::RemoveFile(p) => {
                    if self.fail_remove.as_deref() == Some(p.as_str()) {
                        FsOutcome::Failed("locked".to_string())
                    } else {
                        self.files.remove(&p);
                        FsOutcome::Done
                    }
                }
                FsOp::Rename(a, b) => {
                    if self.fail_rename_to.as_deref() == Some(b.as_str()) && !a.ends_with(".bak") {
                        FsOutcome::Failed("denied".to_string())
                    } else if let Some(data) = self.files.remove(&a) {
                        self.files.insert(b, data);
                        FsOutcome::Done
                    } else {
                        FsOutcome::Failed("missing".to_string())
                    }
                }
                FsOp::Finish(r) => return r,
            };
            op = job.step(outcome);
        }
    }
}

fn free_slug(paths: &Paths, slugs: &mut SlugSource) -> SlugFound {
    let (mut search, io) = slugs.unique_slug(&paths.config_dir);
    assert!(matches!(io, SlugIo::Exists(_)));
    match search.step(false, slugs) {
        SlugIo::Done(found) => found,
        SlugIo::Exists(p) => panic!("a free folder must end the search, not ask about {p}"),
    }
}

#[test]
fn replacing_keeps_a_backup() {
    let mut disk = Disk::default();
    disk.files.insert("C:\\d\\config.json".to_string(), b"old".to_vec());
    disk.files.insert("C:\\d\\config.json.bak".to_string(), b"older".to_vec());
    assert_eq!(disk.replace("C:\\d\\config.json", b"new"), Ok(()));
    assert_eq!(disk.files.get("C:\\d\\config.json").map(|v| v.as_slice()), Some(&b"new"[..]));
    assert_eq!(disk.files.get("C:\\d\\config.json.bak").map(|v| v.as_slice()), Some(&b"old"[..]));
    assert!(!disk.files.contains_key("C:\\d\\config.json.tmp"));
    let mut fresh = Disk::default();
    assert_eq!(fresh.replace("C:/d/x.json", b"1"), Ok(()));
    assert!(fresh.dirs.contains("C:/d"));
}

#[test]
fn replacing_a_new_file() {
    let mut disk = Disk::default();
    assert_eq!(disk.replace("C:\\d\\settings.json", b"{}"), Ok(()));
    assert_eq!(disk.files.len(), 1);
}

#[test]
fn failed_final_rename_restores_the_old_file() {
    let mut disk = Disk::default();
    disk.files.insert("C:\\d\\a.json".to_string(), b"old".to_vec());
    disk.fail_rename_to = Some("C:\\d\\a.json".to_string());
    assert_eq!(
        disk.replace("C:\\d\\a.json", b"new"),
        Err("failed to replace C:\\d\\a.json with temp file C:\\d\\a.json.tmp: denied".to_string())
    );
    assert_eq!(disk.files.get("C:\\d\\a.json").map(|v| v.as_slice()), Some(&b"old"[..]));
    assert!(!disk.files.contains_key("C:\\d\\a.json.tmp"));
    assert!(!disk.files.contains_key("C:\\d\\a.json.bak"));
}

#[test]
fn failed_backup_removal_abandons_the_write() {
    let mut disk = Disk::default();
    disk.files.insert("C:\\d\\a.json".to_string(), b"old".to_vec());
    disk.files.insert("C:\\d\\a.json.bak".to_string(), b"older".to_vec());
    disk.fail_remove = Some("C:\\d\\a.json.bak".to_string());
    assert_eq!(
        disk.replace("C:\\d\\a.json", b"new"),
        Err("failed to remove backup file C:\\d\\a.json.bak: locked".to_string())
    );
    assert_eq!(disk.files.get("C:\\d\\a.json").map(|v| v.as_slice()), Some(&b"old"[..]));
    assert!(!disk.files.contains_key("C:\\d\\a.json.tmp"));
}

#[test]
fn write_and_parent_failures_are_reported() {
    let (mut job, op) = ReplaceJob::start("x/y.json");
    assert!(matches!(op, FsOp::CreateDirAll(ref d) if d == "x"));
    match job.step(FsOutcome::Failed("no space".to_string())) {
        FsOp::Finish(r) => assert_eq!(r, Err("failed to create destination directory x: no space".to_string())),
        _ => panic!("expected the job to end"),
    }
    assert!(job.is_finished());
    let (mut job, op) = ReplaceJob::start("/y.json");
    assert!(matches!(op, FsOp::CreateDirAll(ref d) if d == "/"));
    let op = job.step(FsOutcome::Done);
    assert!(matches!(op, FsOp::WriteFile(ref p) if p == "/y.json.tmp"));
    match job.step(FsOutcome::Failed("read-only".to_string())) {
        FsOp::Finish(r) => assert_eq!(r, Err("failed to write temp file /y.json.tmp: read-only".to_string())),
        _ => panic!("expected the job to end"),
    }
    assert_eq!(with_suffix("a\\b", ".bak"), "a\\b.bak");
    let (_, op) = ReplaceJob::start("");
    assert!(matches!(op, FsOp::WriteFile(ref p) if p == ".tmp"));
}

#[test]
fn json_check() {
    assert_eq!(check_json(b"{\"log\": {}}", "bad"), Ok(()));
    assert_eq!(check_json(b"[1, 2]", "bad"), Ok(()));
    assert_eq!(check_json(b"<html>", "bad"), Err("bad".to_string()));
    assert_eq!(check_json(b"", "bad"), Err("bad".to_string()));
    assert_eq!(check_json(b"{\"a\": 1", "bad"), Err("bad".to_string()));
}

/// What happened while a job ran, with scripted answers.
struct Run {
    log: Vec<String>,
    ops: Vec<String>,
    saved: Option<ConfigMetadata>,
}

fn drive(mut job: Job, mut io: Io, answer: &dyn Fn(&Io) -> JobOutcome) -> (Result<String, String>, Run) {
    let mut run = Run { log: Vec::new(), ops: Vec::new(), saved: None };
    loop {
        let outcome = answer(&io);
        match &io {
            Io::Finish(r) => return (r.clone(), run),
            Io::Log(l) => run.log.push(l.clone()),
            Io::CreateDir(p) => run.ops.push(format!("mkdir {p}")),
            Io::RemoveDir(p) => run.ops.push(format!("rmdir {p}")),
            Io::DeleteDir(p) => run.ops.push(format!("delete {p}")),
            Io::Exists(p) => run.ops.push(format!("exists {p}")),
            Io::Download(u) => run.ops.push(format!("get {u}")),
            Io::ReadFile(p) => run.ops.push(format!("read {p}")),
            Io::Replace(p, b) => run.ops.push(format!("replace {p} {}", b.len())),
            Io::SaveMetadata(p, m) => {
                run.ops.push(format!("meta {p}"));
                run.saved = Some(m.clone());
            }
        }
        io = job.step(outcome);
    }
}

fn ok_with_body(body: &'static [u8]) -> impl Fn(&Io) -> JobOutcome {
    move |io: &Io| match io {
        Io::Download(_) | Io::ReadFile(_) => JobOutcome::Bytes(body.to_vec()),
        Io::Exists(_) => JobOutcome::Found(true),
        _ => JobOutcome::Done,
    }
}

fn entry(source: Source) -> ConfigEntry {
    ConfigEntry {
        slug: "abc123".to_string(),
        metadata: ConfigMetadata {
            name: "Home".to_string(),
            source,
            last_updated: Some("2024-01-01 00:00:00".to_string()),
        },
        folder: "C:\\r\\config\\abc123".to_string(),
    }
}

#[test]
fn adding_a_remote_config() {
    let paths = Paths::under_root("C:\\r");
    let mut slugs = SlugSource::new();
    let spec = NewConfigSpec {
        name: "  My VPN ".to_string(),
        source: Source::Remote { url: " https://example.com/c.json ".to_string() },
    };
    let (job, io) = add_config(&paths, &spec, &free_slug(&paths, &mut slugs));
    let (result, run) = drive(job, io, &ok_with_body(b"{\"outbounds\": []}"));
    let slug = result.ok().unwrap();
    assert_eq!(slug.len(), 12);
    let folder = format!("C:\\r\\config\\{slug}");
    assert_eq!(
        run.ops,
        vec![
            format!("mkdir {folder}"),
            "get https://example.com/c.json".to_string(),
            format!("replace {folder}\\config.json 17"),
            format!("meta {folder}\\metadata.json"),
        ]
    );
    assert_eq!(
        run.log,
        vec![
            format!("[updater] downloading https://example.com/c.json -> {folder}\\config.json"),
            "[updater] saved 17 bytes".to_string(),
            format!("[updater] added config 'My VPN' as '{slug}'"),
        ]
    );
    let meta = run.saved.unwrap();
    assert_eq!(meta.name, "My VPN");
    assert!(matches!(meta.source, Source::Remote { ref url } if url == " https://example.com/c.json "));
    let stamp = meta.last_updated.unwrap();
    assert_eq!(stamp.len(), 19);
    assert_eq!(&stamp[4..5], "-");
}

#[test]
fn blank_name_is_refused() {
    let paths = Paths::under_root("C:\\r");
    let mut slugs = SlugSource::new();
    let spec = NewConfigSpec { name: " \t".to_string(), source: Source::Remote { url: "u".to_string() } };
    let (job, io) = add_config(&paths, &spec, &free_slug(&paths, &mut slugs));
    let (result, run) = drive(job, io, &ok_with_body(b"{}"));
    assert_eq!(result, Err("name is required".to_string()));
    assert!(run.ops.is_empty() && run.log.is_empty());
}

#[test]
fn failed_add_removes_its_folder() {
    let paths = Paths::under_root("C:\\r");
    let mut slugs = SlugSource::new();
    let spec = NewConfigSpec { name: "X".to_string(), source: Source::Remote { url: "https://h/x".to_string() } };
    let (job, io) = add_config(&paths, &spec, &free_slug(&paths, &mut slugs));
    let (result, run) = drive(job, io, &ok_with_body(b"<html>not json</html>"));
    assert_eq!(result, Err("downloaded content is not valid JSON".to_string()));
    assert!(run.ops.last().unwrap().starts_with("rmdir C:\\r\\config\\"));
    assert!(!run.ops.iter().any(|o| o.starts_with("replace") || o.starts_with("meta")));

    let (job, io) = add_config(&paths, &spec, &free_slug(&paths, &mut slugs));
    let http_fail = |io: &Io| match io {
        Io::Download(_) => JobOutcome::Failed("HTTP 404 Not Found".to_string()),
        _ => JobOutcome::Done,
    };
    let (result, run) = drive(job, io, &http_fail);
    assert_eq!(result, Err("HTTP 404 Not Found".to_string()));
    assert!(run.ops.last().unwrap().starts_with("rmdir "));

    let spec = NewConfigSpec { name: "X".to_string(), source: Source::Remote { url: "   ".to_string() } };
    let (job, io) = add_config(&paths, &spec, &free_slug(&paths, &mut slugs));
    let (result, run) = drive(job, io, &ok_with_body(b"{}"));
    assert_eq!(result, Err("URL is empty".to_string()));
    assert_eq!(run.ops.len(), 2);
    assert!(run.ops[1].starts_with("rmdir "));
}

#[test]
fn folder_creation_failure() {
    let paths = Paths::under_root("C:\\r");
    let mut slugs = SlugSource::new();
    let spec = NewConfigSpec { name: "X".to_string(), source: Source::Local { path: "C:\\a.json".to_string() } };
    let (job, io) = add_config(&paths, &spec, &free_slug(&paths, &mut slugs));
    let (result, run) = drive(job, io, &|io: &Io| match io {
        Io::CreateDir(_) => JobOutcome::Failed("denied".to_string()),
        _ => JobOutcome::Done,
    });
    assert_eq!(result, Err("failed to create config folder".to_string()));
    assert_eq!(run.ops.len(), 1);
}

#[test]
fn refreshing_a_local_config() {
    let e = entry(Source::Local { path: "D:\\cfg.json".to_string() });
    let (job, io) = refresh_entry(&e);
    let (result, run) = drive(job, io, &ok_with_body(b"{}"));
    assert_eq!(result, Ok("abc123".to_string()));
    assert_eq!(
        run.log,
        vec![
            "[updater] copying D:\\cfg.json -> C:\\r\\config\\abc123\\config.json".to_string(),
            "[updater] copied 2 bytes".to_string(),
            "[updater] refreshed 'Home'".to_string(),
        ]
    );
    let meta = run.saved.unwrap();
    assert_ne!(meta.last_updated.as_deref(), Some("2024-01-01 00:00:00"));

    let (job, io) = refresh_entry(&e);
    let (result, _) = drive(job, io, &|io: &Io| match io {
        Io::Exists(_) => JobOutcome::Found(false),
        _ => JobOutcome::Done,
    });
    assert_eq!(result, Err("source file not found: D:\\cfg.json".to_string()));

    let (job, io) = refresh_entry(&e);
    let (result, _) = drive(job, io, &|io: &Io| match io {
        Io::Exists(_) => JobOutcome::Found(true),
        Io::ReadFile(_) => JobOutcome::Bytes(b"nope".to_vec()),
        _ => JobOutcome::Done,
    });
    assert_eq!(result, Err("source file is not valid JSON".to_string()));

    let (job, io) = refresh_entry(&e);
    let (result, _) = drive(job, io, &|io: &Io| match io {
        Io::Exists(_) => JobOutcome::Found(true),
        Io::ReadFile(_) => JobOutcome::Failed("denied".to_string()),
        _ => JobOutcome::Done,
    });
    assert_eq!(result, Err("failed to read source file".to_string()));

    let (job, io) = refresh_entry(&e);
    let (result, _) = drive(job, io, &|io: &Io| match io {
        Io::Exists(_) => JobOutcome::Found(true),
        Io::ReadFile(_) => JobOutcome::Bytes(b"{}".to_vec()),
        Io::Replace(_, _) => JobOutcome::Failed("locked".to_string()),
        _ => JobOutcome::Done,
    });
    assert_eq!(result, Err("failed to replace config file C:\\r\\config\\abc123\\config.json".to_string()));

    let (job, io) = refresh_entry(&e);
    let (result, _) = drive(job, io, &|io: &Io| match io {
        Io::Exists(_) => JobOutcome::Found(true),
        Io::ReadFile(_) => JobOutcome::Bytes(b"{}".to_vec()),
        Io::SaveMetadata(_, _) => JobOutcome::Failed("locked".to_string()),
        _ => JobOutcome::Done,
    });
    assert_eq!(result, Err("failed to update metadata.json".to_string()));
}

#[test]
fn editing_keeps_the_folder() {
    let e = entry(Source::Remote { url: "https://h/a".to_string() });
    let (job, io) = edit_entry(&e, "  Work ", &Source::Remote { url: "https://h/a".to_string() });
    let (result, run) = drive(job, io, &ok_with_body(b"{}"));
    assert_eq!(result, Ok("abc123".to_string()));
    assert_eq!(run.ops, vec!["meta C:\\r\\config\\abc123\\metadata.json".to_string()]);
    assert_eq!(run.log, vec!["[updater] edited 'Work'".to_string()]);
    let meta = run.saved.unwrap();
    assert_eq!(meta.name, "Work");
    assert_eq!(meta.last_updated.as_deref(), Some("2024-01-01 00:00:00"));

    let (job, io) = edit_entry(&e, "Work", &Source::Remote { url: "https://h/b".to_string() });
    let (result, run) = drive(job, io, &ok_with_body(b"{}"));
    assert_eq!(result, Ok("abc123".to_string()));
    assert_eq!(run.ops[0], "get https://h/b");
    let meta = run.saved.unwrap();
    assert!(matches!(meta.source, Source::Remote { ref url } if url == "https://h/b"));
    assert_ne!(meta.last_updated.as_deref(), Some("2024-01-01 00:00:00"));

    let (job, io) = edit_entry(&e, "   ", &Source::Remote { url: "https://h/b".to_string() });
    let (result, run) = drive(job, io, &ok_with_body(b"{}"));
    assert_eq!(result, Err("name is required".to_string()));
    assert!(run.ops.is_empty());
}

#[test]
fn deleting_an_entry() {
    let e = entry(Source::Remote { url: "https://h/a".to_string() });
    let (job, io) = delete_entry(&e);
    let (result, run) = drive(job, io, &|io: &Io| match io {
        Io::Exists(_) => JobOutcome::Found(true),
        _ => JobOutcome::Done,
    });
    assert_eq!(result, Ok("abc123".to_string()));
    assert_eq!(run.ops, vec!["exists C:\\r\\config\\abc123".to_string(), "delete C:\\r\\config\\abc123".to_string()]);
    assert_eq!(run.log, vec!["[updater] deleted 'Home'".to_string()]);

    let (job, io) = delete_entry(&e);
    let (result, run) = drive(job, io, &|_: &Io| JobOutcome::Found(false));
    assert_eq!(result, Ok("abc123".to_string()));
    assert_eq!(run.ops.len(), 1);

    let (job, io) = delete_entry(&e);
    let (result, _) = drive(job, io, &|io: &Io| match io {
        Io::Exists(_) => JobOutcome::Found(true),
        Io::DeleteDir(_) => JobOutcome::Failed("in use".to_string()),
        _ => JobOutcome::Done,
    });
    assert_eq!(result, Err("failed to delete folder".to_string()));
}

#[test]
fn a_finished_job_repeats_its_result() {
    let e = entry(Source::Remote { url: "https://h/a".to_string() });
    let (mut job, _) = delete_entry(&e);
    let _ = job.step(JobOutcome::Found(false));
    let _ = job.step(JobOutcome::Done);
    assert!(matches!(job.step(JobOutcome::Done), Io::Finish(Ok(ref s)) if s == "abc123"));
    assert!(job.is_finished());
    assert!(matches!(job.step(JobOutcome::Failed("x".to_string())), Io::Finish(Ok(_))));
}

#[test]
fn jobs_on_missing_entries() {
    assert_eq!(run_update_one(None, "zz").err().as_deref(), Some("config 'zz' not found"));
    assert_eq!(run_delete(None, "zz").err().as_deref(), Some("config 'zz' not found"));
    let spec = NewConfigSpec { name: "N".to_string(), source: Source::Remote { url: "https://h".to_string() } };
    assert_eq!(run_edit(None, "zz", &spec).err().as_deref(), Some("config 'zz' not found"));
    let e = entry(Source::Remote { url: "https://h/a".to_string() });
    let (job, io) = run_update_one(Some(e), "abc123").ok().unwrap();
    let (result, run) = drive(job, io, &ok_with_body(b"{}"));
    assert_eq!(result, Ok("abc123".to_string()));
    assert_eq!(run.ops[0], "get https://h/a");
}

#[test]
fn unchanged_edit_rewrites_the_same_metadata() {
    let e = entry(Source::Local { path: "D:\\cfg.json".to_string() });
    let mut d = AddDialogState::new();
    d.open_for_edit(&e);
    let spec = match d.submit() {
        Some(BgCmd::EditConfig { slug, spec }) => {
            assert_eq!(slug, "abc123");
            spec
        }
        _ => panic!("expected an edit"),
    };
    let (job, io) = edit_entry(&e, &spec.name, &spec.source);
    let (result, run) = drive(job, io, &ok_with_body(b"{}"));
    assert_eq!(result, Ok("abc123".to_string()));
    assert_eq!(run.ops, vec!["meta C:\\r\\config\\abc123\\metadata.json".to_string()]);
    let meta = run.saved.unwrap();
    assert_eq!(meta.name, e.metadata.name);
    assert_eq!(meta.last_updated, e.metadata.last_updated);
    assert!(meta.source.same_as(&e.metadata.source));
}
