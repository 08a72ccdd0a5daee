//! Adding, refreshing, editing and deleting config entries.
//!
//! Each action touches the disk or the network, so it is a state machine:
//! a [`Job`] says which operation to perform next ([`Io`]), the caller
//! performs it and hands back what happened ([`JobOutcome`]). The checks,
//! the order of the steps, the messages and the metadata written are all
//! decided here.
use vstd::prelude::*;

use crate::clock::local_now;
use crate::entry::{
    join_path, join_spec, ConfigEntry, ConfigMetadata, EntryView, MetadataView,
    SlugFound, Source, SourceView, is_slug, CONFIG_FILENAME, METADATA_FILENAME,
};
use crate::paths::Paths;
use crate::text::{append_str, decimal, str_trim, trim, u64_to_string};

verus! {

// ----- JSON ------------------------------------------------------------------

/// Whether `serde_json::from_slice::<serde_json::Value>` accepts `bytes`
/// as one JSON document. It depends on the bytes alone.
pub uninterp spec fn json_accepts(bytes: Seq<u8>) -> bool;

/// Whether `bytes` parse as JSON (`serde_json::from_slice` into a
/// `serde_json::Value`). The contract only names the answer.
#[verifier::external_body]
fn is_valid_json(bytes: &[u8]) -> (b: bool)
    ensures
        b == json_accepts(bytes@),
{
    serde_json::from_slice::<serde_json::Value>(bytes).is_ok()
}

/// Checks fetched bytes before they replace a config file: `Err` with
/// `invalid` where they are not JSON.
pub fn check_json(bytes: &[u8], invalid: &str) -> (r: Result<(), String>)
    ensures
        json_accepts(bytes@) ==> r is Ok,
        !json_accepts(bytes@) ==> (r matches Err(e) && e@ == invalid@),
{
    if is_valid_json(bytes) {
        Ok(())
    } else {
        Err(invalid.to_owned())
    }
}

// ----- downloads -------------------------------------------------------------

/// How long a config download may take, in seconds.
pub const DOWNLOAD_TIMEOUT_SECS: u64 = 30;

/// The user agent of config downloads.
pub const USER_AGENT: &'static str = "sing-box-for-windows/0.1";

/// Why a download failed, with the HTTP client's own text.
pub enum DownloadFailure {
    /// The client could not be built.
    ClientInit(String),
    /// The request could not be sent or was not answered.
    Request(String),
    /// The server answered with this status (code and reason).
    Status(String),
    /// The body could not be read.
    Body(String),
}

/// The error of a failed config download. Only the status is quoted; the
/// client's own text is left out.
pub open spec fn config_download_text(f: DownloadFailure) -> Seq<char> {
    match f {
        DownloadFailure::ClientInit(_) => "failed to build HTTP client"@,
        DownloadFailure::Request(_) => "request failed"@,
        DownloadFailure::Status(s) => "HTTP "@ + s@,
        DownloadFailure::Body(_) => "failed to read response"@,
    }
}

/// Describes a failed config download.
pub fn config_download_error(f: &DownloadFailure) -> (r: String)
    ensures
        r@ == config_download_text(*f),
{
    match f {
        DownloadFailure::ClientInit(_) => "failed to build HTTP client".to_owned(),
        DownloadFailure::Request(_) => "request failed".to_owned(),
        DownloadFailure::Status(s) => {
            let mut t = "HTTP ".to_owned();
            append_str(&mut t, s.as_str());
            t
        },
        DownloadFailure::Body(_) => "failed to read response".to_owned(),
    }
}

// ----- the operations --------------------------------------------------------

/// What the "Add config" dialog hands over when the user confirms it.
pub struct NewConfigSpec {
    pub name: String,
    pub source: Source,
}

/// What a job asks the caller to do next.
pub enum Io {
    /// Send this line to the log.
    Log(String),
    /// Create the folder and its parents.
    CreateDir(String),
    /// Remove the folder and everything in it; the outcome does not matter.
    RemoveDir(String),
    /// Remove the folder and everything in it.
    DeleteDir(String),
    /// Report whether the path exists.
    Exists(String),
    /// Fetch the URL over HTTP(S) and hand back the body, or the reason it
    /// failed.
    Download(String),
    /// Read the whole file.
    ReadFile(String),
    /// Replace the file by these bytes, keeping a backup of the old one.
    Replace(String, Vec<u8>),
    /// Write this metadata to the file as pretty-printed JSON.
    SaveMetadata(String, ConfigMetadata),
    /// The job is over: the entry's folder name, or the error.
    Finish(Result<String, String>),
}

/// What happened to the last operation.
pub enum JobOutcome {
    /// It succeeded.
    Done,
    /// It failed, for this reason.
    Failed(String),
    /// The answer to `Exists`.
    Found(bool),
    /// The bytes read or downloaded.
    Bytes(Vec<u8>),
}

/// Which action a job carries out.
#[derive(Clone, Copy, Debug, PartialEq, Eq, Structural)]
pub enum JobKind {
    Add,
    Refresh,
    Edit,
    Delete,
}

/// Where a job stands.
#[derive(Clone, Copy, Debug, PartialEq, Eq, Structural)]
pub enum JobStage {
    CreatingFolder,
    AnnouncingDownload,
    Downloading,
    CheckingSource,
    AnnouncingCopy,
    Reading,
    Replacing,
    ReportingFetch,
    CleaningUp,
    SavingMetadata,
    CheckingFolder,
    DeletingFolder,
    Reporting,
    Finished,
}

/// An operation, as text.
pub ghost enum IoView {
    Log(Seq<char>),
    CreateDir(Seq<char>),
    RemoveDir(Seq<char>),
    DeleteDir(Seq<char>),
    Exists(Seq<char>),
    Download(Seq<char>),
    ReadFile(Seq<char>),
    Replace(Seq<char>, Seq<u8>),
    SaveMetadata(Seq<char>, MetadataView),
    Finish(Result<Seq<char>, Seq<char>>),
}

/// An outcome, as text and bytes.
pub ghost enum JobOutcomeView {
    Done,
    Failed(Seq<char>),
    Found(bool),
    Bytes(Seq<u8>),
}

impl View for Io {
    type V = IoView;

    open spec fn view(&self) -> IoView {
        match self {
            Io::Log(l) => IoView::Log(l@),
            Io::CreateDir(p) => IoView::CreateDir(p@),
            Io::RemoveDir(p) => IoView::RemoveDir(p@),
            Io::DeleteDir(p) => IoView::DeleteDir(p@),
            Io::Exists(p) => IoView::Exists(p@),
            Io::Download(u) => IoView::Download(u@),
            Io::ReadFile(p) => IoView::ReadFile(p@),
            Io::Replace(p, b) => IoView::Replace(p@, b@),
            Io::SaveMetadata(p, m) => IoView::SaveMetadata(p@, m@),
            Io::Finish(r) => IoView::Finish(
                match r {
                    Ok(s) => Ok(s@),
                    Err(e) => Err(e@),
                },
            ),
        }
    }
}

impl View for JobOutcome {
    type V = JobOutcomeView;

    open spec fn view(&self) -> JobOutcomeView {
        match self {
            JobOutcome::Done => JobOutcomeView::Done,
            JobOutcome::Failed(e) => JobOutcomeView::Failed(e@),
            JobOutcome::Found(b) => JobOutcomeView::Found(*b),
            JobOutcome::Bytes(b) => JobOutcomeView::Bytes(b@),
        }
    }
}

/// A job, as text.
pub ghost struct JobView {
    pub kind: JobKind,
    pub slug: Seq<char>,
    pub folder: Seq<char>,
    /// The metadata that will be written.
    pub meta: MetadataView,
    pub meta_path: Seq<char>,
    /// The source the config file is fetched from.
    pub fetch: SourceView,
    /// The trimmed URL being downloaded.
    pub url: Seq<char>,
    /// The config file being replaced.
    pub dest: Seq<char>,
    /// How many bytes were fetched.
    pub size: nat,
    pub error: Seq<char>,
    pub failed: bool,
    pub stage: JobStage,
}

/// One add, refresh, edit or delete, one operation at a time.
pub struct Job {
    kind: JobKind,
    slug: String,
    folder: String,
    meta: ConfigMetadata,
    meta_path: String,
    fetch: Source,
    url: String,
    dest: String,
    size: usize,
    error: String,
    failed: bool,
    stage: JobStage,
}

impl View for Job {
    type V = JobView;

    closed spec fn view(&self) -> JobView {
        JobView {
            kind: self.kind,
            slug: self.slug@,
            folder: self.folder@,
            meta: self.meta@,
            meta_path: self.meta_path@,
            fetch: self.fetch@,
            url: self.url@,
            dest: self.dest@,
            size: self.size as nat,
            error: self.error@,
            failed: self.failed,
            stage: self.stage,
        }
    }
}

// ----- what a job does, as mathematics ----------------------------------------

/// `"[updater] downloading <url> -> <dest>"`.
pub open spec fn downloading_line(url: Seq<char>, dest: Seq<char>) -> Seq<char> {
    "[updater] downloading "@ + url + " -> "@ + dest
}

/// `"[updater] copying <src> -> <dest>"`.
pub open spec fn copying_line(src: Seq<char>, dest: Seq<char>) -> Seq<char> {
    "[updater] copying "@ + src + " -> "@ + dest
}

/// `"[updater] saved <n> bytes"` after a download, `"copied"` after a copy.
pub open spec fn size_line(remote: bool, n: nat) -> Seq<char> {
    if remote {
        "[updater] saved "@ + decimal(n) + " bytes"@
    } else {
        "[updater] copied "@ + decimal(n) + " bytes"@
    }
}

/// The line logged when a job succeeds.
pub open spec fn final_line(kind: JobKind, name: Seq<char>, slug: Seq<char>) -> Seq<char> {
    match kind {
        JobKind::Add => "[updater] added config '"@ + name + "' as '"@ + slug + "'"@,
        JobKind::Refresh => "[updater] refreshed '"@ + name + "'"@,
        JobKind::Edit => "[updater] edited '"@ + name + "'"@,
        JobKind::Delete => "[updater] deleted '"@ + name + "'"@,
    }
}

/// The error when the metadata cannot be written.
pub open spec fn save_error(kind: JobKind) -> Seq<char> {
    if kind == JobKind::Add {
        "failed to write metadata.json"@
    } else {
        "failed to update metadata.json"@
    }
}

/// The job ends with `msg`.
pub open spec fn finish_err(j: JobView, msg: Seq<char>) -> (JobView, IoView) {
    (JobView { stage: JobStage::Finished, failed: true, error: msg, ..j }, IoView::Finish(Err(msg)))
}

/// The fetch failed with `msg`: an added entry's folder is removed first,
/// so no half-built entry is left; any other job ends at once.
pub open spec fn fetch_failed(j: JobView, msg: Seq<char>) -> (JobView, IoView) {
    if j.kind == JobKind::Add {
        (JobView { stage: JobStage::CleaningUp, error: msg, ..j }, IoView::RemoveDir(j.folder))
    } else {
        finish_err(j, msg)
    }
}

/// The first step of fetching the config file: a download announces itself
/// (once its trimmed URL is known not to be empty); a copy first checks
/// that the source file exists.
pub open spec fn fetch_start(j: JobView) -> (JobView, IoView) {
    match j.fetch {
        SourceView::Remote(url) => {
            let u = trim(url);
            if u.len() == 0 {
                fetch_failed(j, "URL is empty"@)
            } else {
                (
                    JobView { stage: JobStage::AnnouncingDownload, url: u, ..j },
                    IoView::Log(downloading_line(u, j.dest)),
                )
            }
        },
        SourceView::Local(p) => (JobView { stage: JobStage::CheckingSource, ..j }, IoView::Exists(p)),
    }
}

/// Fetched bytes replace the config file only when they are JSON.
pub open spec fn bytes_received(j: JobView, b: Seq<u8>, invalid: Seq<char>) -> (JobView, IoView) {
    if !json_accepts(b) {
        fetch_failed(j, invalid)
    } else {
        (JobView { stage: JobStage::Replacing, size: b.len(), ..j }, IoView::Replace(j.dest, b))
    }
}

/// The config file is in place: the metadata records the source it came
/// from and the time `t`, and is written next.
pub open spec fn fetch_succeeded(j: JobView, t: Seq<char>) -> (JobView, IoView) {
    let meta = MetadataView { source: j.fetch, last_updated: Some(t), ..j.meta };
    (JobView { stage: JobStage::SavingMetadata, meta, ..j }, IoView::SaveMetadata(j.meta_path, meta))
}

/// The path of a local source.
pub open spec fn source_path(s: SourceView) -> Seq<char> {
    match s {
        SourceView::Local(p) => p,
        SourceView::Remote(u) => u,
    }
}

/// Whether the outcome is a failure.
pub open spec fn is_failure(ev: JobOutcomeView) -> bool {
    ev is Failed
}

/// The reason of a failure (empty otherwise).
pub open spec fn reason(ev: JobOutcomeView) -> Seq<char> {
    match ev {
        JobOutcomeView::Failed(e) => e,
        _ => Seq::empty(),
    }
}

/// Whether the outcome says the path exists.
pub open spec fn says_found(ev: JobOutcomeView) -> bool {
    ev matches JobOutcomeView::Found(true)
}

/// The bytes of an outcome (none unless it carries bytes).
pub open spec fn bytes_of(ev: JobOutcomeView) -> Seq<u8> {
    match ev {
        JobOutcomeView::Bytes(b) => b,
        _ => Seq::empty(),
    }
}

/// The job moved on to stage `st`.
pub open spec fn moved(j: JobView, st: JobStage) -> JobView {
    JobView { stage: st, ..j }
}

/// The last line is logged; the job then succeeds.
pub open spec fn report(j: JobView) -> (JobView, IoView) {
    (moved(j, JobStage::Reporting), IoView::Log(final_line(j.kind, j.meta.name, j.slug)))
}

/// One step while the config file is fetched.
pub open spec fn fetch_step(j: JobView, ev: JobOutcomeView, t: Seq<char>) -> (JobView, IoView) {
    match j.stage {
        JobStage::AnnouncingDownload => (moved(j, JobStage::Downloading), IoView::Download(j.url)),
        JobStage::Downloading => if is_failure(ev) {
            fetch_failed(j, reason(ev))
        } else {
            bytes_received(j, bytes_of(ev), "downloaded content is not valid JSON"@)
        },
        JobStage::CheckingSource => if says_found(ev) {
            (
                moved(j, JobStage::AnnouncingCopy),
                IoView::Log(copying_line(source_path(j.fetch), j.dest)),
            )
        } else {
            fetch_failed(j, "source file not found: "@ + source_path(j.fetch))
        },
        JobStage::AnnouncingCopy => (
            moved(j, JobStage::Reading),
            IoView::ReadFile(source_path(j.fetch)),
        ),
        JobStage::Reading => if is_failure(ev) {
            fetch_failed(j, "failed to read source file"@)
        } else {
            bytes_received(j, bytes_of(ev), "source file is not valid JSON"@)
        },
        JobStage::Replacing => if is_failure(ev) {
            fetch_failed(j, "failed to replace config file "@ + j.dest)
        } else {
            (
                moved(j, JobStage::ReportingFetch),
                IoView::Log(size_line(j.fetch is Remote, j.size)),
            )
        },
        _ => fetch_succeeded(j, t),
    }
}

/// Whether a stage belongs to fetching the config file.
pub open spec fn fetching(st: JobStage) -> bool {
    st == JobStage::AnnouncingDownload || st == JobStage::Downloading || st
        == JobStage::CheckingSource || st == JobStage::AnnouncingCopy || st == JobStage::Reading
        || st == JobStage::Replacing || st == JobStage::ReportingFetch
}

/// One step: from the job and what its last operation did, the next job
/// and operation. `t` is the local time, used only when a fetched config
/// is recorded in the metadata.
pub open spec fn step_spec(j: JobView, ev: JobOutcomeView, t: Seq<char>) -> (JobView, IoView) {
    if fetching(j.stage) {
        fetch_step(j, ev, t)
    } else {
        match j.stage {
            JobStage::CreatingFolder => if is_failure(ev) {
                finish_err(j, "failed to create config folder"@)
            } else {
                fetch_start(j)
            },
            JobStage::CleaningUp => finish_err(j, j.error),
            JobStage::SavingMetadata => if is_failure(ev) {
                finish_err(j, save_error(j.kind))
            } else {
                report(j)
            },
            JobStage::CheckingFolder => if says_found(ev) {
                (moved(j, JobStage::DeletingFolder), IoView::DeleteDir(j.folder))
            } else {
                report(j)
            },
            JobStage::DeletingFolder => if is_failure(ev) {
                finish_err(j, "failed to delete folder"@)
            } else {
                report(j)
            },
            JobStage::Reporting => (
                JobView { stage: JobStage::Finished, failed: false, ..j },
                IoView::Finish(Ok(j.slug)),
            ),
            _ => (
                j,
                IoView::Finish(
                    if j.failed {
                        Err(j.error)
                    } else {
                        Ok(j.slug)
                    },
                ),
            ),
        }
    }
}

// ----- how jobs start ----------------------------------------------------------

/// A job of `kind` with nothing filled in yet.
pub open spec fn empty_job(kind: JobKind) -> JobView {
    JobView {
        kind,
        slug: Seq::empty(),
        folder: Seq::empty(),
        meta: MetadataView {
            name: Seq::empty(),
            source: SourceView::Local(Seq::empty()),
            last_updated: None,
        },
        meta_path: Seq::empty(),
        fetch: SourceView::Local(Seq::empty()),
        url: Seq::empty(),
        dest: Seq::empty(),
        size: 0,
        error: Seq::empty(),
        failed: false,
        stage: JobStage::Finished,
    }
}

/// A job of `kind` on an existing entry: its folder, metadata and files,
/// fetching from its recorded source.
pub open spec fn job_for(kind: JobKind, e: EntryView) -> JobView {
    JobView {
        kind,
        slug: e.slug,
        folder: e.folder,
        meta: e.metadata,
        meta_path: join_spec(e.folder, METADATA_FILENAME@),
        fetch: e.metadata.source,
        url: Seq::empty(),
        dest: join_spec(e.folder, CONFIG_FILENAME@),
        size: 0,
        error: Seq::empty(),
        failed: false,
        stage: JobStage::Finished,
    }
}

/// Adding a config named `name` (trimmed) from `source` in the new folder
/// `slug` under `config_dir`: the folder is created first.
pub open spec fn add_start_spec(
    config_dir: Seq<char>,
    name: Seq<char>,
    source: SourceView,
    slug: Seq<char>,
) -> (JobView, IoView) {
    let folder = join_spec(config_dir, slug);
    (
        JobView {
            kind: JobKind::Add,
            slug,
            folder,
            meta: MetadataView { name: trim(name), source, last_updated: None },
            meta_path: join_spec(folder, METADATA_FILENAME@),
            fetch: source,
            url: Seq::empty(),
            dest: join_spec(folder, CONFIG_FILENAME@),
            size: 0,
            error: Seq::empty(),
            failed: false,
            stage: JobStage::CreatingFolder,
        },
        IoView::CreateDir(folder),
    )
}

/// Editing an entry: the name is trimmed and must not be blank; a changed
/// source is fetched first, an unchanged one only rewrites the metadata
/// (keeping its time).
pub open spec fn edit_start_spec(e: EntryView, name: Seq<char>, source: SourceView) -> (
    JobView,
    IoView,
) {
    let n = trim(name);
    if n.len() == 0 {
        finish_err(job_for(JobKind::Edit, e), "name is required"@)
    } else {
        let base = job_for(JobKind::Edit, e);
        let j = JobView { meta: MetadataView { name: n, ..e.metadata }, fetch: source, ..base };
        if e.metadata.source != source {
            fetch_start(j)
        } else {
            (moved(j, JobStage::SavingMetadata), IoView::SaveMetadata(j.meta_path, j.meta))
        }
    }
}

// ----- the executable machine ----------------------------------------------------

fn is_fetching(st: JobStage) -> (b: bool)
    ensures
        b == fetching(st),
{
    match st {
        JobStage::AnnouncingDownload | JobStage::Downloading | JobStage::CheckingSource
        | JobStage::AnnouncingCopy | JobStage::Reading | JobStage::Replacing
        | JobStage::ReportingFetch => true,
        _ => false,
    }
}

fn joined3(a: &str, b: &str, c: &str) -> (r: String)
    ensures
        r@ == a@ + b@ + c@,
{
    let mut s = a.to_owned();
    append_str(&mut s, b);
    append_str(&mut s, c);
    s
}

fn joined5(a: &str, b: &str, c: &str, d: &str, e: &str) -> (r: String)
    ensures
        r@ == a@ + b@ + c@ + d@ + e@,
{
    let mut s = joined3(a, b, c);
    append_str(&mut s, d);
    append_str(&mut s, e);
    s
}

fn final_text(kind: JobKind, name: &str, slug: &str) -> (r: String)
    ensures
        r@ == final_line(kind, name@, slug@),
{
    match kind {
        JobKind::Add => joined5("[updater] added config '", name, "' as '", slug, "'"),
        JobKind::Refresh => joined3("[updater] refreshed '", name, "'"),
        JobKind::Edit => joined3("[updater] edited '", name, "'"),
        JobKind::Delete => joined3("[updater] deleted '", name, "'"),
    }
}

fn path_of(s: &Source) -> (r: String)
    ensures
        r@ == source_path(s@),
{
    match s {
        Source::Local { path } => path.clone(),
        Source::Remote { url } => url.clone(),
    }
}

fn blank_metadata() -> (m: ConfigMetadata)
    ensures
        m@ == empty_job(JobKind::Add).meta,
{
    ConfigMetadata {
        name: String::new(),
        source: Source::Local { path: String::new() },
        last_updated: None,
    }
}

impl Job {
    fn blank(kind: JobKind) -> (j: Job)
        ensures
            j@ == empty_job(kind),
    {
        Job {
            kind,
            slug: String::new(),
            folder: String::new(),
            meta: blank_metadata(),
            meta_path: String::new(),
            fetch: Source::Local { path: String::new() },
            url: String::new(),
            dest: String::new(),
            size: 0,
            error: String::new(),
            failed: false,
            stage: JobStage::Finished,
        }
    }

    fn on_entry(kind: JobKind, e: &ConfigEntry) -> (j: Job)
        ensures
            j@ == job_for(kind, e@),
    {
        Job {
            kind,
            slug: e.slug.clone(),
            folder: e.folder.clone(),
            meta: e.metadata.clone(),
            meta_path: e.metadata_file(),
            fetch: e.metadata.source.clone(),
            url: String::new(),
            dest: e.config_file(),
            size: 0,
            error: String::new(),
            failed: false,
            stage: JobStage::Finished,
        }
    }

    /// Starts adding a config: its name trimmed must not be blank; the
    /// folder is the one the search settled on, and it is created first.
    fn add(paths: &Paths, spec: &NewConfigSpec, found: &SlugFound) -> (r: (Job, Io))
        ensures
            trim(spec.name@).len() == 0 ==> (r.0@, r.1@) == finish_err(
                empty_job(JobKind::Add),
                "name is required"@,
            ),
            trim(spec.name@).len() > 0 ==> r.0@.slug == found@.slug && is_slug(r.0@.slug) && (
            r.0@, r.1@) == add_start_spec(paths.config_dir@, spec.name@, spec.source@, found@.slug),
    {
        let name = str_trim(spec.name.as_str());
        if name.as_str().unicode_len() == 0 {
            proof {
                assert(name@.len() == 0);
            }
            let mut j = Job::blank(JobKind::Add);
            let io = j.finish_err("name is required".to_owned());
            return (j, io);
        }
        proof {
            assert(name@.len() > 0);
        }
        let slug = found.slug().to_owned();
        let folder = paths.config_folder(slug.as_str());
        let meta = ConfigMetadata { name, source: spec.source.clone(), last_updated: None };
        let meta_path = join_path(folder.as_str(), METADATA_FILENAME);
        let dest = join_path(folder.as_str(), CONFIG_FILENAME);
        let io = Io::CreateDir(folder.clone());
        let j = Job {
            kind: JobKind::Add,
            slug,
            folder,
            meta,
            meta_path,
            fetch: spec.source.clone(),
            url: String::new(),
            dest,
            size: 0,
            error: String::new(),
            failed: false,
            stage: JobStage::CreatingFolder,
        };
        (j, io)
    }

    /// Starts re-fetching an entry from its recorded source.
    fn refresh(entry: &ConfigEntry) -> (r: (Job, Io))
        ensures
            (r.0@, r.1@) == fetch_start(job_for(JobKind::Refresh, entry@)),
    {
        let mut j = Job::on_entry(JobKind::Refresh, entry);
        let io = j.fetch_into();
        (j, io)
    }

    /// Starts editing an entry: new name (trimmed, not blank) and source.
    /// The folder, and so the stored selection, stays the same.
    fn edit(entry: &ConfigEntry, new_name: &str, new_source: &Source) -> (r: (Job, Io))
        ensures
            (r.0@, r.1@) == edit_start_spec(entry@, new_name@, new_source@),
    {
        let mut j = Job::on_entry(JobKind::Edit, entry);
        let name = str_trim(new_name);
        if name.as_str().unicode_len() == 0 {
            proof {
                assert(name@.len() == 0);
            }
            let io = j.finish_err("name is required".to_owned());
            return (j, io);
        }
        proof {
            assert(name@.len() > 0);
        }
        j.meta.name = name;
        j.fetch = new_source.clone();
        if !entry.metadata.source.same_as(new_source) {
            let io = j.fetch_into();
            (j, io)
        } else {
            j.stage = JobStage::SavingMetadata;
            let io = Io::SaveMetadata(j.meta_path.clone(), j.meta.clone());
            (j, io)
        }
    }

    /// Starts deleting an entry's folder.
    fn delete(entry: &ConfigEntry) -> (r: (Job, Io))
        ensures
            (r.0@, r.1@) == (
                moved(job_for(JobKind::Delete, entry@), JobStage::CheckingFolder),
                IoView::Exists(entry@.folder),
            ),
    {
        let mut j = Job::on_entry(JobKind::Delete, entry);
        j.stage = JobStage::CheckingFolder;
        let io = Io::Exists(entry.folder.clone());
        (j, io)
    }

    /// Whether the job is over.
    pub fn is_finished(&self) -> (b: bool)
        ensures
            b == (self@.stage == JobStage::Finished),
    {
        self.stage == JobStage::Finished
    }

    fn finish_err(&mut self, msg: String) -> (io: Io)
        ensures
            (final(self)@, io@) == finish_err(old(self)@, msg@),
    {
        self.stage = JobStage::Finished;
        self.failed = true;
        self.error = msg.clone();
        Io::Finish(Err(msg))
    }

    fn fetch_failed(&mut self, msg: String) -> (io: Io)
        ensures
            (final(self)@, io@) == fetch_failed(old(self)@, msg@),
    {
        if self.kind == JobKind::Add {
            self.stage = JobStage::CleaningUp;
            self.error = msg;
            Io::RemoveDir(self.folder.clone())
        } else {
            self.finish_err(msg)
        }
    }

    fn fetch_into(&mut self) -> (io: Io)
        ensures
            (final(self)@, io@) == fetch_start(old(self)@),
    {
        let remote_url = match &self.fetch {
            Source::Remote { url } => Some(str_trim(url.as_str())),
            Source::Local { .. } => None,
        };
        match remote_url {
            Some(u) => {
                if u.as_str().unicode_len() == 0 {
                    self.fetch_failed("URL is empty".to_owned())
                } else {
                    let line = joined5(
                        "[updater] downloading ",
                        u.as_str(),
                        " -> ",
                        self.dest.as_str(),
                        "",
                    );
                    proof {
                        reveal_strlit("");
                        assert(line@ =~= downloading_line(u@, self.dest@));
                    }
                    self.url = u;
                    self.stage = JobStage::AnnouncingDownload;
                    Io::Log(line)
                }
            },
            None => {
                self.stage = JobStage::CheckingSource;
                Io::Exists(path_of(&self.fetch))
            },
        }
    }

    fn take_bytes(&mut self, b: Vec<u8>, invalid: &str) -> (io: Io)
        ensures
            (final(self)@, io@) == bytes_received(old(self)@, b@, invalid@),
    {
        if !is_valid_json(b.as_slice()) {
            self.fetch_failed(invalid.to_owned())
        } else {
            self.size = b.len();
            self.stage = JobStage::Replacing;
            Io::Replace(self.dest.clone(), b)
        }
    }

    fn fetched(&mut self, t: String) -> (io: Io)
        ensures
            (final(self)@, io@) == fetch_succeeded(old(self)@, t@),
    {
        self.meta.source = self.fetch.clone();
        self.meta.last_updated = Some(t);
        self.stage = JobStage::SavingMetadata;
        Io::SaveMetadata(self.meta_path.clone(), self.meta.clone())
    }

    fn report(&mut self) -> (io: Io)
        ensures
            (final(self)@, io@) == report(old(self)@),
    {
        self.stage = JobStage::Reporting;
        Io::Log(final_text(self.kind, self.meta.name.as_str(), self.slug.as_str()))
    }

    fn fetch_advance(&mut self, ev: JobOutcome) -> (io: Io)
        requires
            fetching(old(self)@.stage),
            old(self)@.stage != JobStage::ReportingFetch,
        ensures
            (final(self)@, io@) == fetch_step(old(self)@, ev@, Seq::empty()),
    {
        let is_failed = match &ev {
            JobOutcome::Failed(_) => true,
            _ => false,
        };
        let found = match &ev {
            JobOutcome::Found(b) => *b,
            _ => false,
        };
        let why = match &ev {
            JobOutcome::Failed(e) => e.clone(),
            _ => String::new(),
        };
        let bytes = match ev {
            JobOutcome::Bytes(b) => b,
            _ => Vec::new(),
        };
        match self.stage {
            JobStage::AnnouncingDownload => {
                self.stage = JobStage::Downloading;
                Io::Download(self.url.clone())
            },
            JobStage::Downloading => {
                if is_failed {
                    self.fetch_failed(why)
                } else {
                    self.take_bytes(bytes, "downloaded content is not valid JSON")
                }
            },
            JobStage::CheckingSource => {
                let src = path_of(&self.fetch);
                if found {
                    let line = joined5("[updater] copying ", src.as_str(), " -> ", self.dest.as_str(), "");
                    proof {
                        reveal_strlit("");
                        assert(line@ =~= copying_line(src@, self.dest@));
                    }
                    self.stage = JobStage::AnnouncingCopy;
                    Io::Log(line)
                } else {
                    let msg = joined3("source file not found: ", src.as_str(), "");
                    proof {
                        reveal_strlit("");
                        assert(msg@ =~= "source file not found: "@ + src@);
                    }
                    self.fetch_failed(msg)
                }
            },
            JobStage::AnnouncingCopy => {
                self.stage = JobStage::Reading;
                Io::ReadFile(path_of(&self.fetch))
            },
            JobStage::Reading => {
                if is_failed {
                    self.fetch_failed("failed to read source file".to_owned())
                } else {
                    self.take_bytes(bytes, "source file is not valid JSON")
                }
            },
            _ => {
                if is_failed {
                    let msg = joined3("failed to replace config file ", self.dest.as_str(), "");
                    proof {
                        reveal_strlit("");
                        assert(msg@ =~= "failed to replace config file "@ + self.dest@);
                    }
                    self.fetch_failed(msg)
                } else {
                    let n = u64_to_string(self.size as u64);
                    let line = if self.fetch.is_remote() {
                        joined3("[updater] saved ", n.as_str(), " bytes")
                    } else {
                        joined3("[updater] copied ", n.as_str(), " bytes")
                    };
                    self.stage = JobStage::ReportingFetch;
                    Io::Log(line)
                }
            },
        }
    }

    fn other_advance(&mut self, ev: JobOutcome) -> (io: Io)
        requires
            !fetching(old(self)@.stage),
        ensures
            (final(self)@, io@) == step_spec(old(self)@, ev@, Seq::empty()),
    {
        let is_failed = match &ev {
            JobOutcome::Failed(_) => true,
            _ => false,
        };
        let found = match &ev {
            JobOutcome::Found(b) => *b,
            _ => false,
        };
        match self.stage {
            JobStage::CreatingFolder => {
                if is_failed {
                    self.finish_err("failed to create config folder".to_owned())
                } else {
                    self.fetch_into()
                }
            },
            JobStage::CleaningUp => {
                let e = self.error.clone();
                self.finish_err(e)
            },
            JobStage::SavingMetadata => {
                if is_failed {
                    let msg = if self.kind == JobKind::Add {
                        "failed to write metadata.json".to_owned()
                    } else {
                        "failed to update metadata.json".to_owned()
                    };
                    self.finish_err(msg)
                } else {
                    self.report()
                }
            },
            JobStage::CheckingFolder => {
                if found {
                    self.stage = JobStage::DeletingFolder;
                    Io::DeleteDir(self.folder.clone())
                } else {
                    self.report()
                }
            },
            JobStage::DeletingFolder => {
                if is_failed {
                    self.finish_err("failed to delete folder".to_owned())
                } else {
                    self.report()
                }
            },
            JobStage::Reporting => {
                self.stage = JobStage::Finished;
                self.failed = false;
                Io::Finish(Ok(self.slug.clone()))
            },
            _ => {
                if self.failed {
                    Io::Finish(Err(self.error.clone()))
                } else {
                    Io::Finish(Ok(self.slug.clone()))
                }
            },
        }
    }

    /// Takes what the last operation did and returns the next operation.
    /// Where the fetched config is recorded, the metadata gets the local
    /// time at that moment.
    pub fn step(&mut self, ev: JobOutcome) -> (io: Io)
        ensures
            exists|t: Seq<char>| (final(self)@, io@) == step_spec(old(self)@, ev@, t),
    {
        if self.stage == JobStage::ReportingFetch {
            let stamp = local_now().stamp;
            let ghost t = stamp@;
            let io = self.fetched(stamp);
            proof {
                assert((self@, io@) == step_spec(old(self)@, ev@, t));
            }
            io
        } else if is_fetching(self.stage) {
            let io = self.fetch_advance(ev);
            proof {
                assert((self@, io@) == step_spec(old(self)@, ev@, Seq::empty()));
            }
            io
        } else {
            let io = self.other_advance(ev);
            proof {
                assert((self@, io@) == step_spec(old(self)@, ev@, Seq::empty()));
            }
            io
        }
    }
}


// ----- starting a job ------------------------------------------------------------

/// Starts adding a config in the folder that a [`SlugSearch`] settled on
/// under `paths.config_dir` (reported free, or the fallback after every try
/// collided): its name trimmed must not be blank, and the folder is created
/// first. Returns the job and its first operation.
pub fn add_config(paths: &Paths, spec: &NewConfigSpec, found: &SlugFound) -> (r: (Job, Io))
    ensures
        trim(spec.name@).len() == 0 ==> (r.0@, r.1@) == finish_err(
            empty_job(JobKind::Add),
            "name is required"@,
        ),
        trim(spec.name@).len() > 0 ==> r.0@.slug == found@.slug && is_slug(r.0@.slug) && (r.0@,
        r.1@) == add_start_spec(paths.config_dir@, spec.name@, spec.source@, found@.slug),
{
    Job::add(paths, spec, found)
}

/// Starts re-fetching an entry from its recorded source.
pub fn refresh_entry(entry: &ConfigEntry) -> (r: (Job, Io))
    ensures
        (r.0@, r.1@) == fetch_start(job_for(JobKind::Refresh, entry@)),
{
    Job::refresh(entry)
}

/// Starts editing an entry: new name (trimmed, not blank) and source. The
/// folder, and so the stored selection, stays the same; a changed source
/// is fetched and the time of the update recorded.
pub fn edit_entry(entry: &ConfigEntry, new_name: &str, new_source: &Source) -> (r: (Job, Io))
    ensures
        (r.0@, r.1@) == edit_start_spec(entry@, new_name@, new_source@),
{
    Job::edit(entry, new_name, new_source)
}

/// Starts deleting an entry's folder.
pub fn delete_entry(entry: &ConfigEntry) -> (r: (Job, Io))
    ensures
        (r.0@, r.1@) == (
            moved(job_for(JobKind::Delete, entry@), JobStage::CheckingFolder),
            IoView::Exists(entry@.folder),
        ),
{
    Job::delete(entry)
}

// ----- laws ------------------------------------------------------------------

/// Law: when fetching fails while a config is being added, its new folder
/// is removed before the job fails with the fetch's error; for an existing
/// entry the job fails at once. An added config's fetch ends only in that
/// clean-up or in writing its metadata.
pub proof fn law_failed_add_leaves_no_folder(
    j: JobView,
    ev: JobOutcomeView,
    t: Seq<char>,
    ev2: JobOutcomeView,
    t2: Seq<char>,
)
    requires
        fetching(j.stage),
    ensures
        j.kind == JobKind::Add && !fetching(step_spec(j, ev, t).0.stage) ==> step_spec(
            j,
            ev,
            t,
        ).0.stage == JobStage::CleaningUp || step_spec(j, ev, t).0.stage
            == JobStage::SavingMetadata,
        step_spec(j, ev, t).0.stage == JobStage::CleaningUp ==> j.kind == JobKind::Add
            && step_spec(j, ev, t).1 == IoView::RemoveDir(j.folder) && step_spec(
            step_spec(j, ev, t).0,
            ev2,
            t2,
        ).1 == IoView::Finish(Err(step_spec(j, ev, t).0.error)),
        j.kind != JobKind::Add ==> step_spec(j, ev, t).0.stage != JobStage::CleaningUp,
{
}

/// Law: a config file is only ever replaced by bytes that parse as JSON.
pub proof fn law_only_json_replaces(j: JobView, ev: JobOutcomeView, t: Seq<char>)
    ensures
        step_spec(j, ev, t).1 matches IoView::Replace(_, b) ==> json_accepts(b),
        step_spec(j, ev, t).1 matches IoView::Replace(p, _) ==> p == j.dest,
{
}

/// Law: a step writes the metadata only right after the fetched config
/// file replaced the old one and was reported; the metadata then records
/// the source it was fetched from and the time.
pub proof fn law_metadata_after_config(j: JobView, ev: JobOutcomeView, t: Seq<char>)
    ensures
        step_spec(j, ev, t).1 is SaveMetadata ==> j.stage == JobStage::ReportingFetch,
        j.stage == JobStage::ReportingFetch ==> step_spec(j, ev, t).1 == IoView::SaveMetadata(
            j.meta_path,
            MetadataView { source: j.fetch, last_updated: Some(t), ..j.meta },
        ),
{
}

/// Law: an edit that keeps the source fetches nothing and rewrites only the
/// name, keeping the time of the last update.
pub proof fn law_edit_same_source(e: EntryView, name: Seq<char>)
    requires
        trim(name).len() > 0,
    ensures
        edit_start_spec(e, name, e.metadata.source).1 == IoView::SaveMetadata(
            join_spec(e.folder, METADATA_FILENAME@),
            MetadataView { name: trim(name), ..e.metadata },
        ),
{
}

/// Law: an edit whose name is blank once trimmed is refused before
/// anything is touched.
pub proof fn law_blank_name_refused(e: EntryView, name: Seq<char>, source: SourceView)
    requires
        trim(name).len() == 0,
    ensures
        edit_start_spec(e, name, source).1 == IoView::Finish(Err("name is required"@)),
{
}

/// Law: a job never changes which entry it works on: its folder name and
/// folder stay the same through every step, so a stored selection stays
/// valid across an edit.
pub proof fn law_job_keeps_its_entry(j: JobView, ev: JobOutcomeView, t: Seq<char>)
    ensures
        step_spec(j, ev, t).0.slug == j.slug,
        step_spec(j, ev, t).0.folder == j.folder,
        step_spec(j, ev, t).0.kind == j.kind,
{
}

/// Law: a job succeeds only right after its last line was logged, and a
/// finished job stays as it is, repeating its result.
pub proof fn law_job_ends_once(j: JobView, ev: JobOutcomeView, t: Seq<char>)
    ensures
        j.stage != JobStage::Finished && step_spec(j, ev, t).1 is Finish ==> step_spec(
            j,
            ev,
            t,
        ).0.stage == JobStage::Finished,
        j.stage != JobStage::Finished && (step_spec(j, ev, t).1 matches IoView::Finish(Ok(_)))
            ==> j.stage == JobStage::Reporting,
        j.stage == JobStage::Finished ==> step_spec(j, ev, t).0 == j,
{
}

} // verus!
