//! The AppContainer loopback utility: a third-party tool that is never
//! bundled. It is opened from its install location, or downloaded from
//! the vendor on first use; a download is kept only while it still looks
//! like a Windows executable.
use vstd::prelude::*;

use crate::entry::{join_path, join_spec};
use crate::text::append_str;
use crate::updater::{DownloadFailure, JobOutcome, JobOutcomeView};

verus! {

/// Name shown in the settings.
pub const DISPLAY_NAME: &'static str = "AppContainer loopback utility";

/// Hover text: attribution and behaviour.
pub const HOVER_TEXT: &'static str = "Third-party utility from Telerik / Fiddler. Lets UWP / Edge / Store apps connect to local proxies. Downloaded from Telerik on first use; redistribution of the binary is forbidden by their license. UAC will prompt.";

/// Where the vendor's installer puts the utility.
pub const INSTALLED_PATH: &'static str = "C:\\Program Files (x86)\\EnableLoopback\\EnableLoopback.exe";

/// The vendor's download address.
pub const DOWNLOAD_URL: &'static str = "https://telerik-fiddler.s3.amazonaws.com/fiddler/addons/enableloopbackutility.exe";

/// File name of the cached download.
pub const INSTALLER_FILENAME: &'static str = "enableloopbackutility.exe";

/// The 32-bit little-endian value at `off`.
pub open spec fn le_u32_at(b: Seq<u8>, off: int) -> int {
    (b[off] as int) + (b[off + 1] as int) * 256 + (b[off + 2] as int) * 65536 + (b[off + 3] as int)
        * 16777216
}

/// Whether `b` starts like a Windows executable: at least 64 bytes, `MZ`
/// first, and the offset at `0x3C` pointing at a `PE\0\0` signature
/// inside the file. `Err` carries the reason.
pub open spec fn pe_check(b: Seq<u8>) -> Result<(), Seq<char>> {
    if b.len() < 0x40 {
        Err("downloaded file is too small"@)
    } else if b[0] != 0x4D || b[1] != 0x5A {
        Err("downloaded file is not a Windows executable"@)
    } else {
        let off = le_u32_at(b, 0x3C);
        if off + 4 > usize::MAX {
            Err("invalid PE header offset"@)
        } else if off + 4 > b.len() || b[off] != 0x50 || b[off + 1] != 0x45 || b[off + 2]
            != 0 || b[off + 3] != 0 {
            Err("invalid PE header signature"@)
        } else {
            Ok(())
        }
    }
}

fn err(msg: &str) -> (r: Result<(), String>)
    ensures
        r matches Err(e) && e@ == msg@,
{
    let mut s = String::new();
    append_str(&mut s, msg);
    Err(s)
}

/// Checks the header of a downloaded or cached installer.
pub fn validate_pe_bytes(bytes: &[u8]) -> (r: Result<(), String>)
    ensures
        match pe_check(bytes@) {
            Ok(()) => r is Ok,
            Err(m) => r matches Err(e) && e@ == m,
        },
{
    if bytes.len() < 0x40 {
        return err("downloaded file is too small");
    }
    if bytes[0] != 0x4D || bytes[1] != 0x5A {
        return err("downloaded file is not a Windows executable");
    }
    let off: u64 = (bytes[0x3C] as u64) + (bytes[0x3D] as u64) * 256 + (bytes[0x3E] as u64) * 65536
        + (bytes[0x3F] as u64) * 16777216;
    if off > (usize::MAX as u64) - 4 {
        return err("invalid PE header offset");
    }
    let pe_offset = off as usize;
    let pe_end = pe_offset + 4;
    if pe_end > bytes.len() || bytes[pe_offset] != 0x50 || bytes[pe_offset + 1] != 0x45
        || bytes[pe_offset + 2] != 0 || bytes[pe_offset + 3] != 0 {
        return err("invalid PE header signature");
    }
    Ok(())
}

/// Where the download is kept: `<root>\tools`, the installer in it, and
/// the partial file written before the final rename.
pub struct InstallerPaths {
    pub tools_dir: String,
    pub dest: String,
    pub partial: String,
}

/// The download locations under the runtime root.
pub fn installer_paths(root: &str) -> (r: InstallerPaths)
    ensures
        r.tools_dir@ == join_spec(root@, "tools"@),
        r.dest@ == join_spec(join_spec(root@, "tools"@), INSTALLER_FILENAME@),
        r.partial@ == join_spec(join_spec(root@, "tools"@), INSTALLER_FILENAME@) + ".partial"@,
{
    let tools_dir = join_path(root, "tools");
    let dest = join_path(tools_dir.as_str(), INSTALLER_FILENAME);
    let mut partial = dest.clone();
    append_str(&mut partial, ".partial");
    InstallerPaths { tools_dir, dest, partial }
}

/// Law: a file accepted by the header check is at least 64 bytes, starts
/// with `MZ`, and holds `PE\0\0` where its header offset points.
pub proof fn law_accepted_installer_is_pe(b: Seq<u8>)
    requires
        pe_check(b) is Ok,
    ensures
        b.len() >= 64,
        b[0] == 0x4D && b[1] == 0x5A,
        le_u32_at(b, 0x3C) + 4 <= b.len(),
        b[le_u32_at(b, 0x3C)] == 0x50,
        b[le_u32_at(b, 0x3C) + 1] == 0x45,
        b[le_u32_at(b, 0x3C) + 2] == 0,
        b[le_u32_at(b, 0x3C) + 3] == 0,
{
}


/// How long the installer download may take, in seconds.
pub const DOWNLOAD_TIMEOUT_SECS: u64 = 60;

/// The user agent of the installer download.
pub const USER_AGENT: &'static str = "sing-box-for-windows";

/// The error of a failed installer download, with the HTTP client's text.
pub open spec fn installer_download_text(f: DownloadFailure) -> Seq<char> {
    match f {
        DownloadFailure::ClientInit(e) => "HTTP client init failed: "@ + e@,
        DownloadFailure::Request(e) => "download request failed: "@ + e@,
        DownloadFailure::Status(s) => "download failed: HTTP "@ + s@,
        DownloadFailure::Body(e) => "download read failed: "@ + e@,
    }
}

/// Describes a failed installer download.
pub fn installer_download_error(f: &DownloadFailure) -> (r: String)
    ensures
        r@ == installer_download_text(*f),
{
    let (prefix, detail) = match f {
        DownloadFailure::ClientInit(e) => ("HTTP client init failed: ", e),
        DownloadFailure::Request(e) => ("download request failed: ", e),
        DownloadFailure::Status(s) => ("download failed: HTTP ", s),
        DownloadFailure::Body(e) => ("download read failed: ", e),
    };
    let mut s = prefix.to_owned();
    append_str(&mut s, detail.as_str());
    s
}

// ----- opening the utility, one file operation at a time ---------------------

/// What opening the utility asks the caller to do next.
pub enum LoopbackIo {
    /// Report whether the path exists.
    Exists(String),
    /// Create the folder and its parents.
    CreateDir(String),
    /// Read the whole file.
    ReadFile(String),
    /// Remove the file.
    RemoveFile(String),
    /// Fetch [`DOWNLOAD_URL`] and hand back the body, or the reason it
    /// failed.
    Download,
    /// Write the bytes to the file.
    WriteFile(String, Vec<u8>),
    /// Rename the first path to the second.
    Rename(String, String),
    /// Open the file with the shell.
    Open(String),
    /// Done, with this result.
    Finish(Result<(), String>),
}

/// An operation, as values.
pub ghost enum LoopbackIoView {
    Exists(Seq<char>),
    CreateDir(Seq<char>),
    ReadFile(Seq<char>),
    RemoveFile(Seq<char>),
    Download,
    WriteFile(Seq<char>, Seq<u8>),
    Rename(Seq<char>, Seq<char>),
    Open(Seq<char>),
    Finish(Result<(), Seq<char>>),
}

impl View for LoopbackIo {
    type V = LoopbackIoView;

    open spec fn view(&self) -> LoopbackIoView {
        match self {
            LoopbackIo::Exists(p) => LoopbackIoView::Exists(p@),
            LoopbackIo::CreateDir(p) => LoopbackIoView::CreateDir(p@),
            LoopbackIo::ReadFile(p) => LoopbackIoView::ReadFile(p@),
            LoopbackIo::RemoveFile(p) => LoopbackIoView::RemoveFile(p@),
            LoopbackIo::Download => LoopbackIoView::Download,
            LoopbackIo::WriteFile(p, b) => LoopbackIoView::WriteFile(p@, b@),
            LoopbackIo::Rename(a, b) => LoopbackIoView::Rename(a@, b@),
            LoopbackIo::Open(p) => LoopbackIoView::Open(p@),
            LoopbackIo::Finish(r) => LoopbackIoView::Finish(
                match r {
                    Ok(()) => Ok(()),
                    Err(e) => Err(e@),
                },
            ),
        }
    }
}

/// Where opening the utility stands.
#[derive(Clone, Copy, Debug, PartialEq, Eq, Structural)]
pub enum LoopbackStage {
    CheckingInstalled,
    CreatingTools,
    CheckingCached,
    ReadingCached,
    RemovingCached,
    Downloading,
    WritingPartial,
    Renaming,
    Opening,
    Finished,
}

/// Opening the utility, as values.
pub ghost struct LoopbackView {
    pub tools_dir: Seq<char>,
    pub dest: Seq<char>,
    pub partial: Seq<char>,
    pub stage: LoopbackStage,
    pub result: Result<(), Seq<char>>,
}

/// Opening the AppContainer loopback utility: the installed copy if there
/// is one, else the cached installer while it still looks like a Windows
/// executable, else a fresh download kept only once it passes that check.
pub struct LoopbackJob {
    paths: InstallerPaths,
    stage: LoopbackStage,
    result: Result<(), String>,
}

impl View for LoopbackJob {
    type V = LoopbackView;

    closed spec fn view(&self) -> LoopbackView {
        LoopbackView {
            tools_dir: self.paths.tools_dir@,
            dest: self.paths.dest@,
            partial: self.paths.partial@,
            stage: self.stage,
            result: match self.result {
                Ok(()) => Ok(()),
                Err(e) => Err(e@),
            },
        }
    }
}

/// The job ends with `r`.
pub open spec fn loopback_finish(j: LoopbackView, r: Result<(), Seq<char>>) -> (
    LoopbackView,
    LoopbackIoView,
) {
    (LoopbackView { stage: LoopbackStage::Finished, result: r, ..j }, LoopbackIoView::Finish(r))
}

/// The job moved on to `st`, asking for `io`.
pub open spec fn loopback_next(j: LoopbackView, st: LoopbackStage, io: LoopbackIoView) -> (
    LoopbackView,
    LoopbackIoView,
) {
    (LoopbackView { stage: st, ..j }, io)
}

/// The reason of a failed operation (empty otherwise).
pub open spec fn failure_of(ev: JobOutcomeView) -> Seq<char> {
    match ev {
        JobOutcomeView::Failed(e) => e,
        _ => Seq::empty(),
    }
}

/// The bytes an operation handed back (none unless it did).
pub open spec fn bytes_in(ev: JobOutcomeView) -> Seq<u8> {
    match ev {
        JobOutcomeView::Bytes(b) => b,
        _ => Seq::empty(),
    }
}

/// One step: from the stage and what the last operation did, the next
/// stage and operation.
pub open spec fn loopback_step_spec(j: LoopbackView, ev: JobOutcomeView) -> (
    LoopbackView,
    LoopbackIoView,
) {
    let failed = ev is Failed;
    let found = ev matches JobOutcomeView::Found(true);
    match j.stage {
        LoopbackStage::CheckingInstalled => if found {
            loopback_next(j, LoopbackStage::Opening, LoopbackIoView::Open(INSTALLED_PATH@))
        } else {
            loopback_next(j, LoopbackStage::CreatingTools, LoopbackIoView::CreateDir(j.tools_dir))
        },
        LoopbackStage::CreatingTools => if failed {
            loopback_finish(j, Err(failure_of(ev)))
        } else {
            loopback_next(j, LoopbackStage::CheckingCached, LoopbackIoView::Exists(j.dest))
        },
        LoopbackStage::CheckingCached => if found {
            loopback_next(j, LoopbackStage::ReadingCached, LoopbackIoView::ReadFile(j.dest))
        } else {
            loopback_next(j, LoopbackStage::Downloading, LoopbackIoView::Download)
        },
        LoopbackStage::ReadingCached => if failed {
            loopback_finish(j, Err(failure_of(ev)))
        } else if pe_check(bytes_in(ev)) is Ok {
            loopback_next(j, LoopbackStage::Opening, LoopbackIoView::Open(j.dest))
        } else {
            loopback_next(j, LoopbackStage::RemovingCached, LoopbackIoView::RemoveFile(j.dest))
        },
        LoopbackStage::RemovingCached => if failed {
            loopback_finish(j, Err(failure_of(ev)))
        } else {
            loopback_next(j, LoopbackStage::Downloading, LoopbackIoView::Download)
        },
        LoopbackStage::Downloading => if failed {
            loopback_finish(j, Err(failure_of(ev)))
        } else {
            match pe_check(bytes_in(ev)) {
                Err(m) => loopback_finish(j, Err(m)),
                Ok(()) => loopback_next(
                    j,
                    LoopbackStage::WritingPartial,
                    LoopbackIoView::WriteFile(j.partial, bytes_in(ev)),
                ),
            }
        },
        LoopbackStage::WritingPartial => if failed {
            loopback_finish(j, Err(failure_of(ev)))
        } else {
            loopback_next(j, LoopbackStage::Renaming, LoopbackIoView::Rename(j.partial, j.dest))
        },
        LoopbackStage::Renaming => if failed {
            loopback_finish(j, Err(failure_of(ev)))
        } else {
            loopback_next(j, LoopbackStage::Opening, LoopbackIoView::Open(j.dest))
        },
        LoopbackStage::Opening => if failed {
            loopback_finish(j, Err(failure_of(ev)))
        } else {
            loopback_finish(j, Ok(()))
        },
        LoopbackStage::Finished => (j, LoopbackIoView::Finish(j.result)),
    }
}

/// Starts opening the utility, with the download kept under `<root>\tools`:
/// first, is it installed?
pub fn open_or_download(root: &str) -> (r: (LoopbackJob, LoopbackIo))
    ensures
        r.0@.tools_dir == join_spec(root@, "tools"@),
        r.0@.dest == join_spec(join_spec(root@, "tools"@), INSTALLER_FILENAME@),
        r.0@.partial == join_spec(join_spec(root@, "tools"@), INSTALLER_FILENAME@) + ".partial"@,
        r.0@.stage == LoopbackStage::CheckingInstalled,
        r.1@ == LoopbackIoView::Exists(INSTALLED_PATH@),
{
    let job = LoopbackJob {
        paths: installer_paths(root),
        stage: LoopbackStage::CheckingInstalled,
        result: Ok(()),
    };
    (job, LoopbackIo::Exists(INSTALLED_PATH.to_owned()))
}

impl LoopbackJob {
    fn finish(&mut self, r: Result<(), String>) -> (io: LoopbackIo)
        ensures
            (final(self)@, io@) == loopback_finish(
                old(self)@,
                match r {
                    Ok(()) => Ok(()),
                    Err(e) => Err(e@),
                },
            ),
    {
        self.stage = LoopbackStage::Finished;
        let out = match &r {
            Ok(()) => Ok(()),
            Err(e) => Err(e.clone()),
        };
        self.result = r;
        LoopbackIo::Finish(out)
    }

    /// Whether the job is over.
    pub fn is_finished(&self) -> (b: bool)
        ensures
            b == (self@.stage == LoopbackStage::Finished),
    {
        self.stage == LoopbackStage::Finished
    }

    /// Takes what the last operation did and returns the next operation.
    pub fn step(&mut self, ev: JobOutcome) -> (io: LoopbackIo)
        ensures
            (final(self)@, io@) == loopback_step_spec(old(self)@, ev@),
    {
        let failed = match &ev {
            JobOutcome::Failed(_) => true,
            _ => false,
        };
        let found = match &ev {
            JobOutcome::Found(b) => *b,
            _ => false,
        };
        let why = match &ev {
            JobOutcome::Failed(e) => e.clone(),
            _ => String::new(),
        };
        let bytes = match ev {
            JobOutcome::Bytes(b) => b,
            _ => Vec::new(),
        };
        match self.stage {
            LoopbackStage::CheckingInstalled => {
                if found {
                    self.stage = LoopbackStage::Opening;
                    LoopbackIo::Open(INSTALLED_PATH.to_owned())
                } else {
                    self.stage = LoopbackStage::CreatingTools;
                    LoopbackIo::CreateDir(self.paths.tools_dir.clone())
                }
            },
            LoopbackStage::CreatingTools => {
                if failed {
                    self.finish(Err(why))
                } else {
                    self.stage = LoopbackStage::CheckingCached;
                    LoopbackIo::Exists(self.paths.dest.clone())
                }
            },
            LoopbackStage::CheckingCached => {
                if found {
                    self.stage = LoopbackStage::ReadingCached;
                    LoopbackIo::ReadFile(self.paths.dest.clone())
                } else {
                    self.stage = LoopbackStage::Downloading;
                    LoopbackIo::Download
                }
            },
            LoopbackStage::ReadingCached => {
                if failed {
                    self.finish(Err(why))
                } else if validate_pe_bytes(bytes.as_slice()).is_ok() {
                    self.stage = LoopbackStage::Opening;
                    LoopbackIo::Open(self.paths.dest.clone())
                } else {
                    self.stage = LoopbackStage::RemovingCached;
                    LoopbackIo::RemoveFile(self.paths.dest.clone())
                }
            },
            LoopbackStage::RemovingCached => {
                if failed {
                    self.finish(Err(why))
                } else {
                    self.stage = LoopbackStage::Downloading;
                    LoopbackIo::Download
                }
            },
            LoopbackStage::Downloading => {
                if failed {
                    self.finish(Err(why))
                } else {
                    match validate_pe_bytes(bytes.as_slice()) {
                        Err(m) => self.finish(Err(m)),
                        Ok(()) => {
                            self.stage = LoopbackStage::WritingPartial;
                            LoopbackIo::WriteFile(self.paths.partial.clone(), bytes)
                        },
                    }
                }
            },
            LoopbackStage::WritingPartial => {
                if failed {
                    self.finish(Err(why))
                } else {
                    self.stage = LoopbackStage::Renaming;
                    LoopbackIo::Rename(self.paths.partial.clone(), self.paths.dest.clone())
                }
            },
            LoopbackStage::Renaming => {
                if failed {
                    self.finish(Err(why))
                } else {
                    self.stage = LoopbackStage::Opening;
                    LoopbackIo::Open(self.paths.dest.clone())
                }
            },
            LoopbackStage::Opening => {
                if failed {
                    self.finish(Err(why))
                } else {
                    self.finish(Ok(()))
                }
            },
            LoopbackStage::Finished => match &self.result {
                Ok(()) => LoopbackIo::Finish(Ok(())),
                Err(e) => LoopbackIo::Finish(Err(e.clone())),
            },
        }
    }
}

/// Law: an installed utility is opened as it is: nothing is created,
/// downloaded or written.
pub proof fn law_installed_copy_first(j: LoopbackView)
    requires
        j.stage == LoopbackStage::CheckingInstalled,
    ensures
        loopback_step_spec(j, JobOutcomeView::Found(true)).1 == LoopbackIoView::Open(
            INSTALLED_PATH@,
        ),
{
}

/// Law: only bytes that pass the header check are ever written, and a
/// cached file is opened only once its bytes passed it.
pub proof fn law_only_executables_kept(j: LoopbackView, ev: JobOutcomeView)
    ensures
        loopback_step_spec(j, ev).1 matches LoopbackIoView::WriteFile(_, b) ==> pe_check(b) is Ok,
        j.stage == LoopbackStage::ReadingCached && (loopback_step_spec(j, ev).1
            is Open) ==> pe_check(bytes_in(ev)) is Ok,
        j.stage == LoopbackStage::ReadingCached && !(ev is Failed) && !(pe_check(bytes_in(ev))
            is Ok) ==> loopback_step_spec(j, ev).1 == LoopbackIoView::RemoveFile(j.dest),
{
}

} // verus!
