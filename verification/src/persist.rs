//! Replacing a file without ever leaving it half-written: the new bytes go
//! to `<dest>.tmp` first, the old file is kept as `<dest>.bak`, and the
//! temporary file is renamed over the destination last.
//!
//! The steps touch the disk, so they are a state machine: [`ReplaceJob`]
//! says which file operation to perform next, the caller performs it and
//! hands back what happened.
use vstd::prelude::*;

use crate::text::append_str;

verus! {

/// `path` with `suffix` appended to its last component.
pub fn with_suffix(path: &str, suffix: &str) -> (r: String)
    ensures
        r@ == path@ + suffix@,
{
    let mut s = path.to_owned();
    append_str(&mut s, suffix);
    s
}

/// What std's `Path::parent` gives for a path's text: the path without its
/// final component, or `None` for the empty path and one that ends in a root.
/// Which characters separate components is fixed by the target's path syntax.
pub uninterp spec fn path_parent(p: Seq<char>) -> Option<Seq<char>>;

/// The directory part of `path` (std's `Path::parent`), as text. The
/// contract claims that the result is `path_parent` of the text, that the
/// empty path has none, and that a parent is a strictly shorter prefix, as
/// std documents it: the path without its final component.
#[verifier::external_body]
fn parent_dir(path: &str) -> (r: Option<String>)
    ensures
        match path_parent(path@) {
            Some(q) => r matches Some(p) && p@ == q,
            None => r is None,
        },
        path@.len() == 0 ==> r is None,
        r matches Some(p) ==> p@.len() < path@.len() && p@ == path@.subrange(0, p@.len() as int),
{
    std::path::Path::new(path).parent().map(|p| p.to_string_lossy().into_owned())
}

/// A file operation the caller performs for the job.
pub enum FsOp {
    /// Create the directory and all its parents.
    CreateDirAll(String),
    /// Write the job's bytes to the file, replacing it.
    WriteFile(String),
    /// Report whether something exists at the path.
    Exists(String),
    /// Remove the file.
    RemoveFile(String),
    /// Rename the first path to the second.
    Rename(String, String),
    /// The job is over, with this result.
    Finish(Result<(), String>),
}

/// What happened to the last operation.
pub enum FsOutcome {
    /// It succeeded.
    Done,
    /// It failed, with the error's text.
    Failed(String),
    /// The answer to `Exists`.
    Found(bool),
}

/// Where the job stands.
#[derive(Clone, Copy, Debug, PartialEq, Eq, Structural)]
pub enum ReplaceStage {
    CreatingParent,
    WritingTmp,
    CheckingBak,
    RemovingBak,
    CheckingDest,
    MovingDest,
    RenamingTmp,
    /// The temporary file is being removed before the job fails.
    Abandoning,
    /// The temporary file is being removed after the final rename failed.
    RollingBack,
    CheckingDestGone,
    CheckingBakLeft,
    Restoring,
    Succeeded,
    Failed,
}

/// An operation, as text.
pub ghost enum FsOpView {
    CreateDirAll(Seq<char>),
    WriteFile(Seq<char>),
    Exists(Seq<char>),
    RemoveFile(Seq<char>),
    Rename(Seq<char>, Seq<char>),
    Finish(Result<(), Seq<char>>),
}

/// An outcome, as text.
pub ghost enum OutcomeView {
    Done,
    Failed(Seq<char>),
    Found(bool),
}

impl View for FsOp {
    type V = FsOpView;

    open spec fn view(&self) -> FsOpView {
        match self {
            FsOp::CreateDirAll(p) => FsOpView::CreateDirAll(p@),
            FsOp::WriteFile(p) => FsOpView::WriteFile(p@),
            FsOp::Exists(p) => FsOpView::Exists(p@),
            FsOp::RemoveFile(p) => FsOpView::RemoveFile(p@),
            FsOp::Rename(a, b) => FsOpView::Rename(a@, b@),
            FsOp::Finish(r) => FsOpView::Finish(
                match r {
                    Ok(()) => Ok(()),
                    Err(e) => Err(e@),
                },
            ),
        }
    }
}

impl View for FsOutcome {
    type V = OutcomeView;

    open spec fn view(&self) -> OutcomeView {
        match self {
            FsOutcome::Done => OutcomeView::Done,
            FsOutcome::Failed(e) => OutcomeView::Failed(e@),
            FsOutcome::Found(b) => OutcomeView::Found(*b),
        }
    }
}

/// A job, as text.
pub ghost struct ReplaceView {
    pub dest: Seq<char>,
    pub tmp: Seq<char>,
    pub bak: Seq<char>,
    pub parent: Option<Seq<char>>,
    pub stage: ReplaceStage,
    pub had_dest: bool,
    pub error: Seq<char>,
}

/// Replacing `dest` by new bytes, one file operation at a time.
pub struct ReplaceJob {
    dest: String,
    tmp: String,
    bak: String,
    parent: Option<String>,
    stage: ReplaceStage,
    had_dest: bool,
    error: String,
}

impl View for ReplaceJob {
    type V = ReplaceView;

    closed spec fn view(&self) -> ReplaceView {
        ReplaceView {
            dest: self.dest@,
            tmp: self.tmp@,
            bak: self.bak@,
            parent: match self.parent {
                Some(p) => Some(p@),
                None => None,
            },
            stage: self.stage,
            had_dest: self.had_dest,
            error: self.error@,
        }
    }
}

/// The text of a failed step: `what`, a colon, and the error.
pub open spec fn because(what: Seq<char>, e: Seq<char>) -> Seq<char> {
    what + ": "@ + e
}

/// The job as it starts: the temporary and backup names, and the first
/// operation (the parent directory, where there is one, else the write).
pub open spec fn start_spec(dest: Seq<char>, parent: Option<Seq<char>>) -> (ReplaceView, FsOpView) {
    let tmp = dest + ".tmp"@;
    let bak = dest + ".bak"@;
    let base = ReplaceView {
        dest,
        tmp,
        bak,
        parent,
        stage: ReplaceStage::WritingTmp,
        had_dest: false,
        error: Seq::empty(),
    };
    match parent {
        Some(p) => (ReplaceView { stage: ReplaceStage::CreatingParent, ..base }, FsOpView::CreateDirAll(p)),
        None => (base, FsOpView::WriteFile(tmp)),
    }
}

/// Whether the outcome is a failure.
pub open spec fn failed(ev: OutcomeView) -> bool {
    ev is Failed
}

/// The error text of an outcome (empty unless it failed).
pub open spec fn failure_text(ev: OutcomeView) -> Seq<char> {
    match ev {
        OutcomeView::Failed(e) => e,
        _ => Seq::empty(),
    }
}

/// Whether the outcome says the path exists.
pub open spec fn found(ev: OutcomeView) -> bool {
    ev matches OutcomeView::Found(true)
}

/// The job ends with its recorded error.
pub open spec fn fail_now(s: ReplaceView, error: Seq<char>) -> (ReplaceView, FsOpView) {
    (ReplaceView { stage: ReplaceStage::Failed, error, ..s }, FsOpView::Finish(Err(error)))
}

/// The temporary file is removed first; the job then fails with `error`.
pub open spec fn abandon(s: ReplaceView, error: Seq<char>) -> (ReplaceView, FsOpView) {
    (ReplaceView { stage: ReplaceStage::Abandoning, error, ..s }, FsOpView::RemoveFile(s.tmp))
}

/// The job moved on to stage `st`.
pub open spec fn at(s: ReplaceView, st: ReplaceStage) -> ReplaceView {
    ReplaceView { stage: st, ..s }
}

/// The parent directory's text (empty where there is none).
pub open spec fn parent_text(s: ReplaceView) -> Seq<char> {
    match s.parent {
        Some(p) => p,
        None => Seq::empty(),
    }
}

/// One step: from the stage and what the last operation did, the next
/// stage and operation.
pub open spec fn step_spec(s: ReplaceView, ev: OutcomeView) -> (ReplaceView, FsOpView) {
    match s.stage {
        ReplaceStage::CreatingParent => if failed(ev) {
            fail_now(
                s,
                because(
                    "failed to create destination directory "@ + parent_text(s),
                    failure_text(ev),
                ),
            )
        } else {
            (at(s, ReplaceStage::WritingTmp), FsOpView::WriteFile(s.tmp))
        },
        ReplaceStage::WritingTmp => if failed(ev) {
            fail_now(s, because("failed to write temp file "@ + s.tmp, failure_text(ev)))
        } else {
            (at(s, ReplaceStage::CheckingBak), FsOpView::Exists(s.bak))
        },
        ReplaceStage::CheckingBak => if found(ev) {
            (at(s, ReplaceStage::RemovingBak), FsOpView::RemoveFile(s.bak))
        } else {
            (at(s, ReplaceStage::CheckingDest), FsOpView::Exists(s.dest))
        },
        ReplaceStage::RemovingBak => if failed(ev) {
            abandon(s, because("failed to remove backup file "@ + s.bak, failure_text(ev)))
        } else {
            (at(s, ReplaceStage::CheckingDest), FsOpView::Exists(s.dest))
        },
        ReplaceStage::CheckingDest => if found(ev) {
            (
                ReplaceView { stage: ReplaceStage::MovingDest, had_dest: true, ..s },
                FsOpView::Rename(s.dest, s.bak),
            )
        } else {
            (
                ReplaceView { stage: ReplaceStage::RenamingTmp, had_dest: false, ..s },
                FsOpView::Rename(s.tmp, s.dest),
            )
        },
        ReplaceStage::MovingDest => if failed(ev) {
            abandon(
                s,
                because(
                    "failed to move existing file "@ + s.dest + " to backup "@ + s.bak,
                    failure_text(ev),
                ),
            )
        } else {
            (at(s, ReplaceStage::RenamingTmp), FsOpView::Rename(s.tmp, s.dest))
        },
        ReplaceStage::RenamingTmp => if failed(ev) {
            let error = because(
                "failed to replace "@ + s.dest + " with temp file "@ + s.tmp,
                failure_text(ev),
            );
            (ReplaceView { stage: ReplaceStage::RollingBack, error, ..s }, FsOpView::RemoveFile(s.tmp))
        } else {
            (at(s, ReplaceStage::Succeeded), FsOpView::Finish(Ok(())))
        },
        ReplaceStage::Abandoning => fail_now(s, s.error),
        ReplaceStage::RollingBack => if s.had_dest {
            (at(s, ReplaceStage::CheckingDestGone), FsOpView::Exists(s.dest))
        } else {
            fail_now(s, s.error)
        },
        ReplaceStage::CheckingDestGone => if found(ev) {
            fail_now(s, s.error)
        } else {
            (at(s, ReplaceStage::CheckingBakLeft), FsOpView::Exists(s.bak))
        },
        ReplaceStage::CheckingBakLeft => if found(ev) {
            (at(s, ReplaceStage::Restoring), FsOpView::Rename(s.bak, s.dest))
        } else {
            fail_now(s, s.error)
        },
        ReplaceStage::Restoring => fail_now(s, s.error),
        ReplaceStage::Succeeded => (s, FsOpView::Finish(Ok(()))),
        ReplaceStage::Failed => (s, FsOpView::Finish(Err(s.error))),
    }
}

fn because_text(what: String, e: &str) -> (r: String)
    ensures
        r@ == because(what@, e@),
{
    let mut s = what;
    append_str(&mut s, ": ");
    append_str(&mut s, e);
    s
}

fn prefixed(prefix: &str, tail: &str) -> (r: String)
    ensures
        r@ == prefix@ + tail@,
{
    let mut s = prefix.to_owned();
    append_str(&mut s, tail);
    s
}

fn clone_opt_string(o: &Option<String>) -> (r: Option<String>)
    ensures
        match *o {
            Some(p) => r matches Some(q) && q@ == p@,
            None => r is None,
        },
{
    match o {
        Some(p) => Some(p.clone()),
        None => None,
    }
}

impl ReplaceJob {
    /// Starts replacing `dest`. Its directory (as std's `Path::parent`
    /// finds it) is created first where there is one.
    pub fn start(dest: &str) -> (r: (ReplaceJob, FsOp))
        ensures
            (r.0@, r.1@) == start_spec(dest@, r.0@.parent),
            r.0@.parent == path_parent(dest@),
            dest@.len() == 0 ==> r.0@.parent is None,
            r.0@.parent matches Some(p) ==> p.len() < dest@.len() && p == dest@.subrange(
                0,
                p.len() as int,
            ),
    {
        let parent = parent_dir(dest);
        let tmp = with_suffix(dest, ".tmp");
        let bak = with_suffix(dest, ".bak");
        let first = match &parent {
            Some(p) => FsOp::CreateDirAll(p.clone()),
            None => FsOp::WriteFile(tmp.clone()),
        };
        let stage = match &parent {
            Some(_) => ReplaceStage::CreatingParent,
            None => ReplaceStage::WritingTmp,
        };
        let job = ReplaceJob {
            dest: dest.to_owned(),
            tmp,
            bak,
            parent,
            stage,
            had_dest: false,
            error: String::new(),
        };
        (job, first)
    }

    /// Whether the job is over.
    pub fn is_finished(&self) -> (b: bool)
        ensures
            b == (self@.stage == ReplaceStage::Succeeded || self@.stage == ReplaceStage::Failed),
    {
        self.stage == ReplaceStage::Succeeded || self.stage == ReplaceStage::Failed
    }

    fn fail(&mut self, error: String) -> (op: FsOp)
        ensures
            (final(self)@, op@) == fail_now(old(self)@, error@),
    {
        self.stage = ReplaceStage::Failed;
        self.error = error.clone();
        FsOp::Finish(Err(error))
    }

    fn abandon_with(&mut self, error: String) -> (op: FsOp)
        ensures
            (final(self)@, op@) == abandon(old(self)@, error@),
    {
        self.stage = ReplaceStage::Abandoning;
        self.error = error;
        FsOp::RemoveFile(self.tmp.clone())
    }

    /// Takes what the last operation did and returns the next operation.
    pub fn step(&mut self, ev: FsOutcome) -> (op: FsOp)
        ensures
            (final(self)@, op@) == step_spec(old(self)@, ev@),
    {
        let is_failed = match &ev {
            FsOutcome::Failed(_) => true,
            _ => false,
        };
        let is_found = match &ev {
            FsOutcome::Found(b) => *b,
            _ => false,
        };
        let text = match ev {
            FsOutcome::Failed(e) => e,
            _ => String::new(),
        };
        match self.stage {
            ReplaceStage::CreatingParent => {
                if is_failed {
                    let dir = clone_opt_string(&self.parent);
                    let what = match dir {
                        Some(p) => prefixed("failed to create destination directory ", p.as_str()),
                        None => {
                            let w = prefixed("failed to create destination directory ", "");
                            proof {
                                reveal_strlit("");
                                assert(w@ =~= "failed to create destination directory "@ + parent_text(
                                    old(self)@,
                                ));
                            }
                            w
                        },
                    };
                    self.fail(because_text(what, text.as_str()))
                } else {
                    self.stage = ReplaceStage::WritingTmp;
                    FsOp::WriteFile(self.tmp.clone())
                }
            },
            ReplaceStage::WritingTmp => {
                if is_failed {
                    let what = prefixed("failed to write temp file ", self.tmp.as_str());
                    self.fail(because_text(what, text.as_str()))
                } else {
                    self.stage = ReplaceStage::CheckingBak;
                    FsOp::Exists(self.bak.clone())
                }
            },
            ReplaceStage::CheckingBak => {
                if is_found {
                    self.stage = ReplaceStage::RemovingBak;
                    FsOp::RemoveFile(self.bak.clone())
                } else {
                    self.stage = ReplaceStage::CheckingDest;
                    FsOp::Exists(self.dest.clone())
                }
            },
            ReplaceStage::RemovingBak => {
                if is_failed {
                    let what = prefixed("failed to remove backup file ", self.bak.as_str());
                    self.abandon_with(because_text(what, text.as_str()))
                } else {
                    self.stage = ReplaceStage::CheckingDest;
                    FsOp::Exists(self.dest.clone())
                }
            },
            ReplaceStage::CheckingDest => {
                if is_found {
                    self.stage = ReplaceStage::MovingDest;
                    self.had_dest = true;
                    FsOp::Rename(self.dest.clone(), self.bak.clone())
                } else {
                    self.stage = ReplaceStage::RenamingTmp;
                    self.had_dest = false;
                    FsOp::Rename(self.tmp.clone(), self.dest.clone())
                }
            },
            ReplaceStage::MovingDest => {
                if is_failed {
                    let mut what = prefixed("failed to move existing file ", self.dest.as_str());
                    append_str(&mut what, " to backup ");
                    append_str(&mut what, self.bak.as_str());
                    self.abandon_with(because_text(what, text.as_str()))
                } else {
                    self.stage = ReplaceStage::RenamingTmp;
                    FsOp::Rename(self.tmp.clone(), self.dest.clone())
                }
            },
            ReplaceStage::RenamingTmp => {
                if is_failed {
                    let mut what = prefixed("failed to replace ", self.dest.as_str());
                    append_str(&mut what, " with temp file ");
                    append_str(&mut what, self.tmp.as_str());
                    self.error = because_text(what, text.as_str());
                    self.stage = ReplaceStage::RollingBack;
                    FsOp::RemoveFile(self.tmp.clone())
                } else {
                    self.stage = ReplaceStage::Succeeded;
                    FsOp::Finish(Ok(()))
                }
            },
            ReplaceStage::Abandoning => {
                let e = self.error.clone();
                self.fail(e)
            },
            ReplaceStage::RollingBack => {
                if self.had_dest {
                    self.stage = ReplaceStage::CheckingDestGone;
                    FsOp::Exists(self.dest.clone())
                } else {
                    let e = self.error.clone();
                    self.fail(e)
                }
            },
            ReplaceStage::CheckingDestGone => {
                if is_found {
                    let e = self.error.clone();
                    self.fail(e)
                } else {
                    self.stage = ReplaceStage::CheckingBakLeft;
                    FsOp::Exists(self.bak.clone())
                }
            },
            ReplaceStage::CheckingBakLeft => {
                if is_found {
                    self.stage = ReplaceStage::Restoring;
                    FsOp::Rename(self.bak.clone(), self.dest.clone())
                } else {
                    let e = self.error.clone();
                    self.fail(e)
                }
            },
            ReplaceStage::Restoring => {
                let e = self.error.clone();
                self.fail(e)
            },
            ReplaceStage::Succeeded => FsOp::Finish(Ok(())),
            ReplaceStage::Failed => FsOp::Finish(Err(self.error.clone())),
        }
    }
}


// ----- laws ------------------------------------------------------------------

/// Stages in which the new bytes are already in the temporary file.
pub open spec fn tmp_written(st: ReplaceStage) -> bool {
    !(st == ReplaceStage::CreatingParent || st == ReplaceStage::WritingTmp || st
        == ReplaceStage::Failed)
}

/// Whether an operation moves or overwrites the destination.
pub open spec fn touches(op: FsOpView, path: Seq<char>) -> bool {
    match op {
        FsOpView::Rename(a, b) => a == path || b == path,
        FsOpView::RemoveFile(a) => a == path,
        FsOpView::WriteFile(a) => a == path,
        _ => false,
    }
}

/// Law: the destination is left alone until the new bytes are in the
/// temporary file. A job starts outside the stages where they are; it
/// enters them only by a successful write of the temporary file; and only
/// from within them is the destination moved or replaced.
pub proof fn law_dest_untouched_until_tmp_written(
    dest: Seq<char>,
    parent: Option<Seq<char>>,
    s: ReplaceView,
    ev: OutcomeView,
)
    requires
        s.tmp == s.dest + ".tmp"@,
        s.bak == s.dest + ".bak"@,
    ensures
        !tmp_written(start_spec(dest, parent).0.stage),
        !touches(start_spec(dest, parent).1, dest),
        !tmp_written(s.stage) && tmp_written(step_spec(s, ev).0.stage) ==> s.stage
            == ReplaceStage::WritingTmp && !failed(ev),
        touches(step_spec(s, ev).1, s.dest) ==> tmp_written(s.stage),
{
    reveal_strlit(".tmp");
    reveal_strlit(".bak");
    assert(start_spec(dest, parent).0.tmp.len() == dest.len() + 4);
    if touches(step_spec(s, ev).1, s.dest) {
        assert(s.tmp.len() == s.dest.len() + 4);
    }
}

/// Law: once the temporary file is written, a failure removes it: a failed
/// removal of the old backup, move of the old file or final rename is
/// followed by the removal of the temporary file.
pub proof fn law_failure_removes_tmp(s: ReplaceView, e: Seq<char>)
    requires
        s.stage == ReplaceStage::RemovingBak || s.stage == ReplaceStage::MovingDest || s.stage
            == ReplaceStage::RenamingTmp,
    ensures
        step_spec(s, OutcomeView::Failed(e)).1 == FsOpView::RemoveFile(s.tmp),
{
}

/// Law: when the final rename fails after the old file was moved to the
/// backup, and the destination is then gone while the backup is still
/// there, the backup is moved back and the job fails with the rename's
/// error.
pub proof fn law_backup_restored(
    s: ReplaceView,
    e: Seq<char>,
    ev2: OutcomeView,
    ev5: OutcomeView,
)
    requires
        s.stage == ReplaceStage::RenamingTmp,
        s.had_dest,
    ensures
        ({
            let (s1, op1) = step_spec(s, OutcomeView::Failed(e));
            let (s2, op2) = step_spec(s1, ev2);
            let (s3, op3) = step_spec(s2, OutcomeView::Found(false));
            let (s4, op4) = step_spec(s3, OutcomeView::Found(true));
            let (s5, op5) = step_spec(s4, ev5);
            &&& op1 == FsOpView::RemoveFile(s.tmp)
            &&& op2 == FsOpView::Exists(s.dest)
            &&& op3 == FsOpView::Exists(s.bak)
            &&& op4 == FsOpView::Rename(s.bak, s.dest)
            &&& op5 == FsOpView::Finish(
                Err(because("failed to replace "@ + s.dest + " with temp file "@ + s.tmp, e)),
            )
        }),
{
}

/// Law: a job reports success only right after the temporary file was
/// renamed over the destination (or, once over, again on every later step).
pub proof fn law_success_only_after_rename(s: ReplaceView, ev: OutcomeView)
    ensures
        step_spec(s, ev).1 == FsOpView::Finish(Ok(())) ==> (s.stage == ReplaceStage::RenamingTmp
            && !failed(ev)) || s.stage == ReplaceStage::Succeeded,
{
}

/// Law: a finished job stays as it is and repeats its result.
pub proof fn law_finished_job_stays(s: ReplaceView, ev: OutcomeView)
    requires
        s.stage == ReplaceStage::Succeeded || s.stage == ReplaceStage::Failed,
    ensures
        step_spec(s, ev).0 == s,
        step_spec(s, ev).1 == (if s.stage == ReplaceStage::Succeeded {
            FsOpView::Finish(Ok(()))
        } else {
            FsOpView::Finish(Err(s.error))
        }),
{
}

} // verus!
