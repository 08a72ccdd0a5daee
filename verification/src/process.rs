//! What the launcher decides about the running `sing-box` child: how its
//! output is cleaned, which stderr lines are kept, and what is reported
//! when it exits.
use vstd::prelude::*;

use std::collections::VecDeque;

use crate::text::{
    append_str, ascii_lower_seq, chars_ascii_lower, chars_of, contains_chars, contains_seq,
    i64_to_string, is_blank, signed_decimal, str_trim, string_of, trim,
};

verus! {

/// Number of stderr lines kept for the exit report.
pub const STDERR_TAIL_CAP: usize = 20;

/// The log line written when the user stops the child.
pub const STOPPED_LINE: &'static str = "[launcher] sing-box stopped";

// ----- ANSI escape removal -------------------------------------------------

/// The escape character that starts an ANSI sequence.
pub open spec fn esc() -> char {
    '\u{1b}'
}

/// A CSI sequence ends with a character in `0x40..=0x7E`.
pub open spec fn is_csi_final(c: char) -> bool {
    0x40 <= c as u32 <= 0x7E
}

/// What is left of `t` after the body and final character of a CSI
/// sequence (everything up to and including the first final character).
pub open spec fn skip_csi(t: Seq<char>) -> Seq<char>
    decreases t.len(),
{
    if t.len() == 0 {
        t
    } else if is_csi_final(t[0]) {
        t.drop_first()
    } else {
        skip_csi(t.drop_first())
    }
}

/// Skipping a CSI sequence never makes the text longer.
pub proof fn lemma_skip_csi_shorter(t: Seq<char>)
    ensures
        skip_csi(t).len() <= t.len(),
    decreases t.len(),
{
    if t.len() > 0 && !is_csi_final(t[0]) {
        lemma_skip_csi_shorter(t.drop_first());
    }
}

/// `s` with every CSI sequence (`ESC [ ... final`) and every other lone
/// `ESC` removed; all other characters are kept in order.
pub open spec fn strip_ansi_seq(s: Seq<char>) -> Seq<char>
    decreases s.len(),
{
    if s.len() == 0 {
        s
    } else if s[0] == esc() {
        if s.len() >= 2 && s[1] == '[' {
            proof {
                lemma_skip_csi_shorter(s.skip(2));
            }
            strip_ansi_seq(skip_csi(s.skip(2)))
        } else {
            strip_ansi_seq(s.drop_first())
        }
    } else {
        seq![s[0]] + strip_ansi_seq(s.drop_first())
    }
}

/// Removes ANSI colour sequences and stray escape characters from a line
/// of `sing-box` output.
pub fn strip_ansi(s: &str) -> (r: String)
    ensures
        r@ == strip_ansi_seq(s@),
{
    let v = chars_of(s);
    let n = v.len();
    let mut out: Vec<char> = Vec::new();
    let mut i: usize = 0;
    assert(v@.skip(0) =~= v@);
    while i < n
        invariant
            n == v@.len(),
            i <= n,
            out@ + strip_ansi_seq(v@.skip(i as int)) == strip_ansi_seq(v@),
        decreases n - i,
    {
        let ghost rest = v@.skip(i as int);
        if v[i] == '\u{1b}' {
            if i + 1 < n && v[i + 1] == '[' {
                assert(rest.skip(2) =~= v@.skip(i + 2));
                let start = i + 2;
                let mut k = start;
                while k < n && !(0x40u32 <= (v[k] as u32) && (v[k] as u32) <= 0x7Eu32)
                    invariant
                        n == v@.len(),
                        start <= k <= n,
                        skip_csi(v@.skip(start as int)) == skip_csi(v@.skip(k as int)),
                    decreases n - k,
                {
                    assert(v@.skip(k as int).drop_first() =~= v@.skip(k + 1));
                    k = k + 1;
                }
                if k < n {
                    assert(v@.skip(k as int).drop_first() =~= v@.skip(k + 1));
                    k = k + 1;
                } else {
                    assert(v@.skip(k as int) =~= Seq::<char>::empty());
                }
                i = k;
            } else {
                assert(rest.drop_first() =~= v@.skip(i + 1));
                i = i + 1;
            }
        } else {
            let ghost before = out@;
            assert(rest.drop_first() =~= v@.skip(i + 1));
            out.push(v[i]);
            assert(before + (seq![v@[i as int]] + strip_ansi_seq(v@.skip(i + 1))) =~= out@
                + strip_ansi_seq(v@.skip(i + 1)));
            i = i + 1;
        }
    }
    assert(v@.skip(n as int) =~= Seq::<char>::empty());
    assert(out@ + Seq::<char>::empty() =~= out@);
    string_of(&out)
}

/// Number of bytes of the UTF-8 sequence that starts with byte `b`
/// (continuation bytes count as one).
pub open spec fn utf8_width_spec(b: u8) -> usize {
    if b < 0xC0 {
        1
    } else if b < 0xE0 {
        2
    } else if b < 0xF0 {
        3
    } else {
        4
    }
}

/// UTF-8 leading byte to the length of the encoded character.
pub fn utf8_char_width(b: u8) -> (w: usize)
    ensures
        w == utf8_width_spec(b),
        1 <= w <= 4,
{
    if b < 0xC0 {
        1
    } else if b < 0xE0 {
        2
    } else if b < 0xF0 {
        3
    } else {
        4
    }
}

// ----- the exit report -----------------------------------------------------

/// A stderr line that names a failure (`fatal`, `panic` or `error`, in any
/// ASCII case).
pub open spec fn marks_failure(line: Seq<char>) -> bool {
    let lc = ascii_lower_seq(line);
    contains_seq(lc, "fatal"@) || contains_seq(lc, "panic"@) || contains_seq(lc, "error"@)
}

/// A line with something other than white space.
pub open spec fn non_blank(line: Seq<char>) -> bool {
    trim(line).len() > 0
}

/// Index of the last line of `tail` that names a failure.
pub open spec fn last_failure(tail: Seq<Seq<char>>) -> Option<int>
    decreases tail.len(),
{
    if tail.len() == 0 {
        None
    } else if marks_failure(tail.last()) {
        Some(tail.len() - 1)
    } else {
        last_failure(tail.drop_last())
    }
}

/// Index of the last non-blank line of `tail`.
pub open spec fn last_non_blank(tail: Seq<Seq<char>>) -> Option<int>
    decreases tail.len(),
{
    if tail.len() == 0 {
        None
    } else if non_blank(tail.last()) {
        Some(tail.len() - 1)
    } else {
        last_non_blank(tail.drop_last())
    }
}

/// Both searches return an index into `tail`.
pub proof fn lemma_last_indices_in_bounds(tail: Seq<Seq<char>>)
    ensures
        last_failure(tail) matches Some(i) ==> 0 <= i < tail.len(),
        last_non_blank(tail) matches Some(i) ==> 0 <= i < tail.len(),
    decreases tail.len(),
{
    if tail.len() > 0 {
        lemma_last_indices_in_bounds(tail.drop_last());
    }
}

/// The stderr line the exit report quotes: the last one naming a failure,
/// else the last non-blank one.
pub open spec fn picked_line(tail: Seq<Seq<char>>) -> Option<Seq<char>> {
    match last_failure(tail) {
        Some(i) => Some(tail[i]),
        None => match last_non_blank(tail) {
            Some(i) => Some(tail[i]),
            None => None,
        },
    }
}

/// The message shown when `sing-box` exits unexpectedly.
pub open spec fn exit_error_text(code_text: Seq<char>, tail: Seq<Seq<char>>) -> Seq<char> {
    match picked_line(tail) {
        Some(l) => "sing-box exited ("@ + code_text + "): "@ + trim(l),
        None => "sing-box exited ("@ + code_text + "). See log for details."@,
    }
}

/// The characters of each string.
pub open spec fn views(v: Seq<String>) -> Seq<Seq<char>> {
    v.map_values(|s: String| s@)
}

fn line_marks_failure(line: &String) -> (b: bool)
    ensures
        b == marks_failure(line@),
{
    let lc = chars_ascii_lower(&chars_of(line.as_str()));
    let fatal = chars_of("fatal");
    let panic = chars_of("panic");
    let error = chars_of("error");
    contains_chars(&lc, &fatal) || contains_chars(&lc, &panic) || contains_chars(&lc, &error)
}

fn find_last_failure(tail: &Vec<String>) -> (r: Option<usize>)
    ensures
        match last_failure(views(tail@)) {
            Some(i) => r matches Some(j) && j as int == i,
            None => r is None,
        },
{
    let mut j = tail.len();
    assert(views(tail@.take(j as int)) =~= views(tail@));
    while j > 0
        invariant
            j <= tail@.len(),
            last_failure(views(tail@)) == last_failure(views(tail@.take(j as int))),
        decreases j,
    {
        let ghost t = views(tail@.take(j as int));
        assert(t.last() == tail@[j - 1]@);
        if line_marks_failure(&tail[j - 1]) {
            return Some(j - 1);
        }
        assert(t.drop_last() =~= views(tail@.take(j - 1)));
        j = j - 1;
    }
    None
}

fn find_last_non_blank(tail: &Vec<String>) -> (r: Option<usize>)
    ensures
        match last_non_blank(views(tail@)) {
            Some(i) => r matches Some(j) && j as int == i,
            None => r is None,
        },
{
    let mut j = tail.len();
    assert(views(tail@.take(j as int)) =~= views(tail@));
    while j > 0
        invariant
            j <= tail@.len(),
            last_non_blank(views(tail@)) == last_non_blank(views(tail@.take(j as int))),
        decreases j,
    {
        let ghost t = views(tail@.take(j as int));
        assert(t.last() == tail@[j - 1]@);
        if !is_blank(tail[j - 1].as_str()) {
            return Some(j - 1);
        }
        assert(t.drop_last() =~= views(tail@.take(j - 1)));
        j = j - 1;
    }
    None
}

fn pick_line(tail: &Vec<String>) -> (r: Option<usize>)
    ensures
        match picked_line(views(tail@)) {
            Some(l) => r matches Some(i) && i < tail@.len() && l == tail@[i as int]@,
            None => r is None,
        },
{
    proof {
        lemma_last_indices_in_bounds(views(tail@));
    }
    let f = find_last_failure(tail);
    match f {
        Some(i) => {
            assert(views(tail@)[i as int] == tail@[i as int]@);
            Some(i)
        },
        None => {
            let g = find_last_non_blank(tail);
            match g {
                Some(i) => {
                    assert(views(tail@)[i as int] == tail@[i as int]@);
                    Some(i)
                },
                None => None,
            }
        },
    }
}

/// Composes the one-line summary of an unexpected exit from the exit
/// description and the captured stderr lines.
pub fn format_exit_error(code_text: &str, tail: &Vec<String>) -> (r: String)
    ensures
        r@ == exit_error_text(code_text@, views(tail@)),
{
    let picked = pick_line(tail);
    let mut s = String::new();
    append_str(&mut s, "sing-box exited (");
    append_str(&mut s, code_text);
    match picked {
        Some(i) => {
            let ghost pre = s@;
            append_str(&mut s, "): ");
            let t = str_trim(tail[i].as_str());
            append_str(&mut s, t.as_str());
            assert(views(tail@)[i as int] == tail@[i as int]@);
            assert(s@ =~= "sing-box exited ("@ + code_text@ + "): "@ + trim(tail@[i as int]@));
        },
        None => {
            append_str(&mut s, "). See log for details.");
            assert(picked_line(views(tail@)) is None);
        },
    }
    s
}

/// How an exit is described: its code, or that a signal ended it.
pub open spec fn exit_code_text(code: Option<i32>) -> Seq<char> {
    match code {
        Some(c) => "exit code "@ + signed_decimal(c as int),
        None => "terminated by signal"@,
    }
}

/// Describes an exit status for the log and the exit report.
pub fn describe_exit_code(code: Option<i32>) -> (r: String)
    ensures
        r@ == exit_code_text(code),
{
    match code {
        Some(c) => {
            let mut s = String::new();
            append_str(&mut s, "exit code ");
            let d = i64_to_string(c as i64);
            append_str(&mut s, d.as_str());
            s
        },
        None => {
            let mut s = String::new();
            append_str(&mut s, "terminated by signal");
            s
        },
    }
}

// ----- the child's lifecycle -----------------------------------------------

/// The launcher's record of its `sing-box` child: whether one is running,
/// whether its exit was asked for, the unread exit report, and the most
/// recent stderr lines.
pub struct ExitMonitor {
    running: bool,
    expected_exit: bool,
    last_exit_error: Option<String>,
    stderr_tail: VecDeque<String>,
}

/// The abstract state of an [`ExitMonitor`].
pub ghost struct MonitorState {
    pub running: bool,
    pub expected_exit: bool,
    pub error: Option<Seq<char>>,
    pub tail: Seq<Seq<char>>,
}

/// What the monitor reports when the child's exit is observed.
pub struct ExitReport {
    /// Line for the log, if the exit was not asked for.
    pub log_line: Option<String>,
}

/// A child has just been spawned: the previous run's report and stderr
/// lines are dropped.
pub open spec fn started_spec(m: MonitorState) -> MonitorState {
    MonitorState { running: true, expected_exit: false, error: None, tail: Seq::empty() }
}

/// One more stderr line is kept; the oldest goes once the tail is full.
pub open spec fn record_spec(m: MonitorState, line: Seq<char>) -> MonitorState {
    MonitorState {
        tail: (if m.tail.len() >= STDERR_TAIL_CAP {
            m.tail.drop_first()
        } else {
            m.tail
        }).push(line),
        ..m
    }
}

/// The user stops the child: its exit becomes expected and no report is
/// left pending.
pub open spec fn stop_spec(m: MonitorState) -> MonitorState {
    MonitorState {
        running: false,
        expected_exit: m.expected_exit || m.running,
        error: None,
        tail: m.tail,
    }
}

/// The watcher sees the child exit with `code`. Returns the new state and
/// the log line, if any.
pub open spec fn exited_spec(m: MonitorState, code: Option<i32>, success: bool) -> (
    MonitorState,
    Option<Seq<char>>,
) {
    if !m.running {
        (m, None)
    } else if m.expected_exit {
        (MonitorState { running: false, expected_exit: false, ..m }, None)
    } else {
        (
            MonitorState {
                running: false,
                expected_exit: false,
                error: if success {
                    m.error
                } else {
                    Some(exit_error_text(exit_code_text(code), m.tail))
                },
                tail: m.tail,
            },
            Some("[launcher] sing-box exited ("@ + exit_code_text(code) + ")"@),
        )
    }
}

/// The watcher could not query the child; it is dropped without a report.
pub open spec fn lost_spec(m: MonitorState) -> MonitorState {
    MonitorState { running: false, ..m }
}

/// The pending report is taken.
pub open spec fn take_spec(m: MonitorState) -> MonitorState {
    MonitorState { error: None, ..m }
}

impl View for ExitMonitor {
    type V = MonitorState;

    closed spec fn view(&self) -> MonitorState {
        MonitorState {
            running: self.running,
            expected_exit: self.expected_exit,
            error: match self.last_exit_error {
                Some(e) => Some(e@),
                None => None,
            },
            tail: views(self.stderr_tail@),
        }
    }
}

impl ExitMonitor {
    /// At most `STDERR_TAIL_CAP` lines are kept.
    pub closed spec fn wf(&self) -> bool {
        self.stderr_tail@.len() <= STDERR_TAIL_CAP
    }

    /// A monitor with no child.
    pub fn new() -> (m: Self)
        ensures
            m.wf(),
            m@ == (MonitorState {
                running: false,
                expected_exit: false,
                error: None,
                tail: Seq::empty(),
            }),
    {
        let m = ExitMonitor {
            running: false,
            expected_exit: false,
            last_exit_error: None,
            stderr_tail: VecDeque::new(),
        };
        assert(m@.tail =~= Seq::<Seq<char>>::empty());
        m
    }

    /// Whether a child is running.
    pub fn running(&self) -> (b: bool)
        ensures
            b == self@.running,
    {
        self.running
    }

    /// Records a freshly spawned child.
    pub fn started(&mut self)
        ensures
            final(self).wf(),
            final(self)@ == started_spec(old(self)@),
    {
        self.stderr_tail.clear();
        self.last_exit_error = None;
        self.expected_exit = false;
        self.running = true;
        assert(self@.tail =~= Seq::<Seq<char>>::empty());
    }

    /// Keeps one stderr line, dropping the oldest once
    /// `STDERR_TAIL_CAP` lines are held.
    pub fn record_stderr(&mut self, line: String)
        requires
            old(self).wf(),
        ensures
            final(self).wf(),
            final(self)@ == record_spec(old(self)@, line@),
    {
        let ghost before = self@.tail;
        if self.stderr_tail.len() >= STDERR_TAIL_CAP {
            let _ = self.stderr_tail.pop_front();
        }
        let ghost l = line@;
        self.stderr_tail.push_back(line);
        proof {
            if before.len() >= STDERR_TAIL_CAP {
                assert(self@.tail =~= before.drop_first().push(l));
            } else {
                assert(self@.tail =~= before.push(l));
            }
        }
    }

    /// The user stops the child. Returns whether one was running (and so
    /// must be killed).
    pub fn stop(&mut self) -> (was_running: bool)
        requires
            old(self).wf(),
        ensures
            was_running == old(self)@.running,
            final(self).wf(),
            final(self)@ == stop_spec(old(self)@),
    {
        let was = self.running;
        if was {
            self.expected_exit = true;
            self.running = false;
        }
        self.last_exit_error = None;
        was
    }

    /// The watcher found that the child exited with `code` (`success`
    /// when the status reported success).
    pub fn exited(&mut self, code: Option<i32>, success: bool) -> (r: ExitReport)
        requires
            old(self).wf(),
        ensures
            final(self).wf(),
            final(self)@ == exited_spec(old(self)@, code, success).0,
            match exited_spec(old(self)@, code, success).1 {
                Some(l) => r.log_line matches Some(x) && x@ == l,
                None => r.log_line is None,
            },
    {
        if !self.running {
            return ExitReport { log_line: None };
        }
        self.running = false;
        let was_expected = self.expected_exit;
        self.expected_exit = false;
        if was_expected {
            return ExitReport { log_line: None };
        }
        let code_text = describe_exit_code(code);
        let mut line = String::new();
        append_str(&mut line, "[launcher] sing-box exited (");
        append_str(&mut line, code_text.as_str());
        append_str(&mut line, ")");
        if !success {
            let mut lines: Vec<String> = Vec::new();
            let mut i: usize = 0;
            while i < self.stderr_tail.len()
                invariant
                    i <= self.stderr_tail@.len(),
                    lines@ == self.stderr_tail@.take(i as int),
                decreases self.stderr_tail@.len() - i,
            {
                lines.push(self.stderr_tail[i].clone());
                i = i + 1;
                assert(lines@ =~= self.stderr_tail@.take(i as int));
            }
            assert(self.stderr_tail@.take(i as int) =~= self.stderr_tail@);
            let msg = format_exit_error(code_text.as_str(), &lines);
            self.last_exit_error = Some(msg);
        }
        ExitReport { log_line: Some(line) }
    }

    /// The watcher could not query the child.
    pub fn lost(&mut self)
        requires
            old(self).wf(),
        ensures
            final(self).wf(),
            final(self)@ == lost_spec(old(self)@),
    {
        self.running = false;
    }

    /// Takes the pending exit report, leaving none.
    pub fn take_exit_error(&mut self) -> (r: Option<String>)
        requires
            old(self).wf(),
        ensures
            final(self).wf(),
            final(self)@ == take_spec(old(self)@),
            match r {
                Some(e) => old(self)@.error == Some(e@),
                None => old(self)@.error is None,
            },
    {
        self.last_exit_error.take()
    }
}

/// Law: a stop the user asks for never leaves an exit report, and an exit
/// the watcher observes after the stop reports nothing either.
pub proof fn law_stop_silences_exit(m: MonitorState, code: Option<i32>, success: bool)
    ensures
        stop_spec(m).error is None,
        exited_spec(stop_spec(m), code, success).0.error is None,
        exited_spec(stop_spec(m), code, success).1 is None,
{
}

/// Law: a crash the user did not ask for is reported, quoting the kept
/// stderr lines.
pub proof fn law_unexpected_failure_reported(m: MonitorState, code: Option<i32>)
    requires
        m.running,
        !m.expected_exit,
    ensures
        exited_spec(m, code, false).0.error == Some(
            exit_error_text(exit_code_text(code), m.tail),
        ),
        exited_spec(m, code, false).1 is Some,
{
}

/// Law: starting a child clears the previous run's report and stderr.
pub proof fn law_start_clears(m: MonitorState)
    ensures
        started_spec(m).error is None,
        started_spec(m).tail.len() == 0,
        started_spec(m).running,
{
}

/// The monitor after recording the lines `ls`, one after the other.
pub open spec fn record_all(m: MonitorState, ls: Seq<Seq<char>>) -> MonitorState
    decreases ls.len(),
{
    if ls.len() == 0 {
        m
    } else {
        record_spec(record_all(m, ls.drop_last()), ls.last())
    }
}

/// Law: recording lines into an empty tail keeps exactly the last
/// `STDERR_TAIL_CAP` of them (all of them if fewer).
pub proof fn law_tail_keeps_latest(m: MonitorState, ls: Seq<Seq<char>>)
    requires
        m.tail.len() == 0,
    ensures
        record_all(m, ls).tail == (if ls.len() <= STDERR_TAIL_CAP {
            ls
        } else {
            ls.skip(ls.len() - STDERR_TAIL_CAP)
        }),
    decreases ls.len(),
{
    if ls.len() == 0 {
        assert(record_all(m, ls).tail =~= ls);
    } else {
        law_tail_keeps_latest(m, ls.drop_last());
        let prev = ls.drop_last();
        if prev.len() < STDERR_TAIL_CAP {
            assert(record_all(m, ls).tail =~= ls);
        } else if prev.len() == STDERR_TAIL_CAP {
            assert(record_all(m, ls).tail =~= ls.skip(ls.len() - STDERR_TAIL_CAP));
        } else {
            assert(prev.skip(prev.len() - STDERR_TAIL_CAP).drop_first().push(ls.last())
                =~= ls.skip(ls.len() - STDERR_TAIL_CAP));
        }
    }
}

// ----- starting ------------------------------------------------------------

/// Why the child cannot be started, given what is on disk.
pub open spec fn start_refusal(
    running: bool,
    core_exists: bool,
    config_exists: bool,
    core_display: Seq<char>,
    config_display: Seq<char>,
) -> Option<Seq<char>> {
    if running {
        Some("sing-box is already running"@)
    } else if !core_exists {
        Some("core not found: "@ + core_display)
    } else if !config_exists {
        Some("config not found: "@ + config_display)
    } else {
        None
    }
}

/// Checks that a start may proceed: nothing running and both files present.
pub fn start_precheck(
    running: bool,
    core_exists: bool,
    config_exists: bool,
    core_display: &str,
    config_display: &str,
) -> (r: Result<(), String>)
    ensures
        match start_refusal(running, core_exists, config_exists, core_display@, config_display@) {
            Some(msg) => r matches Err(e) && e@ == msg,
            None => r is Ok,
        },
{
    if running {
        let mut s = String::new();
        append_str(&mut s, "sing-box is already running");
        return Err(s);
    }
    if !core_exists {
        let mut s = String::new();
        append_str(&mut s, "core not found: ");
        append_str(&mut s, core_display);
        return Err(s);
    }
    if !config_exists {
        let mut s = String::new();
        append_str(&mut s, "config not found: ");
        append_str(&mut s, config_display);
        return Err(s);
    }
    Ok(())
}

/// The error when the core cannot be spawned.
pub fn spawn_error(core_display: &str) -> (r: String)
    ensures
        r@ == "failed to spawn: "@ + core_display@,
{
    let mut s = "failed to spawn: ".to_owned();
    append_str(&mut s, core_display);
    s
}

/// The arguments `sing-box` is started with: `run -c <config> -D <dir>`.
pub fn core_args(config_file: &str, working_dir: &str) -> (r: Vec<String>)
    ensures
        r@.len() == 5,
        r@[0]@ == "run"@,
        r@[1]@ == "-c"@,
        r@[2]@ == config_file@,
        r@[3]@ == "-D"@,
        r@[4]@ == working_dir@,
{
    let mut v: Vec<String> = Vec::new();
    v.push("run".to_owned());
    v.push("-c".to_owned());
    v.push(config_file.to_owned());
    v.push("-D".to_owned());
    v.push(working_dir.to_owned());
    v
}

/// The log line written once the child has started.
pub fn started_line(core_name: &str, config_name: &str) -> (r: String)
    ensures
        r@ == "[launcher] started "@ + core_name@ + " (config: "@ + config_name@ + ")"@,
{
    let mut s = String::new();
    append_str(&mut s, "[launcher] started ");
    append_str(&mut s, core_name);
    append_str(&mut s, " (config: ");
    append_str(&mut s, config_name);
    append_str(&mut s, ")");
    s
}

/// Law: cleaned output holds no escape character, so neither the log nor
/// the exit report ever shows one.
pub proof fn law_strip_ansi_leaves_no_escape(s: Seq<char>)
    ensures
        forall|i: int| 0 <= i < strip_ansi_seq(s).len() ==> strip_ansi_seq(s)[i] != esc(),
    decreases s.len(),
{
    if s.len() > 0 {
        if s[0] == esc() {
            if s.len() >= 2 && s[1] == '[' {
                lemma_skip_csi_shorter(s.skip(2));
                law_strip_ansi_leaves_no_escape(skip_csi(s.skip(2)));
                assert(strip_ansi_seq(s) == strip_ansi_seq(skip_csi(s.skip(2))));
            } else {
                law_strip_ansi_leaves_no_escape(s.drop_first());
                assert(strip_ansi_seq(s) == strip_ansi_seq(s.drop_first()));
            }
        } else {
            law_strip_ansi_leaves_no_escape(s.drop_first());
            let rest = strip_ansi_seq(s.drop_first());
            assert(strip_ansi_seq(s) == seq![s[0]] + rest);
            assert forall|i: int| 0 <= i < strip_ansi_seq(s).len() implies strip_ansi_seq(s)[i]
                != esc() by {
                if i > 0 {
                    assert(strip_ansi_seq(s)[i] == rest[i - 1]);
                } else {
                    assert(strip_ansi_seq(s)[0] == s[0]);
                }
            }
        }
    }
}

/// Law: text without an escape character is left exactly as it is.
pub proof fn law_strip_ansi_keeps_plain_text(s: Seq<char>)
    requires
        forall|i: int| 0 <= i < s.len() ==> s[i] != esc(),
    ensures
        strip_ansi_seq(s) == s,
    decreases s.len(),
{
    if s.len() > 0 {
        let t = s.drop_first();
        assert forall|i: int| 0 <= i < t.len() implies t[i] != esc() by {
            assert(t[i] == s[i + 1]);
        }
        law_strip_ansi_keeps_plain_text(t);
        assert(seq![s[0]] + t =~= s);
    }
}

/// Law: cleaning twice is cleaning once.
pub proof fn law_strip_ansi_idempotent(s: Seq<char>)
    ensures
        strip_ansi_seq(strip_ansi_seq(s)) == strip_ansi_seq(s),
{
    law_strip_ansi_leaves_no_escape(s);
    law_strip_ansi_keeps_plain_text(strip_ansi_seq(s));
}

/// The last line of `tail` whose ASCII-lower-cased text contains `fatal`,
/// `panic` or `error` is at `i`.
proof fn lemma_last_failure_at(tail: Seq<Seq<char>>, i: int)
    requires
        0 <= i < tail.len(),
        ({
            let lc = ascii_lower_seq(tail[i]);
            contains_seq(lc, "fatal"@) || contains_seq(lc, "panic"@) || contains_seq(lc, "error"@)
        }),
        forall|j: int|
            i < j < tail.len() ==> !contains_seq(#[trigger] ascii_lower_seq(tail[j]), "fatal"@)
                && !contains_seq(ascii_lower_seq(tail[j]), "panic"@) && !contains_seq(
                ascii_lower_seq(tail[j]),
                "error"@,
            ),
    ensures
        last_failure(tail) == Some(i),
    decreases tail.len(),
{
    if i < tail.len() - 1 {
        let t = tail.drop_last();
        assert(tail.last() == tail[tail.len() - 1]);
        assert forall|j: int| i < j < t.len() implies !contains_seq(
            #[trigger] ascii_lower_seq(t[j]),
            "fatal"@,
        ) && !contains_seq(ascii_lower_seq(t[j]), "panic"@) && !contains_seq(
            ascii_lower_seq(t[j]),
            "error"@,
        ) by {
            assert(t[j] == tail[j]);
        }
        lemma_last_failure_at(t, i);
    }
}

/// Law: the exit report quotes, trimmed, the last stderr line whose
/// ASCII-lower-cased text contains `fatal`, `panic` or `error`, whatever
/// lines follow it.
pub proof fn law_exit_error_quotes_last_failure(code_text: Seq<char>, tail: Seq<Seq<char>>, i: int)
    requires
        0 <= i < tail.len(),
        ({
            let lc = ascii_lower_seq(tail[i]);
            contains_seq(lc, "fatal"@) || contains_seq(lc, "panic"@) || contains_seq(lc, "error"@)
        }),
        forall|j: int|
            i < j < tail.len() ==> !contains_seq(#[trigger] ascii_lower_seq(tail[j]), "fatal"@)
                && !contains_seq(ascii_lower_seq(tail[j]), "panic"@) && !contains_seq(
                ascii_lower_seq(tail[j]),
                "error"@,
            ),
    ensures
        exit_error_text(code_text, tail) == "sing-box exited ("@ + code_text + "): "@ + trim(tail[i]),
{
    lemma_last_failure_at(tail, i);
}

/// No line of `tail` names a failure.
proof fn lemma_no_failure(tail: Seq<Seq<char>>)
    requires
        forall|j: int|
            0 <= j < tail.len() ==> !contains_seq(#[trigger] ascii_lower_seq(tail[j]), "fatal"@)
                && !contains_seq(ascii_lower_seq(tail[j]), "panic"@) && !contains_seq(
                ascii_lower_seq(tail[j]),
                "error"@,
            ),
    ensures
        last_failure(tail) is None,
    decreases tail.len(),
{
    if tail.len() > 0 {
        let t = tail.drop_last();
        assert(tail.last() == tail[tail.len() - 1]);
        assert forall|j: int| 0 <= j < t.len() implies !contains_seq(
            #[trigger] ascii_lower_seq(t[j]),
            "fatal"@,
        ) && !contains_seq(ascii_lower_seq(t[j]), "panic"@) && !contains_seq(
            ascii_lower_seq(t[j]),
            "error"@,
        ) by {
            assert(t[j] == tail[j]);
        }
        lemma_no_failure(t);
    }
}

/// The last line of `tail` with something other than white space is at `i`.
proof fn lemma_last_non_blank_at(tail: Seq<Seq<char>>, i: int)
    requires
        0 <= i < tail.len(),
        trim(tail[i]).len() > 0,
        forall|j: int| i < j < tail.len() ==> #[trigger] trim(tail[j]).len() == 0,
    ensures
        last_non_blank(tail) == Some(i),
    decreases tail.len(),
{
    if i < tail.len() - 1 {
        let t = tail.drop_last();
        assert(tail.last() == tail[tail.len() - 1]);
        assert forall|j: int| i < j < t.len() implies #[trigger] trim(t[j]).len() == 0 by {
            assert(t[j] == tail[j]);
        }
        lemma_last_non_blank_at(t, i);
    }
}

/// Law: where no stderr line names a failure, the exit report quotes,
/// trimmed, the last line that is not blank.
pub proof fn law_exit_error_quotes_last_line(code_text: Seq<char>, tail: Seq<Seq<char>>, i: int)
    requires
        0 <= i < tail.len(),
        forall|j: int|
            0 <= j < tail.len() ==> !contains_seq(#[trigger] ascii_lower_seq(tail[j]), "fatal"@)
                && !contains_seq(ascii_lower_seq(tail[j]), "panic"@) && !contains_seq(
                ascii_lower_seq(tail[j]),
                "error"@,
            ),
        trim(tail[i]).len() > 0,
        forall|j: int| i < j < tail.len() ==> #[trigger] trim(tail[j]).len() == 0,
    ensures
        exit_error_text(code_text, tail) == "sing-box exited ("@ + code_text + "): "@ + trim(tail[i]),
{
    lemma_no_failure(tail);
    lemma_last_non_blank_at(tail, i);
}

} // verus!
