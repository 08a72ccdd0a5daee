//! The launcher's application state and every decision it takes on it:
//! the add/edit dialog, the messages between the interface and the
//! background worker, what each finished job does to the state, stale
//! selections, starting, the tray, and automatic config updates.
use vstd::prelude::*;

use std::collections::VecDeque;

use crate::entry::{
    clone_opt, opt_view, ConfigEntry, EntryView, MetadataView, Source,
    SourceView,
};
use crate::loopback::DISPLAY_NAME;
use crate::log_bus::LogEvent;
use crate::updater::{
    source_path, delete_entry, edit_entry, edit_start_spec, fetch_start, job_for, moved, refresh_entry, Io, IoView,
    Job, JobKind, JobStage, NewConfigSpec,
};
use crate::paths::Paths;
use crate::settings::{Settings, SettingsView, DEFAULT_UPDATE_INTERVAL_HOURS};
use crate::text::{
    append_str, trim_start, chars_of, decimal, is_ws, parse_u64_max, parse_unsigned_max, str_trim, trim,
    trim_bounds, u64_to_string,
};

verus! {

/// Lines of log kept in memory; older lines are dropped first.
pub const LOG_BACKLOG_CAP: usize = 1000;

// ----- the add/edit dialog ---------------------------------------------------

/// Kind of source picked in the dialog.
#[derive(Clone, Copy, Debug, PartialEq, Eq, Structural)]
pub enum SourceKind {
    Local,
    Remote,
}

/// The dialog's inputs, as values.
pub ghost struct DialogView {
    pub open: bool,
    pub editing_slug: Option<Seq<char>>,
    pub name: Seq<char>,
    pub kind: SourceKind,
    pub path: Seq<char>,
    pub url: Seq<char>,
    pub busy: bool,
    pub name_error: Option<Seq<char>>,
    pub path_error: Option<Seq<char>>,
    pub url_error: Option<Seq<char>>,
}

/// Inputs of the "Add config" dialog, which also edits existing configs.
pub struct AddDialogState {
    pub open: bool,
    /// `Some(slug)` puts the dialog in edit mode for that entry.
    pub editing_slug: Option<String>,
    pub name: String,
    pub kind: SourceKind,
    pub path: String,
    pub url: String,
    pub busy: bool,
    /// Validation errors, shown under the matching input.
    pub name_error: Option<String>,
    pub path_error: Option<String>,
    pub url_error: Option<String>,
}

impl View for AddDialogState {
    type V = DialogView;

    open spec fn view(&self) -> DialogView {
        DialogView {
            open: self.open,
            editing_slug: opt_view(self.editing_slug),
            name: self.name@,
            kind: self.kind,
            path: self.path@,
            url: self.url@,
            busy: self.busy,
            name_error: opt_view(self.name_error),
            path_error: opt_view(self.path_error),
            url_error: opt_view(self.url_error),
        }
    }
}

/// The closed, empty dialog.
pub open spec fn fresh_dialog() -> DialogView {
    DialogView {
        open: false,
        editing_slug: None,
        name: Seq::empty(),
        kind: SourceKind::Remote,
        path: Seq::empty(),
        url: Seq::empty(),
        busy: false,
        name_error: None,
        path_error: None,
        url_error: None,
    }
}

/// The dialog opened to edit `e`: its name, and its path or URL under the
/// matching kind.
pub open spec fn edit_dialog(e: EntryView) -> DialogView {
    match e.metadata.source {
        SourceView::Remote(url) => DialogView {
            open: true,
            editing_slug: Some(e.slug),
            name: e.metadata.name,
            kind: SourceKind::Remote,
            url,
            ..fresh_dialog()
        },
        SourceView::Local(path) => DialogView {
            open: true,
            editing_slug: Some(e.slug),
            name: e.metadata.name,
            kind: SourceKind::Local,
            path,
            ..fresh_dialog()
        },
    }
}

/// What the dialog sends to the worker when its inputs are valid.
pub ghost enum SubmitView {
    Add(Seq<char>, SourceView),
    Edit(Seq<char>, Seq<char>, SourceView),
}

/// The outcome of confirming the dialog: the command to send (if every
/// field is valid) and the dialog afterwards.
pub open spec fn submit_spec(d: DialogView) -> (Option<SubmitView>, DialogView) {
    let name = trim(d.name);
    let path = trim(d.path);
    let url = trim(d.url);
    let name_error = if name.len() == 0 {
        Some("Name is required"@)
    } else {
        None
    };
    let (source, path_error, url_error) = match d.kind {
        SourceKind::Local => if path.len() == 0 {
            (None, Some("File path is required"@), None)
        } else {
            (Some(SourceView::Local(path)), None, None)
        },
        SourceKind::Remote => if url.len() == 0 {
            (None, None, Some("URL is required"@))
        } else {
            (Some(SourceView::Remote(url)), None, None)
        },
    };
    let checked = DialogView { name_error, path_error, url_error, ..d };
    match source {
        Some(src) => if name_error is None {
            (
                Some(
                    match d.editing_slug {
                        Some(slug) => SubmitView::Edit(slug, name, src),
                        None => SubmitView::Add(name, src),
                    },
                ),
                DialogView { busy: true, ..checked },
            )
        } else {
            (None, checked)
        },
        None => (None, checked),
    }
}

/// The view of a command as far as the dialog produces it.
pub open spec fn cmd_submit_view(c: BgCmd) -> Option<SubmitView> {
    match c {
        BgCmd::AddConfig(spec) => Some(SubmitView::Add(spec.name@, spec.source@)),
        BgCmd::EditConfig { slug, spec } => Some(
            SubmitView::Edit(slug@, spec.name@, spec.source@),
        ),
        _ => None,
    }
}

fn owned(s: &str) -> (r: String)
    ensures
        r@ == s@,
{
    s.to_owned()
}

impl AddDialogState {
    /// The closed, empty dialog.
    pub fn new() -> (d: Self)
        ensures
            d@ == fresh_dialog(),
    {
        let d = AddDialogState {
            open: false,
            editing_slug: None,
            name: String::new(),
            kind: SourceKind::Remote,
            path: String::new(),
            url: String::new(),
            busy: false,
            name_error: None,
            path_error: None,
            url_error: None,
        };
        assert(d@ =~= fresh_dialog());
        d
    }

    /// Closes and empties the dialog.
    pub fn reset(&mut self)
        ensures
            final(self)@ == fresh_dialog(),
    {
        *self = Self::new();
    }

    /// Drops the inline validation errors.
    pub fn clear_errors(&mut self)
        ensures
            final(self)@ == (DialogView {
                name_error: None,
                path_error: None,
                url_error: None,
                ..old(self)@
            }),
    {
        self.name_error = None;
        self.path_error = None;
        self.url_error = None;
    }

    /// Opens the dialog in edit mode, filled in from `entry`.
    pub fn open_for_edit(&mut self, entry: &ConfigEntry)
        ensures
            final(self)@ == edit_dialog(entry@),
    {
        self.reset();
        self.open = true;
        self.editing_slug = Some(entry.slug.clone());
        self.name = entry.metadata.name.clone();
        match &entry.metadata.source {
            Source::Remote { url } => {
                self.kind = SourceKind::Remote;
                self.url = url.clone();
            },
            Source::Local { path } => {
                self.kind = SourceKind::Local;
                self.path = path.clone();
            },
        }
    }

    /// Whether the dialog edits an existing entry.
    pub fn is_edit(&self) -> (b: bool)
        ensures
            b == (self@.editing_slug is Some),
    {
        self.editing_slug.is_some()
    }

    /// Validates every field at once and, when all are valid, marks the
    /// dialog busy and returns the add or edit command for the worker.
    /// Errors appear under their fields.
    pub fn submit(&mut self) -> (cmd: Option<BgCmd>)
        ensures
            final(self)@ == submit_spec(old(self)@).1,
            match submit_spec(old(self)@).0 {
                Some(sv) => cmd matches Some(c) && cmd_submit_view(c) == Some(sv),
                None => cmd is None,
            },
    {
        self.clear_errors();
        let name = str_trim(self.name.as_str());
        if name.unicode_len() == 0 {
            self.name_error = Some(owned("Name is required"));
        }
        let source = match self.kind {
            SourceKind::Local => {
                let path = str_trim(self.path.as_str());
                if path.unicode_len() == 0 {
                    self.path_error = Some(owned("File path is required"));
                    None
                } else {
                    Some(Source::Local { path })
                }
            },
            SourceKind::Remote => {
                let url = str_trim(self.url.as_str());
                if url.unicode_len() == 0 {
                    self.url_error = Some(owned("URL is required"));
                    None
                } else {
                    Some(Source::Remote { url })
                }
            },
        };
        let source = match source {
            Some(s) => s,
            None => {
                return None;
            },
        };
        if self.name_error.is_some() {
            return None;
        }
        self.busy = true;
        let spec = NewConfigSpec { name, source };
        match clone_opt(&self.editing_slug) {
            Some(slug) => Some(BgCmd::EditConfig { slug, spec }),
            None => Some(BgCmd::AddConfig(spec)),
        }
    }
}

/// The dialog's title.
pub fn dialog_title(is_edit: bool) -> (r: &'static str)
    ensures
        r@ == (if is_edit {
            "Edit config"@
        } else {
            "Add config"@
        }),
{
    if is_edit {
        "Edit config"
    } else {
        "Add config"
    }
}

/// The label of the dialog's confirm button, which shows the work while
/// the worker is busy.
pub fn dialog_confirm_label(is_edit: bool, busy: bool) -> (r: &'static str)
    ensures
        r@ == (if busy {
            if is_edit {
                "Saving\u{2026}"@
            } else {
                "Adding\u{2026}"@
            }
        } else if is_edit {
            "Save"@
        } else {
            "Add"@
        }),
{
    if busy {
        if is_edit {
            "Saving\u{2026}"
        } else {
            "Adding\u{2026}"
        }
    } else if is_edit {
        "Save"
    } else {
        "Add"
    }
}

impl AddDialogState {
    /// The user typed in the name field: its error goes away.
    pub fn name_edited(&mut self, text: String)
        ensures
            final(self)@ == (DialogView { name: text@, name_error: None, ..old(self)@ }),
    {
        self.name = text;
        self.name_error = None;
    }

    /// The user typed in the URL field: its error goes away.
    pub fn url_edited(&mut self, text: String)
        ensures
            final(self)@ == (DialogView { url: text@, url_error: None, ..old(self)@ }),
    {
        self.url = text;
        self.url_error = None;
    }

    /// The user typed in the file field or picked a file: its error goes
    /// away.
    pub fn path_edited(&mut self, text: String)
        ensures
            final(self)@ == (DialogView { path: text@, path_error: None, ..old(self)@ }),
    {
        self.path = text;
        self.path_error = None;
    }

    /// The user switched between file and URL: both source errors go away.
    pub fn kind_changed(&mut self, kind: SourceKind)
        ensures
            final(self)@ == (DialogView {
                kind,
                path_error: None,
                url_error: None,
                ..old(self)@
            }),
    {
        self.kind = kind;
        self.path_error = None;
        self.url_error = None;
    }
}

// ----- messages ------------------------------------------------------------------

/// Commands from the interface to the background worker.
pub enum BgCmd {
    AddConfig(NewConfigSpec),
    EditConfig { slug: String, spec: NewConfigSpec },
    UpdateConfig(String),
    DeleteConfig(String),
    SaveSettings(Settings),
    /// Download (if missing) and open the AppContainer loopback utility.
    OpenLoopback,
    Shutdown,
}

/// Events from background work to the interface.
pub enum BgEvent {
    Log(LogEvent),
    AddDone(Result<String, String>),
    EditDone(Result<String, String>),
    UpdateDone(Result<String, String>),
    DeleteDone(Result<String, String>),
    SettingsSaved(Result<(), String>),
    LoopbackDone(Result<(), String>),
}

// ----- warnings ----------------------------------------------------------------------

/// The characters of each string.
pub open spec fn texts(v: Seq<String>) -> Seq<Seq<char>> {
    v.map_values(|s: String| s@)
}

/// One warning for all config folders that failed to load.
pub open spec fn config_errors_summary(errors: Seq<Seq<char>>) -> Option<Seq<char>> {
    if errors.len() == 0 {
        None
    } else if errors.len() == 1 {
        Some(errors[0])
    } else {
        Some(
            "Failed to load "@ + decimal(errors.len()) + " config entries. First error: "@
                + errors[0],
        )
    }
}

/// Summarises the config folders that failed to load.
pub fn summarize_config_load_errors(errors: &Vec<String>) -> (r: Option<String>)
    ensures
        opt_view(r) == config_errors_summary(texts(errors@)),
{
    if errors.len() == 0 {
        None
    } else if errors.len() == 1 {
        Some(errors[0].clone())
    } else {
        let mut s = String::new();
        append_str(&mut s, "Failed to load ");
        let n = u64_to_string(errors.len() as u64);
        append_str(&mut s, n.as_str());
        append_str(&mut s, " config entries. First error: ");
        append_str(&mut s, errors[0].as_str());
        Some(s)
    }
}

/// The startup warning: the settings warning and the config summary, one
/// per line, or nothing when there are neither.
pub open spec fn startup_warnings_spec(
    settings_warning: Option<Seq<char>>,
    errors: Seq<Seq<char>>,
) -> Option<Seq<char>> {
    match (settings_warning, config_errors_summary(errors)) {
        (Some(a), Some(b)) => Some(a + "\n"@ + b),
        (Some(a), None) => Some(a),
        (None, Some(b)) => Some(b),
        (None, None) => None,
    }
}

/// Combines the warnings collected at startup.
pub fn summarize_startup_warnings(settings_warning: Option<String>, errors: &Vec<String>) -> (r:
    Option<String>)
    ensures
        opt_view(r) == startup_warnings_spec(opt_view(settings_warning), texts(errors@)),
{
    let summary = summarize_config_load_errors(errors);
    match settings_warning {
        Some(a) => match summary {
            Some(b) => {
                let mut s = a;
                append_str(&mut s, "\n");
                append_str(&mut s, b.as_str());
                Some(s)
            },
            None => Some(a),
        },
        None => summary,
    }
}

// ----- core versions -------------------------------------------------------------

/// Index of the first line break, if any.
pub open spec fn newline_index(s: Seq<char>) -> Option<int>
    decreases s.len(),
{
    if s.len() == 0 {
        None
    } else if s[0] == '\n' {
        Some(0)
    } else {
        match newline_index(s.drop_first()) {
            Some(i) => Some(i + 1),
            None => None,
        }
    }
}

/// The first line of `s`, as `str::lines` yields it: up to the first
/// `\n` (without a `\r` just before it); nothing for an empty text.
pub open spec fn first_line(s: Seq<char>) -> Option<Seq<char>> {
    if s.len() == 0 {
        None
    } else {
        match newline_index(s) {
            Some(k) => {
                let l = s.take(k);
                if l.len() > 0 && l.last() == '\r' {
                    Some(l.drop_last())
                } else {
                    Some(l)
                }
            },
            None => Some(s),
        }
    }
}

/// The last run of non-space characters at the end of `t`.
pub open spec fn last_word(t: Seq<char>) -> Seq<char>
    decreases t.len(),
{
    if t.len() == 0 || is_ws(t.last()) {
        Seq::empty()
    } else {
        last_word(t.drop_last()).push(t.last())
    }
}

/// The short version token in `<core> version` output: the last word of
/// the trimmed first line (`sing-box version 1.10.0` gives `1.10.0`).
pub open spec fn short_version_spec(full: Seq<char>) -> Option<Seq<char>> {
    match first_line(full) {
        Some(l) => if trim(l).len() == 0 {
            None
        } else {
            Some(last_word(trim(l)))
        },
        None => None,
    }
}

proof fn lemma_newline_index_bounds(s: Seq<char>)
    ensures
        newline_index(s) matches Some(k) ==> 0 <= k < s.len() && s[k] == '\n' && forall|
            j: int,
        |
            0 <= j < k ==> s[j] != '\n',
        newline_index(s) is None ==> forall|j: int| 0 <= j < s.len() ==> s[j] != '\n',
    decreases s.len(),
{
    if s.len() > 0 {
        lemma_newline_index_bounds(s.drop_first());
        if s[0] != '\n' {
            assert forall|j: int| 1 <= j < s.len() implies s[j] == s.drop_first()[j - 1] by {}
        }
    }
}

fn first_newline(v: &Vec<char>) -> (r: Option<usize>)
    ensures
        match newline_index(v@) {
            Some(k) => r matches Some(j) && j as int == k,
            None => r is None,
        },
{
    let mut i: usize = 0;
    proof {
        lemma_newline_index_bounds(v@);
    }
    while i < v.len()
        invariant
            i <= v@.len(),
            forall|j: int| 0 <= j < i ==> v@[j] != '\n',
            newline_index(v@) matches Some(k) ==> 0 <= k < v@.len() && v@[k] == '\n' && forall|
                j: int,
            |
                0 <= j < k ==> v@[j] != '\n',
            newline_index(v@) is None ==> forall|j: int| 0 <= j < v@.len() ==> v@[j] != '\n',
        decreases v.len() - i,
    {
        if v[i] == '\n' {
            return Some(i);
        }
        i = i + 1;
    }
    None
}

fn last_word_start(v: &Vec<char>, lo: usize, hi: usize) -> (r: usize)
    requires
        lo <= hi <= v@.len(),
    ensures
        lo <= r <= hi,
        v@.subrange(r as int, hi as int) == last_word(v@.subrange(lo as int, hi as int)),
{
    let mut j = hi;
    assert(v@.subrange(hi as int, hi as int) =~= Seq::<char>::empty());
    while j > lo && !crate::text::is_whitespace(v[j - 1])
        invariant
            lo <= j <= hi <= v@.len(),
            last_word(v@.subrange(lo as int, hi as int)) == last_word(
                v@.subrange(lo as int, j as int),
            ) + v@.subrange(j as int, hi as int),
        decreases j - lo,
    {
        let ghost t = v@.subrange(lo as int, j as int);
        assert(t.drop_last() =~= v@.subrange(lo as int, j - 1));
        assert(t.last() == v@[j - 1]);
        assert(last_word(t.drop_last()).push(t.last()) + v@.subrange(j as int, hi as int)
            =~= last_word(t.drop_last()) + v@.subrange(j - 1, hi as int));
        j = j - 1;
    }
    assert(last_word(v@.subrange(lo as int, j as int)) =~= Seq::<char>::empty());
    assert(Seq::<char>::empty() + v@.subrange(j as int, hi as int) =~= v@.subrange(
        j as int,
        hi as int,
    ));
    j
}

/// Pulls the short version out of `<core> version` output.
pub fn extract_short_version(full: &str) -> (r: Option<String>)
    ensures
        opt_view(r) == short_version_spec(full@),
{
    let v = chars_of(full);
    if v.len() == 0 {
        return None;
    }
    proof {
        lemma_newline_index_bounds(v@);
    }
    let end = match first_newline(&v) {
        Some(k) => {
            if k > 0 && v[k - 1] == '\r' {
                k - 1
            } else {
                k
            }
        },
        None => v.len(),
    };
    let line = crate::text::string_of_range(&v, 0, end);
    proof {
        match newline_index(v@) {
            Some(k) => {
                let l = v@.take(k);
                if l.len() > 0 && l.last() == '\r' {
                    assert(l.drop_last() =~= v@.subrange(0, end as int));
                } else {
                    assert(l =~= v@.subrange(0, end as int));
                }
            },
            None => {
                assert(v@ =~= v@.subrange(0, end as int));
            },
        }
    }
    let lv = chars_of(line.as_str());
    let (lo, hi) = trim_bounds(&lv);
    if lo == hi {
        return None;
    }
    let start = last_word_start(&lv, lo, hi);
    Some(crate::text::string_of_range(&lv, start, hi))
}

// ----- the update interval field ---------------------------------------------------

/// Longest update interval the settings accept, in hours.
pub const MAX_UPDATE_INTERVAL_HOURS: u64 = 720;

/// The interval a typed value stands for: the default for an empty field,
/// a whole number of hours clamped to `1..=720`, or nothing while the text
/// is not a number.
pub open spec fn interval_from_text(text: Seq<char>) -> Option<u64> {
    let t = trim(text);
    if t.len() == 0 {
        Some(DEFAULT_UPDATE_INTERVAL_HOURS)
    } else {
        match parse_unsigned_max(t, u64::MAX as nat) {
            Some(v) => Some(
                if v < 1 {
                    1u64
                } else if v > 720 {
                    720u64
                } else {
                    v as u64
                },
            ),
            None => None,
        }
    }
}

/// Reads the update interval field.
pub fn interval_from_input(text: &str) -> (r: Option<u64>)
    ensures
        r == interval_from_text(text@),
{
    let t = str_trim(text);
    if t.unicode_len() == 0 {
        return Some(DEFAULT_UPDATE_INTERVAL_HOURS);
    }
    match parse_u64_max(t.as_str(), u64::MAX) {
        Some(v) => Some(
            if v < 1 {
                1
            } else if v > MAX_UPDATE_INTERVAL_HOURS {
                MAX_UPDATE_INTERVAL_HOURS
            } else {
                v
            },
        ),
        None => None,
    }
}

/// The field's text for a stored interval: empty for the default.
pub open spec fn interval_text(hours: u64) -> Seq<char> {
    if hours == DEFAULT_UPDATE_INTERVAL_HOURS {
        Seq::empty()
    } else {
        decimal(hours as nat)
    }
}

/// What the interval field shows for the stored setting.
pub fn interval_input_text(hours: u64) -> (r: String)
    ensures
        r@ == interval_text(hours),
{
    if hours == DEFAULT_UPDATE_INTERVAL_HOURS {
        String::new()
    } else {
        u64_to_string(hours)
    }
}

/// Law: the interval field reads back what it shows: the text shown for a
/// stored interval in `1..=720` hours stands for that same interval.
pub proof fn law_interval_field_round_trip(hours: u64)
    requires
        1 <= hours <= MAX_UPDATE_INTERVAL_HOURS,
    ensures
        interval_from_text(interval_text(hours)) == Some(hours),
{
    if hours != DEFAULT_UPDATE_INTERVAL_HOURS {
        crate::text::lemma_parse_decimal(hours as nat);
    } else {
        assert(trim_start(Seq::<char>::empty()) =~= Seq::<char>::empty());
        assert(trim(Seq::<char>::empty()).len() == 0);
    }
}

// ----- the core version shown in the log toolbar ---------------------------------

/// The cached `<core> version` output, as values.
pub ghost struct VersionView {
    pub name: Option<Seq<char>>,
    pub mtime: Option<i128>,
    pub full: Option<Seq<char>>,
    pub short: Option<Seq<char>>,
    pub last_check: Option<u64>,
}

/// Cached output of `<core> version` for the selected core, keyed by the
/// core's name and modification time so it refreshes when the user picks
/// another core or replaces the binary.
pub struct CoreVersionCache {
    name: Option<String>,
    /// Modification time of the core when it was asked, in nanoseconds.
    mtime: Option<i128>,
    /// Full output; `None` when the query failed.
    pub full: Option<String>,
    /// Short version token from the first line.
    pub short: Option<String>,
    /// Monotonic milliseconds of the last modification-time probe.
    last_check: Option<u64>,
}

/// The empty cache.
pub open spec fn empty_version() -> VersionView {
    VersionView { name: None, mtime: None, full: None, short: None, last_check: None }
}

/// Minimum time between two probes of the core's modification time.
pub const VERSION_PROBE_INTERVAL_MS: u64 = 1000;

impl View for CoreVersionCache {
    type V = VersionView;

    closed spec fn view(&self) -> VersionView {
        VersionView {
            name: opt_view(self.name),
            mtime: self.mtime,
            full: opt_view(self.full),
            short: opt_view(self.short),
            last_check: self.last_check,
        }
    }
}

impl Default for CoreVersionCache {
    fn default() -> (c: Self)
        ensures
            c@ == empty_version(),
    {
        CoreVersionCache { name: None, mtime: None, full: None, short: None, last_check: None }
    }
}

impl CoreVersionCache {
    /// Rate-limits the probe: returns `false` (and changes nothing) when
    /// the last probe was less than a second before `now_ms`; otherwise
    /// records `now_ms` and returns `true`.
    pub fn begin_check(&mut self, now_ms: u64) -> (go: bool)
        ensures
            match old(self)@.last_check {
                Some(l) => go == (now_ms >= l && now_ms - l >= VERSION_PROBE_INTERVAL_MS),
                None => go,
            },
            go ==> final(self)@ == (VersionView { last_check: Some(now_ms), ..old(self)@ }),
            !go ==> final(self)@ == old(self)@,
    {
        match self.last_check {
            Some(l) => {
                if now_ms < l || now_ms - l < VERSION_PROBE_INTERVAL_MS {
                    return false;
                }
            },
            None => {},
        }
        self.last_check = Some(now_ms);
        true
    }

    /// No core is selected: a cache that names a core is emptied (keeping
    /// the probe time) so no stale version is shown.
    pub fn clear_without_core(&mut self, now_ms: u64)
        ensures
            old(self)@.name is Some ==> final(self)@ == (VersionView {
                last_check: Some(now_ms),
                ..empty_version()
            }),
            old(self)@.name is None ==> final(self)@ == old(self)@,
    {
        if self.name.is_some() {
            *self = CoreVersionCache {
                name: None,
                mtime: None,
                full: None,
                short: None,
                last_check: Some(now_ms),
            };
        }
    }

    /// Whether the cache already holds the answer for core `name` with
    /// modification time `mtime`.
    pub fn is_current(&self, name: &str, mtime: Option<i128>) -> (b: bool)
        ensures
            b == (self@.name == Some(name@) && self@.mtime == mtime),
    {
        match &self.name {
            Some(n) => {
                let same = n.eq(&owned(name));
                same && self.mtime == mtime
            },
            None => false,
        }
    }

    /// Stores the answer of running `<core> version`: its output, or
    /// `None` when the run failed (remembered too, so the core is not run
    /// again until it changes).
    pub fn record(&mut self, name: String, mtime: Option<i128>, output: Option<String>, now_ms: u64)
        ensures
            final(self)@ == (VersionView {
                name: Some(name@),
                mtime,
                full: opt_view(output),
                short: match output {
                    Some(t) => short_version_spec(t@),
                    None => None,
                },
                last_check: Some(now_ms),
            }),
    {
        let short = match &output {
            Some(t) => extract_short_version(t.as_str()),
            None => None,
        };
        *self = CoreVersionCache {
            name: Some(name),
            mtime,
            full: output,
            short,
            last_check: Some(now_ms),
        };
    }
}

// ----- the application state ---------------------------------------------------------

/// A fresh listing of `config/` and `core/`, with the errors met while
/// reading config folders.
pub struct Listing {
    pub configs: Vec<ConfigEntry>,
    pub cores: Vec<String>,
    pub errors: Vec<String>,
}

/// A listing, as values.
pub ghost struct ListingView {
    pub configs: Seq<EntryView>,
    pub cores: Seq<Seq<char>>,
    pub errors: Seq<Seq<char>>,
}

/// The views of a list of entries.
pub open spec fn entries(v: Seq<ConfigEntry>) -> Seq<EntryView> {
    v.map_values(|e: ConfigEntry| e@)
}

impl View for Listing {
    type V = ListingView;

    open spec fn view(&self) -> ListingView {
        ListingView {
            configs: entries(self.configs@),
            cores: texts(self.cores@),
            errors: texts(self.errors@),
        }
    }
}

/// The application state, as values.
pub ghost struct AppView {
    pub settings: SettingsView,
    pub configs: Seq<EntryView>,
    pub cores: Seq<Seq<char>>,
    pub logs: Seq<(Seq<char>, Seq<char>)>,
    pub last_error: Option<Seq<char>>,
    pub last_info: Option<Seq<char>>,
    pub loopback_busy: bool,
    pub dialog: DialogView,
    pub core_version: VersionView,
    /// The folder name awaiting delete confirmation.
    pub delete_confirm: Option<Seq<char>>,
    pub destroy_confirm_open: bool,
    pub about_open: bool,
    pub core_version_open: bool,
}

/// Everything the launcher's window shows and edits, apart from drawing
/// state: settings, listings, the log backlog, the status banners, the
/// dialogs and the cached core version.
pub struct AppState {
    pub settings: Settings,
    pub configs: Vec<ConfigEntry>,
    pub cores: Vec<String>,
    pub logs: VecDeque<LogEvent>,
    pub last_error: Option<String>,
    pub last_info: Option<String>,
    /// The loopback utility is being downloaded or launched.
    pub loopback_busy: bool,
    /// Text of the update interval field while it is being edited.
    pub update_interval_input: String,
    pub add_dialog: AddDialogState,
    /// `Some(slug)` while the delete confirmation is open.
    pub delete_confirm: Option<String>,
    pub destroy_confirm_open: bool,
    pub about_open: bool,
    pub core_version: CoreVersionCache,
    pub core_version_open: bool,
}

/// A log line as its time and text.
pub open spec fn log_view(e: LogEvent) -> (Seq<char>, Seq<char>) {
    (e.timestamp@, e.message@)
}

impl View for AppState {
    type V = AppView;

    open spec fn view(&self) -> AppView {
        AppView {
            settings: self.settings@,
            configs: entries(self.configs@),
            cores: texts(self.cores@),
            logs: self.logs@.map_values(|e: LogEvent| log_view(e)),
            last_error: opt_view(self.last_error),
            last_info: opt_view(self.last_info),
            loopback_busy: self.loopback_busy,
            dialog: self.add_dialog@,
            core_version: self.core_version@,
            delete_confirm: opt_view(self.delete_confirm),
            destroy_confirm_open: self.destroy_confirm_open,
            about_open: self.about_open,
            core_version_open: self.core_version_open,
        }
    }
}

/// Whether a config with folder name `slug` is listed.
pub open spec fn config_listed(configs: Seq<EntryView>, slug: Seq<char>) -> bool {
    exists|i: int| 0 <= i < configs.len() && (#[trigger] configs[i]).slug == slug
}

/// The selected config names a listed config (or none is selected), and
/// likewise the selected core.
pub open spec fn selection_valid(a: AppView) -> bool {
    &&& (a.settings.selected_config matches Some(s) ==> config_listed(a.configs, s))
    &&& (a.settings.selected_core matches Some(c) ==> a.cores.contains(c))
}

/// Drops a selected config or core that is no longer listed (an emptied
/// core also empties the cached version). Returns the state and whether
/// the settings changed.
pub open spec fn prune_spec(a: AppView) -> (AppView, bool) {
    let cfg_stale = match a.settings.selected_config {
        Some(s) => !config_listed(a.configs, s),
        None => false,
    };
    let core_stale = match a.settings.selected_core {
        Some(c) => !a.cores.contains(c),
        None => false,
    };
    (
        AppView {
            settings: SettingsView {
                selected_config: if cfg_stale {
                    None
                } else {
                    a.settings.selected_config
                },
                selected_core: if core_stale {
                    None
                } else {
                    a.settings.selected_core
                },
                ..a.settings
            },
            core_version: if core_stale {
                empty_version()
            } else {
                a.core_version
            },
            ..a
        },
        cfg_stale || core_stale,
    )
}

/// Takes a fresh listing: returns the state, the warning for folders that
/// failed to load, and whether the settings changed.
pub open spec fn refresh_spec(a: AppView, l: ListingView) -> (AppView, Option<Seq<char>>, bool) {
    let p = prune_spec(AppView { configs: l.configs, cores: l.cores, ..a });
    (p.0, config_errors_summary(l.errors), p.1)
}

/// A finished job, as values.
pub ghost enum EventView {
    Log((Seq<char>, Seq<char>)),
    AddDone(Result<Seq<char>, Seq<char>>),
    EditDone(Result<Seq<char>, Seq<char>>),
    UpdateDone(Result<Seq<char>, Seq<char>>),
    DeleteDone(Result<Seq<char>, Seq<char>>),
    SettingsSaved(Result<(), Seq<char>>),
    LoopbackDone(Result<(), Seq<char>>),
}

/// The text of a job result.
pub open spec fn res_view(r: Result<String, String>) -> Result<Seq<char>, Seq<char>> {
    match r {
        Ok(s) => Ok(s@),
        Err(e) => Err(e@),
    }
}

/// The text of a unit result.
pub open spec fn unit_view(r: Result<(), String>) -> Result<(), Seq<char>> {
    match r {
        Ok(()) => Ok(()),
        Err(e) => Err(e@),
    }
}

/// The view of an event.
pub open spec fn event_view(ev: BgEvent) -> EventView {
    match ev {
        BgEvent::Log(e) => EventView::Log(log_view(e)),
        BgEvent::AddDone(r) => EventView::AddDone(res_view(r)),
        BgEvent::EditDone(r) => EventView::EditDone(res_view(r)),
        BgEvent::UpdateDone(r) => EventView::UpdateDone(res_view(r)),
        BgEvent::DeleteDone(r) => EventView::DeleteDone(res_view(r)),
        BgEvent::SettingsSaved(r) => EventView::SettingsSaved(unit_view(r)),
        BgEvent::LoopbackDone(r) => EventView::LoopbackDone(unit_view(r)),
    }
}

/// A job that succeeded in changing what is on disk, so the listings are
/// read again.
pub open spec fn needs_listing_spec(ev: EventView) -> bool {
    match ev {
        EventView::AddDone(Ok(_)) => true,
        EventView::EditDone(Ok(_)) => true,
        EventView::UpdateDone(Ok(_)) => true,
        EventView::DeleteDone(Ok(_)) => true,
        _ => false,
    }
}

/// `'<slug>'` after a verb.
pub open spec fn quoted(verb: Seq<char>, slug: Seq<char>) -> Seq<char> {
    verb + " '"@ + slug + "'"@
}

/// After a refresh: the warning becomes the error banner, and the success
/// message shows only when there is no warning.
pub open spec fn with_banners(a: AppView, warning: Option<Seq<char>>, info: Seq<char>) -> AppView {
    AppView {
        last_error: warning,
        last_info: if warning is None {
            Some(info)
        } else {
            None
        },
        ..a
    }
}

/// What one finished job does to the state, given the listing read after
/// it (used only when the job changed what is on disk). Returns the state
/// and whether the settings must be saved.
pub open spec fn event_spec(a: AppView, ev: EventView, l: ListingView) -> (AppView, bool) {
    match ev {
        EventView::Log(line) => (
            AppView {
                logs: (if a.logs.len() == LOG_BACKLOG_CAP {
                    a.logs.drop_first()
                } else {
                    a.logs
                }).push(line),
                ..a
            },
            false,
        ),
        EventView::AddDone(Ok(slug)) => {
            let r = refresh_spec(AppView { dialog: fresh_dialog(), ..a }, l);
            let b = with_banners(r.0, r.1, quoted("Added"@, slug));
            (
                AppView {
                    settings: SettingsView { selected_config: Some(slug), ..b.settings },
                    ..b
                },
                true,
            )
        },
        EventView::EditDone(Ok(slug)) => {
            let r = refresh_spec(AppView { dialog: fresh_dialog(), ..a }, l);
            (with_banners(r.0, r.1, quoted("Updated"@, slug)), r.2)
        },
        EventView::UpdateDone(Ok(slug)) => {
            let r = refresh_spec(a, l);
            (with_banners(r.0, r.1, quoted("Updated"@, slug)), r.2)
        },
        EventView::DeleteDone(Ok(slug)) => {
            let was_selected = a.settings.selected_config == Some(slug);
            let a1 = if was_selected {
                AppView { settings: SettingsView { selected_config: None, ..a.settings }, ..a }
            } else {
                a
            };
            let r = refresh_spec(a1, l);
            (with_banners(r.0, r.1, quoted("Deleted"@, slug)), was_selected || r.2)
        },
        EventView::AddDone(Err(e)) => (
            AppView { dialog: DialogView { busy: false, ..a.dialog }, last_error: Some(e), ..a },
            false,
        ),
        EventView::EditDone(Err(e)) => (
            AppView { dialog: DialogView { busy: false, ..a.dialog }, last_error: Some(e), ..a },
            false,
        ),
        EventView::UpdateDone(Err(e)) => (AppView { last_error: Some(e), ..a }, false),
        EventView::DeleteDone(Err(e)) => (AppView { last_error: Some(e), ..a }, false),
        EventView::SettingsSaved(Ok(())) => (a, false),
        EventView::SettingsSaved(Err(e)) => (
            AppView { last_error: Some("Failed to save settings: "@ + e), ..a },
            false,
        ),
        EventView::LoopbackDone(Ok(())) => (
            AppView {
                loopback_busy: false,
                last_error: None,
                last_info: Some("Launched AppContainer loopback utility"@),
                ..a
            },
            false,
        ),
        EventView::LoopbackDone(Err(e)) => (
            AppView {
                loopback_busy: false,
                last_error: Some("Loopback utility failed: "@ + e),
                ..a
            },
            false,
        ),
    }
}

/// The log backlog is within its cap.
pub open spec fn app_wf(a: AppView) -> bool {
    a.logs.len() <= LOG_BACKLOG_CAP
}

/// The empty listing.
pub open spec fn no_listing() -> ListingView {
    ListingView { configs: Seq::empty(), cores: Seq::empty(), errors: Seq::empty() }
}

/// The listing passed along with an event.
pub open spec fn listing_view(l: Option<Listing>) -> ListingView {
    match l {
        Some(x) => x@,
        None => no_listing(),
    }
}

/// Whether a finished job asks for the listings to be read again.
pub fn needs_listing(ev: &BgEvent) -> (b: bool)
    ensures
        b == needs_listing_spec(event_view(*ev)),
{
    match ev {
        BgEvent::AddDone(Ok(_)) => true,
        BgEvent::EditDone(Ok(_)) => true,
        BgEvent::UpdateDone(Ok(_)) => true,
        BgEvent::DeleteDone(Ok(_)) => true,
        _ => false,
    }
}

fn quote(verb: &str, slug: &str) -> (r: String)
    ensures
        r@ == quoted(verb@, slug@),
{
    let mut s = String::new();
    append_str(&mut s, verb);
    append_str(&mut s, " '");
    append_str(&mut s, slug);
    append_str(&mut s, "'");
    s
}

fn prefixed(prefix: &str, e: &str) -> (r: String)
    ensures
        r@ == prefix@ + e@,
{
    let mut s = String::new();
    append_str(&mut s, prefix);
    append_str(&mut s, e);
    s
}

/// Whether `name` is among `names`.
fn text_listed(names: &Vec<String>, name: &String) -> (found: bool)
    ensures
        found == texts(names@).contains(name@),
{
    let mut i: usize = 0;
    while i < names.len()
        invariant
            i <= names@.len(),
            forall|j: int| 0 <= j < i ==> (#[trigger] texts(names@)[j]) != name@,
        decreases names.len() - i,
    {
        assert(texts(names@)[i as int] == names@[i as int]@);
        if names[i].eq(name) {
            return true;
        }
        i = i + 1;
    }
    false
}

impl AppState {
    /// The state at startup, from the loaded settings, the first listing
    /// and the startup warning. Returns it and whether dropping a stale
    /// selection changed the settings (which must then be saved).
    pub fn new(settings: Settings, listing: Listing, settings_warning: Option<String>) -> (r: (
        AppState,
        bool,
    ))
        ensures
            app_wf(r.0@),
            ({
                let start = AppView {
                    settings: settings@,
                    configs: listing@.configs,
                    cores: listing@.cores,
                    logs: Seq::empty(),
                    last_error: startup_warnings_spec(opt_view(settings_warning), listing@.errors),
                    last_info: None,
                    loopback_busy: false,
                    dialog: fresh_dialog(),
                    core_version: empty_version(),
                    delete_confirm: None,
                    destroy_confirm_open: false,
                    about_open: false,
                    core_version_open: false,
                };
                (r.0@, r.1) == prune_spec(start)
            }),
            r.0.update_interval_input@ == interval_text(settings@.update_interval_hours),
    {
        let warning = summarize_startup_warnings(settings_warning, &listing.errors);
        let input = interval_input_text(settings.update_interval_hours);
        let mut st = AppState {
            settings,
            configs: listing.configs,
            cores: listing.cores,
            logs: VecDeque::new(),
            last_error: warning,
            last_info: None,
            loopback_busy: false,
            update_interval_input: input,
            add_dialog: AddDialogState::new(),
            delete_confirm: None,
            destroy_confirm_open: false,
            about_open: false,
            core_version: CoreVersionCache::default(),
            core_version_open: false,
        };
        assert(st@.logs =~= Seq::<(Seq<char>, Seq<char>)>::empty());
        let changed = st.prune_stale_selections();
        (st, changed)
    }

    /// Index of the selected config in the listing, if it is listed.
    pub fn selected_entry(&self) -> (r: Option<usize>)
        ensures
            match r {
                Some(i) => i < self.configs@.len() && self@.settings.selected_config == Some(
                    self@.configs[i as int].slug,
                ) && forall|j: int| 0 <= j < i ==> self@.configs[j].slug != self@.configs[i as int].slug,
                None => match self@.settings.selected_config {
                    Some(s) => !config_listed(self@.configs, s),
                    None => true,
                },
            },
    {
        let sel = match &self.settings.selected_config {
            Some(s) => s,
            None => {
                return None;
            },
        };
        let mut i: usize = 0;
        while i < self.configs.len()
            invariant
                i <= self.configs@.len(),
                self.settings.selected_config == Some(*sel),
                forall|j: int| 0 <= j < i ==> (#[trigger] entries(self.configs@)[j]).slug != sel@,
            decreases self.configs.len() - i,
        {
            assert(entries(self.configs@)[i as int] == self.configs@[i as int]@);
            if self.configs[i].slug.eq(sel) {
                return Some(i);
            }
            i = i + 1;
        }
        None
    }

    /// Drops a selected config or core that is no longer listed. Returns
    /// whether the settings changed (and must be saved).
    pub fn prune_stale_selections(&mut self) -> (changed: bool)
        ensures
            (final(self)@, changed) == prune_spec(old(self)@),
            final(self).update_interval_input@ == old(self).update_interval_input@,
    {
        let (cfg_stale, core_stale) = self.stale_selections();
        self.drop_selections(cfg_stale, core_stale);
        cfg_stale || core_stale
    }

    /// Whether the selected config, and the selected core, are set but no
    /// longer listed.
    fn stale_selections(&self) -> (r: (bool, bool))
        ensures
            r.0 == match self@.settings.selected_config {
                Some(s) => !config_listed(self@.configs, s),
                None => false,
            },
            r.1 == match self@.settings.selected_core {
                Some(c) => !self@.cores.contains(c),
                None => false,
            },
    {
        let cfg_stale = match &self.settings.selected_config {
            Some(_) => self.selected_entry().is_none(),
            None => false,
        };
        let core_stale = match &self.settings.selected_core {
            Some(sel) => !text_listed(&self.cores, sel),
            None => false,
        };
        (cfg_stale, core_stale)
    }

    /// Clears the selected config and, with the cached core version, the
    /// selected core, as asked.
    fn drop_selections(&mut self, config: bool, core: bool)
        ensures
            final(self)@ == (AppView {
                settings: SettingsView {
                    selected_config: if config { None } else { old(self)@.settings.selected_config },
                    selected_core: if core { None } else { old(self)@.settings.selected_core },
                    ..old(self)@.settings
                },
                core_version: if core { empty_version() } else { old(self)@.core_version },
                ..old(self)@
            }),
            final(self).update_interval_input@ == old(self).update_interval_input@,
    {
        if config {
            self.clear_selected_config();
        }
        if core {
            self.clear_selected_core();
        }
    }

    /// Forgets the selected config.
    fn clear_selected_config(&mut self)
        ensures
            final(self)@ == (AppView {
                settings: SettingsView { selected_config: None, ..old(self)@.settings },
                ..old(self)@
            }),
            final(self).update_interval_input@ == old(self).update_interval_input@,
    {
        self.settings.selected_config = None;
    }

    /// Forgets the selected core and its cached version.
    fn clear_selected_core(&mut self)
        ensures
            final(self)@ == (AppView {
                settings: SettingsView { selected_core: None, ..old(self)@.settings },
                core_version: empty_version(),
                ..old(self)@
            }),
            final(self).update_interval_input@ == old(self).update_interval_input@,
    {
        self.settings.selected_core = None;
        self.core_version = CoreVersionCache::default();
    }

    /// Takes a fresh listing and drops stale selections. Returns the
    /// warning for config folders that failed to load, and whether the
    /// settings changed.
    pub fn refresh_listings(&mut self, listing: Listing) -> (r: (Option<String>, bool))
        ensures
            (final(self)@, opt_view(r.0), r.1) == refresh_spec(old(self)@, listing@),
            final(self).update_interval_input@ == old(self).update_interval_input@,
    {
        let warning = summarize_config_load_errors(&listing.errors);
        self.configs = listing.configs;
        self.cores = listing.cores;
        let changed = self.prune_stale_selections();
        (warning, changed)
    }

    fn on_log(&mut self, le: LogEvent)
        requires
            app_wf(old(self)@),
        ensures
            app_wf(final(self)@),
            (final(self)@, false) == event_spec(old(self)@, EventView::Log(log_view(le)), no_listing()),
            final(self).update_interval_input@ == old(self).update_interval_input@,
    {
        let ghost before = self@.logs;
        let ghost lv = log_view(le);
        if self.logs.len() == LOG_BACKLOG_CAP {
            let _ = self.logs.pop_front();
        }
        self.logs.push_back(le);
        proof {
            if before.len() == LOG_BACKLOG_CAP {
                assert(self@.logs =~= before.drop_first().push(lv));
            } else {
                assert(self@.logs =~= before.push(lv));
            }
        }
    }

    fn on_added(&mut self, slug: String, listing: Listing)
        ensures
            (final(self)@, true) == event_spec(old(self)@, EventView::AddDone(Ok(slug@)), listing@),
            final(self)@.logs == old(self)@.logs,
            final(self).update_interval_input@ == old(self).update_interval_input@,
    {
        self.add_dialog.busy = false;
        self.add_dialog.reset();
        let (warning, _) = self.refresh_listings(listing);
        self.settings.selected_config = Some(slug.clone());
        self.last_info = if warning.is_none() {
            Some(quote("Added", slug.as_str()))
        } else {
            None
        };
        self.last_error = warning;
    }

    fn on_edited(&mut self, slug: String, listing: Listing) -> (persist: bool)
        ensures
            (final(self)@, persist) == event_spec(
                old(self)@,
                EventView::EditDone(Ok(slug@)),
                listing@,
            ),
            final(self)@.logs == old(self)@.logs,
            final(self).update_interval_input@ == old(self).update_interval_input@,
    {
        self.add_dialog.busy = false;
        self.add_dialog.reset();
        let (warning, changed) = self.refresh_listings(listing);
        self.last_info = if warning.is_none() {
            Some(quote("Updated", slug.as_str()))
        } else {
            None
        };
        self.last_error = warning;
        changed
    }

    fn on_updated(&mut self, slug: String, listing: Listing) -> (persist: bool)
        ensures
            (final(self)@, persist) == event_spec(
                old(self)@,
                EventView::UpdateDone(Ok(slug@)),
                listing@,
            ),
            final(self)@.logs == old(self)@.logs,
            final(self).update_interval_input@ == old(self).update_interval_input@,
    {
        let (warning, changed) = self.refresh_listings(listing);
        self.last_info = if warning.is_none() {
            Some(quote("Updated", slug.as_str()))
        } else {
            None
        };
        self.last_error = warning;
        changed
    }

    fn on_deleted(&mut self, slug: String, listing: Listing) -> (persist: bool)
        ensures
            (final(self)@, persist) == event_spec(
                old(self)@,
                EventView::DeleteDone(Ok(slug@)),
                listing@,
            ),
            final(self)@.logs == old(self)@.logs,
            final(self).update_interval_input@ == old(self).update_interval_input@,
    {
        let was_selected = match &self.settings.selected_config {
            Some(s) => s.eq(&slug),
            None => false,
        };
        if was_selected {
            self.settings.selected_config = None;
        }
        let (warning, changed) = self.refresh_listings(listing);
        self.last_info = if warning.is_none() {
            Some(quote("Deleted", slug.as_str()))
        } else {
            None
        };
        self.last_error = warning;
        was_selected || changed
    }

    fn on_other(&mut self, ev: BgEvent) -> (persist: bool)
        requires
            !needs_listing_spec(event_view(ev)),
            !(ev is Log),
        ensures
            (final(self)@, persist) == event_spec(old(self)@, event_view(ev), no_listing()),
            final(self).update_interval_input@ == old(self).update_interval_input@,
    {
        match ev {
            BgEvent::AddDone(Err(e)) => {
                self.add_dialog.busy = false;
                self.last_error = Some(e);
                false
            },
            BgEvent::EditDone(Err(e)) => {
                self.add_dialog.busy = false;
                self.last_error = Some(e);
                false
            },
            BgEvent::UpdateDone(Err(e)) => {
                self.last_error = Some(e);
                false
            },
            BgEvent::DeleteDone(Err(e)) => {
                self.last_error = Some(e);
                false
            },
            BgEvent::SettingsSaved(Ok(())) => false,
            BgEvent::SettingsSaved(Err(e)) => {
                self.last_error = Some(prefixed("Failed to save settings: ", e.as_str()));
                false
            },
            BgEvent::LoopbackDone(Ok(())) => {
                self.loopback_busy = false;
                self.last_error = None;
                self.last_info = Some(owned("Launched AppContainer loopback utility"));
                false
            },
            BgEvent::LoopbackDone(Err(e)) => {
                self.loopback_busy = false;
                self.last_error = Some(prefixed("Loopback utility failed: ", e.as_str()));
                false
            },
            _ => false,
        }
    }

    /// Applies a finished background job. `listing` must be the listing
    /// read after the job when the job changed what is on disk (see
    /// [`needs_listing`]). Returns whether the settings must be saved.
    pub fn handle_event(&mut self, ev: BgEvent, listing: Option<Listing>) -> (persist: bool)
        requires
            app_wf(old(self)@),
            needs_listing_spec(event_view(ev)) ==> listing is Some,
        ensures
            app_wf(final(self)@),
            (final(self)@, persist) == event_spec(old(self)@, event_view(ev), listing_view(listing)),
            final(self).update_interval_input@ == old(self).update_interval_input@,
    {
        match ev {
            BgEvent::Log(le) => {
                self.on_log(le);
                false
            },
            BgEvent::AddDone(Ok(slug)) => {
                self.on_added(slug, listing.unwrap());
                true
            },
            BgEvent::EditDone(Ok(slug)) => self.on_edited(slug, listing.unwrap()),
            BgEvent::UpdateDone(Ok(slug)) => self.on_updated(slug, listing.unwrap()),
            BgEvent::DeleteDone(Ok(slug)) => self.on_deleted(slug, listing.unwrap()),
            other => self.on_other(other),
        }
    }

    /// The child exited unexpectedly: its report becomes the error banner.
    pub fn show_exit_error(&mut self, msg: String)
        ensures
            final(self)@ == (AppView { last_error: Some(msg@), last_info: None, ..old(self)@ }),
            final(self).update_interval_input@ == old(self).update_interval_input@,
    {
        self.last_error = Some(msg);
        self.last_info = None;
    }

    /// Whether a dialog is open over the page (the page then ignores the
    /// scroll wheel).
    pub fn modal_window_open(&self) -> (b: bool)
        ensures
            b == (self.add_dialog.open || self.delete_confirm is Some || self.destroy_confirm_open
                || self.about_open || self.core_version_open),
    {
        self.add_dialog.open || self.delete_confirm.is_some() || self.destroy_confirm_open
            || self.about_open || self.core_version_open
    }

    /// The dialog's confirm button: the dialog validates its fields and,
    /// when they are all valid, the error banner is cleared and the
    /// command for the worker is returned.
    pub fn submit_add_dialog(&mut self) -> (cmd: Option<BgCmd>)
        ensures
            final(self)@ == (AppView {
                dialog: submit_spec(old(self)@.dialog).1,
                last_error: if submit_spec(old(self)@.dialog).0 is Some {
                    None
                } else {
                    old(self)@.last_error
                },
                ..old(self)@
            }),
            match submit_spec(old(self)@.dialog).0 {
                Some(sv) => cmd matches Some(c) && cmd_submit_view(c) == Some(sv),
                None => cmd is None,
            },
            final(self).update_interval_input@ == old(self).update_interval_input@,
    {
        let cmd = self.add_dialog.submit();
        if cmd.is_some() {
            self.last_error = None;
        }
        cmd
    }

    /// The user pressed the loopback utility's button. Unless a request is
    /// already under way, it is marked busy, the error banner is cleared and
    /// the info banner says it is being prepared; returns whether the
    /// request must be sent to the background worker.
    pub fn request_loopback(&mut self) -> (send: bool)
        ensures
            send == !old(self)@.loopback_busy,
            send ==> final(self)@ == (AppView {
                loopback_busy: true,
                last_error: None,
                last_info: Some("Preparing "@ + DISPLAY_NAME@ + "\u{2026}"@),
                ..old(self)@
            }),
            !send ==> final(self)@ == old(self)@,
            final(self).update_interval_input@ == old(self).update_interval_input@,
    {
        if self.loopback_busy {
            return false;
        }
        self.loopback_busy = true;
        self.last_error = None;
        let mut info = owned("Preparing ");
        append_str(&mut info, DISPLAY_NAME);
        append_str(&mut info, "\u{2026}");
        self.last_info = Some(info);
        true
    }

    /// The user picked config `slug`. Returns whether the selection
    /// changed (and the settings must be saved).
    pub fn select_config(&mut self, slug: String) -> (changed: bool)
        ensures
            changed == (old(self)@.settings.selected_config != Some(slug@)),
            final(self)@ == (AppView {
                settings: SettingsView { selected_config: Some(slug@), ..old(self)@.settings },
                ..old(self)@
            }),
    {
        let same = match &self.settings.selected_config {
            Some(s) => s.eq(&slug),
            None => false,
        };
        self.settings.selected_config = Some(slug);
        !same
    }

    /// The user picked a core (or none). Returns whether the selection
    /// changed.
    pub fn select_core(&mut self, name: Option<String>) -> (changed: bool)
        ensures
            changed == (old(self)@.settings.selected_core != opt_view(name)),
            final(self)@ == (AppView {
                settings: SettingsView { selected_core: opt_view(name), ..old(self)@.settings },
                ..old(self)@
            }),
    {
        let same = match (&self.settings.selected_core, &name) {
            (Some(a), Some(b)) => a.eq(b),
            (None, None) => true,
            _ => false,
        };
        self.settings.selected_core = name;
        !same
    }

    /// The user typed in the update interval field. Returns whether the
    /// stored interval changed.
    pub fn update_interval_typed(&mut self, text: String) -> (changed: bool)
        ensures
            final(self).update_interval_input@ == text@,
            match interval_from_text(text@) {
                Some(h) => {
                    &&& changed == (old(self)@.settings.update_interval_hours != h)
                    &&& final(self)@ == (AppView {
                        settings: SettingsView {
                            update_interval_hours: h,
                            ..old(self)@.settings
                        },
                        ..old(self)@
                    })
                },
                None => !changed && final(self)@ == old(self)@,
            },
    {
        let parsed = interval_from_input(text.as_str());
        self.update_interval_input = text;
        match parsed {
            Some(h) => {
                let changed = self.settings.update_interval_hours != h;
                self.settings.update_interval_hours = h;
                changed
            },
            None => false,
        }
    }

    /// The interval field lost focus: it shows the stored value again.
    pub fn interval_field_left(&mut self)
        ensures
            final(self)@ == old(self)@,
            final(self).update_interval_input@ == interval_text(
                old(self)@.settings.update_interval_hours,
            ),
    {
        self.update_interval_input = interval_input_text(self.settings.update_interval_hours);
    }
}

// ----- laws of the application state ----------------------------------------------

/// Law: after pruning, the selected config and core name listed items
/// (or nothing).
pub proof fn law_prune_leaves_valid_selection(a: AppView)
    ensures
        selection_valid(prune_spec(a).0),
        prune_spec(a).0.configs == a.configs,
        prune_spec(a).0.cores == a.cores,
{
}

/// Law: a valid selection survives pruning untouched, and nothing needs
/// saving.
pub proof fn law_prune_keeps_valid_selection(a: AppView)
    requires
        selection_valid(a),
    ensures
        prune_spec(a) == (a, false),
{
    assert(prune_spec(a).0.settings =~= a.settings);
    assert(prune_spec(a).0 =~= a);
}

/// Law: every refresh leaves a valid selection, whatever was on disk.
pub proof fn law_refresh_leaves_valid_selection(a: AppView, l: ListingView)
    ensures
        selection_valid(refresh_spec(a, l).0),
        refresh_spec(a, l).0.configs == l.configs,
        refresh_spec(a, l).0.cores == l.cores,
{
}

/// Law: the log backlog never grows past its cap, and a new line is
/// always the last one kept.
pub proof fn law_log_backlog_bounded(a: AppView, line: (Seq<char>, Seq<char>), l: ListingView)
    requires
        app_wf(a),
    ensures
        app_wf(event_spec(a, EventView::Log(line), l).0),
        event_spec(a, EventView::Log(line), l).0.logs.last() == line,
        !event_spec(a, EventView::Log(line), l).1,
{
}

/// The state after the log lines `ls` arrive one by one, in order.
pub open spec fn after_log_lines(a: AppView, ls: Seq<(Seq<char>, Seq<char>)>) -> AppView
    decreases ls.len(),
{
    if ls.len() == 0 {
        a
    } else {
        event_spec(after_log_lines(a, ls.drop_last()), EventView::Log(ls.last()), no_listing()).0
    }
}

/// How many of `n` lines the backlog drops from the front to stay within
/// its cap.
pub open spec fn evicted(n: int) -> int {
    if n > LOG_BACKLOG_CAP as int {
        n - LOG_BACKLOG_CAP as int
    } else {
        0
    }
}

/// Law: after any run of log lines, the backlog holds the last
/// [`LOG_BACKLOG_CAP`] lines of the old backlog followed by the new lines,
/// oldest first, and nothing else in the state has changed.
pub proof fn law_log_lines_keep_the_newest(a: AppView, ls: Seq<(Seq<char>, Seq<char>)>)
    requires
        app_wf(a),
    ensures
        after_log_lines(a, ls) == (AppView {
            logs: (a.logs + ls).skip(evicted((a.logs + ls).len() as int)),
            ..a
        }),
        app_wf(after_log_lines(a, ls)),
    decreases ls.len(),
{
    let all = a.logs + ls;
    if ls.len() == 0 {
        assert(all =~= a.logs);
        assert(all.skip(0) =~= a.logs);
    } else {
        let init = ls.drop_last();
        law_log_lines_keep_the_newest(a, init);
        let prev = a.logs + init;
        let b = after_log_lines(a, init);
        assert(all =~= prev.push(ls.last()));
        let k = evicted(prev.len() as int);
        if b.logs.len() == LOG_BACKLOG_CAP {
            assert(prev.len() >= LOG_BACKLOG_CAP);
            assert(b.logs.drop_first().push(ls.last()) =~= all.skip(k + 1));
        } else {
            assert(k == 0);
            assert(b.logs.push(ls.last()) =~= all.skip(0));
        }
    }
}

/// Law: an added config becomes the selection, the dialog closes and the
/// settings are saved.
pub proof fn law_added_config_selected(a: AppView, slug: Seq<char>, l: ListingView)
    ensures
        ({
            let (b, persist) = event_spec(a, EventView::AddDone(Ok(slug)), l);
            &&& b.settings.selected_config == Some(slug)
            &&& b.dialog == fresh_dialog()
            &&& persist
        }),
{
}

/// Law: after a config is deleted, it is no longer the selection.
pub proof fn law_deleted_config_unselected(a: AppView, slug: Seq<char>, l: ListingView)
    ensures
        event_spec(a, EventView::DeleteDone(Ok(slug)), l).0.settings.selected_config != Some(
            slug,
        ),
{
}

/// Law: after a successful job that re-reads the listings, exactly one of
/// the two banners is shown: the listing warning, or the success message.
pub proof fn law_one_banner_after_success(a: AppView, ev: EventView, l: ListingView)
    requires
        needs_listing_spec(ev),
    ensures
        event_spec(a, ev, l).0.last_error is Some <==> event_spec(a, ev, l).0.last_info is None,
{
}

/// Law: a failed job leaves the selection and listings as they were and
/// shows its error.
pub proof fn law_failure_keeps_state(a: AppView, e: Seq<char>, l: ListingView)
    ensures
        ({
            let evs = seq![
                EventView::AddDone(Err(e)),
                EventView::EditDone(Err(e)),
                EventView::UpdateDone(Err(e)),
                EventView::DeleteDone(Err(e)),
            ];
            forall|i: int|
                0 <= i < 4 ==> {
                    let (b, persist) = #[trigger] event_spec(a, evs[i], l);
                    &&& b.settings == a.settings
                    &&& b.configs == a.configs
                    &&& b.last_error == Some(e)
                    &&& !persist
                }
        }),
{
    let evs = seq![
        EventView::AddDone(Err(e)),
        EventView::EditDone(Err(e)),
        EventView::UpdateDone(Err(e)),
        EventView::DeleteDone(Err(e)),
    ];
    assert(evs[0] == EventView::AddDone(Err(e)));
    assert(evs[1] == EventView::EditDone(Err(e)));
    assert(evs[2] == EventView::UpdateDone(Err(e)));
    assert(evs[3] == EventView::DeleteDone(Err(e)));
}

/// Law: opening a config for editing and confirming without changes sends
/// the config's own name and source back, and that edit fetches nothing
/// and rewrites the same metadata (when the stored name and path or URL
/// carry no surrounding white space, as the dialog stores them).
pub proof fn law_unchanged_edit_keeps_entry(e: EntryView)
    requires
        trim(e.metadata.name) == e.metadata.name,
        e.metadata.name.len() > 0,
        trim(source_path(e.metadata.source)) == source_path(e.metadata.source),
        source_path(e.metadata.source).len() > 0,
    ensures
        submit_spec(edit_dialog(e)).0 == Some(
            SubmitView::Edit(e.slug, e.metadata.name, e.metadata.source),
        ),
        edit_start_spec(e, e.metadata.name, e.metadata.source).1 == IoView::SaveMetadata(
            crate::entry::join_spec(e.folder, crate::entry::METADATA_FILENAME@),
            e.metadata,
        ),
{
    assert(MetadataView { name: trim(e.metadata.name), ..e.metadata } == e.metadata);
}

// ----- starting the core -------------------------------------------------------------

/// What to run: the core, the selected config, and where the runtime copy
/// of the config goes.
pub struct StartPlan {
    pub core_exe: String,
    pub config_file: String,
    pub runtime_config: String,
}

impl AppState {
    /// Resolves what a start needs, or the message shown when no core or
    /// no (listed) config is selected.
    pub fn start_plan(&self, paths: &Paths) -> (r: Result<StartPlan, String>)
        ensures
            match self@.settings.selected_core {
                None => r matches Err(e) && e@ == "No sing-box core selected"@,
                Some(core) => match self@.settings.selected_config {
                    Some(slug) if config_listed(self@.configs, slug) => r matches Ok(p) && {
                        &&& p.core_exe@ == crate::entry::join_spec(paths.core_dir@, core)
                        &&& p.runtime_config@ == crate::entry::join_spec(
                            paths.working_dir@,
                            "config.json"@,
                        )
                        &&& exists|i: int|
                            0 <= i < self@.configs.len() && #[trigger] self@.configs[i].slug
                                == slug && p.config_file@ == crate::entry::join_spec(
                                self@.configs[i].folder,
                                crate::entry::CONFIG_FILENAME@,
                            )
                    },
                    _ => r matches Err(e) && e@ == "No config selected"@,
                },
            },
    {
        let core = match &self.settings.selected_core {
            Some(c) => c,
            None => {
                return Err(owned("No sing-box core selected"));
            },
        };
        let idx = match self.selected_entry() {
            Some(i) => i,
            None => {
                return Err(owned("No config selected"));
            },
        };
        let entry = &self.configs[idx];
        let config_file = entry.config_file();
        assert(entries(self.configs@)[idx as int] == self.configs@[idx as int]@);
        Ok(
            StartPlan {
                core_exe: paths.core_path(core.as_str()),
                config_file,
                runtime_config: paths.runtime_config_file(),
            },
        )
    }

    /// Records how a start went: success clears both banners, a failure
    /// becomes the error banner.
    pub fn record_start(&mut self, result: Result<(), String>)
        ensures
            match result {
                Ok(()) => final(self)@ == (AppView {
                    last_error: None,
                    last_info: None,
                    ..old(self)@
                }),
                Err(e) => final(self)@ == (AppView { last_error: Some(e@), ..old(self)@ }),
            },
            final(self).update_interval_input@ == old(self).update_interval_input@,
    {
        match result {
            Ok(()) => {
                self.last_error = None;
                self.last_info = None;
            },
            Err(e) => {
                self.last_error = Some(e);
            },
        }
    }
}

/// The error when the runtime config's folder cannot be created.
pub fn runtime_dir_error(dir: &str) -> (r: String)
    ensures
        r@ == "failed to create runtime config directory "@ + dir@,
{
    prefixed("failed to create runtime config directory ", dir)
}

/// The error when the selected config cannot be copied to the runtime
/// location.
pub fn copy_config_error(source: &str, runtime: &str) -> (r: String)
    ensures
        r@ == "failed to copy config "@ + source@ + " to "@ + runtime@,
{
    let mut s = prefixed("failed to copy config ", source);
    append_str(&mut s, " to ");
    append_str(&mut s, runtime);
    s
}

// ----- the config card ------------------------------------------------------------------

/// The selected config's main action: a remote config is updated from its
/// URL, a local one replaced by another file.
pub fn primary_action_label(source: &Source) -> (r: &'static str)
    ensures
        r@ == (if source@ is Remote {
            "Update"@
        } else {
            "Replace"@
        }),
{
    if source.is_remote() {
        "Update"
    } else {
        "Replace"
    }
}

/// When the config was last fetched, or `(never)`.
pub fn last_updated_label(entry: &ConfigEntry) -> (r: String)
    ensures
        r@ == (match entry@.metadata.last_updated {
            Some(t) => t,
            None => "(never)"@,
        }),
{
    match &entry.metadata.last_updated {
        Some(t) => t.clone(),
        None => owned("(never)"),
    }
}

/// Replacing a local config by the file at `path`: an edit that keeps the
/// name and folder and records the new path, so the file is copied again
/// and the time of the update recorded.
pub fn replace_command(entry: &ConfigEntry, path: String) -> (r: BgCmd)
    ensures
        cmd_submit_view(r) == Some(
            SubmitView::Edit(entry@.slug, entry@.metadata.name, SourceView::Local(path@)),
        ),
{
    BgCmd::EditConfig {
        slug: entry.slug.clone(),
        spec: NewConfigSpec { name: entry.metadata.name.clone(), source: Source::Local { path } },
    }
}

/// The file name offered when saving a copy of the config.
pub fn save_as_default_name(name: &str) -> (r: String)
    ensures
        r@ == name@ + ".json"@,
{
    prefixed(name, ".json")
}

/// The title of the confirmation before the working folder is emptied;
/// while the core runs, the user is asked to stop it first instead.
pub fn destroy_prompt_title(running: bool) -> (r: &'static str)
    ensures
        r@ == (if running {
            "Stop sing-box first"@
        } else {
            "Destroy working directory"@
        }),
{
    if running {
        "Stop sing-box first"
    } else {
        "Destroy working directory"
    }
}

impl AppState {
    /// The config awaiting delete confirmation, kept only while it is
    /// still listed.
    pub fn delete_target(&mut self) -> (r: Option<String>)
        ensures
            match old(self)@.delete_confirm {
                Some(s) => if config_listed(old(self)@.configs, s) {
                    r matches Some(x) && x@ == s && final(self)@ == old(self)@
                } else {
                    r is None && final(self)@ == (AppView { delete_confirm: None, ..old(self)@ })
                },
                None => r is None && final(self)@ == old(self)@,
            },
            final(self).update_interval_input@ == old(self).update_interval_input@,
    {
        let slug = match &self.delete_confirm {
            Some(s) => s.clone(),
            None => {
                return None;
            },
        };
        let mut i: usize = 0;
        while i < self.configs.len()
            invariant
                i <= self.configs@.len(),
                *self == *old(self),
                old(self).delete_confirm matches Some(s) && s@ == slug@,
                forall|j: int| 0 <= j < i ==> (#[trigger] entries(self.configs@)[j]).slug != slug@,
            decreases self.configs@.len() - i,
        {
            assert(entries(self.configs@)[i as int] == self.configs@[i as int]@);
            if self.configs[i].slug.eq(&slug) {
                assert(entries(self.configs@)[i as int].slug == slug@);
                assert(config_listed(entries(self.configs@), slug@));
                return Some(slug);
            }
            i = i + 1;
        }
        self.delete_confirm = None;
        None
    }

    /// Records how emptying the working folder went.
    pub fn record_purge(&mut self, result: Result<(), String>)
        ensures
            match result {
                Ok(()) => final(self)@ == (AppView {
                    last_info: Some("Working directory cleared"@),
                    last_error: None,
                    ..old(self)@
                }),
                Err(e) => final(self)@ == (AppView { last_error: Some(e@), ..old(self)@ }),
            },
            final(self).update_interval_input@ == old(self).update_interval_input@,
    {
        match result {
            Ok(()) => {
                self.last_info = Some(owned("Working directory cleared"));
                self.last_error = None;
            },
            Err(e) => {
                self.last_error = Some(e);
            },
        }
    }

    /// Records how saving a copy of the config to `dest` went.
    pub fn record_save_as(&mut self, dest: &str, result: Result<(), String>)
        ensures
            match result {
                Ok(()) => final(self)@ == (AppView {
                    last_error: None,
                    last_info: Some("Saved to "@ + dest@),
                    ..old(self)@
                }),
                Err(e) => final(self)@ == (AppView {
                    last_error: Some("Save As failed: "@ + e@),
                    ..old(self)@
                }),
            },
            final(self).update_interval_input@ == old(self).update_interval_input@,
    {
        match result {
            Ok(()) => {
                self.last_error = None;
                self.last_info = Some(prefixed("Saved to ", dest));
            },
            Err(e) => {
                self.last_error = Some(prefixed("Save As failed: ", e.as_str()));
            },
        }
    }
}

// ----- administrator mode ---------------------------------------------------------------

/// What flipping the session's administrator mode does.
#[derive(Clone, Copy, Debug, PartialEq, Eq, Structural)]
pub enum AdminSwitch {
    /// Stop the core and relaunch elevated (the UAC prompt appears).
    Elevate,
    /// Stop the core and relaunch as a standard user; when persistent
    /// administrator mode is on it is switched off (and saved) first, so
    /// the new instance is not promoted again at once.
    DropElevation { clear_always_admin: bool },
}

/// The switch turned `on` (relaunch elevated) or off.
pub fn admin_switch(on: bool, always_admin: bool) -> (r: AdminSwitch)
    ensures
        on ==> r == AdminSwitch::Elevate,
        !on ==> r == (AdminSwitch::DropElevation { clear_always_admin: always_admin }),
{
    if on {
        AdminSwitch::Elevate
    } else {
        AdminSwitch::DropElevation { clear_always_admin: always_admin }
    }
}

/// The error when relaunching elevated failed: the user declining the UAC
/// prompt gets advice, anything else the system's message.
pub fn elevate_error(cancelled: bool, detail: &str) -> (r: String)
    ensures
        cancelled ==> r@
            == "Elevation cancelled. Click Yes on the UAC prompt to enable Administrator Mode."@,
        !cancelled ==> r@ == "Restart as admin failed: "@ + detail@,
{
    if cancelled {
        owned("Elevation cancelled. Click Yes on the UAC prompt to enable Administrator Mode.")
    } else {
        prefixed("Restart as admin failed: ", detail)
    }
}

/// The error when relaunching as a standard user failed.
pub fn drop_elevation_error(detail: &str) -> (r: String)
    ensures
        r@ == "Restart as standard user failed: "@ + detail@,
{
    prefixed("Restart as standard user failed: ", detail)
}

/// The info banner after persistent administrator mode changed.
pub open spec fn persistent_admin_info(on: bool) -> Seq<char> {
    if on {
        "Persistent admin enabled. Future launches will start as Administrator with no UAC prompt."@
    } else {
        "Persistent admin disabled. Future launches will run as standard user."@
    }
}

impl AppState {
    /// The user set persistent administrator mode to `on`. When that is a
    /// change, the setting is stored and the info banner says what it
    /// means; returns whether it changed (and the settings must be saved).
    pub fn set_always_admin(&mut self, on: bool) -> (changed: bool)
        ensures
            changed == (old(self)@.settings.always_admin != on),
            changed ==> final(self)@ == (AppView {
                settings: SettingsView { always_admin: on, ..old(self)@.settings },
                last_info: Some(persistent_admin_info(on)),
                ..old(self)@
            }),
            !changed ==> final(self)@ == old(self)@,
            final(self).update_interval_input@ == old(self).update_interval_input@,
    {
        if self.settings.always_admin == on {
            return false;
        }
        self.settings.always_admin = on;
        self.last_info = Some(
            if on {
                owned(
                    "Persistent admin enabled. Future launches will start as Administrator with no UAC prompt.",
                )
            } else {
                owned("Persistent admin disabled. Future launches will run as standard user.")
            },
        );
        true
    }
}

// ----- the tray and the window -------------------------------------------------------

/// What to do about the tray icon.
#[derive(Clone, Copy, Debug, PartialEq, Eq, Structural)]
pub enum TrayAction {
    /// Create the icon.
    Spawn,
    /// Remove the icon.
    Remove,
    /// Leave it as it is.
    Keep,
}

/// The tray icon is wanted while the close button hides to the tray or
/// the launcher starts hidden.
pub open spec fn tray_wanted(close_to_tray: bool, silent_start: bool) -> bool {
    close_to_tray || silent_start
}

/// Brings the tray icon in line with the settings.
pub fn tray_action(close_to_tray: bool, silent_start: bool, has_tray: bool) -> (r: TrayAction)
    ensures
        r == (if tray_wanted(close_to_tray, silent_start) && !has_tray {
            TrayAction::Spawn
        } else if !tray_wanted(close_to_tray, silent_start) && has_tray {
            TrayAction::Remove
        } else {
            TrayAction::Keep
        }),
{
    let want = close_to_tray || silent_start;
    if want && !has_tray {
        TrayAction::Spawn
    } else if !want && has_tray {
        TrayAction::Remove
    } else {
        TrayAction::Keep
    }
}

/// The tray after an action, given whether creating it worked.
pub open spec fn tray_after(has_tray: bool, action: TrayAction, spawned: bool) -> bool {
    match action {
        TrayAction::Spawn => spawned,
        TrayAction::Remove => false,
        TrayAction::Keep => has_tray,
    }
}

/// Law: after the action the tray icon exists exactly when it is wanted
/// (unless creating it failed, which is reported).
pub proof fn law_tray_follows_settings(close_to_tray: bool, silent_start: bool, has_tray: bool)
    ensures
        ({
            let a = if tray_wanted(close_to_tray, silent_start) && !has_tray {
                TrayAction::Spawn
            } else if !tray_wanted(close_to_tray, silent_start) && has_tray {
                TrayAction::Remove
            } else {
                TrayAction::Keep
            };
            tray_after(has_tray, a, true) == tray_wanted(close_to_tray, silent_start)
        }),
{
}

/// Message shown when the tray icon cannot be created.
pub const TRAY_FAILED: &'static str = "Failed to create system tray icon.";

/// Whether a close request hides the window to the tray instead of
/// closing: only when the user asked for it and the tray icon exists.
pub fn close_hides_to_tray(close_requested: bool, close_to_tray: bool, has_tray: bool) -> (b:
    bool)
    ensures
        b == (close_requested && close_to_tray && has_tray),
{
    close_requested && close_to_tray && has_tray
}

/// What to do on a frame for a pending "start hidden".
#[derive(Clone, Copy, Debug, PartialEq, Eq, Structural)]
pub enum InitialHide {
    /// Not yet: nothing pending, or the window handle is still unknown.
    Wait,
    /// Hide the window; the tray brings it back.
    HideToTray,
    /// No tray to come back from: show the window after all.
    Show,
}

/// Decides the one-time hide at startup once the window handle is known.
pub fn initial_hide(pending: bool, hwnd_known: bool, has_tray: bool) -> (r: InitialHide)
    ensures
        r == (if !pending || !hwnd_known {
            InitialHide::Wait
        } else if has_tray {
            InitialHide::HideToTray
        } else {
            InitialHide::Show
        }),
{
    if !pending || !hwnd_known {
        InitialHide::Wait
    } else if has_tray {
        InitialHide::HideToTray
    } else {
        InitialHide::Show
    }
}

/// Whether the main window counts as shown: as the system reports it once
/// its handle is known, and shown before that (so the first frame is
/// always drawn).
pub fn main_window_visible(hwnd_known: bool, system_says_visible: bool) -> (b: bool)
    ensures
        b == (!hwnd_known || system_says_visible),
{
    !hwnd_known || system_says_visible
}

/// Whether the run card schedules its once-a-second redraw for the uptime:
/// only while the core runs and the window is shown, so nothing is drawn
/// while the launcher sits in the tray.
pub fn uptime_ticks(running: bool, window_visible: bool) -> (b: bool)
    ensures
        b == (running && window_visible),
{
    running && window_visible
}

/// At startup, a standard-user instance hands over to the elevated task
/// (and exits if that worked) when administrator mode is on and the task
/// is registered.
pub fn hand_off_to_admin_task(
    paths_resolved: bool,
    always_admin: bool,
    elevated: bool,
    task_exists: bool,
) -> (b: bool)
    ensures
        b == (paths_resolved && always_admin && !elevated && task_exists),
{
    paths_resolved && always_admin && !elevated && task_exists
}

// ----- background jobs -------------------------------------------------------------

/// The error for a config folder that cannot be loaded.
pub fn not_found(slug: &str) -> (r: String)
    ensures
        r@ == "config '"@ + slug@ + "' not found"@,
{
    let mut s = String::new();
    append_str(&mut s, "config '");
    append_str(&mut s, slug);
    append_str(&mut s, "' not found");
    s
}

/// The entry a job works on, or the uniform "not found" error.
pub fn lookup_entry(found: Option<ConfigEntry>, slug: &str) -> (r: Result<ConfigEntry, String>)
    ensures
        match found {
            Some(e) => r matches Ok(x) && x@ == e@,
            None => r matches Err(m) && m@ == "config '"@ + slug@ + "' not found"@,
        },
{
    match found {
        Some(e) => Ok(e),
        None => Err(not_found(slug)),
    }
}

/// Re-fetching config `slug`: the loaded entry (`found`) or the uniform
/// "not found" error; then the job and its first operation.
pub fn run_update_one(found: Option<ConfigEntry>, slug: &str) -> (r: Result<(Job, Io), String>)
    ensures
        match found {
            Some(e) => r matches Ok((j, io)) && (j@, io@) == fetch_start(job_for(JobKind::Refresh, e@)),
            None => r matches Err(m) && m@ == "config '"@ + slug@ + "' not found"@,
        },
{
    let entry = lookup_entry(found, slug)?;
    Ok(refresh_entry(&entry))
}

/// Editing config `slug` as `spec` says, once it is found.
pub fn run_edit(found: Option<ConfigEntry>, slug: &str, spec: &NewConfigSpec) -> (r: Result<
    (Job, Io),
    String,
>)
    ensures
        match found {
            Some(e) => r matches Ok((j, io)) && (j@, io@) == edit_start_spec(
                e@,
                spec.name@,
                spec.source@,
            ),
            None => r matches Err(m) && m@ == "config '"@ + slug@ + "' not found"@,
        },
{
    let entry = lookup_entry(found, slug)?;
    Ok(edit_entry(&entry, spec.name.as_str(), &spec.source))
}

/// Deleting config `slug`, once it is found.
pub fn run_delete(found: Option<ConfigEntry>, slug: &str) -> (r: Result<(Job, Io), String>)
    ensures
        match found {
            Some(e) => r matches Ok((j, io)) && (j@, io@) == (
                moved(job_for(JobKind::Delete, e@), JobStage::CheckingFolder),
                IoView::Exists(e@.folder),
            ),
            None => r matches Err(m) && m@ == "config '"@ + slug@ + "' not found"@,
        },
{
    let entry = lookup_entry(found, slug)?;
    Ok(delete_entry(&entry))
}

// ----- automatic updates -------------------------------------------------------------

/// Time after a failed automatic update before the same config is tried
/// again, in seconds.
pub const AUTO_UPDATE_FAILURE_RETRY_SECS: u64 = 600;

/// The config to update automatically and the interval in seconds: the
/// selected config while auto-update is on; the interval is at least one
/// hour.
pub open spec fn auto_update_target_spec(s: SettingsView) -> Option<(Seq<char>, u64)> {
    if s.auto_update {
        match s.selected_config {
            Some(slug) => Some(
                (
                    slug,
                    if s.update_interval_hours < 1 {
                        3600u64
                    } else if s.update_interval_hours * 3600 > u64::MAX {
                        u64::MAX
                    } else {
                        (s.update_interval_hours * 3600) as u64
                    },
                ),
            ),
            None => None,
        }
    } else {
        None
    }
}

/// Which config the worker checks on its timer, and how often.
pub fn auto_update_target(settings: &Settings) -> (r: Option<(String, u64)>)
    ensures
        match auto_update_target_spec(settings@) {
            Some((slug, secs)) => r matches Some(x) && x.0@ == slug && x.1 == secs,
            None => r is None,
        },
{
    if !settings.auto_update {
        return None;
    }
    match &settings.selected_config {
        Some(slug) => {
            let hours = if settings.update_interval_hours < 1 {
                1
            } else {
                settings.update_interval_hours
            };
            let secs = if hours > u64::MAX / 3600 {
                u64::MAX
            } else {
                hours * 3600
            };
            Some((slug.clone(), secs))
        },
        None => None,
    }
}

/// Whether a config last updated at `last` (seconds) is due at `now`: a
/// stamp in the future counts as due, like one older than `interval`.
pub open spec fn update_due_spec(last: int, now: int, interval: u64) -> bool {
    last > now || now - last >= interval
}

/// Compares the stamp with the clock.
pub fn update_due(last: i64, now: i64, interval: u64) -> (b: bool)
    ensures
        b == update_due_spec(last as int, now as int, interval),
{
    if last > now {
        return true;
    }
    let elapsed: i128 = (now as i128) - (last as i128);
    elapsed >= interval as i128
}

/// Whether `entry` is due at time `now`: a missing or unreadable stamp
/// counts as due.
pub open spec fn should_update_at_spec(last_updated: Option<Seq<char>>, now: int, interval: u64) -> bool {
    match last_updated {
        None => true,
        Some(raw) => match crate::clock::parsed_local_seconds(raw) {
            None => true,
            Some(t) => update_due_spec(t, now, interval),
        },
    }
}

/// Whether the entry's recorded `last_updated` is older than the interval
/// at time `now`.
pub fn should_auto_update_at(entry: &ConfigEntry, interval: u64, now: i64) -> (b: bool)
    ensures
        b == should_update_at_spec(entry@.metadata.last_updated, now as int, interval),
{
    let raw = match &entry.metadata.last_updated {
        Some(r) => r,
        None => {
            return true;
        },
    };
    match crate::clock::parse_local_stamp(raw.as_str()) {
        Some(last) => update_due(last, now, interval),
        None => true,
    }
}

/// Whether the entry is due now, going by its persisted `last_updated`
/// and the local clock.
pub fn should_auto_update(entry: &ConfigEntry, interval: u64) -> (b: bool)
    ensures
        exists|now: i64|
            b == #[trigger] should_update_at_spec(entry@.metadata.last_updated, now as int, interval),
{
    let now = crate::clock::local_now().seconds;
    should_auto_update_at(entry, interval, now)
}

/// The last automatic attempt (config and seconds since) does not block
/// `slug`: it was another config, or ten minutes have passed.
pub open spec fn can_attempt_spec(last_attempt: Option<(Seq<char>, u64)>, slug: Seq<char>) -> bool {
    match last_attempt {
        Some((s, elapsed)) => s != slug || elapsed >= AUTO_UPDATE_FAILURE_RETRY_SECS,
        None => true,
    }
}

/// The last attempt as text and seconds.
pub open spec fn attempt_view(last_attempt: Option<(String, u64)>) -> Option<(Seq<char>, u64)> {
    match last_attempt {
        Some(x) => Some((x.0@, x.1)),
        None => None,
    }
}

/// Backs off after an automatic attempt on the same config.
pub fn can_attempt_auto_update(last_attempt: &Option<(String, u64)>, slug: &str) -> (b: bool)
    ensures
        b == can_attempt_spec(attempt_view(*last_attempt), slug@),
{
    match last_attempt {
        Some((s, elapsed)) => {
            if s.eq(&owned(slug)) {
                *elapsed >= AUTO_UPDATE_FAILURE_RETRY_SECS
            } else {
                true
            }
        },
        None => true,
    }
}

/// Whether the worker updates `entry` now: only a remote config, when due
/// at `now`, and not blocked by a recent attempt.
pub open spec fn auto_update_now_spec(
    e: EntryView,
    interval: u64,
    now: int,
    last_attempt: Option<(Seq<char>, u64)>,
    slug: Seq<char>,
) -> bool {
    &&& e.metadata.source is Remote
    &&& should_update_at_spec(e.metadata.last_updated, now, interval)
    &&& can_attempt_spec(last_attempt, slug)
}

/// The worker's decision for the selected config on a timer tick.
pub fn auto_update_now(
    entry: &ConfigEntry,
    interval: u64,
    last_attempt: &Option<(String, u64)>,
    slug: &str,
) -> (b: bool)
    ensures
        exists|now: i64|
            b == #[trigger] auto_update_now_spec(
                entry@,
                interval,
                now as int,
                attempt_view(*last_attempt),
                slug@,
            ),
{
    let now = crate::clock::local_now().seconds;
    let b = entry.metadata.source.is_remote() && should_auto_update_at(entry, interval, now)
        && can_attempt_auto_update(last_attempt, slug);
    assert(b == auto_update_now_spec(
        entry@,
        interval,
        now as int,
        attempt_view(*last_attempt),
        slug@,
    ));
    b
}

/// Law: only remote configs are updated automatically, never more than
/// once per ten minutes for the same config, and a missing or unreadable
/// stamp makes the config due.
pub proof fn law_auto_update(
    e: EntryView,
    interval: u64,
    now: int,
    last_attempt: Option<(Seq<char>, u64)>,
    slug: Seq<char>,
)
    ensures
        auto_update_now_spec(e, interval, now, last_attempt, slug) ==> e.metadata.source is Remote,
        last_attempt matches Some((s, elapsed)) && s == slug && elapsed < 600 ==> !auto_update_now_spec(
            e,
            interval,
            now,
            last_attempt,
            slug,
        ),
        e.metadata.last_updated is None ==> should_update_at_spec(
            e.metadata.last_updated,
            now,
            interval,
        ),
{
}

/// Law: the automatic-update interval is never shorter than an hour.
pub proof fn law_interval_at_least_an_hour(s: SettingsView)
    ensures
        auto_update_target_spec(s) matches Some((_, secs)) ==> secs >= 3600,
{
}

} // verus!
