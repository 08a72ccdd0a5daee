//! Text the window derives from settings and from the selected config:
//! the uptime, the Clash web UI address, the log level, and the inputs of
//! the runtime override settings.
use vstd::prelude::*;

use crate::entry::opt_view;
use crate::paths::string_views;
use crate::settings::InboundOverrideKind;
use crate::theme::FabIcon;
use crate::text::{
    append_str, decimal2, is_blank, occurs_at, parse_u64_max, parse_unsigned_max, replace_seq,
    str_replace, str_starts_with, str_trim, str_trim_end_char, trim, trim_end_char,
    u64_to_string2,
};

verus! {

/// `HH:MM:SS` for a duration in seconds; hours grow past two digits.
pub open spec fn duration_text(secs: u64) -> Seq<char> {
    decimal2((secs / 3600) as nat) + ":"@ + decimal2(((secs % 3600) / 60) as nat) + ":"@
        + decimal2((secs % 60) as nat)
}

/// Formats the running time of the core.
pub fn format_duration(secs: u64) -> (r: String)
    ensures
        r@ == duration_text(secs),
{
    let hours = secs / 3600;
    let minutes = (secs % 3600) / 60;
    let seconds = secs % 60;
    let mut s = u64_to_string2(hours);
    append_str(&mut s, ":");
    let m = u64_to_string2(minutes);
    append_str(&mut s, m.as_str());
    append_str(&mut s, ":");
    let sec = u64_to_string2(seconds);
    append_str(&mut s, sec.as_str());
    s
}

/// The Clash dashboard address for an `external_controller` value: any
/// `0.0.0.0` becomes `127.0.0.1`, `http://` is added when no scheme is
/// given, and `/ui/` follows after trailing slashes are dropped.
pub open spec fn webui_url_spec(controller: Seq<char>) -> Seq<char> {
    let c = replace_seq(trim(controller), "0.0.0.0"@, "127.0.0.1"@);
    let with_scheme = if occurs_at(c, "http://"@, 0) || occurs_at(c, "https://"@, 0) {
        c
    } else {
        "http://"@ + c
    };
    trim_end_char(with_scheme, '/') + "/ui/"@
}

/// Address of the Clash web UI served by `sing-box`.
pub fn clash_webui_url(controller: &str) -> (r: String)
    ensures
        r@ == webui_url_spec(controller@),
{
    proof {
        reveal_strlit("0.0.0.0");
    }
    let t = str_trim(controller);
    let c = str_replace(t.as_str(), "0.0.0.0", "127.0.0.1");
    let with_scheme = if str_starts_with(c.as_str(), "http://") || str_starts_with(
        c.as_str(),
        "https://",
    ) {
        c
    } else {
        let mut s = String::new();
        append_str(&mut s, "http://");
        append_str(&mut s, c.as_str());
        s
    };
    let mut r = str_trim_end_char(with_scheme.as_str(), '/');
    append_str(&mut r, "/ui/");
    r
}

/// Replacing a pattern leaves a leading text alone when none of its
/// characters is the pattern's first.
proof fn lemma_replace_keeps_prefix(p: Seq<char>, s: Seq<char>, pat: Seq<char>, r: Seq<char>)
    requires
        pat.len() > 0,
        forall|k: int| 0 <= k < p.len() ==> p[k] != pat[0],
    ensures
        replace_seq(p + s, pat, r) == p + replace_seq(s, pat, r),
    decreases p.len(),
{
    if p.len() > 0 {
        let ps = p + s;
        if ps.len() >= pat.len() {
            assert(ps.take(pat.len() as int)[0] == p[0]);
            assert(ps.take(pat.len() as int) != pat);
        }
        lemma_replace_keeps_prefix(p.drop_first(), s, pat, r);
        assert(ps.drop_first() =~= p.drop_first() + s);
        if ps.len() < pat.len() {
            assert(replace_seq(s, pat, r) == s);
            assert(replace_seq(p.drop_first() + s, pat, r) == p.drop_first() + s);
        }
        assert(seq![p[0]] + (p.drop_first() + replace_seq(s, pat, r)) =~= p + replace_seq(s, pat, r));
    } else {
        assert(p + s =~= s);
    }
}

/// Law: a controller that already names its scheme (`http://` or
/// `https://`, after trimming) keeps it as it is: the link is the trimmed
/// controller, with `0.0.0.0` read as `127.0.0.1` and trailing slashes
/// dropped, followed by `/ui/`; one that starts with neither a scheme nor
/// an address to rewrite (its first character is neither `h` nor `0`)
/// gets `http://` in front.
pub proof fn law_webui_keeps_scheme(controller: Seq<char>)
    ensures
        ({
            let t = trim(controller);
            let c = replace_seq(t, "0.0.0.0"@, "127.0.0.1"@);
            &&& (t.len() >= 7 && t.take(7) == "http://"@) || (t.len() >= 8 && t.take(8) == "https://"@)
                ==> webui_url_spec(controller) == trim_end_char(c, '/') + "/ui/"@
            &&& t.len() > 0 && t[0] != 'h' && t[0] != '0'
                ==> webui_url_spec(controller) == trim_end_char("http://"@ + c, '/') + "/ui/"@
        }),
{
    reveal_strlit("http://");
    reveal_strlit("https://");
    reveal_strlit("0.0.0.0");
    let t = trim(controller);
    let c = replace_seq(t, "0.0.0.0"@, "127.0.0.1"@);
    let pat = "0.0.0.0"@;
    let rep = "127.0.0.1"@;
    if t.len() >= 7 && t.take(7) == "http://"@ {
        let p = t.take(7);
        assert forall|k: int| 0 <= k < p.len() implies p[k] != pat[0] by {
            assert(p[k] == "http://"@[k]);
        }
        lemma_replace_keeps_prefix(p, t.skip(7), pat, rep);
        assert(p + t.skip(7) =~= t);
        assert(c.subrange(0, 7) =~= p);
        assert(occurs_at(c, "http://"@, 0));
    } else if t.len() >= 8 && t.take(8) == "https://"@ {
        let p = t.take(8);
        assert forall|k: int| 0 <= k < p.len() implies p[k] != pat[0] by {
            assert(p[k] == "https://"@[k]);
        }
        lemma_replace_keeps_prefix(p, t.skip(8), pat, rep);
        assert(p + t.skip(8) =~= t);
        assert(c.subrange(0, 8) =~= p);
        assert(occurs_at(c, "https://"@, 0));
    } else if t.len() > 0 && t[0] != 'h' && t[0] != '0' {
        let p = t.take(1);
        lemma_replace_keeps_prefix(p, t.skip(1), pat, rep);
        assert(p + t.skip(1) =~= t);
        assert(c[0] == t[0]);
        if c.len() >= 7 {
            assert(c.subrange(0, 7)[0] != "http://"@[0]);
        }
        if c.len() >= 8 {
            assert(c.subrange(0, 8)[0] != "https://"@[0]);
        }
    }
}

/// The web UI link shown for the config's `experimental.clash_api`: only
/// when both `external_controller` and `external_ui` hold non-blank text.
pub open spec fn webui_link_spec(controller: Option<Seq<char>>, external_ui: Option<Seq<char>>) -> Option<
    Seq<char>,
> {
    match (controller, external_ui) {
        (Some(c), Some(u)) => if trim(c).len() > 0 && trim(u).len() > 0 {
            Some(webui_url_spec(trim(c)))
        } else {
            None
        },
        _ => None,
    }
}

/// The web UI link, from the config's `external_controller` and
/// `external_ui` strings (absent when not strings).
pub fn webui_link(controller: Option<String>, external_ui: Option<String>) -> (r: Option<String>)
    ensures
        opt_view(r) == webui_link_spec(opt_view(controller), opt_view(external_ui)),
{
    match (controller, external_ui) {
        (Some(c), Some(u)) => {
            if is_blank(c.as_str()) || is_blank(u.as_str()) {
                None
            } else {
                let t = str_trim(c.as_str());
                Some(clash_webui_url(t.as_str()))
            }
        },
        _ => None,
    }
}

/// The log level the toolbar names for a config's `log` section:
/// `disabled` when it says so, else its `level` text; nothing without a
/// `log` section.
pub open spec fn config_log_level_spec(has_log: bool, disabled: Option<bool>, level: Option<
    Seq<char>,
>) -> Option<Seq<char>> {
    if !has_log {
        None
    } else if disabled == Some(true) {
        Some("disabled"@)
    } else {
        level
    }
}

/// Reads the log level from the `log` section's `disabled` flag and
/// `level` text (each absent when not of that type).
pub fn config_log_level(has_log: bool, disabled: Option<bool>, level: Option<String>) -> (r:
    Option<String>)
    ensures
        opt_view(r) == config_log_level_spec(has_log, disabled, opt_view(level)),
{
    if !has_log {
        return None;
    }
    match disabled {
        Some(true) => {
            let mut s = String::new();
            append_str(&mut s, "disabled");
            Some(s)
        },
        _ => level,
    }
}

/// The label of an override kind.
pub fn inbound_override_kind_label(kind: InboundOverrideKind) -> (r: &'static str)
    ensures
        r@ == (match kind {
            InboundOverrideKind::MixedIn => "mixedin"@,
            InboundOverrideKind::Tun => "tun"@,
        }),
{
    match kind {
        InboundOverrideKind::MixedIn => "mixedin",
        InboundOverrideKind::Tun => "tun",
    }
}

/// A trimmed input, or `default` when it is blank.
pub fn non_empty_or_default(value: &str, default: &str) -> (r: String)
    ensures
        r@ == (if trim(value@).len() == 0 {
            default@
        } else {
            trim(value@)
        }),
{
    let t = str_trim(value);
    if t.unicode_len() == 0 {
        default.to_owned()
    } else {
        t
    }
}

/// A port input: `default` when blank, else a number in `1..=65535`
/// (`u16` parsing), or the message `invalid <label>: <value>`.
pub open spec fn port_spec(value: Seq<char>, default: u16, label: Seq<char>) -> Result<u16, Seq<char>> {
    let v = trim(value);
    if v.len() == 0 {
        Ok(default)
    } else {
        match parse_unsigned_max(v, 65535) {
            Some(p) => if p == 0 {
                Err("invalid "@ + label + ": "@ + v)
            } else {
                Ok(p as u16)
            },
            None => Err("invalid "@ + label + ": "@ + v),
        }
    }
}

/// Reads an optional port field.
pub fn parse_optional_port(value: &str, default: u16, label: &str) -> (r: Result<u16, String>)
    ensures
        match port_spec(value@, default, label@) {
            Ok(p) => r == Ok::<u16, String>(p),
            Err(m) => r matches Err(e) && e@ == m,
        },
{
    let v = str_trim(value);
    if v.unicode_len() == 0 {
        return Ok(default);
    }
    match parse_u64_max(v.as_str(), 65535) {
        Some(p) => {
            if p == 0 {
                let mut s = String::new();
                append_str(&mut s, "invalid ");
                append_str(&mut s, label);
                append_str(&mut s, ": ");
                append_str(&mut s, v.as_str());
                Err(s)
            } else {
                Ok(p as u16)
            }
        },
        None => {
            let mut s = String::new();
            append_str(&mut s, "invalid ");
            append_str(&mut s, label);
            append_str(&mut s, ": ");
            append_str(&mut s, v.as_str());
            Err(s)
        },
    }
}


// ----- the run card and the log toolbar -----------------------------------------------

/// The round start/stop button: its glyph and hover text.
pub fn fab_for(running: bool) -> (r: (FabIcon, &'static str))
    ensures
        running ==> r.0 == FabIcon::Stop && r.1@ == "Stop sing-box"@,
        !running ==> r.0 == FabIcon::Play && r.1@ == "Start sing-box"@,
{
    if running {
        (FabIcon::Stop, "Stop sing-box")
    } else {
        (FabIcon::Play, "Start sing-box")
    }
}

/// The status next to the button.
pub fn status_text(running: bool) -> (r: &'static str)
    ensures
        r@ == (if running {
            "Running"@
        } else {
            "Stopped"@
        }),
{
    if running {
        "Running"
    } else {
        "Stopped"
    }
}

/// The toolbar's log and uptime text: the config's log level (`info`
/// when it names none) and how long the core has run (`stopped` when it
/// is not running).
pub open spec fn toolbar_spec(log_level: Option<Seq<char>>, uptime_secs: Option<u64>) -> Seq<char> {
    "Log: "@ + (match log_level {
        Some(l) => l,
        None => "info"@,
    }) + "    Uptime: "@ + (match uptime_secs {
        Some(t) => duration_text(t),
        None => "stopped"@,
    })
}

/// Composes the toolbar text.
pub fn toolbar_text(log_level: Option<String>, uptime_secs: Option<u64>) -> (r: String)
    ensures
        r@ == toolbar_spec(opt_view(log_level), uptime_secs),
{
    let mut s = "Log: ".to_owned();
    match &log_level {
        Some(l) => append_str(&mut s, l.as_str()),
        None => append_str(&mut s, "info"),
    }
    append_str(&mut s, "    Uptime: ");
    match uptime_secs {
        Some(t) => {
            let d = format_duration(t);
            append_str(&mut s, d.as_str());
        },
        None => append_str(&mut s, "stopped"),
    }
    s
}

/// The core chip: `Core: ` and the short version, `?` while unknown.
pub fn core_label(short: &Option<String>) -> (r: String)
    ensures
        r@ == "Core: "@ + (match opt_view(*short) {
            Some(v) => v,
            None => "?"@,
        }),
{
    let mut s = "Core: ".to_owned();
    match short {
        Some(v) => append_str(&mut s, v.as_str()),
        None => append_str(&mut s, "?"),
    }
    s
}

// ----- the selected config, as the log toolbar shows it -------------------------------

/// What the toolbar reads from the selected config: its log level (or
/// `disabled`) and the Clash web UI address.
pub struct ConfigSummary {
    pub log_level: Option<String>,
    pub webui: Option<String>,
}

/// What looking up a path of keys in a JSON document finds.
pub enum JsonField {
    /// The document is not JSON.
    Invalid,
    /// Some key on the path is not there (or its parent is no object).
    Missing,
    Bool(bool),
    Text(String),
    /// A value of another kind (a number, `null`, a list or an object).
    Other,
}

/// A lookup's result, as values.
pub ghost enum JsonFieldView {
    Invalid,
    Missing,
    Bool(bool),
    Text(Seq<char>),
    Other,
}

impl View for JsonField {
    type V = JsonFieldView;

    open spec fn view(&self) -> JsonFieldView {
        match self {
            JsonField::Invalid => JsonFieldView::Invalid,
            JsonField::Missing => JsonFieldView::Missing,
            JsonField::Bool(b) => JsonFieldView::Bool(*b),
            JsonField::Text(t) => JsonFieldView::Text(t@),
            JsonField::Other => JsonFieldView::Other,
        }
    }
}

/// What `serde_json` finds at the path of keys in the document `raw`.
pub uninterp spec fn json_field_at(raw: Seq<u8>, path: Seq<Seq<char>>) -> JsonFieldView;

/// Parses `raw` with `serde_json::from_slice::<Value>`, follows `path` key
/// by key with `Value::get`, and reports a failed parse, a missing key, or
/// the kind of value found (a boolean or a string with its contents). The
/// contract only names the result: it is a function of the bytes and the
/// path.
#[verifier::external_body]
fn json_field(raw: &[u8], path: &Vec<String>) -> (r: JsonField)
    ensures
        r@ == json_field_at(raw@, string_views(path@)),
{
    let doc: serde_json::Value = match serde_json::from_slice(raw) {
        Ok(v) => v,
        Err(_) => return JsonField::Invalid,
    };
    match path.iter().try_fold(&doc, |v, k| v.get(k.as_str())) {
        None => JsonField::Missing,
        Some(serde_json::Value::Bool(b)) => JsonField::Bool(*b),
        Some(serde_json::Value::String(t)) => JsonField::Text(t.clone()),
        Some(_) => JsonField::Other,
    }
}

/// The text of a string value, if the lookup found one.
pub open spec fn field_text(f: JsonFieldView) -> Option<Seq<char>> {
    match f {
        JsonFieldView::Text(t) => Some(t),
        _ => None,
    }
}

/// The boolean, if the lookup found one.
pub open spec fn field_bool(f: JsonFieldView) -> Option<bool> {
    match f {
        JsonFieldView::Bool(b) => Some(b),
        _ => None,
    }
}

/// The summary of the config `raw`, as its log level and web UI address:
/// none when it is not JSON; else the level from its `log` section and
/// the address from `experimental.clash_api`.
pub open spec fn summary_spec(raw: Seq<u8>) -> Option<(Option<Seq<char>>, Option<Seq<char>>)> {
    let log = json_field_at(raw, seq!["log"@]);
    if log is Invalid {
        None
    } else {
        Some(
            (
                config_log_level_spec(
                    !(log is Missing),
                    field_bool(json_field_at(raw, seq!["log"@, "disabled"@])),
                    field_text(json_field_at(raw, seq!["log"@, "level"@])),
                ),
                webui_link_spec(
                    field_text(
                        json_field_at(
                            raw,
                            seq!["experimental"@, "clash_api"@, "external_controller"@],
                        ),
                    ),
                    field_text(json_field_at(raw, seq!["experimental"@, "clash_api"@, "external_ui"@])),
                ),
            ),
        )
    }
}

fn text_field(raw: &[u8], path: &Vec<String>) -> (r: Option<String>)
    ensures
        opt_view(r) == field_text(json_field_at(raw@, string_views(path@))),
{
    match json_field(raw, path) {
        JsonField::Text(t) => Some(t),
        _ => None,
    }
}

/// Reads the log level and web UI address from the selected config's
/// bytes; nothing when they are not JSON.
pub fn config_summary_of(raw: &[u8]) -> (r: Option<ConfigSummary>)
    ensures
        match summary_spec(raw@) {
            None => r is None,
            Some((level, webui)) => r matches Some(c) && opt_view(c.log_level) == level
                && opt_view(c.webui) == webui,
        },
{
    let log_path = vec!["log".to_owned()];
    let log = json_field(raw, &log_path);
    proof {
        assert(string_views(log_path@) =~= seq!["log"@]);
    }
    let has_log = match log {
        JsonField::Invalid => {
            return None;
        },
        JsonField::Missing => false,
        _ => true,
    };
    let disabled_path = vec!["log".to_owned(), "disabled".to_owned()];
    let disabled = match json_field(raw, &disabled_path) {
        JsonField::Bool(b) => Some(b),
        _ => None,
    };
    let level_path = vec!["log".to_owned(), "level".to_owned()];
    let level = text_field(raw, &level_path);
    let controller_path = vec![
        "experimental".to_owned(),
        "clash_api".to_owned(),
        "external_controller".to_owned(),
    ];
    let controller = text_field(raw, &controller_path);
    let ui_path = vec!["experimental".to_owned(), "clash_api".to_owned(), "external_ui".to_owned()];
    let ui = text_field(raw, &ui_path);
    proof {
        assert(string_views(disabled_path@) =~= seq!["log"@, "disabled"@]);
        assert(string_views(level_path@) =~= seq!["log"@, "level"@]);
        assert(string_views(controller_path@) =~= seq![
            "experimental"@,
            "clash_api"@,
            "external_controller"@,
        ]);
        assert(string_views(ui_path@) =~= seq!["experimental"@, "clash_api"@, "external_ui"@]);
    }
    let log_level = config_log_level(has_log, disabled, level);
    let webui = webui_link(controller, ui);
    Some(ConfigSummary { log_level, webui })
}

/// The cached summary, as values: the folder name and modification time
/// it was read for, and whether it could be read.
pub ghost struct SummaryCacheView {
    pub slug: Option<Seq<char>>,
    pub mtime: Option<i128>,
    pub present: bool,
}

/// The summary of the selected config, re-read only when the selection or
/// the file's modification time changes.
pub struct SelectedConfigCache {
    slug: Option<String>,
    mtime: Option<i128>,
    summary: Option<ConfigSummary>,
}

impl View for SelectedConfigCache {
    type V = SummaryCacheView;

    closed spec fn view(&self) -> SummaryCacheView {
        SummaryCacheView {
            slug: opt_view(self.slug),
            mtime: self.mtime,
            present: self.summary is Some,
        }
    }
}

impl SelectedConfigCache {
    /// A cache that holds nothing.
    pub fn new() -> (c: Self)
        ensures
            c@ == (SummaryCacheView { slug: None, mtime: None, present: false }),
    {
        SelectedConfigCache { slug: None, mtime: None, summary: None }
    }

    /// Whether the cache was filled for config `slug` at modification time
    /// `mtime`, so the file need not be read again.
    pub fn is_current(&self, slug: &str, mtime: Option<i128>) -> (b: bool)
        ensures
            b == (self@.slug == Some(slug@) && self@.mtime == mtime),
    {
        match &self.slug {
            Some(s) => s.eq(&slug.to_owned()) && self.mtime == mtime,
            None => false,
        }
    }

    /// Stores what was read for `slug` at `mtime` (`None` when the file is
    /// missing or not JSON, which is remembered too).
    pub fn store(&mut self, slug: String, mtime: Option<i128>, summary: Option<ConfigSummary>)
        ensures
            final(self)@ == (SummaryCacheView {
                slug: Some(slug@),
                mtime,
                present: summary is Some,
            }),
            final(self).summary() == summary,
    {
        self.slug = Some(slug);
        self.mtime = mtime;
        self.summary = summary;
    }

    /// The cached summary.
    pub closed spec fn summary(&self) -> Option<ConfigSummary> {
        self.summary
    }

    /// The cached summary, if the file could be read.
    pub fn get(&self) -> (r: &Option<ConfigSummary>)
        ensures
            *r == self.summary(),
    {
        &self.summary
    }
}

} // verus!
