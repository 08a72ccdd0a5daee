//! Runtime overrides: when sing-box is started, the selected config is
//! copied to the working directory, and where an override is on, its
//! inbounds or its `log` section are replaced in that copy. The stored
//! config itself is never changed.
use vstd::prelude::*;

use crate::settings::{
    level_text, InboundOverrideKind, InboundOverrideSettings, InboundOverrideView,
    LogOverrideSettings, Settings, SettingsView, DEFAULT_MIXED_LISTEN, DEFAULT_MIXED_LISTEN_PORT,
    DEFAULT_TUN_ADDRESS,
};
use crate::entry::{hex_char, hex_digit};
use crate::text::{
    append_str, decimal, parse_u64_max, parse_unsigned_max, push_char, str_trim, trim, u64_to_string,
};
use crate::ui::{non_empty_or_default, parse_optional_port, port_spec};

verus! {

/// File, in the working directory, that the saved log goes to.
pub const LOG_OUTPUT_FILE: &'static str = "box.log";

/// The single inbound that replaces the config's inbounds.
pub enum OverrideInbound {
    /// A `mixed` inbound (HTTP and SOCKS) tagged `mixed-in`.
    Mixed { listen: String, listen_port: u16 },
    /// A `tun` inbound tagged `tun-in` on [`DEFAULT_TUN_ADDRESS`](crate::settings::DEFAULT_TUN_ADDRESS),
    /// with automatic and strict routing on the system stack; without an
    /// MTU sing-box picks its own.
    Tun { mtu: Option<u64>, endpoint_independent_nat: bool },
}

/// An override inbound, as values.
pub ghost enum InboundView {
    Mixed { listen: Seq<char>, listen_port: u16 },
    Tun { mtu: Option<u64>, endpoint_independent_nat: bool },
}

impl View for OverrideInbound {
    type V = InboundView;

    open spec fn view(&self) -> InboundView {
        match self {
            OverrideInbound::Mixed { listen, listen_port } => InboundView::Mixed {
                listen: listen@,
                listen_port: *listen_port,
            },
            OverrideInbound::Tun { mtu, endpoint_independent_nat } => InboundView::Tun {
                mtu: *mtu,
                endpoint_independent_nat: *endpoint_independent_nat,
            },
        }
    }
}

/// The `log` section that replaces the config's.
pub struct OverrideLog {
    pub disabled: bool,
    /// The level's name.
    pub level: String,
    /// The file the log is also written to.
    pub output: Option<String>,
    /// Lines carry their time.
    pub timestamp: bool,
}

/// A `log` section, as values.
pub ghost struct LogView {
    pub disabled: bool,
    pub level: Seq<char>,
    pub output: Option<Seq<char>>,
    pub timestamp: bool,
}

impl View for OverrideLog {
    type V = LogView;

    open spec fn view(&self) -> LogView {
        LogView {
            disabled: self.disabled,
            level: self.level@,
            output: match self.output {
                Some(o) => Some(o@),
                None => None,
            },
            timestamp: self.timestamp,
        }
    }
}

/// A trimmed input, or `default` when it is blank.
pub open spec fn non_empty_or(value: Seq<char>, default: Seq<char>) -> Seq<char> {
    if trim(value).len() == 0 {
        default
    } else {
        trim(value)
    }
}

/// The TUN MTU input: nothing when blank, else a `u64`, or the message
/// `invalid TUN MTU value: <value>`.
pub open spec fn mtu_spec(value: Seq<char>) -> Result<Option<u64>, Seq<char>> {
    let t = trim(value);
    if t.len() == 0 {
        Ok(None)
    } else {
        match parse_unsigned_max(t, u64::MAX as nat) {
            Some(v) => Ok(Some(v as u64)),
            None => Err("invalid TUN MTU value: "@ + t),
        }
    }
}

/// The inbound that the override settings describe, or the message for the
/// first field that does not read.
pub open spec fn inbound_spec(s: InboundOverrideView) -> Result<InboundView, Seq<char>> {
    match s.kind {
        InboundOverrideKind::MixedIn => match port_spec(
            s.mixed_listen_port,
            DEFAULT_MIXED_LISTEN_PORT,
            "mixed listen port"@,
        ) {
            Ok(p) => Ok(
                InboundView::Mixed {
                    listen: non_empty_or(s.mixed_listen, DEFAULT_MIXED_LISTEN@),
                    listen_port: p,
                },
            ),
            Err(m) => Err(m),
        },
        InboundOverrideKind::Tun => match mtu_spec(s.tun_mtu) {
            Ok(mtu) => Ok(
                InboundView::Tun { mtu, endpoint_independent_nat: s.tun_endpoint_independent_nat },
            ),
            Err(m) => Err(m),
        },
    }
}

/// An inbound result, as values.
pub open spec fn inbound_result(r: Result<OverrideInbound, String>) -> Result<InboundView, Seq<char>> {
    match r {
        Ok(i) => Ok(i@),
        Err(e) => Err(e@),
    }
}

/// Builds the inbound that the override settings describe: a mixed inbound
/// on the typed (or default) address and port, or a TUN inbound with the
/// typed MTU, if any.
pub fn build_override_inbound(s: &InboundOverrideSettings) -> (r: Result<OverrideInbound, String>)
    ensures
        inbound_result(r) == inbound_spec(s@),
{
    match s.kind {
        InboundOverrideKind::MixedIn => {
            let listen = non_empty_or_default(s.mixed_listen.as_str(), DEFAULT_MIXED_LISTEN);
            match parse_optional_port(
                s.mixed_listen_port.as_str(),
                DEFAULT_MIXED_LISTEN_PORT,
                "mixed listen port",
            ) {
                Ok(listen_port) => Ok(OverrideInbound::Mixed { listen, listen_port }),
                Err(e) => Err(e),
            }
        },
        InboundOverrideKind::Tun => {
            let t = str_trim(s.tun_mtu.as_str());
            let mtu = if t.unicode_len() == 0 {
                None
            } else {
                match parse_u64_max(t.as_str(), u64::MAX) {
                    Some(v) => Some(v),
                    None => {
                        let mut m = String::new();
                        append_str(&mut m, "invalid TUN MTU value: ");
                        append_str(&mut m, t.as_str());
                        return Err(m);
                    },
                }
            };
            Ok(OverrideInbound::Tun { mtu, endpoint_independent_nat: s.tun_endpoint_independent_nat })
        },
    }
}

/// The `log` section that the override settings describe: the switch and
/// level as set, the `box.log` file exactly when logs are saved, and
/// timestamps always on.
pub open spec fn log_spec(s: LogOverrideSettings) -> LogView {
    LogView {
        disabled: s.disabled,
        level: level_text(s.level),
        output: if s.save_logs {
            Some(LOG_OUTPUT_FILE@)
        } else {
            None
        },
        timestamp: true,
    }
}

/// Builds the `log` section that the override settings describe.
pub fn build_override_log(s: &LogOverrideSettings) -> (r: OverrideLog)
    ensures
        r@ == log_spec(*s),
{
    let output = if s.save_logs {
        Some(LOG_OUTPUT_FILE.to_owned())
    } else {
        None
    };
    OverrideLog {
        disabled: s.disabled,
        level: s.level.as_str().to_owned(),
        output,
        timestamp: true,
    }
}

/// Whether the runtime copy must be rewritten rather than copied as is:
/// some override is on.
pub open spec fn needs_rewrite(s: SettingsView) -> bool {
    s.inbound_override.enabled || s.log_override.enabled
}

/// Whether the runtime copy is rewritten (an override is on) rather than
/// copied byte for byte.
pub fn runtime_needs_rewrite(settings: &Settings) -> (r: bool)
    ensures
        r == needs_rewrite(settings@),
{
    settings.inbound_override.enabled || settings.log_override.enabled
}

/// What reading the selected config gave, for a rewrite.
pub enum SourceConfig {
    /// The file could not be read.
    Unreadable,
    /// The file is not JSON.
    NotJson,
    /// The file is JSON, but its root is not an object.
    NotObject,
    /// The file is a JSON object.
    Object,
}

/// The sections that replace the config's in the runtime copy; `None`
/// leaves that section as it is.
pub struct RuntimeEdits {
    pub inbounds: Option<OverrideInbound>,
    pub log: Option<OverrideLog>,
}

/// The replacements, as values.
pub ghost struct EditsView {
    pub inbounds: Option<InboundView>,
    pub log: Option<LogView>,
}

impl View for RuntimeEdits {
    type V = EditsView;

    open spec fn view(&self) -> EditsView {
        EditsView {
            inbounds: match self.inbounds {
                Some(i) => Some(i@),
                None => None,
            },
            log: match self.log {
                Some(l) => Some(l@),
                None => None,
            },
        }
    }
}

/// What rewriting the config at `source` comes to: the read, the parse
/// and the shape of the root are checked in that order, then the inbound
/// override is built where it is on; the log override where it is on.
pub open spec fn edits_spec(source: Seq<char>, s: SettingsView, config: SourceConfig) -> Result<
    EditsView,
    Seq<char>,
> {
    match config {
        SourceConfig::Unreadable => Err("failed to read config "@ + source),
        SourceConfig::NotJson => Err("failed to parse config JSON "@ + source),
        SourceConfig::NotObject => Err("config root must be a JSON object: "@ + source),
        SourceConfig::Object => {
            let log = if s.log_override.enabled {
                Some(log_spec(s.log_override))
            } else {
                None
            };
            if s.inbound_override.enabled {
                match inbound_spec(s.inbound_override) {
                    Ok(i) => Ok(EditsView { inbounds: Some(i), log }),
                    Err(m) => Err(m),
                }
            } else {
                Ok(EditsView { inbounds: None, log })
            }
        },
    }
}

/// An edits result, as values.
pub open spec fn edits_result(r: Result<RuntimeEdits, String>) -> Result<EditsView, Seq<char>> {
    match r {
        Ok(e) => Ok(e@),
        Err(m) => Err(m@),
    }
}

/// The replacements for the runtime copy of the config at `source`, from
/// what reading it gave, or the error that stops sing-box from starting.
pub fn prepare_runtime_config(source: &str, settings: &Settings, config: SourceConfig) -> (r: Result<
    RuntimeEdits,
    String,
>)
    ensures
        edits_result(r) == edits_spec(source@, settings@, config),
{
    let lead = match config {
        SourceConfig::Unreadable => "failed to read config ",
        SourceConfig::NotJson => "failed to parse config JSON ",
        SourceConfig::NotObject => "config root must be a JSON object: ",
        SourceConfig::Object => {
            let inbounds = if settings.inbound_override.enabled {
                match build_override_inbound(&settings.inbound_override) {
                    Ok(i) => Some(i),
                    Err(m) => {
                        return Err(m);
                    },
                }
            } else {
                None
            };
            let log = if settings.log_override.enabled {
                Some(build_override_log(&settings.log_override))
            } else {
                None
            };
            return Ok(RuntimeEdits { inbounds, log });
        },
    };
    let mut m = String::new();
    append_str(&mut m, lead);
    append_str(&mut m, source);
    Err(m)
}

/// The message when the rewritten config cannot be turned into text.
pub fn serialize_runtime_error(runtime: &str) -> (r: String)
    ensures
        r@ == "failed to serialize runtime config "@ + runtime@,
{
    let mut m = String::new();
    append_str(&mut m, "failed to serialize runtime config ");
    append_str(&mut m, runtime);
    m
}

/// The message when the rewritten config cannot be written.
pub fn write_runtime_error(runtime: &str) -> (r: String)
    ensures
        r@ == "failed to write runtime config "@ + runtime@,
{
    let mut m = String::new();
    append_str(&mut m, "failed to write runtime config ");
    append_str(&mut m, runtime);
    m
}

// ----- the runtime copy as JSON text ---------------------------------------------

/// One character inside a JSON string: `"` and `\` escaped with `\`,
/// control characters as `\u00XX`, everything else as it is.
pub open spec fn json_char(c: char) -> Seq<char> {
    if c == '"' {
        seq!['\\', '"']
    } else if c == '\\' {
        seq!['\\', '\\']
    } else if (c as u32) < 0x20 {
        seq!['\\', 'u', '0', '0', hex_digit((c as u32 / 16) as u64), hex_digit((c as u32 % 16) as u64)]
    } else {
        seq![c]
    }
}

/// The escaped characters of `s`.
pub open spec fn json_chars(s: Seq<char>) -> Seq<char>
    decreases s.len(),
{
    if s.len() == 0 {
        Seq::empty()
    } else {
        json_chars(s.drop_last()) + json_char(s.last())
    }
}

/// `s` as a JSON string literal.
pub open spec fn json_str(s: Seq<char>) -> Seq<char> {
    "\""@ + json_chars(s) + "\""@
}

/// A JSON boolean.
pub open spec fn json_bool(b: bool) -> Seq<char> {
    if b {
        "true"@
    } else {
        "false"@
    }
}

/// Writes `s` as a JSON string literal.
pub fn json_string(s: &str) -> (r: String)
    ensures
        r@ == json_str(s@),
{
    let mut out = String::new();
    append_str(&mut out, "\"");
    let n = s.unicode_len();
    let mut i: usize = 0;
    while i < n
        invariant
            n == s@.len(),
            i <= n,
            out@ == "\""@ + json_chars(s@.take(i as int)),
        decreases n - i,
    {
        let c = s.get_char(i);
        let ghost before = out@;
        if c == '"' {
            append_str(&mut out, "\\\"");
        } else if c == '\\' {
            append_str(&mut out, "\\\\");
        } else if (c as u32) < 0x20 {
            append_str(&mut out, "\\u00");
            let code = c as u32;
            push_char(&mut out, hex_char((code / 16) as u64));
            push_char(&mut out, hex_char((code % 16) as u64));
        } else {
            push_char(&mut out, c);
        }
        proof {
            reveal_strlit("\\\"");
            reveal_strlit("\\\\");
            reveal_strlit("\\u00");
            assert(s@.take(i + 1).drop_last() =~= s@.take(i as int));
            assert(s@.take(i + 1).last() == c);
            assert(out@ =~= before + json_char(c));
        }
        i = i + 1;
    }
    assert(s@.take(n as int) =~= s@);
    append_str(&mut out, "\"");
    out
}

/// Appends `b` as a JSON boolean.
fn push_json_bool(out: &mut String, b: bool)
    ensures
        final(out)@ == old(out)@ + json_bool(b),
{
    if b {
        append_str(out, "true");
    } else {
        append_str(out, "false");
    }
}

/// The override inbound as a JSON object. A mixed inbound is
/// `{"type":"mixed","tag":"mixed-in","listen":..,"listen_port":..}`; a TUN
/// inbound is `{"type":"tun","tag":"tun-in","address":..,"auto_route":true,
/// "strict_route":true,"stack":"system","endpoint_independent_nat":..}`,
/// with `"mtu"` last where one was typed.
pub open spec fn inbound_json(i: InboundView) -> Seq<char> {
    match i {
        InboundView::Mixed { listen, listen_port } => "{\"type\":\"mixed\",\"tag\":\"mixed-in\",\"listen\":"@
            + json_str(listen) + ",\"listen_port\":"@ + decimal(listen_port as nat) + "}"@,
        InboundView::Tun { mtu, endpoint_independent_nat } => "{\"type\":\"tun\",\"tag\":\"tun-in\",\"address\":"@
            + json_str(DEFAULT_TUN_ADDRESS@)
            + ",\"auto_route\":true,\"strict_route\":true,\"stack\":\"system\",\"endpoint_independent_nat\":"@
            + json_bool(endpoint_independent_nat) + match mtu {
            Some(m) => ",\"mtu\":"@ + decimal(m as nat),
            None => Seq::empty(),
        } + "}"@,
    }
}

/// The `log` section as a JSON object: `disabled`, `level`, `output` where
/// the log is saved, and `timestamp`.
pub open spec fn log_json(l: LogView) -> Seq<char> {
    "{\"disabled\":"@ + json_bool(l.disabled) + ",\"level\":"@ + json_str(l.level) + match l.output {
        Some(o) => ",\"output\":"@ + json_str(o),
        None => Seq::empty(),
    } + ",\"timestamp\":"@ + json_bool(l.timestamp) + "}"@
}

impl OverrideInbound {
    /// The inbound as a JSON object.
    pub fn json_text(&self) -> (r: String)
        ensures
            r@ == inbound_json(self@),
    {
        match self {
            OverrideInbound::Mixed { listen, listen_port } => {
                let mut s = String::new();
                append_str(&mut s, "{\"type\":\"mixed\",\"tag\":\"mixed-in\",\"listen\":");
                let l = json_string(listen.as_str());
                append_str(&mut s, l.as_str());
                append_str(&mut s, ",\"listen_port\":");
                let p = u64_to_string(*listen_port as u64);
                append_str(&mut s, p.as_str());
                append_str(&mut s, "}");
                s
            },
            OverrideInbound::Tun { mtu, endpoint_independent_nat } => {
                let mut s = String::new();
                append_str(&mut s, "{\"type\":\"tun\",\"tag\":\"tun-in\",\"address\":");
                let a = json_string(DEFAULT_TUN_ADDRESS);
                append_str(&mut s, a.as_str());
                append_str(
                    &mut s,
                    ",\"auto_route\":true,\"strict_route\":true,\"stack\":\"system\",\"endpoint_independent_nat\":",
                );
                push_json_bool(&mut s, *endpoint_independent_nat);
                let ghost before_mtu = s@;
                match mtu {
                    Some(m) => {
                        append_str(&mut s, ",\"mtu\":");
                        let t = u64_to_string(*m);
                        append_str(&mut s, t.as_str());
                    },
                    None => {},
                }
                append_str(&mut s, "}");
                proof {
                    match mtu {
                        Some(m) => {
                            assert(s@ =~= before_mtu + (",\"mtu\":"@ + decimal(*m as nat)) + "}"@);
                        },
                        None => {
                            assert(s@ =~= before_mtu + Seq::<char>::empty() + "}"@);
                        },
                    }
                }
                s
            },
        }
    }
}

impl OverrideLog {
    /// The `log` section as a JSON object.
    pub fn json_text(&self) -> (r: String)
        ensures
            r@ == log_json(self@),
    {
        let mut s = String::new();
        append_str(&mut s, "{\"disabled\":");
        push_json_bool(&mut s, self.disabled);
        append_str(&mut s, ",\"level\":");
        let l = json_string(self.level.as_str());
        append_str(&mut s, l.as_str());
        let ghost before_output = s@;
        match &self.output {
            Some(o) => {
                append_str(&mut s, ",\"output\":");
                let t = json_string(o.as_str());
                append_str(&mut s, t.as_str());
            },
            None => {},
        }
        let ghost after_output = s@;
        append_str(&mut s, ",\"timestamp\":");
        push_json_bool(&mut s, self.timestamp);
        append_str(&mut s, "}");
        proof {
            match &self.output {
                Some(o) => {
                    assert(after_output =~= before_output + (",\"output\":"@ + json_str(o@)));
                },
                None => {
                    assert(after_output =~= before_output + Seq::<char>::empty());
                },
            }
            assert(s@ =~= log_json(self@));
        }
        s
    }
}

/// The sections of the runtime copy that are replaced, as key and JSON
/// text: `inbounds` as a list of the one override inbound, then `log`.
pub open spec fn override_items(e: EditsView) -> Seq<(Seq<char>, Seq<char>)> {
    (match e.inbounds {
        Some(i) => seq![("inbounds"@, "["@ + inbound_json(i) + "]"@)],
        None => Seq::empty(),
    }) + (match e.log {
        Some(l) => seq![("log"@, log_json(l))],
        None => Seq::empty(),
    })
}

/// Keys and texts, as text.
pub open spec fn pair_texts(v: Seq<(String, String)>) -> Seq<(Seq<char>, Seq<char>)> {
    v.map_values(|p: (String, String)| (p.0@, p.1@))
}

impl RuntimeEdits {
    /// The replaced sections as key and JSON text.
    pub fn items(&self) -> (r: Vec<(String, String)>)
        ensures
            pair_texts(r@) == override_items(self@),
    {
        let mut v: Vec<(String, String)> = Vec::new();
        match &self.inbounds {
            Some(i) => {
                let mut t = String::new();
                append_str(&mut t, "[");
                let j = i.json_text();
                append_str(&mut t, j.as_str());
                append_str(&mut t, "]");
                v.push(("inbounds".to_owned(), t));
            },
            None => {},
        }
        let ghost first = pair_texts(v@);
        match &self.log {
            Some(l) => {
                v.push(("log".to_owned(), l.json_text()));
            },
            None => {},
        }
        proof {
            match &self.log {
                Some(l) => {
                    assert(pair_texts(v@) =~= first + seq![("log"@, log_json(l@))]);
                },
                None => {
                    assert(pair_texts(v@) =~= first + Seq::empty());
                },
            }
            match &self.inbounds {
                Some(i) => {
                    assert(first =~= seq![("inbounds"@, "["@ + inbound_json(i@) + "]"@)]);
                },
                None => {
                    assert(first =~= Seq::empty());
                },
            }
        }
        v
    }
}

/// What `serde_json` makes of `raw`: not JSON, JSON whose root is not an
/// object, or an object.
pub uninterp spec fn json_kind(raw: Seq<u8>) -> SourceConfig;

/// Parses `raw` with `serde_json::from_slice::<Value>` and tells a failed
/// parse, a root object and any other root apart. The contract only names
/// the answer: it is a function of the bytes.
#[verifier::external_body]
fn json_object_kind(raw: &[u8]) -> (k: SourceConfig)
    ensures
        k == json_kind(raw@),
{
    match serde_json::from_slice::<serde_json::Value>(raw) {
        Err(_) => SourceConfig::NotJson,
        Ok(serde_json::Value::Object(_)) => SourceConfig::Object,
        Ok(_) => SourceConfig::NotObject,
    }
}

/// What `serde_json` writes for the JSON document `raw` after the keys of
/// its root object are set, in order, to the values that their JSON texts
/// hold; `None` where `raw` is not a JSON object or a text is not JSON.
pub uninterp spec fn json_with_keys(raw: Seq<u8>, keys: Seq<(Seq<char>, Seq<char>)>) -> Option<Seq<u8>>;

/// Parses `raw` (`serde_json::from_slice::<Value>`), sets each key of its
/// root object to the value parsed from the key's text (`from_str`, then
/// `Map::insert`: other keys stay), and writes the document back with
/// `to_vec_pretty`. The contract only names the result: it is a function
/// of the bytes and the keys.
#[verifier::external_body]
fn json_set_keys(raw: &[u8], keys: &Vec<(String, String)>) -> (r: Option<Vec<u8>>)
    ensures
        match r {
            Some(b) => json_with_keys(raw@, pair_texts(keys@)) == Some(b@),
            None => json_with_keys(raw@, pair_texts(keys@)) is None,
        },
{
    let mut doc: serde_json::Value = serde_json::from_slice(raw).ok()?;
    let root = doc.as_object_mut()?;
    for (k, v) in keys.iter() {
        root.insert(k.clone(), serde_json::from_str(v).ok()?);
    }
    serde_json::to_vec_pretty(&doc).ok()
}

/// The runtime copy of the config `raw` read from `source`: the bytes as
/// they are where no override is on; otherwise the errors of
/// [`edits_spec`], or the document with its `inbounds` and `log` replaced
/// as [`override_items`] says, or the message that it could not be
/// written back.
pub open spec fn runtime_bytes_spec(
    source: Seq<char>,
    runtime: Seq<char>,
    raw: Seq<u8>,
    s: SettingsView,
) -> Result<Seq<u8>, Seq<char>> {
    if !needs_rewrite(s) {
        Ok(raw)
    } else {
        match edits_spec(source, s, json_kind(raw)) {
            Err(m) => Err(m),
            Ok(e) => match json_with_keys(raw, override_items(e)) {
                Some(b) => Ok(b),
                None => Err("failed to serialize runtime config "@ + runtime),
            },
        }
    }
}

/// A bytes result, as values.
pub open spec fn bytes_result(r: Result<Vec<u8>, String>) -> Result<Seq<u8>, Seq<char>> {
    match r {
        Ok(b) => Ok(b@),
        Err(m) => Err(m@),
    }
}

/// The bytes to write to `runtime` for the config `raw` read from
/// `source`, or the error that stops sing-box from starting.
pub fn runtime_config_bytes(source: &str, runtime: &str, raw: &[u8], settings: &Settings) -> (r:
    Result<Vec<u8>, String>)
    ensures
        bytes_result(r) == runtime_bytes_spec(source@, runtime@, raw@, settings@),
{
    if !runtime_needs_rewrite(settings) {
        return Ok(vstd::slice::slice_to_vec(raw));
    }
    let kind = json_object_kind(raw);
    let edits = match prepare_runtime_config(source, settings, kind) {
        Ok(e) => e,
        Err(m) => {
            return Err(m);
        },
    };
    let items = edits.items();
    match json_set_keys(raw, &items) {
        Some(b) => Ok(b),
        None => Err(serialize_runtime_error(runtime)),
    }
}

} // verus!
