//! The "launch on Windows startup" switch: the launcher's full path stored
//! under `HKCU\Software\Microsoft\Windows\CurrentVersion\Run`, written and
//! removed with the built-in `reg.exe`. This module builds the `reg.exe`
//! arguments and reads its answers.
use vstd::prelude::*;

use crate::text::{
    append_str, arg_texts, strings, contains_seq, replace_seq, str_contains, str_replace, str_trim, to_lowercase,
    trim, unicode_lowercase,
};

verus! {

/// Name of the value under the `Run` key; stable across upgrades.
pub const REG_VALUE: &'static str = "sing-box-for-windows";

/// The value name used by the launcher's first iteration, removed on start.
pub const LEGACY_REG_VALUE: &'static str = "sing-box-launcher";

/// The per-user `Run` key.
pub const REG_KEY: &'static str = "HKCU\\Software\\Microsoft\\Windows\\CurrentVersion\\Run";

/// `reg add <key> /v <value> /t REG_SZ /d <exe> /f`: register `exe`.
pub fn reg_add_args(exe: &str) -> (r: Vec<String>)
    ensures
        arg_texts(r@) == seq![
            "add"@,
            REG_KEY@,
            "/v"@,
            REG_VALUE@,
            "/t"@,
            "REG_SZ"@,
            "/d"@,
            exe@,
            "/f"@,
        ],
{
    let r = strings(&["add", REG_KEY, "/v", REG_VALUE, "/t", "REG_SZ", "/d", exe, "/f"]);
    assert(arg_texts(r@) =~= seq![
        "add"@,
        REG_KEY@,
        "/v"@,
        REG_VALUE@,
        "/t"@,
        "REG_SZ"@,
        "/d"@,
        exe@,
        "/f"@,
    ]);
    r
}

/// `reg delete <key> /v <value> /f`: remove the value `value`.
pub fn reg_delete_args(value: &str) -> (r: Vec<String>)
    ensures
        arg_texts(r@) == seq!["delete"@, REG_KEY@, "/v"@, value@, "/f"@],
{
    let r = strings(&["delete", REG_KEY, "/v", value, "/f"]);
    assert(arg_texts(r@) =~= seq!["delete"@, REG_KEY@, "/v"@, value@, "/f"@]);
    r
}

/// `reg query <key> /v <value>`: read the launcher's value.
pub fn reg_query_args() -> (r: Vec<String>)
    ensures
        arg_texts(r@) == seq!["query"@, REG_KEY@, "/v"@, REG_VALUE@],
{
    let r = strings(&["query", REG_KEY, "/v", REG_VALUE]);
    assert(arg_texts(r@) =~= seq!["query"@, REG_KEY@, "/v"@, REG_VALUE@]);
    r
}

/// Whether the output of a successful `reg query` names `exe`: the
/// lower-cased output holds the lower-cased path, as written or with `/`
/// turned into `\`.
pub open spec fn registered_spec(stdout: Seq<char>, exe: Seq<char>) -> bool {
    let out = unicode_lowercase(stdout);
    let want = unicode_lowercase(exe);
    contains_seq(out, want) || contains_seq(out, replace_seq(want, "/"@, "\\"@))
}

/// Whether the autostart entry points at `exe`, from the status and output
/// of `reg query`. A failed query means no entry.
pub fn is_registered(success: bool, stdout: &str, exe: &str) -> (b: bool)
    ensures
        b == (success && registered_spec(stdout@, exe@)),
{
    if !success {
        return false;
    }
    let out = to_lowercase(stdout);
    let want = to_lowercase(exe);
    proof {
        reveal_strlit("/");
    }
    let slashed = str_replace(want.as_str(), "/", "\\");
    str_contains(out.as_str(), want.as_str()) || str_contains(out.as_str(), slashed.as_str())
}

/// The outcome of `reg add`.
pub fn reg_add_outcome(success: bool) -> (r: Result<(), String>)
    ensures
        success ==> r is Ok,
        !success ==> (r matches Err(e) && e@ == "reg add failed"@),
{
    if success {
        Ok(())
    } else {
        Err("reg add failed".to_owned())
    }
}

/// The outcome of `reg delete`: a value that is not there counts as
/// removed; any other failure quotes `reg.exe`'s trimmed message.
pub open spec fn reg_delete_spec(success: bool, stderr: Seq<char>) -> Result<(), Seq<char>> {
    if success || contains_seq(stderr, "unable to find"@) || contains_seq(stderr, "cannot find"@) {
        Ok(())
    } else {
        Err("reg delete failed: "@ + trim(stderr))
    }
}

/// Turns the status and stderr of `reg delete` into a result.
pub fn reg_delete_outcome(success: bool, stderr: &str) -> (r: Result<(), String>)
    ensures
        match reg_delete_spec(success, stderr@) {
            Ok(()) => r is Ok,
            Err(m) => r matches Err(x) && x@ == m,
        },
{
    if success || str_contains(stderr, "unable to find") || str_contains(stderr, "cannot find") {
        return Ok(());
    }
    let mut s = "reg delete failed: ".to_owned();
    let t = str_trim(stderr);
    append_str(&mut s, t.as_str());
    Err(s)
}

} // verus!
