//! Administrator mode and Windows startup: the Task Scheduler task that
//! relaunches the launcher elevated, and how it is coupled with the
//! per-user `Run` key.
use vstd::prelude::*;

use crate::text::{
    append_str, arg_texts, chars_of, contains_chars, contains_seq, push_char, str_trim, to_lowercase,
    strings, trim, unicode_lowercase,
};

verus! {

/// Name of the scheduled task used for the silent admin promotion.
pub const ADMIN_TASK_NAME: &'static str = "sing-box-for-windows-elevated";

/// Task names of earlier releases, removed on startup.
pub const LEGACY_ADMIN_TASK_NAME: &'static str = "sing-box-launcher-elevated";

// ----- XML -------------------------------------------------------------------

/// The XML escape of one character.
pub open spec fn xml_escape_char(c: char) -> Seq<char> {
    if c == '&' {
        "&amp;"@
    } else if c == '<' {
        "&lt;"@
    } else if c == '>' {
        "&gt;"@
    } else if c == '"' {
        "&quot;"@
    } else if c == '\'' {
        "&apos;"@
    } else {
        seq![c]
    }
}

/// `s` with the five XML special characters replaced by entities.
pub open spec fn xml_escape_seq(s: Seq<char>) -> Seq<char>
    decreases s.len(),
{
    if s.len() == 0 {
        Seq::empty()
    } else {
        xml_escape_seq(s.drop_last()) + xml_escape_char(s.last())
    }
}

/// A character that would end or open markup inside XML text or an
/// attribute.
pub open spec fn is_markup(c: char) -> bool {
    c == '<' || c == '>' || c == '"' || c == '\''
}

/// Escapes `&`, `<`, `>`, `"` and `'` for XML.
pub fn xml_escape(s: &str) -> (r: String)
    ensures
        r@ == xml_escape_seq(s@),
{
    let mut out = String::new();
    for c in it: s.chars()
        invariant
            out@ == xml_escape_seq(s@.take(it.index() as int)),
            it.seq() == s@,
    {
        let ghost k = it.index();
        assert(s@.take(k + 1).drop_last() =~= s@.take(k as int));
        if c == '&' {
            append_str(&mut out, "&amp;");
        } else if c == '<' {
            append_str(&mut out, "&lt;");
        } else if c == '>' {
            append_str(&mut out, "&gt;");
        } else if c == '"' {
            append_str(&mut out, "&quot;");
        } else if c == '\'' {
            append_str(&mut out, "&apos;");
        } else {
            push_char(&mut out, c);
            assert(out@ =~= xml_escape_seq(s@.take(k as int)) + seq![c]);
        }
    }
    assert(s@.take(s@.len() as int) =~= s@);
    out
}

/// Law: escaped text holds no character that could end or open markup,
/// whatever the input was.
pub proof fn law_xml_escape_has_no_markup(s: Seq<char>)
    ensures
        forall|i: int| 0 <= i < xml_escape_seq(s).len() ==> !is_markup(#[trigger] xml_escape_seq(s)[i]),
    decreases s.len(),
{
    reveal_strlit("&amp;");
    reveal_strlit("&lt;");
    reveal_strlit("&gt;");
    reveal_strlit("&quot;");
    reveal_strlit("&apos;");
    if s.len() > 0 {
        law_xml_escape_has_no_markup(s.drop_last());
        let a = xml_escape_seq(s.drop_last());
        let b = xml_escape_char(s.last());
        assert forall|i: int| 0 <= i < (a + b).len() implies !is_markup(#[trigger] (a + b)[i]) by {
            if i >= a.len() {
                assert((a + b)[i] == b[i - a.len()]);
            } else {
                assert((a + b)[i] == a[i]);
            }
        }
    }
}

/// Law: text without special characters is left as it is.
pub proof fn law_xml_escape_plain_unchanged(s: Seq<char>)
    requires
        forall|i: int| 0 <= i < s.len() ==> !is_markup(#[trigger] s[i]) && s[i] != '&',
    ensures
        xml_escape_seq(s) == s,
    decreases s.len(),
{
    if s.len() > 0 {
        law_xml_escape_plain_unchanged(s.drop_last());
        assert(s.drop_last().push(s.last()) =~= s);
    }
}

/// The account the task runs as: `DOMAIN\user` when both are known, else
/// the user name, else the SYSTEM account's SID.
pub open spec fn task_user_id_spec(domain: Option<Seq<char>>, user: Option<Seq<char>>) -> Seq<
    char,
> {
    match (domain, user) {
        (Some(d), Some(u)) => d + "\\"@ + u,
        (None, Some(u)) => u,
        (_, None) => "S-1-5-18"@,
    }
}

/// Picks the task's account from the `USERDOMAIN` and `USERNAME` values.
pub fn task_user_id(domain: Option<String>, user: Option<String>) -> (r: String)
    ensures
        r@ == task_user_id_spec(
            match domain {
                Some(d) => Some(d@),
                None => None,
            },
            match user {
                Some(u) => Some(u@),
                None => None,
            },
        ),
{
    match (domain, user) {
        (Some(d), Some(u)) => {
            let mut s = d;
            append_str(&mut s, "\\");
            append_str(&mut s, u.as_str());
            s
        },
        (None, Some(u)) => u,
        (_, None) => {
            let mut s = String::new();
            append_str(&mut s, "S-1-5-18");
            s
        },
    }
}

/// Start of the task document, before the optional triggers.
pub const TASK_XML_HEAD: &'static str = "<?xml version=\"1.0\" encoding=\"UTF-16\"?>\n<Task version=\"1.3\" xmlns=\"http://schemas.microsoft.com/windows/2004/02/mit/task\">\n  <RegistrationInfo>\n    <Description>Silent admin promotion for sing-box-for-windows.</Description>\n  </RegistrationInfo>\n";

/// Opening of the logon trigger, before the account.
pub const TASK_XML_TRIGGER_OPEN: &'static str = "  <Triggers>\n    <LogonTrigger>\n      <Enabled>true</Enabled>\n      <UserId>";

/// Close of the logon trigger, after the account.
pub const TASK_XML_TRIGGER_CLOSE: &'static str = "</UserId>\n    </LogonTrigger>\n  </Triggers>\n";

/// The principal section, before the account.
pub const TASK_XML_PRINCIPAL_OPEN: &'static str = "  <Principals>\n    <Principal id=\"Author\">\n      <UserId>";

/// From after the account to the command.
pub const TASK_XML_BODY: &'static str = "</UserId>\n      <LogonType>InteractiveToken</LogonType>\n      <RunLevel>HighestAvailable</RunLevel>\n    </Principal>\n  </Principals>\n  <Settings>\n    <MultipleInstancesPolicy>IgnoreNew</MultipleInstancesPolicy>\n    <DisallowStartIfOnBatteries>false</DisallowStartIfOnBatteries>\n    <StopIfGoingOnBatteries>false</StopIfGoingOnBatteries>\n    <AllowHardTerminate>true</AllowHardTerminate>\n    <StartWhenAvailable>false</StartWhenAvailable>\n    <RunOnlyIfNetworkAvailable>false</RunOnlyIfNetworkAvailable>\n    <IdleSettings>\n      <StopOnIdleEnd>false</StopOnIdleEnd>\n      <RestartOnIdle>false</RestartOnIdle>\n    </IdleSettings>\n    <AllowStartOnDemand>true</AllowStartOnDemand>\n    <Enabled>true</Enabled>\n    <Hidden>false</Hidden>\n    <RunOnlyIfIdle>false</RunOnlyIfIdle>\n    <DisallowStartOnRemoteAppSession>false</DisallowStartOnRemoteAppSession>\n    <UseUnifiedSchedulingEngine>true</UseUnifiedSchedulingEngine>\n    <WakeToRun>false</WakeToRun>\n    <ExecutionTimeLimit>PT0S</ExecutionTimeLimit>\n    <Priority>7</Priority>\n  </Settings>\n  <Actions Context=\"Author\">\n    <Exec>\n      <Command>";

/// Between the command and the working directory.
pub const TASK_XML_DIR: &'static str = "</Command>\n      <WorkingDirectory>";

/// End of the document.
pub const TASK_XML_TAIL: &'static str = "</WorkingDirectory>\n    </Exec>\n  </Actions>\n</Task>\n";

/// The Task Scheduler document for the admin task: runs `exe` in
/// `working_dir` as `user` with the highest available privileges, one
/// instance at a time, and at logon too when `with_logon_trigger`. The
/// three values are XML-escaped.
pub open spec fn task_xml_spec(
    exe: Seq<char>,
    working_dir: Seq<char>,
    with_logon_trigger: bool,
    user: Seq<char>,
) -> Seq<char> {
    let u = xml_escape_seq(user);
    TASK_XML_HEAD@ + (if with_logon_trigger {
        TASK_XML_TRIGGER_OPEN@ + u + TASK_XML_TRIGGER_CLOSE@
    } else {
        Seq::empty()
    }) + TASK_XML_PRINCIPAL_OPEN@ + u + TASK_XML_BODY@ + xml_escape_seq(exe) + TASK_XML_DIR@
        + xml_escape_seq(working_dir) + TASK_XML_TAIL@
}

/// Builds the Task Scheduler XML for the admin task.
pub fn build_task_xml(exe: &str, working_dir: &str, with_logon_trigger: bool, user: &str) -> (r:
    String)
    ensures
        r@ == task_xml_spec(exe@, working_dir@, with_logon_trigger, user@),
{
    let exe_xml = xml_escape(exe);
    let dir_xml = xml_escape(working_dir);
    let user_xml = xml_escape(user);
    let mut s = String::new();
    append_str(&mut s, TASK_XML_HEAD);
    let ghost head = s@;
    if with_logon_trigger {
        append_str(&mut s, TASK_XML_TRIGGER_OPEN);
        append_str(&mut s, user_xml.as_str());
        append_str(&mut s, TASK_XML_TRIGGER_CLOSE);
        assert(s@ =~= head + (TASK_XML_TRIGGER_OPEN@ + user_xml@ + TASK_XML_TRIGGER_CLOSE@));
    } else {
        assert(s@ =~= head + Seq::<char>::empty());
    }
    append_str(&mut s, TASK_XML_PRINCIPAL_OPEN);
    append_str(&mut s, user_xml.as_str());
    append_str(&mut s, TASK_XML_BODY);
    append_str(&mut s, exe_xml.as_str());
    append_str(&mut s, TASK_XML_DIR);
    append_str(&mut s, dir_xml.as_str());
    append_str(&mut s, TASK_XML_TAIL);
    s
}

// ----- coupling with the Run key ---------------------------------------------

/// What to do about the admin task and the `Run` key for given settings.
pub struct PersistentPlan {
    /// Register (or refresh) the admin task; `Some(true)` adds a logon
    /// trigger.
    pub register_task: Option<bool>,
    /// Delete the admin task.
    pub delete_task: bool,
    /// Whether the `Run` key should point at the launcher.
    pub run_key: bool,
}

/// The plan for `always_admin`, whether this process is elevated, and
/// `auto_start`.
pub open spec fn persistent_plan_spec(always_admin: bool, elevated: bool, auto_start: bool) -> (
    Option<bool>,
    bool,
    bool,
) {
    if always_admin {
        (if elevated {
            Some(auto_start)
        } else {
            None
        }, false, false)
    } else {
        (None, true, auto_start)
    }
}

/// Reconciles the admin task and the `Run` key with the settings. With
/// administrator mode on, the task (with a logon trigger when the launcher
/// starts with Windows) replaces the `Run` key; registering it needs an
/// elevated process. With it off, the task goes and the `Run` key follows
/// `auto_start`.
pub fn plan_persistent_state(always_admin: bool, elevated: bool, auto_start: bool) -> (r:
    PersistentPlan)
    ensures
        (r.register_task, r.delete_task, r.run_key) == persistent_plan_spec(
            always_admin,
            elevated,
            auto_start,
        ),
{
    if always_admin {
        PersistentPlan {
            register_task: if elevated {
                Some(auto_start)
            } else {
                None
            },
            delete_task: false,
            run_key: false,
        }
    } else {
        PersistentPlan { register_task: None, delete_task: true, run_key: auto_start }
    }
}

/// Law: the launcher is never registered to start twice: whenever the
/// `Run` key is set, no admin task is registered and the task is deleted;
/// and the logon trigger exists exactly when both options are on.
pub proof fn law_single_autostart(always_admin: bool, elevated: bool, auto_start: bool)
    ensures
        ({
            let (reg, del, key) = persistent_plan_spec(always_admin, elevated, auto_start);
            &&& key ==> reg is None && del
            &&& (reg == Some(true)) <==> (always_admin && elevated && auto_start)
            &&& !(reg is Some && del)
            &&& key == (!always_admin && auto_start)
        }),
{
}

/// The error to show after the plan ran, given what the task step (if it
/// ran) and the `Run` key step returned: the later failure wins.
pub open spec fn persistent_error_spec(
    always_admin: bool,
    task_result: Option<Result<(), Seq<char>>>,
    key_result: Result<(), Seq<char>>,
) -> Option<Seq<char>> {
    match key_result {
        Err(e) => Some(
            (if always_admin {
                "Failed to clear Windows autostart entry: "@
            } else {
                "Failed to update Windows autostart entry: "@
            }) + e,
        ),
        Ok(()) => match task_result {
            Some(Err(e)) => Some(
                (if always_admin {
                    "Failed to register persistent admin task: "@
                } else {
                    "Failed to remove persistent admin task: "@
                }) + e,
            ),
            _ => None,
        },
    }
}

/// Composes the message of the last failing step, if any.
pub fn persistent_state_error(
    always_admin: bool,
    task_result: Option<Result<(), String>>,
    key_result: Result<(), String>,
) -> (r: Option<String>)
    ensures
        match persistent_error_spec(
            always_admin,
            match task_result {
                Some(Ok(())) => Some(Ok(())),
                Some(Err(e)) => Some(Err(e@)),
                None => None,
            },
            match key_result {
                Ok(()) => Ok(()),
                Err(e) => Err(e@),
            },
        ) {
            Some(m) => r matches Some(x) && x@ == m,
            None => r is None,
        },
{
    match key_result {
        Err(e) => {
            let mut s = String::new();
            if always_admin {
                append_str(&mut s, "Failed to clear Windows autostart entry: ");
            } else {
                append_str(&mut s, "Failed to update Windows autostart entry: ");
            }
            append_str(&mut s, e.as_str());
            Some(s)
        },
        Ok(()) => match task_result {
            Some(Err(e)) => {
                let mut s = String::new();
                if always_admin {
                    append_str(&mut s, "Failed to register persistent admin task: ");
                } else {
                    append_str(&mut s, "Failed to remove persistent admin task: ");
                }
                append_str(&mut s, e.as_str());
                Some(s)
            },
            _ => None,
        },
    }
}

// ----- command outcomes ----------------------------------------------------

/// Outcome of `schtasks /create` or `/run` (`verb` names it).
pub open spec fn schtasks_outcome_spec(verb: Seq<char>, success: bool, stderr: Seq<char>) -> Result<
    (),
    Seq<char>,
> {
    if success {
        Ok(())
    } else {
        Err("schtasks "@ + verb + " failed: "@ + trim(stderr))
    }
}

/// Turns the status and stderr of a `schtasks` call into a result.
pub fn schtasks_outcome(verb: &str, success: bool, stderr: &str) -> (r: Result<(), String>)
    ensures
        match schtasks_outcome_spec(verb@, success, stderr@) {
            Ok(()) => r is Ok,
            Err(m) => r matches Err(x) && x@ == m,
        },
{
    if success {
        Ok(())
    } else {
        let mut s = String::new();
        append_str(&mut s, "schtasks ");
        append_str(&mut s, verb);
        append_str(&mut s, " failed: ");
        let t = str_trim(stderr);
        append_str(&mut s, t.as_str());
        Err(s)
    }
}

/// Outcome of `schtasks /delete`: a task that is not there counts as
/// deleted. The message is matched and quoted in lower case.
pub open spec fn schtasks_delete_spec(success: bool, stderr: Seq<char>) -> Result<(), Seq<char>> {
    let lc = unicode_lowercase(stderr);
    if success || contains_seq(lc, "does not exist"@) || contains_seq(lc, "cannot find"@)
        || contains_seq(lc, "unable to find"@) {
        Ok(())
    } else {
        Err("schtasks /delete failed: "@ + trim(lc))
    }
}

/// Turns the status and stderr of `schtasks /delete` into a result.
pub fn schtasks_delete_outcome(success: bool, stderr: &str) -> (r: Result<(), String>)
    ensures
        match schtasks_delete_spec(success, stderr@) {
            Ok(()) => r is Ok,
            Err(m) => r matches Err(x) && x@ == m,
        },
{
    if success {
        return Ok(());
    }
    let lc = to_lowercase(stderr);
    let lv = chars_of(lc.as_str());
    if contains_chars(&lv, &chars_of("does not exist")) || contains_chars(
        &lv,
        &chars_of("cannot find"),
    ) || contains_chars(&lv, &chars_of("unable to find")) {
        return Ok(());
    }
    let mut s = String::new();
    append_str(&mut s, "schtasks /delete failed: ");
    let t = str_trim(lc.as_str());
    append_str(&mut s, t.as_str());
    Err(s)
}


// ----- `schtasks` command lines ---------------------------------------------

/// `schtasks /create /tn <task> /xml <file> /f`: register the task from
/// the XML file.
pub fn schtasks_create_args(xml_file: &str) -> (r: Vec<String>)
    ensures
        arg_texts(r@) == seq!["/create"@, "/tn"@, ADMIN_TASK_NAME@, "/xml"@, xml_file@, "/f"@],
{
    let r = strings(&["/create", "/tn", ADMIN_TASK_NAME, "/xml", xml_file, "/f"]);
    assert(arg_texts(r@) =~= seq!["/create"@, "/tn"@, ADMIN_TASK_NAME@, "/xml"@, xml_file@, "/f"@]);
    r
}

/// `schtasks /query /tn <task>`: whether the admin task is registered.
pub fn schtasks_query_args() -> (r: Vec<String>)
    ensures
        arg_texts(r@) == seq!["/query"@, "/tn"@, ADMIN_TASK_NAME@],
{
    let r = strings(&["/query", "/tn", ADMIN_TASK_NAME]);
    assert(arg_texts(r@) =~= seq!["/query"@, "/tn"@, ADMIN_TASK_NAME@]);
    r
}

/// `schtasks /run /tn <task>`: start the admin task.
pub fn schtasks_run_args() -> (r: Vec<String>)
    ensures
        arg_texts(r@) == seq!["/run"@, "/tn"@, ADMIN_TASK_NAME@],
{
    let r = strings(&["/run", "/tn", ADMIN_TASK_NAME]);
    assert(arg_texts(r@) =~= seq!["/run"@, "/tn"@, ADMIN_TASK_NAME@]);
    r
}

/// `schtasks /delete /tn <task> /f`: remove the task named `task`.
pub fn schtasks_delete_args(task: &str) -> (r: Vec<String>)
    ensures
        arg_texts(r@) == seq!["/delete"@, "/tn"@, task@, "/f"@],
{
    let r = strings(&["/delete", "/tn", task, "/f"]);
    assert(arg_texts(r@) =~= seq!["/delete"@, "/tn"@, task@, "/f"@]);
    r
}

/// Running the admin task needs it registered; otherwise the error names
/// the task.
pub fn run_task_precheck(task_exists: bool) -> (r: Result<(), String>)
    ensures
        task_exists ==> r is Ok,
        !task_exists ==> (r matches Err(m) && m@ == "Scheduled task '"@ + ADMIN_TASK_NAME@
            + "' is not registered"@),
{
    if task_exists {
        Ok(())
    } else {
        let mut s = "Scheduled task '".to_owned();
        append_str(&mut s, ADMIN_TASK_NAME);
        append_str(&mut s, "' is not registered");
        Err(s)
    }
}

} // verus!
