//! Local time, read and parsed with `chrono`.
use vstd::prelude::*;

verus! {

/// What `chrono`'s `NaiveDateTime::parse_from_str(s, "%Y-%m-%d %H:%M:%S")`
/// returns for `s`, as whole seconds since 1970-01-01 00:00:00 of the same
/// (local, unzoned) clock, or `None` where it rejects `s`.
pub uninterp spec fn parsed_local_seconds(s: Seq<char>) -> Option<int>;

/// Parses a `last_updated` stamp (`YYYY-MM-DD HH:MM:SS`) with `chrono`'s
/// `NaiveDateTime::parse_from_str`, counting seconds as if the stamp were
/// UTC (`and_utc().timestamp()`). The contract only names the result: it
/// is a function of `s`.
#[verifier::external_body]
pub(crate) fn parse_local_stamp(s: &str) -> (r: Option<i64>)
    ensures
        match parsed_local_seconds(s@) {
            Some(t) => r matches Some(x) && x as int == t,
            None => r is None,
        },
{
    chrono::NaiveDateTime::parse_from_str(s, "%Y-%m-%d %H:%M:%S").ok().map(
        |dt| dt.and_utc().timestamp(),
    )
}

/// One reading of the local clock, in the forms the launcher uses.
pub struct LocalNow {
    /// Whole seconds, counted the same way as [`parse_local_stamp`].
    pub seconds: i64,
    /// `YYYY-MM-DD HH:MM:SS`, the form of `last_updated`.
    pub stamp: String,
    /// `HH:MM:SS`, the form of log lines.
    pub time_of_day: String,
}

/// Reads the system clock once (std's `SystemTime::now`), turns the reading
/// into a `chrono` UTC time with checked arithmetic (a reading before 1970
/// counts back from the epoch; one outside `chrono`'s range is taken as the
/// epoch itself), and shifts it to the local time zone (`with_timezone`).
/// That moment is given as seconds (`naive_local().and_utc().timestamp()`)
/// and in the two text forms (`format`). Nothing is claimed of the values:
/// they are the time. The time-zone shift is the one step left that
/// `chrono` lets panic: when the operating system cannot report its
/// time-zone rules.
#[verifier::external_body]
pub(crate) fn local_now() -> LocalNow {
    let epoch = chrono::DateTime::<chrono::Utc>::UNIX_EPOCH;
    let utc = match std::time::SystemTime::now().duration_since(std::time::UNIX_EPOCH) {
        Ok(d) => chrono::TimeDelta::from_std(d).ok().and_then(|d| epoch.checked_add_signed(d)),
        Err(e) => chrono::TimeDelta::from_std(e.duration()).ok().and_then(|d| epoch.checked_sub_signed(d)),
    };
    let now = utc.unwrap_or(epoch).with_timezone(&chrono::Local);
    LocalNow {
        seconds: now.naive_local().and_utc().timestamp(),
        stamp: now.format("%Y-%m-%d %H:%M:%S").to_string(),
        time_of_day: now.format("%H:%M:%S").to_string(),
    }
}

} // verus!
