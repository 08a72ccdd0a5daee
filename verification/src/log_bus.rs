//! Lines of the in-process log.
use vstd::prelude::*;

use crate::clock::local_now;

verus! {

/// One log line with the time of day it was made.
pub struct LogEvent {
    pub timestamp: String,
    pub message: String,
}

impl Clone for LogEvent {
    fn clone(&self) -> (r: Self)
        ensures
            r.timestamp@ == self.timestamp@,
            r.message@ == self.message@,
    {
        LogEvent { timestamp: self.timestamp.clone(), message: self.message.clone() }
    }
}

impl LogEvent {
    /// A line stamped with the current local time of day.
    pub fn line(message: String) -> (e: LogEvent)
        ensures
            e.message@ == message@,
    {
        LogEvent { timestamp: local_now().time_of_day, message }
    }
}

} // verus!
