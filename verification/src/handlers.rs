//! The three inbound message handlers, one per channel. Each normalizes the
//! message text and records it; the external one also implements the
//! deliberate `"err"` failure hook.

use vstd::prelude::*;
use vstd::string::StringExecFns;

use crate::json::json_error;
use crate::json::json_error_text;
use crate::state::AppState;
use crate::state::CounterSnapshot;
use crate::state::opt_text;
use crate::text::normalize;
use crate::text::normalized;
use crate::text::placeholder;

verus! {

/// The text a ping records when its message field may be absent: an absent
/// field counts as an empty message.
pub open spec fn normalized_opt(m: Option<Seq<char>>) -> Seq<char> {
    match m {
        None => placeholder(),
        Some(s) => normalized(s),
    }
}

/// The error the external channel returns for the `"err"` test hook.
pub open spec fn simulated_error_text() -> Seq<char> {
    json_error_text("simulated error: err"@)
}

impl AppState {
    /// Read-only query of the current counters.
    pub fn get_counters(&self) -> (r: CounterSnapshot)
        ensures
            r@ == self@,
    {
        self.snapshot()
    }

    /// The external-channel ping: normalizes the decoded message field and
    /// records it, except that a message normalizing to exactly `err` fails
    /// with the simulated error and changes nothing.
    pub fn ping_http(&mut self, message: Option<String>) -> (r: Result<CounterSnapshot, String>)
        requires
            normalized_opt(opt_text(message)) != "err"@ ==> old(self)@.http_count < u64::MAX,
        ensures
            normalized_opt(opt_text(message)) == "err"@ ==> {
                &&& final(self)@ == old(self)@
                &&& r is Err
                &&& r->Err_0@ == simulated_error_text()
            },
            normalized_opt(opt_text(message)) != "err"@ ==> {
                &&& final(self)@ == old(self)@.with_http(normalized_opt(opt_text(message)))
                &&& r is Ok
                &&& r->Ok_0@ == final(self)@
            },
    {
        let m = match message {
            None => String::from_str("(empty message)"),
            Some(text) => normalize(text.as_str()),
        };
        let err_probe = String::from_str("err");
        if m == err_probe {
            Err(json_error("simulated error: err"))
        } else {
            Ok(self.record_http(m))
        }
    }

    /// The intra-node ping: normalizes and records on the local channel.
    pub fn ping_local(&mut self, message: String) -> (r: Result<CounterSnapshot, String>)
        requires
            old(self)@.local_count < u64::MAX,
        ensures
            final(self)@ == old(self)@.with_local(normalized(message@)),
            r is Ok && r->Ok_0@ == final(self)@,
    {
        let m = normalize(message.as_str());
        Ok(self.record_local(m))
    }

    /// The cross-node ping: normalizes and records on the remote channel.
    pub fn ping_remote(&mut self, message: String) -> (r: Result<CounterSnapshot, String>)
        requires
            old(self)@.remote_count < u64::MAX,
        ensures
            final(self)@ == old(self)@.with_remote(normalized(message@)),
            r is Ok && r->Ok_0@ == final(self)@,
    {
        let m = normalize(message.as_str());
        Ok(self.record_remote(m))
    }
}

} // verus!
