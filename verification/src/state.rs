//! The state store: three per-channel counters with their last-seen messages,
//! and the snapshot value handed back to callers.

use vstd::prelude::*;

verus! {

/// The text a message holds, if one was recorded.
pub open spec fn opt_text(o: Option<String>) -> Option<Seq<char>> {
    match o {
        None => None,
        Some(s) => Some(s@),
    }
}

/// The mathematical value of the store and of a snapshot: three counters,
/// each beside the last message recorded on its channel.
pub ghost struct StateModel {
    pub http_count: u64,
    pub http_last: Option<Seq<char>>,
    pub local_count: u64,
    pub local_last: Option<Seq<char>>,
    pub remote_count: u64,
    pub remote_last: Option<Seq<char>>,
}

impl StateModel {
    /// The state of a store that has seen no message.
    pub open spec fn fresh() -> StateModel {
        StateModel {
            http_count: 0,
            http_last: None,
            local_count: 0,
            local_last: None,
            remote_count: 0,
            remote_last: None,
        }
    }

    /// A non-zero counter always has a last message recorded beside it:
    /// the pair is updated in one step and never diverges.
    pub open spec fn consistent(self) -> bool {
        &&& self.http_count > 0 ==> self.http_last is Some
        &&& self.local_count > 0 ==> self.local_last is Some
        &&& self.remote_count > 0 ==> self.remote_last is Some
    }

    /// One message recorded on the external channel.
    pub open spec fn with_http(self, message: Seq<char>) -> StateModel {
        StateModel {
            http_count: (self.http_count + 1) as u64,
            http_last: Some(message),
            ..self
        }
    }

    /// One message recorded on the intra-node channel.
    pub open spec fn with_local(self, message: Seq<char>) -> StateModel {
        StateModel {
            local_count: (self.local_count + 1) as u64,
            local_last: Some(message),
            ..self
        }
    }

    /// One message recorded on the cross-node channel.
    pub open spec fn with_remote(self, message: Seq<char>) -> StateModel {
        StateModel {
            remote_count: (self.remote_count + 1) as u64,
            remote_last: Some(message),
            ..self
        }
    }
}

/// An immutable copy of the store's six fields, produced on demand.
#[derive(Debug, Clone, PartialEq)]
pub struct CounterSnapshot {
    pub http_count: u64,
    pub http_last_message: Option<String>,
    pub local_count: u64,
    pub local_last_message: Option<String>,
    pub remote_count: u64,
    pub remote_last_message: Option<String>,
}

impl View for CounterSnapshot {
    type V = StateModel;

    open spec fn view(&self) -> StateModel {
        StateModel {
            http_count: self.http_count,
            http_last: opt_text(self.http_last_message),
            local_count: self.local_count,
            local_last: opt_text(self.local_last_message),
            remote_count: self.remote_count,
            remote_last: opt_text(self.remote_last_message),
        }
    }
}

impl Default for CounterSnapshot {
    /// A snapshot of a store that has seen no message.
    fn default() -> (r: CounterSnapshot)
        ensures
            r@ == StateModel::fresh(),
    {
        CounterSnapshot {
            http_count: 0,
            http_last_message: None,
            local_count: 0,
            local_last_message: None,
            remote_count: 0,
            remote_last_message: None,
        }
    }
}

/// The store itself: one instance per process, mutated only by the
/// per-channel record operations.
pub struct AppState {
    http_count: u64,
    local_count: u64,
    remote_count: u64,
    http_last_message: Option<String>,
    local_last_message: Option<String>,
    remote_last_message: Option<String>,
}

impl View for AppState {
    type V = StateModel;

    closed spec fn view(&self) -> StateModel {
        StateModel {
            http_count: self.http_count,
            http_last: opt_text(self.http_last_message),
            local_count: self.local_count,
            local_last: opt_text(self.local_last_message),
            remote_count: self.remote_count,
            remote_last: opt_text(self.remote_last_message),
        }
    }
}

impl Default for AppState {
    /// A store that has seen no message.
    fn default() -> (r: AppState)
        ensures
            r@ == StateModel::fresh(),
    {
        AppState {
            http_count: 0,
            local_count: 0,
            remote_count: 0,
            http_last_message: None,
            local_last_message: None,
            remote_last_message: None,
        }
    }
}

/// A copy of an optional message, value for value.
fn clone_opt(o: &Option<String>) -> (r: Option<String>)
    ensures
        opt_text(r) == opt_text(*o),
{
    match o {
        None => None,
        Some(s) => Some(s.clone()),
    }
}

impl AppState {
    /// A pure copy of the six fields; never fails, changes nothing.
    pub fn snapshot(&self) -> (r: CounterSnapshot)
        ensures
            r@ == self@,
    {
        CounterSnapshot {
            http_count: self.http_count,
            http_last_message: clone_opt(&self.http_last_message),
            local_count: self.local_count,
            local_last_message: clone_opt(&self.local_last_message),
            remote_count: self.remote_count,
            remote_last_message: clone_opt(&self.remote_last_message),
        }
    }

    /// Records one message on the external channel: the counter and its
    /// last message move together, in one step.
    pub fn record_http(&mut self, message: String) -> (r: CounterSnapshot)
        requires
            old(self)@.http_count < u64::MAX,
        ensures
            final(self)@ == old(self)@.with_http(message@),
            r@ == final(self)@,
    {
        self.http_count = self.http_count + 1;
        self.http_last_message = Some(message);
        self.snapshot()
    }

    /// Records one message on the intra-node channel.
    pub fn record_local(&mut self, message: String) -> (r: CounterSnapshot)
        requires
            old(self)@.local_count < u64::MAX,
        ensures
            final(self)@ == old(self)@.with_local(message@),
            r@ == final(self)@,
    {
        self.local_count = self.local_count + 1;
        self.local_last_message = Some(message);
        self.snapshot()
    }

    /// Records one message on the cross-node channel.
    pub fn record_remote(&mut self, message: String) -> (r: CounterSnapshot)
        requires
            old(self)@.remote_count < u64::MAX,
        ensures
            final(self)@ == old(self)@.with_remote(message@),
            r@ == final(self)@,
    {
        self.remote_count = self.remote_count + 1;
        self.remote_last_message = Some(message);
        self.snapshot()
    }
}

} // verus!
