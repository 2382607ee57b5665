//! The library's laws: how the per-channel state evolves under sequences
//! of pings and under planned dispatches, stated over the same spec
//! functions the executable contracts use.

use vstd::prelude::*;

use crate::address::AddressModel;
use crate::handlers::normalized_opt;
use crate::json::json_error_text;
use crate::send::PingVariant;
use crate::send::PlanModel;
use crate::send::RequestModel;
use crate::send::SendMode;
use crate::send::blank_target;
use crate::send::send_plan;
use crate::state::StateModel;
use crate::text::is_space;
use crate::text::lemma_blank_trims_empty;
use crate::text::lemma_trimmed_idempotent;
use crate::text::normalized;
use crate::text::placeholder;
use crate::text::trimmed;

verus! {

/// What one external ping does to the state: a message normalizing to the
/// error hook changes nothing, any other is recorded on the external
/// channel. This is exactly what `AppState::ping_http` ensures.
pub open spec fn http_ping_step(m: StateModel, message: Option<Seq<char>>) -> StateModel {
    if normalized_opt(message) == "err"@ {
        m
    } else {
        m.with_http(normalized_opt(message))
    }
}

/// The state after a sequence of external pings, handled one at a time.
pub open spec fn after_http_pings(m: StateModel, messages: Seq<Option<Seq<char>>>) -> StateModel
    decreases messages.len(),
{
    if messages.len() == 0 {
        m
    } else {
        after_http_pings(http_ping_step(m, messages[0]), messages.drop_first())
    }
}

/// After a sequence of external pings none of which normalizes to the
/// error hook, the external counter has grown by exactly the sequence's
/// length, the last message is the last one sent (normalized), and the
/// other two channels are untouched.
pub proof fn lemma_http_ping_sequence(m: StateModel, messages: Seq<Option<Seq<char>>>)
    requires
        forall|i: int|
            0 <= i < messages.len() ==> normalized_opt(#[trigger] messages[i]) != "err"@,
        m.http_count + messages.len() <= u64::MAX,
    ensures
        after_http_pings(m, messages).http_count == m.http_count + messages.len(),
        messages.len() > 0 ==> after_http_pings(m, messages).http_last == Some(
            normalized_opt(messages.last()),
        ),
        messages.len() == 0 ==> after_http_pings(m, messages) == m,
        after_http_pings(m, messages).local_count == m.local_count,
        after_http_pings(m, messages).local_last == m.local_last,
        after_http_pings(m, messages).remote_count == m.remote_count,
        after_http_pings(m, messages).remote_last == m.remote_last,
    decreases messages.len(),
{
    if messages.len() > 0 {
        assert(normalized_opt(messages[0]) != "err"@);
        let m1 = http_ping_step(m, messages[0]);
        let rest = messages.drop_first();
        assert forall|i: int| 0 <= i < rest.len() implies normalized_opt(
            #[trigger] rest[i],
        ) != "err"@ by {
            assert(rest[i] == messages[i + 1]);
        }
        lemma_http_ping_sequence(m1, rest);
        if messages.len() > 1 {
            assert(rest.last() == messages.last());
        } else {
            assert(messages.last() == messages[0]);
        }
    }
}

/// An empty or whitespace-only message normalizes to the placeholder text,
/// so recording it on any channel still advances that channel's counter,
/// with the placeholder as the last message.
pub proof fn lemma_blank_message_records_placeholder(m: StateModel, message: Seq<char>)
    requires
        forall|i: int| 0 <= i < message.len() ==> is_space(#[trigger] message[i]),
    ensures
        normalized(message) == placeholder(),
        m.http_count < u64::MAX ==> m.with_http(normalized(message)) == (StateModel {
            http_count: (m.http_count + 1) as u64,
            http_last: Some(placeholder()),
            ..m
        }),
        m.local_count < u64::MAX ==> m.with_local(normalized(message)) == (StateModel {
            local_count: (m.local_count + 1) as u64,
            local_last: Some(placeholder()),
            ..m
        }),
        m.remote_count < u64::MAX ==> m.with_remote(normalized(message)) == (StateModel {
            remote_count: (m.remote_count + 1) as u64,
            remote_last: Some(placeholder()),
            ..m
        }),
{
    lemma_blank_trims_empty(message);
}

/// The state change a delivered payload produces on the node that receives
/// it: the tag in the payload's single key alone picks the handler, and
/// the handlers normalize before recording. This is exactly what
/// `AppState::ping_local` and `AppState::ping_remote` ensure for their
/// channels.
pub open spec fn variant_step(v: PingVariant, m: StateModel, message: Seq<char>) -> StateModel {
    match v {
        PingVariant::Local => m.with_local(normalized(message)),
        PingVariant::Remote => m.with_remote(normalized(message)),
    }
}

/// Mode `local` with a non-blank message always plans a dispatch, the plan
/// loops back to the caller's own address with the local tag, and
/// delivering it advances the local counter by exactly one — the remote
/// channel and the external channel are untouched.
pub proof fn lemma_send_local_effect(own: AddressModel, req: RequestModel, st: StateModel)
    requires
        req.mode == SendMode::Local,
        trimmed(req.message).len() > 0,
        st.local_count < u64::MAX,
    ensures
        send_plan(own, req) is Ok,
        send_plan(own, req)->Ok_0.target == own,
        send_plan(own, req)->Ok_0.variant == PingVariant::Local,
        ({
            let delivered = variant_step(
                send_plan(own, req)->Ok_0.variant,
                st,
                send_plan(own, req)->Ok_0.message,
            );
            &&& delivered.local_count == st.local_count + 1
            &&& delivered.local_last == Some(trimmed(req.message))
            &&& delivered.remote_count == st.remote_count
            &&& delivered.remote_last == st.remote_last
            &&& delivered.http_count == st.http_count
            &&& delivered.http_last == st.http_last
        }),
{
    lemma_trimmed_idempotent(req.message);
}

/// Mode `remote-mismatch` with a named target node always plans a dispatch
/// to that node (trimmed), keeps the caller's own process identity, and —
/// deliberately — carries the local tag: delivering it advances the target
/// node's local counter, not its remote counter.
pub proof fn lemma_remote_mismatch_hits_local_channel(
    own: AddressModel,
    req: RequestModel,
    target_state: StateModel,
)
    requires
        req.mode == SendMode::RemoteMismatch,
        trimmed(req.message).len() > 0,
        !blank_target(req.target_node),
        target_state.local_count < u64::MAX,
    ensures
        send_plan(own, req) is Ok,
        send_plan(own, req)->Ok_0.variant == PingVariant::Local,
        req.target_node matches Some(t) ==> send_plan(own, req)->Ok_0.target.node == trimmed(t),
        send_plan(own, req)->Ok_0.target.process == own.process,
        send_plan(own, req)->Ok_0.target.package == own.package,
        send_plan(own, req)->Ok_0.target.publisher == own.publisher,
        ({
            let delivered = variant_step(
                send_plan(own, req)->Ok_0.variant,
                target_state,
                send_plan(own, req)->Ok_0.message,
            );
            &&& delivered.local_count == target_state.local_count + 1
            &&& delivered.local_last == Some(trimmed(req.message))
            &&& delivered.remote_count == target_state.remote_count
            &&& delivered.remote_last == target_state.remote_last
        }),
{
    lemma_trimmed_idempotent(req.message);
}

/// Mode `remote-mismatch` fails with the validation error exactly when no
/// target node is named (absent, or blank after trimming) — and then no
/// dispatch is planned at all, so no network interaction can follow.
pub proof fn lemma_remote_mismatch_requires_target(own: AddressModel, req: RequestModel)
    requires
        req.mode == SendMode::RemoteMismatch,
        trimmed(req.message).len() > 0,
    ensures
        send_plan(own, req) is Err <==> blank_target(req.target_node),
        blank_target(req.target_node) ==> send_plan(own, req)->Err_0 == json_error_text(
            "remote-mismatch requires a target node"@,
        ),
{
}

/// A fresh store is internally consistent, and every record step keeps it
/// so: the counter and its last message move together, so a non-zero
/// counter always has a message beside it.
pub proof fn lemma_recording_keeps_consistency(m: StateModel, message: Seq<char>)
    requires
        m.consistent(),
    ensures
        StateModel::fresh().consistent(),
        m.with_http(message).consistent(),
        m.with_local(message).consistent(),
        m.with_remote(message).consistent(),
{
}

} // verus!
