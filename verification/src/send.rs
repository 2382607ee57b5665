//! The dispatcher and the outward-facing `send_message` entry point.
//!
//! Sending crosses a process boundary, so the work is split around that
//! seam: `send_message` validates the request and plans the dispatch,
//! `encode_dispatch_body` frames the payload, and
//! `interpret_dispatch_outcome` turns whatever came back into the
//! snapshot-or-error the caller sees. The caller performs the send itself
//! (with the plan's bounded wait) and feeds the outcome back in; none of
//! these functions touches the local state store.

use vstd::prelude::*;
use vstd::string::StrSliceExecFns;

use crate::address::Address;
use crate::address::AddressModel;
use crate::address::resolve_target;
use crate::address::resolved_node;
use crate::json::json_error;
use crate::json::json_error_text;
use crate::json::json_tagged;
use crate::json::json_tagged_text;
use crate::state::CounterSnapshot;
use crate::state::StateModel;
use crate::state::opt_text;
use crate::text::trim;
use crate::text::trimmed;

verus! {

/// How long a dispatch waits for its response, in the transport's time
/// units, before it fails with a timeout.
pub const DISPATCH_TIMEOUT: u64 = 5;

/// The mode selector of a send request.
#[derive(Clone, Copy, Debug, PartialEq, Eq, Structural)]
pub enum SendMode {
    /// Loop back to this node's own local handler.
    Local,
    /// Send to the target node's remote handler.
    Remote,
    /// Send to the target node, deliberately tagged for its local handler.
    RemoteMismatch,
}

/// Which inbound handler a dispatched payload invokes. The tag travels in
/// the payload's single key, so a mismatched tag reaches the handler the
/// tag names, not the one the mode name suggests.
#[derive(Clone, Copy, Debug, PartialEq, Eq, Structural)]
pub enum PingVariant {
    Local,
    Remote,
}

/// The wire tag that names each handler.
pub open spec fn variant_tag(v: PingVariant) -> Seq<char> {
    match v {
        PingVariant::Local => "PingLocal"@,
        PingVariant::Remote => "PingRemote"@,
    }
}

/// The wire tag that names each handler.
pub fn variant_tag_str(v: PingVariant) -> (r: &'static str)
    ensures
        r@ == variant_tag(v),
{
    match v {
        PingVariant::Local => "PingLocal",
        PingVariant::Remote => "PingRemote",
    }
}

/// One outward send request: a mode, the message, and an optional
/// target-node name.
pub struct SendMessageRequest {
    pub mode: SendMode,
    pub message: String,
    pub target_node: Option<String>,
}

/// The mathematical value of a send request.
pub ghost struct RequestModel {
    pub mode: SendMode,
    pub message: Seq<char>,
    pub target_node: Option<Seq<char>>,
}

impl View for SendMessageRequest {
    type V = RequestModel;

    open spec fn view(&self) -> RequestModel {
        RequestModel {
            mode: self.mode,
            message: self.message@,
            target_node: opt_text(self.target_node),
        }
    }
}

/// Everything a dispatch needs: where to send, which handler to invoke,
/// the (trimmed) message, and the bounded wait.
#[derive(Debug)]
pub struct DispatchPlan {
    pub target: Address,
    pub variant: PingVariant,
    pub message: String,
    pub timeout: u64,
}

/// The mathematical value of a dispatch plan.
pub ghost struct PlanModel {
    pub target: AddressModel,
    pub variant: PingVariant,
    pub message: Seq<char>,
    pub timeout: u64,
}

impl View for DispatchPlan {
    type V = PlanModel;

    open spec fn view(&self) -> PlanModel {
        PlanModel {
            target: self.target@,
            variant: self.variant,
            message: self.message@,
            timeout: self.timeout,
        }
    }
}

/// A target-node override that names nothing: absent, or blank after
/// trimming.
pub open spec fn blank_target(t: Option<Seq<char>>) -> bool {
    match t {
        None => true,
        Some(s) => trimmed(s).len() == 0,
    }
}

/// What `send_message` decides for a request: the dispatch to perform, or
/// the validation error it fails with before any dispatch is attempted.
pub open spec fn send_plan(own: AddressModel, req: RequestModel) -> Result<PlanModel, Seq<char>> {
    let m = trimmed(req.message);
    if m.len() == 0 {
        Err(json_error_text("message cannot be empty"@))
    } else {
        match req.mode {
            SendMode::Local => Ok(
                PlanModel {
                    target: own,
                    variant: PingVariant::Local,
                    message: m,
                    timeout: DISPATCH_TIMEOUT,
                },
            ),
            SendMode::Remote => Ok(
                PlanModel {
                    target: AddressModel {
                        node: resolved_node(own.node, req.target_node),
                        ..own
                    },
                    variant: PingVariant::Remote,
                    message: m,
                    timeout: DISPATCH_TIMEOUT,
                },
            ),
            SendMode::RemoteMismatch => {
                if blank_target(req.target_node) {
                    Err(json_error_text("remote-mismatch requires a target node"@))
                } else {
                    Ok(
                        PlanModel {
                            target: AddressModel {
                                node: resolved_node(own.node, req.target_node),
                                ..own
                            },
                            variant: PingVariant::Local,
                            message: m,
                            timeout: DISPATCH_TIMEOUT,
                        },
                    )
                }
            },
        }
    }
}

/// The value of a planning result, member for member.
pub open spec fn plan_result_view(r: Result<DispatchPlan, String>) -> Result<
    PlanModel,
    Seq<char>,
> {
    match r {
        Ok(p) => Ok(p@),
        Err(e) => Err(e@),
    }
}

/// The orchestration entry point: validates the request and, unless a
/// validation error stops it first, resolves the target and picks the
/// variant tag for the mode — `remote-mismatch` deliberately pairs a
/// remote target with the local tag.
pub fn send_message(own: &Address, request: &SendMessageRequest) -> (r: Result<
    DispatchPlan,
    String,
>)
    ensures
        plan_result_view(r) == send_plan(own@, request@),
{
    let m = trim(request.message.as_str());
    if m.as_str().is_empty() {
        return Err(json_error("message cannot be empty"));
    }
    match request.mode {
        SendMode::Local => {
            let target = resolve_target(own, &None);
            Ok(DispatchPlan { target, variant: PingVariant::Local, message: m, timeout: DISPATCH_TIMEOUT })
        },
        SendMode::Remote => {
            let target = resolve_target(own, &request.target_node);
            Ok(DispatchPlan { target, variant: PingVariant::Remote, message: m, timeout: DISPATCH_TIMEOUT })
        },
        SendMode::RemoteMismatch => {
            let blank = match &request.target_node {
                None => true,
                Some(t) => trim(t.as_str()).as_str().is_empty(),
            };
            if blank {
                Err(json_error("remote-mismatch requires a target node"))
            } else {
                let target = resolve_target(own, &request.target_node);
                Ok(DispatchPlan { target, variant: PingVariant::Local, message: m, timeout: DISPATCH_TIMEOUT })
            }
        },
    }
}

/// Frames the payload a plan sends: the single-key tagged object whose key
/// names the handler and whose value is the message.
pub fn encode_dispatch_body(variant: PingVariant, message: &str) -> (r: String)
    ensures
        r@ == json_tagged_text(variant_tag(variant), message@),
{
    json_tagged(variant_tag_str(variant), message)
}

/// What a performed dispatch came back with: a decoded response, or a
/// transport failure (no delivery, or no response within the wait).
pub enum DispatchOutcome {
    Response(Result<CounterSnapshot, String>),
    Transport(String),
}

/// Turns a dispatch outcome into what the caller sees: a snapshot for a
/// successful response, a remote error propagated unchanged, and a
/// transport failure framed as an error envelope.
pub fn interpret_dispatch_outcome(outcome: DispatchOutcome) -> (r: Result<CounterSnapshot, String>)
    ensures
        match outcome {
            DispatchOutcome::Response(Ok(s)) => r is Ok && r->Ok_0@ == s@,
            DispatchOutcome::Response(Err(e)) => r is Err && r->Err_0@ == e@,
            DispatchOutcome::Transport(e) => r is Err && r->Err_0@ == json_error_text(e@),
        },
{
    match outcome {
        DispatchOutcome::Response(Ok(snapshot)) => Ok(snapshot),
        DispatchOutcome::Response(Err(remote_error)) => Err(remote_error),
        DispatchOutcome::Transport(transport_error) => Err(
            json_error(transport_error.as_str()),
        ),
    }
}

} // verus!
