//! A minimal inter-process messaging core for a distributed node runtime.
//!
//! The library keeps per-channel counters and last-seen messages, normalizes
//! inbound message text, resolves target addresses, and plans outbound
//! dispatches. All transport and serialization happens outside; the logic
//! here is verified.

mod address;
mod handlers;
mod json;
mod laws;
mod log;
mod send;
mod state;
mod text;

pub use address::Address;
pub use address::AddressModel;
pub use address::resolve_target;
pub use address::resolved_node;
pub use handlers::normalized_opt;
pub use handlers::simulated_error_text;
pub use json::escaped_char;
pub use json::hex_digit;
pub use json::json_error;
pub use json::json_error_text;
pub use json::json_escaped;
pub use json::json_tagged;
pub use json::json_tagged_text;
pub use json::lemma_json_escaped_push;
pub use laws::after_http_pings;
pub use laws::http_ping_step;
pub use laws::lemma_blank_message_records_placeholder;
pub use laws::lemma_http_ping_sequence;
pub use laws::lemma_recording_keeps_consistency;
pub use laws::lemma_remote_mismatch_hits_local_channel;
pub use laws::lemma_remote_mismatch_requires_target;
pub use laws::lemma_send_local_effect;
pub use laws::variant_step;
pub use log::Channel;
pub use log::channel_tag;
pub use log::channel_tag_str;
pub use log::dec_digit;
pub use log::decimal;
pub use log::decimal_string;
pub use log::record_line;
pub use log::record_line_text;
pub use send::DISPATCH_TIMEOUT;
pub use send::DispatchOutcome;
pub use send::DispatchPlan;
pub use send::PingVariant;
pub use send::PlanModel;
pub use send::RequestModel;
pub use send::SendMessageRequest;
pub use send::SendMode;
pub use send::blank_target;
pub use send::encode_dispatch_body;
pub use send::interpret_dispatch_outcome;
pub use send::plan_result_view;
pub use send::send_message;
pub use send::send_plan;
pub use send::variant_tag;
pub use send::variant_tag_str;
pub use state::AppState;
pub use state::CounterSnapshot;
pub use state::StateModel;
pub use state::opt_text;
pub use text::is_space;
pub use text::is_space_char;
pub use text::lemma_blank_trims_empty;
pub use text::lemma_trim_back_head;
pub use text::lemma_trim_back_last;
pub use text::lemma_trim_front_head;
pub use text::lemma_trimmed_idempotent;
pub use text::normalize;
pub use text::normalized;
pub use text::placeholder;
pub use text::trim;
pub use text::trim_back;
pub use text::trim_front;
pub use text::trimmed;
