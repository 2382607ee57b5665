use skeleton_app::Address;
use skeleton_app::AppState;
use skeleton_app::Channel;
use skeleton_app::CounterSnapshot;
use skeleton_app::decimal_string;
use skeleton_app::record_line;
use skeleton_app::DispatchOutcome;
use skeleton_app::PingVariant;
use skeleton_app::SendMessageRequest;
use skeleton_app::SendMode;
use skeleton_app::encode_dispatch_body;
use skeleton_app::interpret_dispatch_outcome;
use skeleton_app::json_error;
use skeleton_app::json_tagged;
use skeleton_app::normalize;
use skeleton_app::resolve_target;
use skeleton_app::send_message;
use skeleton_app::trim;

fn own_address() -> Address {
    Address {
        node: "alice.os".to_string(),
        process: "skeleton-app".to_string(),
        package: "skeleton-app".to_string(),
        publisher: "skeleton.os".to_string(),
    }
}

fn request(mode: SendMode, message: &str, target_node: Option<&str>) -> SendMessageRequest {
    SendMessageRequest {
        mode,
        message: message.to_string(),
        target_node: target_node.map(|t| t.to_string()),
    }
}

#[test]
fn http_ping_sequence_counts_and_last_message() {
    let mut state = AppState::default();
    let messages = ["first", "  second  ", "third"];
    for (i, message) in messages.iter().enumerate() {
        let r = state.ping_http(Some(message.to_string()));
        let snapshot = r.expect("a non-err ping succeeds");
        assert_eq!(snapshot.http_count, (i + 1) as u64);
    }
    let snapshot = state.snapshot();
    assert_eq!(snapshot.http_count, 3);
    assert_eq!(snapshot.http_last_message.as_deref(), Some("third"));
    assert_eq!(snapshot.local_count, 0);
    assert_eq!(snapshot.remote_count, 0);
}

#[test]
fn http_ping_trims_message() {
    let mut state = AppState::default();
    let snapshot = state.ping_http(Some("  hello world \n".to_string())).unwrap();
    assert_eq!(snapshot.http_last_message.as_deref(), Some("hello world"));
}

#[test]
fn http_ping_err_fails_and_changes_nothing() {
    let mut state = AppState::default();
    state.ping_http(Some("warmup".to_string())).unwrap();
    let before = state.snapshot();
    let r = state.ping_http(Some("err".to_string()));
    assert_eq!(r, Err("{\"error\":\"simulated error: err\"}".to_string()));
    assert_eq!(state.snapshot(), before);
}

#[test]
fn http_ping_err_with_surrounding_whitespace_still_fails() {
    let mut state = AppState::default();
    let before = state.snapshot();
    let r = state.ping_http(Some("  err \t".to_string()));
    assert!(r.is_err());
    assert_eq!(state.snapshot(), before);
}

#[test]
fn http_ping_absent_message_records_placeholder() {
    let mut state = AppState::default();
    let snapshot = state.ping_http(None).unwrap();
    assert_eq!(snapshot.http_count, 1);
    assert_eq!(snapshot.http_last_message.as_deref(), Some("(empty message)"));
}

#[test]
fn blank_messages_record_placeholder_on_every_channel() {
    let mut state = AppState::default();
    let http = state.ping_http(Some("   ".to_string())).unwrap();
    assert_eq!(http.http_count, 1);
    assert_eq!(http.http_last_message.as_deref(), Some("(empty message)"));
    let local = state.ping_local(" \t\r\n ".to_string()).unwrap();
    assert_eq!(local.local_count, 1);
    assert_eq!(local.local_last_message.as_deref(), Some("(empty message)"));
    let remote = state.ping_remote("\u{a0}\u{2003}\u{3000}".to_string()).unwrap();
    assert_eq!(remote.remote_count, 1);
    assert_eq!(remote.remote_last_message.as_deref(), Some("(empty message)"));
}

#[test]
fn trim_matches_std_trim() {
    let samples = [
        "",
        "   ",
        "plain",
        "  spaced out  ",
        "\t\ntabs and newlines\r\n",
        "\u{a0}no-break\u{a0}",
        "\u{2028}line\u{2029}",
        "\u{1680}\u{205f}ogham and mmsp\u{3000}",
        "inner   spaces stay",
        "\u{200b}zero width space is not whitespace\u{200b}",
    ];
    for s in samples {
        assert_eq!(trim(s), s.trim(), "sample {s:?}");
    }
}

#[test]
fn normalize_trims_or_substitutes() {
    assert_eq!(normalize("  hi  "), "hi");
    assert_eq!(normalize("hi"), "hi");
    assert_eq!(normalize(""), "(empty message)");
    assert_eq!(normalize(" \u{85} "), "(empty message)");
}

#[test]
fn ping_local_and_remote_touch_only_their_channel() {
    let mut state = AppState::default();
    let snapshot = state.ping_local("to self".to_string()).unwrap();
    assert_eq!(snapshot.local_count, 1);
    assert_eq!(snapshot.local_last_message.as_deref(), Some("to self"));
    assert_eq!(snapshot.http_count, 0);
    assert_eq!(snapshot.remote_count, 0);
    let snapshot = state.ping_remote("from afar".to_string()).unwrap();
    assert_eq!(snapshot.remote_count, 1);
    assert_eq!(snapshot.remote_last_message.as_deref(), Some("from afar"));
    assert_eq!(snapshot.local_count, 1);
}

#[test]
fn get_counters_equals_snapshot() {
    let mut state = AppState::default();
    state.ping_local("x".to_string()).unwrap();
    assert_eq!(state.get_counters(), state.snapshot());
}

#[test]
fn resolve_target_defaults_to_own_node() {
    let own = own_address();
    let target = resolve_target(&own, &None);
    assert_eq!(target.node, "alice.os");
    let target = resolve_target(&own, &Some("   ".to_string()));
    assert_eq!(target.node, "alice.os");
}

#[test]
fn resolve_target_trims_override_and_keeps_identity() {
    let own = own_address();
    let target = resolve_target(&own, &Some("  bob.os \n".to_string()));
    assert_eq!(target.node, "bob.os");
    assert_eq!(target.process, "skeleton-app");
    assert_eq!(target.package, "skeleton-app");
    assert_eq!(target.publisher, "skeleton.os");
}

#[test]
fn send_message_rejects_blank_message() {
    let own = own_address();
    for message in ["", "   ", "\t\n"] {
        let r = send_message(&own, &request(SendMode::Local, message, None));
        assert_eq!(r.unwrap_err(), "{\"error\":\"message cannot be empty\"}");
    }
}

#[test]
fn send_message_local_loops_back_with_local_tag() {
    let own = own_address();
    let plan = send_message(&own, &request(SendMode::Local, " hi there ", None)).unwrap();
    assert_eq!(plan.target.node, "alice.os");
    assert_eq!(plan.target.process, "skeleton-app");
    assert_eq!(plan.variant, PingVariant::Local);
    assert_eq!(plan.message, "hi there");
    assert_eq!(plan.timeout, 5);
}

#[test]
fn send_message_remote_targets_override_with_remote_tag() {
    let own = own_address();
    let plan = send_message(&own, &request(SendMode::Remote, "hi", Some(" bob.os "))).unwrap();
    assert_eq!(plan.target.node, "bob.os");
    assert_eq!(plan.variant, PingVariant::Remote);
    assert_eq!(plan.timeout, 5);
}

#[test]
fn send_message_remote_without_target_loops_back() {
    let own = own_address();
    let plan = send_message(&own, &request(SendMode::Remote, "hi", None)).unwrap();
    assert_eq!(plan.target.node, "alice.os");
    assert_eq!(plan.variant, PingVariant::Remote);
}

#[test]
fn send_message_mismatch_requires_target_node() {
    let own = own_address();
    for target in [None, Some(""), Some("  ")] {
        let r = send_message(&own, &request(SendMode::RemoteMismatch, "hi", target));
        assert_eq!(
            r.unwrap_err(),
            "{\"error\":\"remote-mismatch requires a target node\"}"
        );
    }
}

#[test]
fn send_message_mismatch_carries_local_tag_to_remote_node() {
    let own = own_address();
    let plan =
        send_message(&own, &request(SendMode::RemoteMismatch, "hi", Some("bob.os"))).unwrap();
    assert_eq!(plan.target.node, "bob.os");
    assert_eq!(plan.variant, PingVariant::Local);
}

#[test]
fn local_send_delivered_to_self_increments_local_count_only() {
    let own = own_address();
    let mut state = AppState::default();
    state.ping_remote("earlier".to_string()).unwrap();
    let plan = send_message(&own, &request(SendMode::Local, "loop", None)).unwrap();
    let response = match plan.variant {
        PingVariant::Local => state.ping_local(plan.message.clone()),
        PingVariant::Remote => state.ping_remote(plan.message.clone()),
    };
    let returned = interpret_dispatch_outcome(DispatchOutcome::Response(response)).unwrap();
    assert_eq!(returned, state.snapshot());
    assert_eq!(returned.local_count, 1);
    assert_eq!(returned.local_last_message.as_deref(), Some("loop"));
    assert_eq!(returned.remote_count, 1);
}

#[test]
fn mismatch_delivery_increments_target_local_counter_not_remote() {
    let own = own_address();
    let mut target_state = AppState::default();
    let plan =
        send_message(&own, &request(SendMode::RemoteMismatch, "probe", Some("bob.os"))).unwrap();
    let response = match plan.variant {
        PingVariant::Local => target_state.ping_local(plan.message.clone()),
        PingVariant::Remote => target_state.ping_remote(plan.message.clone()),
    };
    let snapshot = response.unwrap();
    assert_eq!(snapshot.local_count, 1);
    assert_eq!(snapshot.remote_count, 0);
    assert_eq!(snapshot.local_last_message.as_deref(), Some("probe"));
}

#[test]
fn transport_failure_is_framed_and_state_stays_unmodified() {
    let mut state = AppState::default();
    state.ping_local("before".to_string()).unwrap();
    let before = state.snapshot();
    let r = interpret_dispatch_outcome(DispatchOutcome::Transport(
        "timeout: no response within 5".to_string(),
    ));
    assert_eq!(
        r.unwrap_err(),
        "{\"error\":\"timeout: no response within 5\"}"
    );
    assert_eq!(state.snapshot(), before);
}

#[test]
fn remote_error_is_propagated_verbatim() {
    let remote_error = "{\"error\":\"simulated error: err\"}".to_string();
    let r = interpret_dispatch_outcome(DispatchOutcome::Response(Err(remote_error.clone())));
    assert_eq!(r.unwrap_err(), remote_error);
}

#[test]
fn successful_response_is_returned_unchanged() {
    let mut state = AppState::default();
    let snapshot = state.ping_remote("pong".to_string()).unwrap();
    let r = interpret_dispatch_outcome(DispatchOutcome::Response(Ok(snapshot.clone())));
    assert_eq!(r.unwrap(), snapshot);
}

#[test]
fn nonzero_counters_always_have_a_last_message() {
    let mut state = AppState::default();
    let checks = |s: &CounterSnapshot| {
        assert_eq!(s.http_count > 0, s.http_last_message.is_some());
        assert_eq!(s.local_count > 0, s.local_last_message.is_some());
        assert_eq!(s.remote_count > 0, s.remote_last_message.is_some());
    };
    checks(&state.snapshot());
    state.ping_http(Some("a".to_string())).unwrap();
    checks(&state.snapshot());
    state.ping_local("b".to_string()).unwrap();
    checks(&state.snapshot());
    state.ping_remote(String::new()).unwrap();
    checks(&state.snapshot());
}

#[test]
fn default_snapshot_is_fresh() {
    let snapshot = CounterSnapshot::default();
    assert_eq!(snapshot.http_count, 0);
    assert_eq!(snapshot.http_last_message, None);
    assert_eq!(snapshot.local_count, 0);
    assert_eq!(snapshot.local_last_message, None);
    assert_eq!(snapshot.remote_count, 0);
    assert_eq!(snapshot.remote_last_message, None);
}

#[test]
fn dispatch_body_is_the_single_key_tagged_object() {
    assert_eq!(
        encode_dispatch_body(PingVariant::Local, "hello"),
        "{\"PingLocal\":\"hello\"}"
    );
    assert_eq!(
        encode_dispatch_body(PingVariant::Remote, "hello"),
        "{\"PingRemote\":\"hello\"}"
    );
}

#[test]
fn json_error_escapes_like_serde_json() {
    let samples = [
        "boom",
        "quote \" backslash \\ done",
        "newline\nand tab\t",
        "control \u{1} \u{1f} \u{b}",
        "unicode ✓ stays",
    ];
    for message in samples {
        let mut fields = serde_json::Map::new();
        fields.insert(
            "error".to_string(),
            serde_json::Value::String(message.to_string()),
        );
        let expected = serde_json::Value::Object(fields).to_string();
        assert_eq!(json_error(message), expected, "sample {message:?}");
    }
}

#[test]
fn dispatch_body_escapes_like_serde_json() {
    let samples = ["plain", "with \"quotes\"", "line\nbreak", "check ✓"];
    for message in samples {
        let mut fields = serde_json::Map::new();
        fields.insert(
            "PingLocal".to_string(),
            serde_json::Value::String(message.to_string()),
        );
        let expected = serde_json::Value::Object(fields).to_string();
        assert_eq!(
            encode_dispatch_body(PingVariant::Local, message),
            expected,
            "sample {message:?}"
        );
    }
}

#[test]
fn json_tagged_escapes_the_key_too() {
    assert_eq!(json_tagged("a\"b", "c\\d"), "{\"a\\\"b\":\"c\\\\d\"}");
}

#[test]
fn decimal_rendering_matches_formatting() {
    let samples = [0u64, 7, 10, 99, 100, 4096, 123456789, u64::MAX - 1, u64::MAX];
    for n in samples {
        assert_eq!(decimal_string(n), format!("{n}"));
    }
    assert_eq!(decimal_string(u64::MAX), "18446744073709551615");
}

#[test]
fn record_lines_have_the_documented_shape() {
    assert_eq!(record_line(Channel::Http, 1, "hello"), "[HTTP] #1 message: hello");
    assert_eq!(
        record_line(Channel::Local, 42, "(empty message)"),
        "[LOCAL] #42 message: (empty message)"
    );
    assert_eq!(record_line(Channel::Remote, 10, "probe"), "[REMOTE] #10 message: probe");
}

#[test]
fn dispatch_body_decodes_to_the_message() {
    let body = encode_dispatch_body(PingVariant::Remote, "round trip ✓");
    let value: serde_json::Value = serde_json::from_str(&body).unwrap();
    assert_eq!(
        value.get("PingRemote").and_then(|v| v.as_str()),
        Some("round trip ✓")
    );
}
