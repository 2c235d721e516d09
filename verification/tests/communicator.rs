use xojo_mcp::communicator::{
    candidate_paths, is_retryable, resolve_socket_name, retry_pause, summarize_errors,
    unique_socket_paths, Attempts, Communicator, FrameBuffer, ProbeFailure, Step,
    DEFAULT_SOCKET_NAME, MAX_RETRIES,
};
use xojo_mcp::communicator::{build_payload, decode_frame, is_reply_for, judge_frame, reply_step, tag_for, FrameStep};
use xojo_mcp::json::{Json, JsonNumber};

#[test]
fn collapses_identical_errors() {
    let errs = vec!["socket not found".to_string(); 5];
    assert_eq!(summarize_errors(&errs), "socket not found (×5)");
}

#[test]
fn preserves_first_seen_order_with_counts() {
    let errs = vec![
        "a".to_string(),
        "b".to_string(),
        "a".to_string(),
        "b".to_string(),
        "b".to_string(),
    ];
    assert_eq!(summarize_errors(&errs), "a (×2); b (×3)");
}

#[test]
fn singletons_have_no_count_suffix() {
    let errs = vec!["only one".to_string()];
    assert_eq!(summarize_errors(&errs), "only one");
}

#[test]
fn empty_input_returns_empty_string() {
    let errs: Vec<String> = Vec::new();
    assert_eq!(summarize_errors(&errs), "");
}

#[test]
fn socket_name_defaults_without_xojo_ipcpath() {
    assert_eq!(resolve_socket_name(None), DEFAULT_SOCKET_NAME);
    assert_eq!(
        resolve_socket_name(Some(String::new())),
        DEFAULT_SOCKET_NAME
    );
}

#[test]
fn socket_name_uses_valid_xojo_ipcpath() {
    assert_eq!(
        resolve_socket_name(Some("Xojo2026r2_1".into())),
        "Xojo2026r2_1"
    );
}

#[test]
fn socket_name_rejects_invalid_characters() {
    for bad in ["../escape", "Xojo 2026", "Xojo2026r2.1"] {
        assert_eq!(resolve_socket_name(Some(bad.into())), DEFAULT_SOCKET_NAME);
    }
}

#[test]
fn candidates_cover_tmp_and_tmpdir() {
    let paths = candidate_paths("XojoIDE", Some("/var/folders/xx/T/".into()));
    assert_eq!(
        paths,
        vec![
            "/tmp/XojoIDE".to_string(),
            "/private/tmp/XojoIDE".to_string(),
            "/var/folders/xx/T/XojoIDE".to_string(),
        ]
    );
}

#[test]
fn candidates_skip_empty_tmpdir() {
    assert_eq!(candidate_paths("XojoIDE", None).len(), 2);
    assert_eq!(candidate_paths("XojoIDE", Some("".into())).len(), 2);
}

#[test]
fn candidates_join_tmpdir_without_trailing_slash() {
    let paths = candidate_paths("XojoIDE", Some("/var/tmp".into()));
    assert_eq!(paths[2], "/var/tmp/XojoIDE");
}

#[test]
fn duplicate_sockets_are_probed_once() {
    let paths = vec![
        "/tmp/XojoIDE".to_string(),
        "/private/tmp/XojoIDE".to_string(),
        "/var/T/XojoIDE".to_string(),
    ];
    let canonical = vec![
        "/private/tmp/XojoIDE".to_string(),
        "/private/tmp/XojoIDE".to_string(),
        "/var/T/XojoIDE".to_string(),
    ];
    assert_eq!(
        unique_socket_paths(paths, &canonical),
        vec!["/tmp/XojoIDE".to_string(), "/var/T/XojoIDE".to_string()]
    );
}

#[test]
fn transient_errors_are_retryable() {
    assert!(is_retryable("IPC socket not found at: /tmp/XojoIDE"));
    assert!(is_retryable("IPCSocket connect failed at /tmp/X: Connection refused (os error 61)"));
    assert!(is_retryable("No IPCSocket response from /tmp/X (timeout)"));
    assert!(is_retryable("IPCSocket connection closed by /tmp/X"));
    assert!(!is_retryable("Invalid JSON in IPC frame: expected value"));
}

#[test]
fn pauses_double_and_stop_growing() {
    assert_eq!(retry_pause(1), 100);
    assert_eq!(retry_pause(2), 200);
    assert_eq!(retry_pause(4), 800);
    assert_eq!(retry_pause(7), 6400);
    assert_eq!(retry_pause(40), 6400);
    assert_eq!(retry_pause(0), 100);
}

#[test]
fn tags_count_up() {
    let c = Communicator::new(false);
    assert_eq!(c.next_tag(), "xmcp_0");
    assert_eq!(c.next_tag(), "xmcp_1");
    assert_eq!(tag_for(42), "xmcp_42");
}

#[test]
fn payload_is_handshake_then_request() {
    let p = build_payload("xmcp_3", "Print \"hi\"");
    assert_eq!(
        p,
        "{\"protocol\":2}\u{0}{\"script\":\"Print \\\"hi\\\"\",\"tag\":\"xmcp_3\"}\u{0}"
    );
}

#[test]
fn frames_are_cut_at_nul() {
    let mut b = FrameBuffer::new();
    b.push_bytes(b"  {\"tag\":1}\0{\"ta");
    assert_eq!(b.next_frame(), Some(b"  {\"tag\":1}".to_vec()));
    assert_eq!(b.next_frame(), None);
    b.push_bytes(b"g\":2}\0");
    assert_eq!(b.next_frame(), Some(b"{\"tag\":2}".to_vec()));
    b.compact();
    assert_eq!(b.next_frame(), None);
}

#[test]
fn compaction_keeps_pending_bytes() {
    let mut b = FrameBuffer::new();
    let mut data = vec![b'x'; 5000];
    data.push(0);
    data.extend_from_slice(b"rest");
    b.push_bytes(&data);
    assert_eq!(b.next_frame().map(|f| f.len()), Some(5000));
    b.compact();
    assert_eq!(b.cursor, 0);
    assert_eq!(b.buffer, b"rest".to_vec());
}

#[test]
fn frames_decode_and_trim() {
    assert_eq!(decode_frame(b"  hello \n"), Ok(Some("hello".to_string())));
    assert_eq!(decode_frame(b"   "), Ok(None));
    let err = decode_frame(&[0xff, 0xfe]).unwrap_err();
    assert!(err.starts_with("Invalid UTF-8 in IPC frame: "));
}

#[test]
fn replies_are_matched_by_tag() {
    let reply = Json::Object(vec![
        ("tag".to_string(), Json::String("xmcp_7".to_string())),
        ("response".to_string(), Json::String("ok".to_string())),
    ]);
    assert!(is_reply_for(&reply, "xmcp_7"));
    assert!(!is_reply_for(&reply, "xmcp_8"));
    let numeric = Json::Object(vec![(
        "tag".to_string(),
        Json::Number(JsonNumber::PosInt(7)),
    )]);
    assert!(!is_reply_for(&numeric, "7"));
}

#[test]
fn retry_loop_gives_up_after_every_round() {
    let mut a = Attempts::start(1);
    let mut probes = 0;
    let mut pauses = Vec::new();
    loop {
        match a.step() {
            Step::Probe(k) => {
                assert_eq!(k, 0);
                probes += 1;
                a.record("/tmp/XojoIDE", ProbeFailure::Missing);
            }
            Step::Pause(ms) => {
                pauses.push(ms);
                a.resume();
            }
            Step::GiveUp(msg) => {
                assert_eq!(msg, "IPC socket not found at: /tmp/XojoIDE (×5)");
                break;
            }
        }
    }
    assert_eq!(probes, MAX_RETRIES);
    assert_eq!(pauses, vec![100, 200, 400, 800]);
}

#[test]
fn retry_loop_stops_after_a_lasting_failure() {
    let mut a = Attempts::start(2);
    a.record("/tmp/X", ProbeFailure::Missing);
    a.record("/other/X", ProbeFailure::Failed("Invalid JSON in IPC frame: bad".to_string()));
    match a.step() {
        Step::GiveUp(msg) => assert_eq!(
            msg,
            "IPC socket not found at: /tmp/X; Invalid JSON in IPC frame: bad"
        ),
        _ => panic!("expected the loop to give up"),
    }
}

#[test]
fn retry_loop_without_candidates_reports_none_found() {
    let mut a = Attempts::start(0);
    loop {
        match a.step() {
            Step::Probe(_) => panic!("no candidate to probe"),
            Step::Pause(_) => a.resume(),
            Step::GiveUp(msg) => {
                assert_eq!(msg, "No IPC socket candidates found.");
                break;
            }
        }
    }
}

#[test]
fn frames_are_judged_by_parse_and_tag() {
    let mine = Json::Object(vec![("tag".to_string(), Json::String("xmcp_2".to_string()))]);
    assert!(matches!(reply_step(Ok(mine), "xmcp_2"), FrameStep::Reply(_)));
    let other = Json::Object(vec![("tag".to_string(), Json::String("xmcp_1".to_string()))]);
    assert!(matches!(reply_step(Ok(other), "xmcp_2"), FrameStep::Next));
    match reply_step(Err("EOF while parsing".to_string()), "xmcp_2") {
        FrameStep::Fail(m) => assert_eq!(m, "Invalid JSON in IPC frame: EOF while parsing"),
        _ => panic!("expected a failure"),
    }
}

#[test]
fn whole_frames_are_decoded_parsed_and_matched() {
    assert!(matches!(judge_frame(b" {\"tag\":\"xmcp_3\",\"response\":\"ok\"} ", "xmcp_3"), FrameStep::Reply(_)));
    assert!(matches!(judge_frame(b"{\"tag\":\"xmcp_2\"}", "xmcp_3"), FrameStep::Next));
    assert!(matches!(judge_frame(b"   ", "xmcp_3"), FrameStep::Next));
    match judge_frame(b"{oops", "xmcp_3") {
        FrameStep::Fail(m) => assert!(m.starts_with("Invalid JSON in IPC frame: "), "{m}"),
        _ => panic!("expected a failure"),
    }
    match judge_frame(&[0xff, 0xfe], "xmcp_3") {
        FrameStep::Fail(m) => assert!(m.starts_with("Invalid UTF-8 in IPC frame: "), "{m}"),
        _ => panic!("expected a failure"),
    }
}
