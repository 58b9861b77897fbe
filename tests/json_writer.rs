use user_notification::json::{quote_plain, render_array, render_bool, render_object, render_u32};
use user_notification::notification::quote;
use user_notification::{ApprovalType, UserNotification};

fn s(x: &str) -> String {
    x.to_string()
}

#[test]
fn numbers_are_decimal() {
    assert_eq!(render_u32(0), "0");
    assert_eq!(render_u32(7), "7");
    assert_eq!(render_u32(100), "100");
    assert_eq!(render_u32(4294967295), "4294967295");
}

#[test]
fn booleans_are_literals() {
    assert_eq!(render_bool(true), "true");
    assert_eq!(render_bool(false), "false");
}

#[test]
fn objects_and_arrays() {
    assert_eq!(render_object(&vec![]), "{}");
    assert_eq!(render_object(&vec![(s("a"), s("1")), (s("b-c"), s("true"))]), r#"{"a":1,"b-c":true}"#);
    assert_eq!(render_array(&vec![]), "[]");
    assert_eq!(render_array(&vec![s("1"), s("\"x\"")]), r#"[1,"x"]"#);
    assert_eq!(quote_plain("exec"), "\"exec\"");
}

#[test]
fn strings_are_escaped() {
    assert_eq!(quote("plain").unwrap(), "\"plain\"");
    assert_eq!(quote("say \"hi\"\n").unwrap(), r#""say \"hi\"\n""#);
    assert_eq!(quote("back\\slash\t").unwrap(), r#""back\\slash\t""#);
    assert_eq!(quote("").unwrap(), "\"\"");
}

#[test]
fn escaping_inside_notifications() {
    let n = UserNotification::UserPromptSubmit {
        thread_id: s("t"),
        turn_id: s("1"),
        cwd: s("C:\\work"),
        prompt: s("line one\nline \"two\""),
    };
    assert_eq!(
        n.to_json().unwrap(),
        r#"{"type":"user-prompt-submit","thread-id":"t","turn-id":"1","cwd":"C:\\work","prompt":"line one\nline \"two\""}"#
    );
}

#[test]
fn turn_complete_optional_and_list_edges() {
    let none = UserNotification::AgentTurnComplete {
        thread_id: s("t"),
        turn_id: s("3"),
        cwd: s("/"),
        input_messages: vec![],
        last_assistant_message: None,
    };
    assert_eq!(
        none.to_json().unwrap(),
        r#"{"type":"agent-turn-complete","thread-id":"t","turn-id":"3","cwd":"/","input-messages":[]}"#
    );
    let two = UserNotification::AgentTurnComplete {
        thread_id: s("t"),
        turn_id: s("3"),
        cwd: s("/"),
        input_messages: vec![s("a"), s("b\"")],
        last_assistant_message: Some(s("")),
    };
    assert_eq!(
        two.to_json().unwrap(),
        r#"{"type":"agent-turn-complete","thread-id":"t","turn-id":"3","cwd":"/","input-messages":["a","b\""],"last-assistant-message":""}"#
    );
}

#[test]
fn every_variant_has_its_tag_and_fields() {
    let cases: Vec<(UserNotification, &str, Vec<&str>)> = vec![
        (UserNotification::SessionStart { thread_id: s("t"), cwd: s("/"), pid: 1 }, "session-start", vec!["thread-id", "cwd", "pid"]),
        (UserNotification::SessionEnd { thread_id: s("t") }, "session-end", vec!["thread-id"]),
        (
            UserNotification::UserPromptSubmit { thread_id: s("t"), turn_id: s("1"), cwd: s("/"), prompt: s("p") },
            "user-prompt-submit",
            vec!["thread-id", "turn-id", "cwd", "prompt"],
        ),
        (
            UserNotification::ApprovalRequested {
                thread_id: s("t"),
                turn_id: None,
                request_id: Some(s("r")),
                approval_type: ApprovalType::Elicitation,
                description: s("d"),
            },
            "approval-requested",
            vec!["thread-id", "request-id", "approval-type", "description"],
        ),
        (
            UserNotification::ApprovalResponse { thread_id: s("t"), turn_id: Some(s("1")), request_id: None, approved: true },
            "approval-response",
            vec!["thread-id", "turn-id", "approved"],
        ),
        (
            UserNotification::AgentTurnComplete {
                thread_id: s("t"),
                turn_id: s("1"),
                cwd: s("/"),
                input_messages: vec![s("m")],
                last_assistant_message: Some(s("l")),
            },
            "agent-turn-complete",
            vec!["thread-id", "turn-id", "cwd", "input-messages", "last-assistant-message"],
        ),
        (UserNotification::TurnCancelled { thread_id: s("t"), turn_id: s("1") }, "turn-cancelled", vec!["thread-id", "turn-id"]),
    ];
    for (n, tag, keys) in cases {
        let j = n.to_json().unwrap();
        assert_eq!(n.tag_str(), tag);
        assert!(j.starts_with(&format!("{{\"type\":\"{}\"", tag)));
        for k in keys {
            assert!(j.contains(&format!("\"{}\":", k)), "{} lacks {}", j, k);
        }
        assert!(!j.contains("null"));
    }
    assert_eq!(ApprovalType::Patch.as_str(), "patch");
}
