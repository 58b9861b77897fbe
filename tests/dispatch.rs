use user_notification::{ApprovalType, NotifyAction, UserNotification, UserNotifier};

fn s(x: &str) -> String {
    x.to_string()
}

fn events() -> Vec<UserNotification> {
    vec![
        UserNotification::SessionStart { thread_id: s("t1"), cwd: s("/proj"), pid: 100 },
        UserNotification::SessionEnd { thread_id: s("t1") },
        UserNotification::ApprovalResponse {
            thread_id: s("t1"),
            turn_id: None,
            request_id: Some(s("r9")),
            approved: true,
        },
        UserNotification::TurnCancelled { thread_id: s("t1"), turn_id: s("2") },
    ]
}

#[test]
fn scenario_session_start() {
    let n = UserNotification::SessionStart { thread_id: s("t1"), cwd: s("/proj"), pid: 100 };
    assert_eq!(
        n.to_json().unwrap(),
        r#"{"type":"session-start","thread-id":"t1","cwd":"/proj","pid":100}"#
    );
}

#[test]
fn scenario_approval_requested_exec() {
    let n = UserNotification::ApprovalRequested {
        thread_id: s("t1"),
        turn_id: Some(s("5")),
        request_id: None,
        approval_type: ApprovalType::Exec,
        description: s("run tests"),
    };
    let j = n.to_json().unwrap();
    assert_eq!(
        j,
        r#"{"type":"approval-requested","thread-id":"t1","turn-id":"5","approval-type":"exec","description":"run tests"}"#
    );
    assert!(!j.contains("request-id"));
}

#[test]
fn scenario_turn_cancelled() {
    let n = UserNotification::TurnCancelled { thread_id: s("t1"), turn_id: s("2") };
    assert_eq!(n.to_json().unwrap(), r#"{"type":"turn-cancelled","thread-id":"t1","turn-id":"2"}"#);
}

#[test]
fn no_command_launches_nothing() {
    let none = UserNotifier::new(None);
    let empty = UserNotifier::new(Some(vec![]));
    let default = UserNotifier::default();
    for e in events() {
        assert_eq!(none.notify(&e), NotifyAction::Skip);
        assert_eq!(empty.notify(&e), NotifyAction::Skip);
        assert_eq!(default.notify(&e), NotifyAction::Skip);
    }
    assert!(!none.has_command());
    assert!(!empty.has_command());
}

#[test]
fn echo_gets_one_launch_per_event() {
    let n = UserNotifier::new(Some(vec![s("echo")]));
    assert!(n.has_command());
    for e in events() {
        let json = e.to_json().unwrap();
        assert_eq!(n.notify(&e), NotifyAction::Launch(vec![s("echo"), json]));
    }
}

#[test]
fn fixed_arguments_come_before_payload() {
    let n = UserNotifier::new(Some(vec![s("notify-send"), s("-a"), s("agent")]));
    let e = UserNotification::SessionEnd { thread_id: s("x") };
    assert_eq!(
        n.notify(&e),
        NotifyAction::Launch(vec![
            s("notify-send"),
            s("-a"),
            s("agent"),
            s(r#"{"type":"session-end","thread-id":"x"}"#),
        ])
    );
    assert_eq!(n.command_for(s("p")), Some(vec![s("notify-send"), s("-a"), s("agent"), s("p")]));
}

#[test]
fn missing_program_is_still_planned_and_later_calls_work() {
    let n = UserNotifier::new(Some(vec![s("/nonexistent/notifier-program")]));
    for e in events() {
        match n.notify(&e) {
            NotifyAction::Launch(line) => {
                assert_eq!(line.len(), 2);
                assert_eq!(line[1], e.to_json().unwrap());
            }
            other => panic!("unexpected action {:?}", other),
        }
    }
}

#[test]
fn command_for_without_command() {
    assert_eq!(UserNotifier::new(None).command_for(s("p")), None);
    assert_eq!(UserNotifier::new(Some(vec![])).command_for(s("p")), None);
}
