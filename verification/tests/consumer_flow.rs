//! The consume-dispatch-commit loop on concrete message sequences, with the
//! real JSON decoding linked in.

use taskdist::consumer::{Action, Consumer, Event, Resolution};
use taskdist::registry::{default_registry, HandlerKind};

fn running_consumer() -> Consumer {
    let mut c = Consumer::new(default_registry());
    let a = c.step(Event::SubscribeSucceeded);
    assert_eq!(a, Action::Proceed);
    c
}

fn message(offset: u64, text: &str) -> Event {
    Event::MessageArrived { offset, text: text.to_string() }
}

#[test]
fn email_scenario_dispatches_and_commits() {
    let text = r#"{"type":"email","payload":{"to":"a@b.com","subject":"Hi","body":"Hi there!"}}"#;
    let mut c = running_consumer();

    let a = c.step(message(0, text));
    match a {
        Action::InvokeHandler { handler, kind, text: invoked } => {
            assert_eq!(handler, HandlerKind::Email);
            assert_eq!(kind, "email");
            assert!(invoked.contains(r#""to":"a@b.com""#));
        }
        other => panic!("expected a handler invocation, got {:?}", other),
    }
    assert_eq!(c.committed(), 0, "no commit before the handler returns");

    let a = c.step(Event::HandlerFinished { succeeded: true });
    assert_eq!(
        a,
        Action::Commit {
            next: 1,
            outcome: Resolution::Handled { kind: "email".to_string(), succeeded: true },
        }
    );
    assert_eq!(c.committed(), 1);
}

#[test]
fn raw_bytes_not_json_commit_without_handler() {
    let mut c = running_consumer();
    let a = c.step(message(0, "not-json"));
    assert_eq!(a, Action::Commit { next: 1, outcome: Resolution::DecodeFailed });
    assert_eq!(c.committed(), 1, "the offset advances past the malformed message");
}

#[test]
fn malformed_message_does_not_block_the_partition() {
    let mut c = running_consumer();

    let a = c.step(message(0, "{{{ definitely not json"));
    assert_eq!(a, Action::Commit { next: 1, outcome: Resolution::DecodeFailed });

    let a = c.step(message(1, r#"{"type":"sms","payload":{"to":"+1234567890"}}"#));
    match a {
        Action::InvokeHandler { handler, kind, .. } => {
            assert_eq!(handler, HandlerKind::Sms);
            assert_eq!(kind, "sms");
        }
        other => panic!("well-formed follower not dispatched: {:?}", other),
    }
    let a = c.step(Event::HandlerFinished { succeeded: true });
    assert_eq!(
        a,
        Action::Commit {
            next: 2,
            outcome: Resolution::Handled { kind: "sms".to_string(), succeeded: true },
        }
    );
    assert_eq!(c.committed(), 2);
}

#[test]
fn unknown_kind_does_not_block_the_partition() {
    let mut c = running_consumer();

    let a = c.step(message(0, r#"{"type":"carrier-pigeon","payload":{}}"#));
    assert_eq!(
        a,
        Action::Commit { next: 1, outcome: Resolution::UnknownKind("carrier-pigeon".to_string()) }
    );

    let a = c.step(message(1, r#"{"type":"push","payload":{"device_id":"abc123"}}"#));
    match a {
        Action::InvokeHandler { handler, kind, .. } => {
            assert_eq!(handler, HandlerKind::Push);
            assert_eq!(kind, "push");
        }
        other => panic!("follower of an unknown kind not dispatched: {:?}", other),
    }
}

#[test]
fn missing_or_nonstring_kind_is_malformed() {
    let mut c = running_consumer();
    let a = c.step(message(0, r#"{"payload":{"to":"a@b.com"}}"#));
    assert_eq!(a, Action::Commit { next: 1, outcome: Resolution::MissingKind });

    let a = c.step(message(1, r#"{"type":42,"payload":{}}"#));
    assert_eq!(a, Action::Commit { next: 2, outcome: Resolution::MissingKind });
}

#[test]
fn handler_failure_still_commits() {
    let mut c = running_consumer();
    let a = c.step(message(0, r#"{"type":"email","payload":{}}"#));
    assert!(matches!(a, Action::InvokeHandler { .. }));

    let a = c.step(Event::HandlerFinished { succeeded: false });
    assert_eq!(
        a,
        Action::Commit {
            next: 1,
            outcome: Resolution::Handled { kind: "email".to_string(), succeeded: false },
        }
    );
    assert_eq!(c.committed(), 1);
}

#[test]
fn per_partition_order_is_preserved() {
    let mut c = running_consumer();
    let mut routed: Vec<String> = Vec::new();

    for (offset, text) in [
        (0u64, r#"{"type":"email","payload":{"n":1}}"#),
        (1u64, r#"{"type":"sms","payload":{"n":2}}"#),
    ] {
        let a = c.step(message(offset, text));
        match a {
            Action::InvokeHandler { kind, .. } => {
                routed.push(kind);
                let a = c.step(Event::HandlerFinished { succeeded: true });
                match a {
                    Action::Commit { next, .. } => assert_eq!(next, offset + 1),
                    other => panic!("expected a commit, got {:?}", other),
                }
            }
            other => panic!("expected a handler invocation, got {:?}", other),
        }
    }
    assert_eq!(routed, vec!["email".to_string(), "sms".to_string()]);
    assert_eq!(c.committed(), 2);
}

#[test]
fn pull_error_retries_without_advancing() {
    let mut c = running_consumer();
    let a = c.step(Event::PullFailed);
    assert_eq!(a, Action::Retry);
    assert_eq!(c.committed(), 0);
    assert!(!c.stopped());
}

#[test]
fn committed_offset_never_moves_backwards() {
    let mut c = running_consumer();
    let a = c.step(message(5, "not-json"));
    assert_eq!(a, Action::Commit { next: 6, outcome: Resolution::DecodeFailed });
    assert_eq!(c.committed(), 6);

    // A redelivery of an earlier offset still resolves, but the recorded
    // position does not go back.
    let a = c.step(message(2, "not-json"));
    assert_eq!(a, Action::Commit { next: 3, outcome: Resolution::DecodeFailed });
    assert_eq!(c.committed(), 6);
}

#[test]
fn subscribe_failure_is_fatal() {
    let mut c = Consumer::new(default_registry());
    let a = c.step(Event::SubscribeFailed);
    assert_eq!(a, Action::Stop { fatal: true });
    assert!(c.stopped());
}

#[test]
fn shutdown_stops_cleanly() {
    let mut c = running_consumer();
    let a = c.step(Event::ShutdownRequested);
    assert_eq!(a, Action::Stop { fatal: false });
    assert!(c.stopped());

    // A stopped machine ignores further traffic.
    let a = c.step(message(0, r#"{"type":"email","payload":{}}"#));
    assert_eq!(a, Action::Proceed);
    assert_eq!(c.committed(), 0);
}

#[test]
fn consumer_options_are_the_documented_knobs() {
    let opts = taskdist::consumer::consumer_options();
    assert_eq!(
        opts,
        vec![
            ("enable.partition.eof", "false"),
            ("session.timeout.ms", "6000"),
            ("enable.auto.commit", "false"),
        ]
    );
}
