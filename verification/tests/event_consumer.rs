use iam_user::consumer::{
    after_compensation, after_store, compensation_subject, on_stream_event, plan_for_parsed, plan_message,
    subject_for, subscriptions, EventKind, LifecycleEvent, Next, Settle, StoreOp, StreamAction, StreamEvent,
    MAX_PROFILE_ATTEMPTS,
};
use iam_user::startup::{after_connect_attempt, ConnectStep, CONNECT_PAUSE_SECS, MAX_CONNECT_ATTEMPTS};
use iam_user::status::StoreError;

const ID_TEXT: &str = "67e55044-10b1-426f-9247-bb680e5fe0c8";
const ID: u128 = 0x67e5504410b1426f9247bb680e5fe0c8;

fn registered() -> LifecycleEvent {
    LifecycleEvent::UserRegistered { user_id: ID_TEXT.to_string(), display_name: "Grace".to_string() }
}

fn failure() -> Result<(), StoreError> {
    Err(StoreError { detail: "duplicate key".to_string() })
}

fn is_settle(n: &Next, s: Settle) -> bool {
    matches!(n, Next::Settle(x) if *x == s)
}

#[test]
fn undecodable_payload_is_acked() {
    assert!(is_settle(&plan_message(None), Settle::Ack));
}

#[test]
fn unparseable_user_id_is_acked() {
    let e = LifecycleEvent::UserDeleted { user_id: "nope".to_string(), hard: false };
    assert!(is_settle(&plan_message(Some(e)), Settle::Ack));
    assert!(is_settle(&plan_for_parsed(registered(), None), Settle::Ack));
}

#[test]
fn registration_upserts_the_profile() {
    match plan_message(Some(registered())) {
        Next::Store(StoreOp::UpsertProfile { user_id, display_name }) => {
            assert_eq!(user_id, ID);
            assert_eq!(display_name, "Grace");
        }
        other => panic!("unexpected plan {:?}", other),
    }
}

#[test]
fn deletion_is_soft_unless_hard() {
    let soft = LifecycleEvent::UserDeleted { user_id: ID_TEXT.to_string(), hard: false };
    assert!(matches!(plan_message(Some(soft)), Next::Store(StoreOp::DeleteProfile { user_id }) if user_id == ID));
    let hard = LifecycleEvent::UserDeleted { user_id: ID_TEXT.to_string(), hard: true };
    assert!(matches!(plan_message(Some(hard)), Next::Store(StoreOp::HardDeleteProfile { user_id }) if user_id == ID));
}

#[test]
fn restoration_restores_the_profile() {
    let e = LifecycleEvent::UserRestored { user_id: ID_TEXT.to_string() };
    assert!(matches!(plan_message(Some(e)), Next::Store(StoreOp::RestoreProfile { user_id }) if user_id == ID));
}

#[test]
fn successful_store_is_acked() {
    assert!(is_settle(&after_store(&registered(), Ok(()), Some(9)), Settle::Ack));
    let e = LifecycleEvent::UserRestored { user_id: ID_TEXT.to_string() };
    assert!(is_settle(&after_store(&e, Ok(()), None), Settle::Ack));
}

#[test]
fn failed_registration_is_retried_before_the_limit() {
    for d in [None, Some(0), Some(1), Some(MAX_PROFILE_ATTEMPTS - 1)] {
        assert!(is_settle(&after_store(&registered(), failure(), d), Settle::Nak));
    }
}

#[test]
fn failed_registration_is_compensated_at_the_limit() {
    for d in [MAX_PROFILE_ATTEMPTS, MAX_PROFILE_ATTEMPTS + 1, 100] {
        match after_store(&registered(), failure(), Some(d)) {
            Next::Compensate(c) => {
                assert_eq!(c.user_id, ID_TEXT);
                assert_eq!(c.reason, "duplicate key");
            }
            other => panic!("unexpected step {:?}", other),
        }
    }
}

#[test]
fn failed_deletion_and_restoration_are_always_retried() {
    let del = LifecycleEvent::UserDeleted { user_id: ID_TEXT.to_string(), hard: true };
    assert!(is_settle(&after_store(&del, failure(), Some(50)), Settle::Nak));
    let res = LifecycleEvent::UserRestored { user_id: ID_TEXT.to_string() };
    assert!(is_settle(&after_store(&res, failure(), Some(50)), Settle::Nak));
}

#[test]
fn compensation_terminates_only_when_published() {
    assert_eq!(after_compensation(true), Settle::Term);
    assert_eq!(after_compensation(false), Settle::Nak);
}

#[test]
fn stream_faults_reopen_the_stream() {
    assert_eq!(on_stream_event(StreamEvent::OpenFailed), StreamAction::Open { pause_secs: 1 });
    assert_eq!(on_stream_event(StreamEvent::ReceiveFailed), StreamAction::Open { pause_secs: 0 });
    assert_eq!(on_stream_event(StreamEvent::Ended), StreamAction::Open { pause_secs: 0 });
}

#[test]
fn messages_are_handled_then_the_next_received() {
    assert_eq!(on_stream_event(StreamEvent::Opened), StreamAction::Receive);
    assert_eq!(on_stream_event(StreamEvent::Received), StreamAction::HandleThenReceive);
}

#[test]
fn a_run_of_faults_never_stops_consumption() {
    let run = [
        StreamEvent::OpenFailed,
        StreamEvent::OpenFailed,
        StreamEvent::Opened,
        StreamEvent::Received,
        StreamEvent::ReceiveFailed,
        StreamEvent::Opened,
        StreamEvent::Ended,
    ];
    for e in run {
        let a = on_stream_event(e);
        assert!(matches!(a, StreamAction::Open { .. } | StreamAction::Receive | StreamAction::HandleThenReceive));
    }
}

#[test]
fn subjects_per_event_kind() {
    assert_eq!(subject_for(EventKind::Registered), "iam.user.registered");
    assert_eq!(subject_for(EventKind::Deleted), "iam.user.deleted");
    assert_eq!(subject_for(EventKind::Restored), "iam.user.restored");
    assert_eq!(compensation_subject(), "iam.user.profile_failed");
}

#[test]
fn ids_of_the_wrong_length_are_acked() {
    let e = LifecycleEvent::UserRestored { user_id: "67e55044-10b1-426f-9247-bb680e5fe0c".to_string() };
    assert!(is_settle(&plan_message(Some(e)), Settle::Ack));
}

#[test]
fn one_durable_subscription_per_event() {
    let subs = subscriptions();
    assert_eq!(subs.len(), 3);
    assert_eq!(subs[0].durable_name, "user-service-registered");
    assert_eq!(subs[0].kind, EventKind::Registered);
    assert_eq!(subs[1].durable_name, "user-service-deleted");
    assert_eq!(subs[1].kind, EventKind::Deleted);
    assert_eq!(subs[2].durable_name, "user-service-restored");
    assert_eq!(subs[2].kind, EventKind::Restored);
}

#[test]
fn connect_attempts_are_bounded() {
    assert_eq!(after_connect_attempt(1, true), ConnectStep::Ready);
    assert_eq!(after_connect_attempt(1, false), ConnectStep::Retry { pause_secs: CONNECT_PAUSE_SECS });
    assert_eq!(after_connect_attempt(14, false), ConnectStep::Retry { pause_secs: 2 });
    assert_eq!(after_connect_attempt(MAX_CONNECT_ATTEMPTS, false), ConnectStep::GiveUp { pause_secs: 2 });
    assert_eq!(after_connect_attempt(MAX_CONNECT_ATTEMPTS, true), ConnectStep::Ready);
}

#[test]
fn a_run_of_failures_makes_fifteen_attempts() {
    let mut attempt = 1;
    let mut made = 0;
    loop {
        made += 1;
        match after_connect_attempt(attempt, false) {
            ConnectStep::Retry { .. } => attempt += 1,
            ConnectStep::GiveUp { .. } => break,
            ConnectStep::Ready => unreachable!(),
        }
    }
    assert_eq!(made, 15);
}
