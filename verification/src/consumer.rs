//! Decisions of the lifecycle-event consumer that keeps the profile store in
//! sync with the identity service. Delivery is at least once, so each message is
//! settled explicitly: acknowledged, negatively acknowledged (redelivered later)
//! or terminated (never redelivered).
use vstd::prelude::*;
use crate::ids::{accepted_length, parse_uuid, uuid_parse_text};
use crate::status::StoreError;

verus! {

/// Deliveries of a registration after which a failing profile creation is given
/// up and compensated.
pub const MAX_PROFILE_ATTEMPTS: i64 = 5;

/// Pause before reopening a subscription whose message stream could not be opened.
pub const REOPEN_PAUSE_SECS: u64 = 1;

/// A lifecycle event published by the identity service.
#[derive(Debug, Clone)]
pub enum LifecycleEvent {
    UserRegistered { user_id: String, display_name: String },
    UserDeleted { user_id: String, hard: bool },
    UserRestored { user_id: String },
}

impl LifecycleEvent {
    /// The text of the user id the event carries.
    pub open spec fn user_id_text(self) -> Seq<char> {
        match self {
            LifecycleEvent::UserRegistered { user_id, .. } => user_id@,
            LifecycleEvent::UserDeleted { user_id, .. } => user_id@,
            LifecycleEvent::UserRestored { user_id } => user_id@,
        }
    }

    /// The user id the event carries.
    pub fn user_id(&self) -> (s: &String)
        ensures
            s@ == self.user_id_text(),
    {
        match self {
            LifecycleEvent::UserRegistered { user_id, .. } => user_id,
            LifecycleEvent::UserDeleted { user_id, .. } => user_id,
            LifecycleEvent::UserRestored { user_id } => user_id,
        }
    }
}

/// A change to request of the profile store.
#[derive(Debug)]
pub enum StoreOp {
    /// Create the profile unless one exists already.
    UpsertProfile { user_id: u128, display_name: String },
    /// Delete the profile with the store's ordinary deletion (the event did not
    /// ask for a hard one).
    DeleteProfile { user_id: u128 },
    /// Remove the profile's row.
    HardDeleteProfile { user_id: u128 },
    /// Undo a soft deletion.
    RestoreProfile { user_id: u128 },
}

/// How a message is settled with the broker.
#[derive(Debug, Clone, Copy, PartialEq, Eq, Structural)]
pub enum Settle {
    /// Done with: never redelivered.
    Ack,
    /// Failed for now: redelivered later.
    Nak,
    /// Given up: never redelivered.
    Term,
}

/// The compensation event asking the identity service to roll back a user
/// whose profile could not be created.
#[derive(Debug)]
pub struct ProfileCreationFailed {
    pub user_id: String,
    pub reason: String,
}

/// What the consumer does next with a message.
#[derive(Debug)]
pub enum Next {
    /// Apply a change to the profile store, then report its outcome.
    Store(StoreOp),
    /// Publish a compensation event, then report whether it was published.
    Compensate(ProfileCreationFailed),
    /// Settle the message; nothing more is done with it.
    Settle(Settle),
}

/// `op` is the change that `event` calls for on the user `id`: a registration
/// upserts, a deletion deletes (hard or soft as asked), a restoration restores.
pub open spec fn op_for_event(op: StoreOp, event: LifecycleEvent, id: u128) -> bool {
    match event {
        LifecycleEvent::UserRegistered { display_name, .. } => (op matches StoreOp::UpsertProfile {
            user_id,
            display_name: d,
        } && user_id == id && d == display_name),
        LifecycleEvent::UserDeleted { hard, .. } => if hard {
            op == (StoreOp::HardDeleteProfile { user_id: id })
        } else {
            op == (StoreOp::DeleteProfile { user_id: id })
        },
        LifecycleEvent::UserRestored { .. } => op == (StoreOp::RestoreProfile { user_id: id }),
    }
}

/// Deliveries so far, as the broker reports them; none reported counts as zero.
pub open spec fn attempts(delivered: Option<i64>) -> int {
    match delivered {
        Some(d) => d as int,
        None => 0,
    }
}

/// A failed store change for `event` is given up (and compensated) rather than retried.
pub open spec fn gives_up(event: LifecycleEvent, delivered: Option<i64>) -> bool {
    event is UserRegistered && attempts(delivered) >= MAX_PROFILE_ATTEMPTS
}

/// Plans a decoded event whose user id parsed as `parsed`: an unparseable id is
/// acknowledged so that it is not redelivered; otherwise the store change follows.
pub fn plan_for_parsed(event: LifecycleEvent, parsed: Option<u128>) -> (r: Next)
    ensures
        match parsed {
            None => r == Next::Settle(Settle::Ack),
            Some(id) => r matches Next::Store(op) && op_for_event(op, event, id),
        },
{
    let id: u128 = match parsed {
        None => {
            return Next::Settle(Settle::Ack);
        },
        Some(id) => id,
    };
    match event {
        LifecycleEvent::UserRegistered { user_id: _, display_name } => Next::Store(
            StoreOp::UpsertProfile { user_id: id, display_name },
        ),
        LifecycleEvent::UserDeleted { user_id: _, hard } => {
            if hard {
                Next::Store(StoreOp::HardDeleteProfile { user_id: id })
            } else {
                Next::Store(StoreOp::DeleteProfile { user_id: id })
            }
        },
        LifecycleEvent::UserRestored { user_id: _ } => Next::Store(StoreOp::RestoreProfile { user_id: id }),
    }
}

/// Plans a freshly received message from its decoded payload (`None` when the
/// payload did not decode). Payloads that do not decode, and ids that do not
/// parse, are acknowledged: redelivering them could never succeed. A fresh
/// message is never compensated or terminated.
pub fn plan_message(event: Option<LifecycleEvent>) -> (r: Next)
    ensures
        match event {
            None => r == Next::Settle(Settle::Ack),
            Some(e) => match uuid_parse_text(e.user_id_text()) {
                None => r == Next::Settle(Settle::Ack),
                Some(id) => r matches Next::Store(op) && op_for_event(op, e, id),
            },
        },
        event matches Some(e) && !accepted_length(e.user_id_text().len()) ==> r == Next::Settle(Settle::Ack),
        !(r is Compensate),
        r != Next::Settle(Settle::Term),
{
    match event {
        None => Next::Settle(Settle::Ack),
        Some(e) => {
            let parsed: Option<u128> = parse_uuid(e.user_id().as_str());
            plan_for_parsed(e, parsed)
        },
    }
}

/// Decides what follows the store change for `event`, given its outcome and the
/// broker's delivery count. Success is acknowledged. A failed registration is
/// retried until it has been delivered the maximum number of times; then a
/// compensation naming the user and the failure is published. Other failures
/// are retried. A message is never terminated here: only a published
/// compensation ends a failed one.
pub fn after_store(event: &LifecycleEvent, outcome: Result<(), StoreError>, delivered: Option<i64>) -> (r: Next)
    ensures
        outcome is Ok ==> r == Next::Settle(Settle::Ack),
        outcome is Err && gives_up(*event, delivered) ==> (r matches Next::Compensate(c)
            && c.user_id@ == event.user_id_text() && c.reason == outcome->Err_0.detail),
        outcome is Err && !gives_up(*event, delivered) ==> r == Next::Settle(Settle::Nak),
        r != Next::Settle(Settle::Term),
{
    let failure = match outcome {
        Ok(()) => {
            return Next::Settle(Settle::Ack);
        },
        Err(e) => e,
    };
    let count: i64 = match delivered {
        Some(d) => d,
        None => 0,
    };
    match event {
        LifecycleEvent::UserRegistered { user_id, .. } => {
            if count >= MAX_PROFILE_ATTEMPTS {
                Next::Compensate(ProfileCreationFailed { user_id: user_id.clone(), reason: failure.detail })
            } else {
                Next::Settle(Settle::Nak)
            }
        },
        _ => Next::Settle(Settle::Nak),
    }
}

/// Settles a message whose compensation was or was not published: a published
/// compensation ends the message; otherwise it is redelivered and tried again.
pub fn after_compensation(published: bool) -> (r: Settle)
    ensures
        published ==> r == Settle::Term,
        !published ==> r == Settle::Nak,
{
    if published {
        Settle::Term
    } else {
        Settle::Nak
    }
}

/// Once a registration is given up at some delivery count, it is given up at
/// every later one.
pub proof fn giving_up_is_final(event: LifecycleEvent, earlier: i64, later: i64)
    requires
        gives_up(event, Some(earlier)),
        earlier <= later,
    ensures
        gives_up(event, Some(later)),
{
}

/// Only registrations are ever compensated; and a registration is never given up
/// before its maximum number of deliveries, nor when the broker reports no count.
pub proof fn compensation_needs_exhausted_registration(event: LifecycleEvent, delivered: Option<i64>)
    ensures
        gives_up(event, delivered) ==> event is UserRegistered,
        gives_up(event, delivered) ==> (delivered matches Some(d) && d >= MAX_PROFILE_ATTEMPTS),
{
}

/// A redelivered event asks for the very same store change as its first delivery:
/// the change is determined by the event and its parsed id alone.
pub proof fn redelivery_requests_the_same_change(event: LifecycleEvent, id: u128, first: StoreOp, again: StoreOp)
    requires
        op_for_event(first, event, id),
        op_for_event(again, event, id),
    ensures
        first == again,
{
}

/// What the subscription's message stream reports.
#[derive(Debug, Clone, Copy, PartialEq, Eq, Structural)]
pub enum StreamEvent {
    /// The stream of messages could not be opened.
    OpenFailed,
    /// The stream of messages was opened.
    Opened,
    /// A message arrived.
    Received,
    /// Receiving the next message failed.
    ReceiveFailed,
    /// The stream of messages ended.
    Ended,
}

/// What the subscription does next with its message stream.
#[derive(Debug, Clone, Copy, PartialEq, Eq, Structural)]
pub enum StreamAction {
    /// Wait `pause_secs`, then open the stream of messages (again).
    Open { pause_secs: u64 },
    /// Receive the next message.
    Receive,
    /// Handle the message that arrived, then receive the next one.
    HandleThenReceive,
}

/// How the subscription reacts to `event`: a failure to open is retried after a
/// pause, a failed receive or an ended stream reopens the stream at once, and
/// every message is handled before the next one is received.
pub open spec fn stream_reaction(event: StreamEvent) -> StreamAction {
    match event {
        StreamEvent::OpenFailed => StreamAction::Open { pause_secs: REOPEN_PAUSE_SECS },
        StreamEvent::Opened => StreamAction::Receive,
        StreamEvent::Received => StreamAction::HandleThenReceive,
        StreamEvent::ReceiveFailed => StreamAction::Open { pause_secs: 0 },
        StreamEvent::Ended => StreamAction::Open { pause_secs: 0 },
    }
}

/// Decides what the subscription does after `event`.
pub fn on_stream_event(event: StreamEvent) -> (a: StreamAction)
    ensures
        a == stream_reaction(event),
{
    match event {
        StreamEvent::OpenFailed => StreamAction::Open { pause_secs: REOPEN_PAUSE_SECS },
        StreamEvent::Opened => StreamAction::Receive,
        StreamEvent::Received => StreamAction::HandleThenReceive,
        StreamEvent::ReceiveFailed => StreamAction::Open { pause_secs: 0 },
        StreamEvent::Ended => StreamAction::Open { pause_secs: 0 },
    }
}

/// `a` asks the stream for more: it opens the stream or receives from it.
pub open spec fn asks_for_more(a: StreamAction) -> bool {
    ||| a is Open
    ||| a is Receive
    ||| a is HandleThenReceive
}

/// The reactions of a subscription to a run of stream events, one per event.
pub open spec fn reactions(events: Seq<StreamEvent>) -> Seq<StreamAction> {
    events.map_values(|e: StreamEvent| stream_reaction(e))
}

/// Consumption never stops: whatever the stream reports, faults included, the
/// subscription's next action asks the stream for more messages; after a fault it
/// is reopened, never given up.
pub proof fn consumption_never_stops(events: Seq<StreamEvent>)
    ensures
        reactions(events).len() == events.len(),
        forall|i: int| 0 <= i < events.len() ==> asks_for_more(#[trigger] reactions(events)[i]),
        forall|i: int|
            0 <= i < events.len() && (events[i] == StreamEvent::OpenFailed || events[i] == StreamEvent::ReceiveFailed
                || events[i] == StreamEvent::Ended) ==> #[trigger] reactions(events)[i] is Open,
{
}

/// Which lifecycle event a subscription receives.
#[derive(Debug, Clone, Copy, PartialEq, Eq, Structural)]
pub enum EventKind {
    Registered,
    Deleted,
    Restored,
}

/// The subject on which the lifecycle events of `kind` are published.
pub fn subject_for(kind: EventKind) -> (s: &'static str)
    ensures
        kind == EventKind::Registered ==> s@ == "iam.user.registered"@,
        kind == EventKind::Deleted ==> s@ == "iam.user.deleted"@,
        kind == EventKind::Restored ==> s@ == "iam.user.restored"@,
{
    match kind {
        EventKind::Registered => "iam.user.registered",
        EventKind::Deleted => "iam.user.deleted",
        EventKind::Restored => "iam.user.restored",
    }
}

/// The subject on which compensations are published.
pub fn compensation_subject() -> (s: &'static str)
    ensures
        s@ == "iam.user.profile_failed"@,
{
    "iam.user.profile_failed"
}

/// A durable pull subscription with explicit acknowledgement.
#[derive(Debug)]
pub struct Subscription {
    pub durable_name: String,
    pub kind: EventKind,
}

/// The consumer's subscriptions: one durable subscription per lifecycle event.
pub fn subscriptions() -> (r: Vec<Subscription>)
    ensures
        r@.len() == 3,
        r@[0].durable_name@ == "user-service-registered"@ && r@[0].kind == EventKind::Registered,
        r@[1].durable_name@ == "user-service-deleted"@ && r@[1].kind == EventKind::Deleted,
        r@[2].durable_name@ == "user-service-restored"@ && r@[2].kind == EventKind::Restored,
{
    let mut r: Vec<Subscription> = Vec::new();
    r.push(Subscription { durable_name: "user-service-registered".to_owned(), kind: EventKind::Registered });
    r.push(Subscription { durable_name: "user-service-deleted".to_owned(), kind: EventKind::Deleted });
    r.push(Subscription { durable_name: "user-service-restored".to_owned(), kind: EventKind::Restored });
    r
}

} // verus!
