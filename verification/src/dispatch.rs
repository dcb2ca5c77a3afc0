//! The decision logic of the dispatch loop: which subscriptions an event
//! triggers, what payload each triggered subscription is sent, the status
//! line reported for each delivery outcome, and the reconnect state
//! machine that keeps the loop running across stream failures.
//!
//! The loop itself performs stream reads, waits and gateway calls; every
//! choice it makes is computed here.

use vstd::prelude::*;
use vstd::string::StringExecFns;
use crate::rules::EventKind;
use crate::rules::ObservedEvent;
use crate::subscription::{NotifyEndpoint, NotifyKind, Subscription, subscription_triggered};

verus! {

/// Why a payload could not be built for an otherwise matched event: the
/// notification title needs the event's kind and action, and matching
/// treats an absent field as satisfying a wildcard, so a matched event
/// may still lack either.
#[derive(Clone, Copy, Debug, PartialEq, Eq, Structural)]
pub enum DeliveryError {
    MissingKind,
    MissingAction,
}

impl DeliveryError {
    /// The error detail reported in the delivery's status line.
    pub open spec fn spec_message(self) -> Seq<char> {
        match self {
            DeliveryError::MissingKind => "missing event type"@,
            DeliveryError::MissingAction => "missing event action"@,
        }
    }

    /// The error detail reported in the delivery's status line.
    pub fn message(&self) -> (r: &'static str)
        ensures
            r@ == self.spec_message(),
    {
        match self {
            DeliveryError::MissingKind => "missing event type",
            DeliveryError::MissingAction => "missing event action",
        }
    }
}

/// One notification ready to be sent to the gateway.
#[derive(Debug)]
pub struct NotifyPayload {
    /// The gateway key the notification is addressed to.
    pub key: String,
    /// Human-readable title: the event's kind and action.
    pub title: String,
    /// The message body: the serialized form of the raw event.
    pub body: String,
    /// The urgency class configured for the target, if any.
    pub message_type: Option<NotifyKind>,
    /// The tag configured for the target, if any.
    pub tag: Option<String>,
}

/// The title composed for an event: its kind's name and its action,
/// separated by one space.
pub open spec fn title_of(kind: EventKind, action: Seq<char>) -> Seq<char> {
    kind.spec_label() + " "@ + action
}

/// Exactly when payload construction succeeds, and what each outcome
/// holds: success needs the event's kind and action, and the payload then
/// carries the target's key, the composed title, the given body and the
/// target's type and tag; failure names the missing field.
pub open spec fn payload_outcome_matches(
    endpoint: NotifyEndpoint,
    e: ObservedEvent,
    body: String,
    outcome: Result<NotifyPayload, DeliveryError>,
) -> bool {
    match outcome {
        Result::Ok(p) => {
            &&& e.kind is Some
            &&& e.action is Some
            &&& p.key == endpoint.key
            &&& p.title@ == title_of(e.kind->Some_0, e.action->Some_0@)
            &&& p.body == body
            &&& p.message_type == endpoint.message_type
            &&& p.tag == endpoint.tag
        },
        Result::Err(DeliveryError::MissingKind) => e.kind is None,
        Result::Err(DeliveryError::MissingAction) => e.kind is Some && e.action is None,
    }
}

/// Builds the notification payload for one triggered subscription: the
/// target's key, the serialized event as the body, a title composed from
/// the event's kind and action, and the target's type and tag. Fails
/// with a missing-field error when the event lacks the kind or the
/// action the title needs.
pub fn build_payload(endpoint: &NotifyEndpoint, event: &ObservedEvent, body: String) -> (r: Result<
    NotifyPayload,
    DeliveryError,
>)
    ensures
        payload_outcome_matches(*endpoint, *event, body, r),
{
    let kind = match &event.kind {
        Option::Some(k) => *k,
        Option::None => {
            return Result::Err(DeliveryError::MissingKind);
        },
    };
    let action = match &event.action {
        Option::Some(a) => a,
        Option::None => {
            return Result::Err(DeliveryError::MissingAction);
        },
    };
    let mut title = String::new();
    title.append(kind.label());
    title.append(" ");
    title.append(action.as_str());
    proof {
        assert(title@ =~= title_of(kind, action@));
    }
    let tag = match &endpoint.tag {
        Option::Some(t) => Option::Some(t.clone()),
        Option::None => Option::None,
    };
    Result::Ok(NotifyPayload {
        key: endpoint.key.clone(),
        title,
        body,
        message_type: endpoint.message_type,
        tag,
    })
}

/// One delivery planned for an event: the target key it is reported
/// under, and either the payload to send or the reason none could be
/// built. Sibling deliveries are independent: each is sent and reported
/// on its own.
#[derive(Debug)]
pub struct PlannedDelivery {
    pub key: String,
    pub outcome: Result<NotifyPayload, DeliveryError>,
}

/// The indices of the subscriptions an event triggers, in subscription
/// order: one delivery is planned for each.
pub open spec fn delivery_plan(subs: Seq<Subscription>, e: ObservedEvent) -> Seq<int>
    decreases subs.len(),
{
    if subs.len() == 0 {
        Seq::empty()
    } else {
        let prev = delivery_plan(subs.drop_last(), e);
        if subscription_triggered(subs.last(), e) {
            prev.push(subs.len() - 1)
        } else {
            prev
        }
    }
}

/// Evaluates one event against every subscription and plans one delivery
/// per triggered subscription, in subscription order. Subscriptions the
/// event does not trigger get no delivery.
pub fn evaluate_event(subs: &Vec<Subscription>, event: &ObservedEvent, body: &String) -> (r: Vec<
    PlannedDelivery,
>)
    ensures
        r.len() == delivery_plan(subs@, *event).len(),
        forall|k: int|
            #![trigger r[k]]
            0 <= k < r.len() ==> {
                let idx = delivery_plan(subs@, *event)[k];
                &&& 0 <= idx < subs.len()
                &&& r[k].key == subs[idx].endpoint.key
                &&& payload_outcome_matches(subs[idx].endpoint, *event, *body, r[k].outcome)
            },
{
    let mut out: Vec<PlannedDelivery> = Vec::new();
    let mut i: usize = 0;
    proof {
        assert(subs@.take(0) =~= Seq::<Subscription>::empty());
    }
    while i < subs.len()
        invariant
            i <= subs.len(),
            out.len() == delivery_plan(subs@.take(i as int), *event).len(),
            forall|k: int|
                #![trigger out[k]]
                0 <= k < out.len() ==> {
                    let idx = delivery_plan(subs@.take(i as int), *event)[k];
                    &&& 0 <= idx < subs.len()
                    &&& out[k].key == subs[idx].endpoint.key
                    &&& payload_outcome_matches(subs[idx].endpoint, *event, *body, out[k].outcome)
                },
        decreases subs.len() - i,
    {
        let s = &subs[i];
        let ghost prev_plan = delivery_plan(subs@.take(i as int), *event);
        if s.is_triggered(event) {
            let outcome = build_payload(&s.endpoint, event, body.clone());
            out.push(PlannedDelivery { key: s.endpoint.key.clone(), outcome });
        }
        proof {
            assert(subs@.take(i as int + 1).drop_last() =~= subs@.take(i as int));
            assert(subs@.take(i as int + 1).last() == subs@[i as int]);
        }
        i = i + 1;
    }
    proof {
        assert(subs@.take(subs@.len() as int) =~= subs@);
    }
    out
}

/// An event triggers a subscription exactly when the delivery plan for
/// that event contains the subscription's index: every triggered
/// subscription gets a delivery and no other does.
pub proof fn lemma_delivery_plan_exact(subs: Seq<Subscription>, e: ObservedEvent, i: int)
    requires
        0 <= i < subs.len(),
    ensures
        subscription_triggered(subs[i], e) <==> delivery_plan(subs, e).contains(i),
    decreases subs.len(),
{
    let plan = delivery_plan(subs, e);
    let prev = delivery_plan(subs.drop_last(), e);
    if i == subs.len() - 1 {
        if subscription_triggered(subs[i], e) {
            assert(plan[plan.len() - 1] == i);
            assert(plan.contains(i));
        } else {
            assert forall|k: int| 0 <= k < prev.len() implies #[trigger] prev[k] != i by {
                lemma_delivery_plan_bounds(subs.drop_last(), e, k);
            }
            assert(!plan.contains(i));
        }
    } else {
        lemma_delivery_plan_exact(subs.drop_last(), e, i);
        assert(subs.drop_last()[i] == subs[i]);
        if subscription_triggered(subs.last(), e) {
            if prev.contains(i) {
                let k = choose|k: int| 0 <= k < prev.len() && prev[k] == i;
                assert(plan[k] == i);
                assert(plan.contains(i));
            }
            if plan.contains(i) {
                let k = choose|k: int| 0 <= k < plan.len() && plan[k] == i;
                assert(k < plan.len() - 1);
                assert(prev[k] == i);
                assert(prev.contains(i));
            }
        }
    }
}

/// Every index in a delivery plan points into the subscription list.
pub proof fn lemma_delivery_plan_bounds(subs: Seq<Subscription>, e: ObservedEvent, k: int)
    requires
        0 <= k < delivery_plan(subs, e).len(),
    ensures
        0 <= delivery_plan(subs, e)[k] < subs.len(),
    decreases subs.len(),
{
    if subs.len() > 0 {
        let prev = delivery_plan(subs.drop_last(), e);
        if k < prev.len() {
            lemma_delivery_plan_bounds(subs.drop_last(), e, k);
        }
    }
}

/// The status line reported for one delivery outcome: the target key and
/// "notified" on success, or the key and the error detail on failure.
/// Each outcome gets its own line, independent of sibling deliveries.
pub fn outcome_line(key: &String, error: &Option<String>) -> (r: String)
    ensures
        *error is None ==> r@ == key@ + " notified"@,
        *error matches Option::Some(detail) ==> r@ == "Error can't notify "@ + key@ + " : "@
            + detail@,
{
    match error {
        Option::None => {
            let mut line = String::new();
            line.append(key.as_str());
            line.append(" notified");
            proof {
                assert(line@ =~= key@ + " notified"@);
            }
            line
        },
        Option::Some(detail) => {
            let mut line = String::new();
            line.append("Error can't notify ");
            line.append(key.as_str());
            line.append(" : ");
            line.append(detail.as_str());
            proof {
                assert(line@ =~= "Error can't notify "@ + key@ + " : "@ + detail@);
            }
            line
        },
    }
}

/// The wait, in seconds, between losing the stream and trying to open a
/// fresh one.
pub const RECONNECT_WAIT_SECS: u64 = 2;

/// The phase the dispatch loop is in.
#[derive(Clone, Copy, Debug, PartialEq, Eq, Structural)]
pub enum LoopState {
    /// Opening a fresh event stream.
    Connecting,
    /// Reading events from an open stream.
    Streaming,
    /// The stream was lost; waiting before reconnecting.
    Disconnected,
}

/// What the loop observed in its current phase.
#[derive(Clone, Copy, Debug, PartialEq, Eq, Structural)]
pub enum LoopInput {
    /// A fresh stream was opened.
    Opened,
    /// The stream could not be opened.
    OpenFailed,
    /// The stream yielded an event.
    Item,
    /// The stream yielded an error.
    ItemError,
    /// The stream finished.
    Ended,
    /// The reconnect wait elapsed.
    Waited,
}

/// What the loop does next.
#[derive(Clone, Copy, Debug, PartialEq, Eq, Structural)]
pub enum LoopAction {
    /// Open a fresh event stream.
    OpenStream,
    /// Read the next stream element.
    AwaitItem,
    /// Evaluate the event against every subscription, dispatch one
    /// delivery per triggered subscription, then read the next element.
    ProcessEvent,
    /// Report the connection loss and wait [`RECONNECT_WAIT_SECS`].
    ReportLossAndWait,
}

/// Which inputs can be observed in which phase.
pub open spec fn input_fits(state: LoopState, input: LoopInput) -> bool {
    match state {
        LoopState::Connecting => input == LoopInput::Opened || input == LoopInput::OpenFailed,
        LoopState::Streaming => input == LoopInput::Item || input == LoopInput::ItemError
            || input == LoopInput::Ended,
        LoopState::Disconnected => input == LoopInput::Waited,
    }
}

/// Whether an input can be observed in a phase, as an executable check
/// for callers that drive the loop.
pub fn input_allowed(state: LoopState, input: LoopInput) -> (r: bool)
    ensures
        r == input_fits(state, input),
{
    match state {
        LoopState::Connecting => input == LoopInput::Opened || input == LoopInput::OpenFailed,
        LoopState::Streaming => input == LoopInput::Item || input == LoopInput::ItemError
            || input == LoopInput::Ended,
        LoopState::Disconnected => input == LoopInput::Waited,
    }
}

/// The transition table of the dispatch loop: a stream failure of any
/// sort leads through Disconnected and a fixed wait back to Connecting;
/// events keep the loop Streaming; there is no terminal state.
pub open spec fn spec_loop_step(state: LoopState, input: LoopInput) -> (LoopState, LoopAction) {
    match (state, input) {
        (LoopState::Connecting, LoopInput::Opened) => (LoopState::Streaming, LoopAction::AwaitItem),
        (LoopState::Connecting, _) => (LoopState::Disconnected, LoopAction::ReportLossAndWait),
        (LoopState::Streaming, LoopInput::Item) => (LoopState::Streaming, LoopAction::ProcessEvent),
        (LoopState::Streaming, _) => (LoopState::Disconnected, LoopAction::ReportLossAndWait),
        (LoopState::Disconnected, _) => (LoopState::Connecting, LoopAction::OpenStream),
    }
}

/// Advances the dispatch loop one step: the next phase and the action to
/// perform in it.
pub fn loop_step(state: LoopState, input: LoopInput) -> (r: (LoopState, LoopAction))
    requires
        input_fits(state, input),
    ensures
        r == spec_loop_step(state, input),
{
    match (state, input) {
        (LoopState::Connecting, LoopInput::Opened) => (LoopState::Streaming, LoopAction::AwaitItem),
        (LoopState::Connecting, _) => (LoopState::Disconnected, LoopAction::ReportLossAndWait),
        (LoopState::Streaming, LoopInput::Item) => (LoopState::Streaming, LoopAction::ProcessEvent),
        (LoopState::Streaming, _) => (LoopState::Disconnected, LoopAction::ReportLossAndWait),
        (LoopState::Disconnected, _) => (LoopState::Connecting, LoopAction::OpenStream),
    }
}

/// The loop always recovers: after a stream failure in any phase, one
/// reconnect wait and one successful open put it back in Streaming.
pub proof fn lemma_loop_recovers(state: LoopState, input: LoopInput)
    requires
        input_fits(state, input),
        spec_loop_step(state, input).0 == LoopState::Disconnected,
    ensures
        spec_loop_step(LoopState::Disconnected, LoopInput::Waited).0 == LoopState::Connecting,
        spec_loop_step(LoopState::Connecting, LoopInput::Opened).0 == LoopState::Streaming,
{
}

} // verus!
