//! Subscriptions: a notification target paired with the rules that must
//! be satisfied to notify it.
//!
//! A subscription is triggered by an event when any one of its rules
//! accepts the event: rules compose by disjunction at this level, while
//! the fields inside one rule compose by conjunction.

use vstd::prelude::*;
use crate::rules::{EventMatcher, ObservedEvent, event_rule_accepts};

verus! {

/// The urgency class a notification is sent with.
#[derive(Clone, Copy, Debug, PartialEq, Eq, Structural)]
pub enum NotifyKind {
    Info,
    Success,
    Warning,
    Failure,
}

/// The notification target of a subscription: the gateway key it is
/// addressed to, with an optional urgency class and an optional tag.
#[derive(Debug)]
pub struct NotifyEndpoint {
    pub key: String,
    pub message_type: Option<NotifyKind>,
    pub tag: Option<String>,
}

/// A notification target together with the rules that trigger it.
#[derive(Debug)]
pub struct Subscription {
    pub endpoint: NotifyEndpoint,
    pub rules: Vec<EventMatcher>,
}

/// A subscription is triggered by an event exactly when at least one of
/// its rules accepts the event.
pub open spec fn subscription_triggered(s: Subscription, e: ObservedEvent) -> bool {
    exists|i: int| 0 <= i < s.rules.len() && event_rule_accepts(#[trigger] s.rules[i], e)
}

impl Subscription {
    /// Whether any rule of this subscription accepts the event.
    pub fn is_triggered(&self, event: &ObservedEvent) -> (r: bool)
        ensures
            r == subscription_triggered(*self, *event),
    {
        let mut i: usize = 0;
        let mut found = false;
        while i < self.rules.len()
            invariant_except_break
                i <= self.rules.len(),
                !found,
                forall|j: int| 0 <= j < i ==> !event_rule_accepts(#[trigger] self.rules[j], *event),
            ensures
                found <==> exists|j: int|
                    0 <= j < self.rules.len() && event_rule_accepts(#[trigger] self.rules[j], *event),
            decreases self.rules.len() - i,
        {
            if self.rules[i].match_event(event) {
                found = true;
                break;
            }
            i = i + 1;
        }
        found
    }
}

/// Rules compose by disjunction within one subscription: a single
/// accepting rule is enough to trigger it, whatever the other rules say.
pub proof fn lemma_any_rule_triggers(s: Subscription, e: ObservedEvent, i: int)
    requires
        0 <= i < s.rules.len(),
        event_rule_accepts(s.rules[i], e),
    ensures
        subscription_triggered(s, e),
{
}

/// A subscription with no accepting rule is not triggered; in particular
/// a subscription with an empty rule list never triggers.
pub proof fn lemma_no_rule_no_trigger(s: Subscription, e: ObservedEvent)
    requires
        forall|i: int| 0 <= i < s.rules.len() ==> !event_rule_accepts(#[trigger] s.rules[i], e),
    ensures
        !subscription_triggered(s, e),
{
}

} // verus!
