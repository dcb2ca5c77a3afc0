//! The event rule model: which container-runtime events a configured rule
//! accepts.
//!
//! An observed event carries four optional fields (subject kind, action,
//! actor, scope); a rule constrains each with an optional criterion. A
//! rule accepts an event only when all four constraints accept; actions
//! are compared by literal prefix, actors by a nested rule, everything
//! else by equality.

use vstd::prelude::*;
use crate::criterion::{
    TypeOrVector, criterion_accepts, eq_comparison, list_accepts, match_criterion_f,
    match_with_vector, match_with_vector_f, lemma_callback_criterion,
    lemma_callback_criterion_present,
};

verus! {

/// The kind of object a runtime event is about.
#[derive(Clone, Copy, Debug)]
pub enum EventKind {
    Empty,
    Builder,
    Config,
    Container,
    Daemon,
    Image,
    Network,
    Node,
    Plugin,
    Secret,
    Service,
    Volume,
}

impl PartialEq for EventKind {
    fn eq(&self, other: &Self) -> (r: bool) {
        match (self, other) {
            (EventKind::Empty, EventKind::Empty) => true,
            (EventKind::Builder, EventKind::Builder) => true,
            (EventKind::Config, EventKind::Config) => true,
            (EventKind::Container, EventKind::Container) => true,
            (EventKind::Daemon, EventKind::Daemon) => true,
            (EventKind::Image, EventKind::Image) => true,
            (EventKind::Network, EventKind::Network) => true,
            (EventKind::Node, EventKind::Node) => true,
            (EventKind::Plugin, EventKind::Plugin) => true,
            (EventKind::Secret, EventKind::Secret) => true,
            (EventKind::Service, EventKind::Service) => true,
            (EventKind::Volume, EventKind::Volume) => true,
            _ => false,
        }
    }
}

impl vstd::std_specs::cmp::PartialEqSpecImpl for EventKind {
    open spec fn obeys_eq_spec() -> bool {
        true
    }

    open spec fn eq_spec(&self, other: &EventKind) -> bool {
        *self == *other
    }
}

impl EventKind {
    /// The kind's lower-case name, as used in a notification title.
    pub open spec fn spec_label(self) -> Seq<char> {
        match self {
            EventKind::Empty => ""@,
            EventKind::Builder => "builder"@,
            EventKind::Config => "config"@,
            EventKind::Container => "container"@,
            EventKind::Daemon => "daemon"@,
            EventKind::Image => "image"@,
            EventKind::Network => "network"@,
            EventKind::Node => "node"@,
            EventKind::Plugin => "plugin"@,
            EventKind::Secret => "secret"@,
            EventKind::Service => "service"@,
            EventKind::Volume => "volume"@,
        }
    }

    /// The kind's lower-case name, as used in a notification title.
    pub fn label(&self) -> (r: &'static str)
        ensures
            r@ == self.spec_label(),
    {
        match self {
            EventKind::Empty => "",
            EventKind::Builder => "builder",
            EventKind::Config => "config",
            EventKind::Container => "container",
            EventKind::Daemon => "daemon",
            EventKind::Image => "image",
            EventKind::Network => "network",
            EventKind::Node => "node",
            EventKind::Plugin => "plugin",
            EventKind::Secret => "secret",
            EventKind::Service => "service",
            EventKind::Volume => "volume",
        }
    }
}

/// The scope a runtime event was emitted in: engine events are local,
/// cluster events are swarm-wide.
#[derive(Clone, Copy, Debug)]
pub enum EventScope {
    Empty,
    Local,
    Swarm,
}

impl PartialEq for EventScope {
    fn eq(&self, other: &Self) -> (r: bool) {
        match (self, other) {
            (EventScope::Empty, EventScope::Empty) => true,
            (EventScope::Local, EventScope::Local) => true,
            (EventScope::Swarm, EventScope::Swarm) => true,
            _ => false,
        }
    }
}

impl vstd::std_specs::cmp::PartialEqSpecImpl for EventScope {
    open spec fn obeys_eq_spec() -> bool {
        true
    }

    open spec fn eq_spec(&self, other: &EventScope) -> bool {
        *self == *other
    }
}

/// The actor of an observed event: the object that emitted it, with its
/// identifier and its key/value attributes (a key may appear once; the
/// first occurrence is the one consulted).
#[derive(Debug)]
pub struct ObservedActor {
    pub id: Option<String>,
    pub attributes: Option<Vec<(String, String)>>,
}

/// An observed runtime event, reduced to the fields that rules consult.
#[derive(Debug)]
pub struct ObservedEvent {
    pub kind: Option<EventKind>,
    pub action: Option<String>,
    pub actor: Option<ObservedActor>,
    pub scope: Option<EventScope>,
}

/// Equality of strings by their character sequences, as a comparison
/// predicate for [`criterion_accepts`].
pub open spec fn string_eq() -> spec_fn(String, String) -> bool {
    |c: String, v: String| c@ == v@
}

/// Literal-prefix comparison: the criterion string must be a prefix of
/// the observed string.
pub open spec fn prefix_comparison() -> spec_fn(String, String) -> bool {
    |c: String, v: String| c@.is_prefix_of(v@)
}

/// Relies on str::starts_with with a `&str` pattern: true exactly when
/// the pattern is a literal prefix of the string.
#[verifier::external_body]
fn str_starts_with(s: &str, prefix: &str) -> (r: bool)
    ensures
        r == prefix@.is_prefix_of(s@),
{
    s.starts_with(prefix)
}

/// The value stored under `key` in an attribute list, taking the first
/// occurrence of the key.
pub open spec fn attr_lookup(attrs: Seq<(String, String)>, key: Seq<char>) -> Option<String>
    decreases attrs.len(),
{
    if attrs.len() == 0 {
        Option::None
    } else if attrs.first().0@ == key {
        Option::Some(attrs.first().1)
    } else {
        attr_lookup(attrs.drop_first(), key)
    }
}

/// Finds the first attribute with the given key and returns a copy of its
/// value.
pub fn lookup_attr(attrs: &Vec<(String, String)>, key: &String) -> (r: Option<String>)
    ensures
        r == attr_lookup(attrs@, key@),
{
    let mut i: usize = 0;
    proof {
        assert(attrs@.skip(0) =~= attrs@);
    }
    while i < attrs.len()
        invariant_except_break
            i <= attrs.len(),
            attr_lookup(attrs@, key@) == attr_lookup(attrs@.skip(i as int), key@),
        ensures
            i <= attrs.len(),
            i < attrs.len() ==> attr_lookup(attrs@, key@)
                == Option::Some(attrs@[i as int].1) && attrs@[i as int].0@ == key@,
            i == attrs.len() ==> attr_lookup(attrs@, key@) is None,
        decreases attrs.len() - i,
    {
        proof {
            assert(attrs@.skip(i as int).first() == attrs@[i as int]);
            assert(attrs@.skip(i as int).drop_first() =~= attrs@.skip(i as int + 1));
        }
        if attrs[i].0.eq(key) {
            break;
        }
        i = i + 1;
    }
    if i < attrs.len() {
        Option::Some(attrs[i].1.clone())
    } else {
        Option::None
    }
}

/// What it means for one candidate attribute map to accept an observed
/// attribute list: every key the candidate mentions must be present and
/// its value must satisfy the candidate's criterion for that key.
/// Observed keys the candidate does not mention are ignored.
pub open spec fn attr_map_accepts(
    candidate: Seq<(String, TypeOrVector<String>)>,
    observed: Seq<(String, String)>,
) -> bool {
    forall|i: int|
        #![trigger candidate[i]]
        0 <= i < candidate.len() ==> criterion_accepts(
            Option::Some(candidate[i].1),
            attr_lookup(observed, candidate[i].0@),
            string_eq(),
        )
}

/// Attribute-map acceptance as a comparison predicate for
/// [`criterion_accepts`].
pub open spec fn attr_map_comparison() -> spec_fn(
    Vec<(String, TypeOrVector<String>)>,
    Vec<(String, String)>,
) -> bool {
    |c: Vec<(String, TypeOrVector<String>)>, o: Vec<(String, String)>| attr_map_accepts(c@, o@)
}

/// Checks one candidate attribute map against an observed attribute list.
pub fn match_attribute_map(
    candidate: &Vec<(String, TypeOrVector<String>)>,
    observed: &Vec<(String, String)>,
) -> (r: bool)
    ensures
        r == attr_map_accepts(candidate@, observed@),
{
    let mut i: usize = 0;
    let mut ok = true;
    while i < candidate.len()
        invariant_except_break
            i <= candidate.len(),
            ok,
            forall|j: int|
                #![trigger candidate@[j]]
                0 <= j < i ==> criterion_accepts(
                    Option::Some(candidate@[j].1),
                    attr_lookup(observed@, candidate@[j].0@),
                    string_eq(),
                ),
        ensures
            ok == attr_map_accepts(candidate@, observed@),
        decreases candidate.len() - i,
    {
        let entry = &candidate[i];
        let looked = lookup_attr(observed, &entry.0);
        let accepted = match &looked {
            Option::None => false,
            Option::Some(v) => {
                let eq_fn = |a: &String, b: &String| -> (res: bool)
                    ensures
                        res == (a@ == b@),
                    { a.eq(b) };
                let res = match_criterion_f(&entry.1, v, eq_fn);
                proof {
                    assert forall|m: String, d: String, b: bool|
                        #[trigger] call_ensures(eq_fn, (&m, &d), b) implies b == string_eq()(m, d) by {
                        assert(string_eq()(m, d) == (m@ == d@));
                    }
                    lemma_callback_criterion_present(eq_fn, entry.1, *v, string_eq(), res);
                }
                res
            },
        };
        proof {
            assert(looked == attr_lookup(observed@, candidate@[i as int].0@));
        }
        if !accepted {
            ok = false;
            break;
        }
        i = i + 1;
    }
    ok
}

/// A rule on the actor of an event: an optional criterion on its
/// identifier and an optional criterion on its attribute map.
#[derive(Debug)]
pub struct ActorMatcher {
    /// The ID of the object emitting the event.
    pub id: Option<TypeOrVector<String>>,

    /// Required key/value attributes of the object.
    pub attributes: Option<TypeOrVector<Vec<(String, TypeOrVector<String>)>>>,
}

/// What it means for an actor rule to accept an observed actor: both the
/// identifier criterion (by equality) and the attribute criterion (by the
/// existential-on-keys map rule) must accept.
pub open spec fn actor_rule_accepts(m: ActorMatcher, a: ObservedActor) -> bool {
    &&& criterion_accepts(m.id, a.id, string_eq())
    &&& criterion_accepts(m.attributes, a.attributes, attr_map_comparison())
}

/// Actor-rule acceptance as a comparison predicate for
/// [`criterion_accepts`].
pub open spec fn actor_comparison() -> spec_fn(ActorMatcher, ObservedActor) -> bool {
    |m: ActorMatcher, a: ObservedActor| actor_rule_accepts(m, a)
}

impl ActorMatcher {
    /// Checks the identifier criterion against the observed actor's id.
    pub fn match_id(&self, actor: &ObservedActor) -> (r: bool)
        ensures
            r == criterion_accepts(self.id, actor.id, string_eq()),
    {
        let eq_fn = |a: &String, b: &String| -> (res: bool)
            ensures
                res == (a@ == b@),
            { a.eq(b) };
        let r = match_with_vector_f(&self.id, &actor.id, eq_fn);
        proof {
            assert forall|m: String, d: String, b: bool|
                #[trigger] call_ensures(eq_fn, (&m, &d), b) implies b == string_eq()(m, d) by {
                assert(string_eq()(m, d) == (m@ == d@));
            }
            lemma_callback_criterion(eq_fn, self.id, actor.id, string_eq(), r);
        }
        r
    }

    /// Checks the attribute criterion against the observed actor's
    /// attribute list.
    pub fn match_attributes(&self, actor: &ObservedActor) -> (r: bool)
        ensures
            r == criterion_accepts(self.attributes, actor.attributes, attr_map_comparison()),
    {
        let map_fn = |c: &Vec<(String, TypeOrVector<String>)>, o: &Vec<(String, String)>| -> (res: bool)
            ensures
                res == attr_map_accepts(c@, o@),
            { match_attribute_map(c, o) };
        let r = match_with_vector_f(&self.attributes, &actor.attributes, map_fn);
        proof {
            assert forall|m: Vec<(String, TypeOrVector<String>)>, d: Vec<(String, String)>, b: bool|
                #[trigger] call_ensures(map_fn, (&m, &d), b)
                implies b == attr_map_comparison()(m, d) by {
                assert(attr_map_comparison()(m, d) == attr_map_accepts(m@, d@));
            }
            lemma_callback_criterion(
                map_fn,
                self.attributes,
                actor.attributes,
                attr_map_comparison(),
                r,
            );
        }
        r
    }

    /// Checks the whole actor rule: both sub-criteria must accept.
    pub fn match_actor(&self, actor: &ObservedActor) -> (r: bool)
        ensures
            r == actor_rule_accepts(*self, *actor),
    {
        self.match_id(actor) && self.match_attributes(actor)
    }
}

/// One complete set of constraints an event must satisfy in full to be
/// considered a match.
#[derive(Debug)]
pub struct EventMatcher {
    /// The kind of object emitting the event.
    pub kind: Option<TypeOrVector<EventKind>>,

    /// The action of the event, constrained by literal prefix.
    pub action: Option<TypeOrVector<String>>,

    /// A nested rule on the actor of the event.
    pub actor: Option<TypeOrVector<ActorMatcher>>,

    /// The scope the event was emitted in.
    pub scope: Option<TypeOrVector<EventScope>>,
}

/// What it means for a rule to accept an observed event: all four field
/// constraints must accept — kind and scope by equality, the action by
/// literal prefix, the actor by the nested actor rule.
pub open spec fn event_rule_accepts(m: EventMatcher, e: ObservedEvent) -> bool {
    &&& criterion_accepts(m.kind, e.kind, eq_comparison::<EventKind>())
    &&& criterion_accepts(m.action, e.action, prefix_comparison())
    &&& criterion_accepts(m.actor, e.actor, actor_comparison())
    &&& criterion_accepts(m.scope, e.scope, eq_comparison::<EventScope>())
}

impl EventMatcher {
    /// Checks the kind criterion against the observed event's kind.
    pub fn match_type(&self, event: &ObservedEvent) -> (r: bool)
        ensures
            r == criterion_accepts(self.kind, event.kind, eq_comparison::<EventKind>()),
    {
        match_with_vector(&self.kind, &event.kind)
    }

    /// Checks the action criterion against the observed event's action,
    /// by literal prefix.
    pub fn match_action(&self, event: &ObservedEvent) -> (r: bool)
        ensures
            r == criterion_accepts(self.action, event.action, prefix_comparison()),
    {
        let pre_fn = |c: &String, v: &String| -> (res: bool)
            ensures
                res == c@.is_prefix_of(v@),
            { str_starts_with(v.as_str(), c.as_str()) };
        let r = match_with_vector_f(&self.action, &event.action, pre_fn);
        proof {
            assert forall|m: String, d: String, b: bool|
                #[trigger] call_ensures(pre_fn, (&m, &d), b)
                implies b == prefix_comparison()(m, d) by {
                assert(prefix_comparison()(m, d) == m@.is_prefix_of(d@));
            }
            lemma_callback_criterion(pre_fn, self.action, event.action, prefix_comparison(), r);
        }
        r
    }

    /// Checks the actor criterion against the observed event's actor.
    pub fn match_actor(&self, event: &ObservedEvent) -> (r: bool)
        ensures
            r == criterion_accepts(self.actor, event.actor, actor_comparison()),
    {
        let act_fn = |m: &ActorMatcher, a: &ObservedActor| -> (res: bool)
            ensures
                res == actor_rule_accepts(*m, *a),
            { m.match_actor(a) };
        let r = match_with_vector_f(&self.actor, &event.actor, act_fn);
        proof {
            assert forall|m: ActorMatcher, a: ObservedActor, b: bool|
                #[trigger] call_ensures(act_fn, (&m, &a), b)
                implies b == actor_comparison()(m, a) by {
                assert(actor_comparison()(m, a) == actor_rule_accepts(m, a));
            }
            lemma_callback_criterion(act_fn, self.actor, event.actor, actor_comparison(), r);
        }
        r
    }

    /// Checks the scope criterion against the observed event's scope.
    pub fn match_scope(&self, event: &ObservedEvent) -> (r: bool)
        ensures
            r == criterion_accepts(self.scope, event.scope, eq_comparison::<EventScope>()),
    {
        match_with_vector(&self.scope, &event.scope)
    }

    /// Checks the whole rule: the event is accepted only when all four
    /// field constraints accept.
    pub fn match_event(&self, event: &ObservedEvent) -> (r: bool)
        ensures
            r == event_rule_accepts(*self, *event),
    {
        self.match_action(event) && self.match_actor(event) && self.match_scope(event)
            && self.match_type(event)
    }
}

/// The attribute constraint is existential on the candidate's keys, not
/// an exact match of the whole map: its verdict depends only on what the
/// observed list stores under the keys the candidate mentions, so
/// observed entries under any other key cannot change it.
pub proof fn lemma_attr_map_existential_on_keys(
    candidate: Seq<(String, TypeOrVector<String>)>,
    observed1: Seq<(String, String)>,
    observed2: Seq<(String, String)>,
)
    requires
        forall|i: int|
            #![trigger candidate[i]]
            0 <= i < candidate.len()
                ==> attr_lookup(observed1, candidate[i].0@) == attr_lookup(observed2, candidate[i].0@),
    ensures
        attr_map_accepts(candidate, observed1) == attr_map_accepts(candidate, observed2),
{
    if attr_map_accepts(candidate, observed1) {
        assert forall|i: int|
            #![trigger candidate[i]]
            0 <= i < candidate.len() implies criterion_accepts(
            Option::Some(candidate[i].1),
            attr_lookup(observed2, candidate[i].0@),
            string_eq(),
        ) by {
            assert(criterion_accepts(
                Option::Some(candidate[i].1),
                attr_lookup(observed1, candidate[i].0@),
                string_eq(),
            ));
        }
    }
    if attr_map_accepts(candidate, observed2) {
        assert forall|i: int|
            #![trigger candidate[i]]
            0 <= i < candidate.len() implies criterion_accepts(
            Option::Some(candidate[i].1),
            attr_lookup(observed1, candidate[i].0@),
            string_eq(),
        ) by {
            assert(criterion_accepts(
                Option::Some(candidate[i].1),
                attr_lookup(observed2, candidate[i].0@),
                string_eq(),
            ));
        }
    }
}

/// Within one rule the four field constraints compose by conjunction:
/// the rule accepts exactly when every one of them accepts, so a single
/// rejecting field makes the whole rule reject.
pub proof fn lemma_rule_conjunction(m: EventMatcher, e: ObservedEvent)
    ensures
        event_rule_accepts(m, e) <==> {
            &&& criterion_accepts(m.kind, e.kind, eq_comparison::<EventKind>())
            &&& criterion_accepts(m.action, e.action, prefix_comparison())
            &&& criterion_accepts(m.actor, e.actor, actor_comparison())
            &&& criterion_accepts(m.scope, e.scope, eq_comparison::<EventScope>())
        },
{
}

} // verus!
