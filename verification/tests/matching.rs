use notifier::criterion::{match_with_vector, match_with_vector_f, TypeOrVector};
use notifier::rules::{ActorMatcher, EventKind, EventMatcher, EventScope, ObservedActor, ObservedEvent};

fn str_eq(a: &String, b: &String) -> bool {
    a == b
}

fn event(kind: Option<EventKind>, action: Option<&str>) -> ObservedEvent {
    ObservedEvent {
        kind,
        action: action.map(|a| a.to_string()),
        actor: None,
        scope: None,
    }
}

fn empty_rule() -> EventMatcher {
    EventMatcher { kind: None, action: None, actor: None, scope: None }
}

#[test]
fn wildcard_criterion_accepts_anything() {
    assert!(match_with_vector_f(&None, &Some("anything".to_string()), str_eq));
    assert!(match_with_vector_f::<String, String, _>(&None, &None, str_eq));
    assert!(match_with_vector::<EventKind>(&None, &Some(EventKind::Container)));
    assert!(match_with_vector::<EventKind>(&None, &None));
}

#[test]
fn present_criterion_rejects_absent_value() {
    let single = Some(TypeOrVector::Type("x".to_string()));
    let listed = Some(TypeOrVector::Vector(vec!["x".to_string(), "y".to_string()]));
    assert!(!match_with_vector_f(&single, &None, str_eq));
    assert!(!match_with_vector_f(&listed, &None, str_eq));
    assert!(!match_with_vector(&Some(TypeOrVector::Type(EventKind::Image)), &None));
}

#[test]
fn scalar_and_singleton_list_agree() {
    let scalar = Some(TypeOrVector::Type("start".to_string()));
    let singleton = Some(TypeOrVector::Vector(vec!["start".to_string()]));
    for observed in [None, Some("start".to_string()), Some("stop".to_string())] {
        assert_eq!(
            match_with_vector_f(&scalar, &observed, str_eq),
            match_with_vector_f(&singleton, &observed, str_eq),
        );
    }
}

#[test]
fn list_criterion_accepts_any_element() {
    let listed = Some(TypeOrVector::Vector(vec!["a".to_string(), "b".to_string()]));
    assert!(match_with_vector_f(&listed, &Some("b".to_string()), str_eq));
    assert!(!match_with_vector_f(&listed, &Some("c".to_string()), str_eq));
    let empty: Option<TypeOrVector<String>> = Some(TypeOrVector::Vector(vec![]));
    assert!(!match_with_vector_f(&empty, &Some("a".to_string()), str_eq));
}

#[test]
fn equality_matcher_on_kinds() {
    let crit = Some(TypeOrVector::Vector(vec![EventKind::Container, EventKind::Image]));
    assert!(match_with_vector(&crit, &Some(EventKind::Image)));
    assert!(!match_with_vector(&crit, &Some(EventKind::Volume)));
}

#[test]
fn action_matching_is_prefix_based() {
    let rule = EventMatcher {
        action: Some(TypeOrVector::Type("die".to_string())),
        ..empty_rule()
    };
    assert!(rule.match_event(&event(None, Some("die"))));
    assert!(rule.match_event(&event(None, Some("died"))));
    assert!(!rule.match_event(&event(None, Some("dead"))));
    assert!(!rule.match_event(&event(None, None)));
}

#[test]
fn attribute_constraint_is_existential_on_keys() {
    let candidate = vec![("a".to_string(), TypeOrVector::Type("1".to_string()))];
    let matcher = ActorMatcher {
        id: None,
        attributes: Some(TypeOrVector::Type(candidate)),
    };
    let wide = ObservedActor {
        id: None,
        attributes: Some(vec![
            ("a".to_string(), "1".to_string()),
            ("b".to_string(), "2".to_string()),
        ]),
    };
    let narrow = ObservedActor {
        id: None,
        attributes: Some(vec![("b".to_string(), "2".to_string())]),
    };
    assert!(matcher.match_actor(&wide));
    assert!(!matcher.match_actor(&narrow));
}

#[test]
fn attribute_value_may_be_a_list() {
    let candidate = vec![(
        "env".to_string(),
        TypeOrVector::Vector(vec!["dev".to_string(), "prod".to_string()]),
    )];
    let matcher = ActorMatcher { id: None, attributes: Some(TypeOrVector::Type(candidate)) };
    let prod = ObservedActor {
        id: None,
        attributes: Some(vec![("env".to_string(), "prod".to_string())]),
    };
    let stage = ObservedActor {
        id: None,
        attributes: Some(vec![("env".to_string(), "stage".to_string())]),
    };
    assert!(matcher.match_actor(&prod));
    assert!(!matcher.match_actor(&stage));
}

#[test]
fn actor_id_matched_by_equality() {
    let matcher = ActorMatcher {
        id: Some(TypeOrVector::Type("abc123".to_string())),
        attributes: None,
    };
    let named = ObservedActor { id: Some("abc123".to_string()), attributes: None };
    let other = ObservedActor { id: Some("abc12".to_string()), attributes: None };
    let anonymous = ObservedActor { id: None, attributes: None };
    assert!(matcher.match_actor(&named));
    assert!(!matcher.match_actor(&other));
    assert!(!matcher.match_actor(&anonymous));
}

#[test]
fn rule_requires_all_four_fields() {
    let rule = EventMatcher {
        kind: Some(TypeOrVector::Type(EventKind::Container)),
        scope: Some(TypeOrVector::Type(EventScope::Swarm)),
        ..empty_rule()
    };
    let satisfied_kind_wrong_scope = ObservedEvent {
        kind: Some(EventKind::Container),
        action: None,
        actor: None,
        scope: Some(EventScope::Local),
    };
    let both_satisfied = ObservedEvent {
        kind: Some(EventKind::Container),
        action: None,
        actor: None,
        scope: Some(EventScope::Swarm),
    };
    assert!(!rule.match_event(&satisfied_kind_wrong_scope));
    assert!(rule.match_event(&both_satisfied));
}

#[test]
fn first_occurrence_of_an_attribute_key_wins() {
    let candidate = vec![("a".to_string(), TypeOrVector::Type("1".to_string()))];
    let matcher = ActorMatcher { id: None, attributes: Some(TypeOrVector::Type(candidate)) };
    let first_matches = ObservedActor {
        id: None,
        attributes: Some(vec![
            ("a".to_string(), "1".to_string()),
            ("a".to_string(), "2".to_string()),
        ]),
    };
    let first_differs = ObservedActor {
        id: None,
        attributes: Some(vec![
            ("a".to_string(), "2".to_string()),
            ("a".to_string(), "1".to_string()),
        ]),
    };
    assert!(matcher.match_actor(&first_matches));
    assert!(!matcher.match_actor(&first_differs));
}

#[test]
fn kind_labels_are_lower_case_names() {
    assert_eq!(EventKind::Container.label(), "container");
    assert_eq!(EventKind::Image.label(), "image");
    assert_eq!(EventKind::Empty.label(), "");
}
