use notifier::criterion::TypeOrVector;
use notifier::dispatch::{
    build_payload, evaluate_event, loop_step, outcome_line, DeliveryError, LoopAction, LoopInput,
    LoopState, RECONNECT_WAIT_SECS,
};
use notifier::rules::{ActorMatcher, EventKind, EventMatcher, ObservedActor, ObservedEvent};
use notifier::subscription::{NotifyEndpoint, NotifyKind, Subscription};

fn endpoint(key: &str) -> NotifyEndpoint {
    NotifyEndpoint { key: key.to_string(), message_type: None, tag: None }
}

fn action_rule(action: &str) -> EventMatcher {
    EventMatcher {
        kind: None,
        action: Some(TypeOrVector::Type(action.to_string())),
        actor: None,
        scope: None,
    }
}

fn start_event() -> ObservedEvent {
    ObservedEvent {
        kind: Some(EventKind::Container),
        action: Some("start".to_string()),
        actor: None,
        scope: None,
    }
}

#[test]
fn subscription_triggers_when_any_rule_matches() {
    let sub = Subscription {
        endpoint: endpoint("ops"),
        rules: vec![action_rule("die"), action_rule("start")],
    };
    assert!(sub.is_triggered(&start_event()));
    let none_match = Subscription {
        endpoint: endpoint("ops"),
        rules: vec![action_rule("die"), action_rule("stop")],
    };
    assert!(!none_match.is_triggered(&start_event()));
    let no_rules = Subscription { endpoint: endpoint("ops"), rules: vec![] };
    assert!(!no_rules.is_triggered(&start_event()));
}

#[test]
fn matched_start_event_gets_container_start_title() {
    let subs = vec![Subscription { endpoint: endpoint("ops"), rules: vec![action_rule("start")] }];
    let body = "{\"Action\":\"start\"}".to_string();
    let deliveries = evaluate_event(&subs, &start_event(), &body);
    assert_eq!(deliveries.len(), 1);
    assert_eq!(deliveries[0].key, "ops");
    match &deliveries[0].outcome {
        Ok(payload) => {
            assert_eq!(payload.title, "container start");
            assert_eq!(payload.key, "ops");
            assert_eq!(payload.body, body);
        }
        Err(_) => panic!("payload construction was expected to succeed"),
    }
}

#[test]
fn actor_attribute_subscription_end_to_end() {
    let candidate = vec![(
        "com.example.role".to_string(),
        TypeOrVector::Type("db".to_string()),
    )];
    let rule = EventMatcher {
        kind: None,
        action: None,
        actor: Some(TypeOrVector::Vector(vec![ActorMatcher {
            id: None,
            attributes: Some(TypeOrVector::Vector(vec![candidate])),
        }])),
        scope: None,
    };
    let sub = Subscription { endpoint: endpoint("db-watch"), rules: vec![rule] };

    let db_actor = ObservedActor {
        id: None,
        attributes: Some(vec![
            ("com.example.role".to_string(), "db".to_string()),
            ("env".to_string(), "prod".to_string()),
        ]),
    };
    let other_actor = ObservedActor {
        id: None,
        attributes: Some(vec![("env".to_string(), "prod".to_string())]),
    };
    let db_event = ObservedEvent { kind: None, action: None, actor: Some(db_actor), scope: None };
    let other_event =
        ObservedEvent { kind: None, action: None, actor: Some(other_actor), scope: None };

    assert!(sub.is_triggered(&db_event));
    assert!(!sub.is_triggered(&other_event));
}

#[test]
fn missing_kind_fails_payload_construction() {
    let event = ObservedEvent {
        kind: None,
        action: Some("start".to_string()),
        actor: None,
        scope: None,
    };
    match build_payload(&endpoint("ops"), &event, "{}".to_string()) {
        Err(DeliveryError::MissingKind) => {}
        other => panic!("expected the missing-kind error, got {other:?}"),
    }
}

#[test]
fn missing_action_fails_payload_construction() {
    let event = ObservedEvent {
        kind: Some(EventKind::Container),
        action: None,
        actor: None,
        scope: None,
    };
    match build_payload(&endpoint("ops"), &event, "{}".to_string()) {
        Err(DeliveryError::MissingAction) => {}
        other => panic!("expected the missing-action error, got {other:?}"),
    }
}

#[test]
fn payload_carries_target_type_and_tag() {
    let target = NotifyEndpoint {
        key: "ops".to_string(),
        message_type: Some(NotifyKind::Warning),
        tag: Some("prod".to_string()),
    };
    match build_payload(&target, &start_event(), "{}".to_string()) {
        Ok(payload) => {
            assert_eq!(payload.message_type, Some(NotifyKind::Warning));
            assert_eq!(payload.tag.as_deref(), Some("prod"));
        }
        Err(err) => panic!("payload construction failed: {err:?}"),
    }
}

#[test]
fn two_triggered_subscriptions_get_independent_deliveries() {
    let subs = vec![
        Subscription { endpoint: endpoint("first"), rules: vec![action_rule("start")] },
        Subscription { endpoint: endpoint("second"), rules: vec![action_rule("sta")] },
        Subscription { endpoint: endpoint("silent"), rules: vec![action_rule("die")] },
    ];
    let body = "{}".to_string();
    let deliveries = evaluate_event(&subs, &start_event(), &body);
    assert_eq!(deliveries.len(), 2);
    assert_eq!(deliveries[0].key, "first");
    assert_eq!(deliveries[1].key, "second");

    let first_failed = outcome_line(&deliveries[0].key, &Some("connection refused".to_string()));
    let second_sent = outcome_line(&deliveries[1].key, &None);
    assert_eq!(first_failed, "Error can't notify first : connection refused");
    assert_eq!(second_sent, "second notified");

    let (state, action) = loop_step(LoopState::Streaming, LoopInput::Item);
    assert_eq!(state, LoopState::Streaming);
    assert_eq!(action, LoopAction::ProcessEvent);
}

#[test]
fn untriggered_subscriptions_get_no_delivery() {
    let subs = vec![Subscription { endpoint: endpoint("ops"), rules: vec![action_rule("die")] }];
    let deliveries = evaluate_event(&subs, &start_event(), &"{}".to_string());
    assert!(deliveries.is_empty());
}

#[test]
fn matched_event_without_kind_plans_a_failed_delivery() {
    let event = ObservedEvent {
        kind: None,
        action: Some("start".to_string()),
        actor: None,
        scope: None,
    };
    let subs = vec![Subscription { endpoint: endpoint("ops"), rules: vec![action_rule("start")] }];
    let deliveries = evaluate_event(&subs, &event, &"{}".to_string());
    assert_eq!(deliveries.len(), 1);
    assert_eq!(deliveries[0].key, "ops");
    match &deliveries[0].outcome {
        Err(DeliveryError::MissingKind) => {}
        other => panic!("expected the missing-kind error, got {other:?}"),
    }
}

#[test]
fn delivery_error_messages_name_the_missing_field() {
    assert_eq!(DeliveryError::MissingKind.message(), "missing event type");
    assert_eq!(DeliveryError::MissingAction.message(), "missing event action");
}

#[test]
fn stream_error_leads_back_to_streaming() {
    let (state, action) = loop_step(LoopState::Streaming, LoopInput::ItemError);
    assert_eq!(state, LoopState::Disconnected);
    assert_eq!(action, LoopAction::ReportLossAndWait);

    let (state, action) = loop_step(state, LoopInput::Waited);
    assert_eq!(state, LoopState::Connecting);
    assert_eq!(action, LoopAction::OpenStream);

    let (state, action) = loop_step(state, LoopInput::Opened);
    assert_eq!(state, LoopState::Streaming);
    assert_eq!(action, LoopAction::AwaitItem);

    assert_eq!(RECONNECT_WAIT_SECS, 2);
}

#[test]
fn stream_end_and_open_failure_also_reconnect() {
    let (state, action) = loop_step(LoopState::Streaming, LoopInput::Ended);
    assert_eq!(state, LoopState::Disconnected);
    assert_eq!(action, LoopAction::ReportLossAndWait);

    let (state, action) = loop_step(LoopState::Connecting, LoopInput::OpenFailed);
    assert_eq!(state, LoopState::Disconnected);
    assert_eq!(action, LoopAction::ReportLossAndWait);
}
