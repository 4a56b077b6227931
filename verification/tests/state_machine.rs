use intention_engine::capability_registry::CapabilityRegistry;
use intention_engine::clock::Timestamp;
use intention_engine::error::EngineError;
use intention_engine::intent_schema::{
    CoreIntent, IntentSchema, PriorityLevel, PurchaseIntent, ScheduleIntent, Sentiment,
    SentimentVibe, TransportationIntent, UrgencyLevel, Vibe,
};
use intention_engine::state_machine::{
    CoreOrchestrator, ExecutionSummary, OrchestratorState, StepResult,
};
use intention_engine::user_preferences::{ActionOutcome, ActionType, UserPreferenceVector};
use intention_engine::verification_loop::PathType;

/// An amount given in units, as cents.
fn cents(units: f64) -> u64 {
    (units * 100.0).round() as u64
}

/// Stands in for the validator of approval tokens.
fn token_is_valid(token: &str) -> bool {
    token.starts_with("valid_token")
}

fn schema(core_intent: CoreIntent) -> IntentSchema {
    IntentSchema {
        core_intent,
        temporal_constraints: None,
        budget_constraints: None,
        preference_constraints: None,
        sentiment_vibe: SentimentVibe {
            sentiment: Sentiment::Neutral,
            vibe: Vibe::Efficient,
            urgency_level: UrgencyLevel::Medium,
        },
        confidence: 90,
        raw_input: String::new(),
    }
}

fn ride_home_to_work() -> IntentSchema {
    schema(CoreIntent::TransportationRequest(TransportationIntent {
        pickup_location: "Home".to_string(),
        destination: "Work".to_string(),
        departure_time: None,
        vehicle_preference: None,
        max_cost: Some(cents(20.0)),
    }))
}

fn event() -> IntentSchema {
    schema(CoreIntent::ScheduleEvent(ScheduleIntent {
        event_title: "Review".to_string(),
        start_time: "10:00".to_string(),
        end_time: "11:00".to_string(),
        location: None,
        attendees: vec![],
        priority: PriorityLevel::High,
    }))
}

/// A session that waits for approval of the plans for `intent`.
fn waiting(intent: IntentSchema) -> CoreOrchestrator {
    let mut orchestrator = CoreOrchestrator::new(UserPreferenceVector::new());
    orchestrator.submit(intent).unwrap();
    orchestrator.check(Vec::new()).unwrap();
    orchestrator.wait().unwrap();
    orchestrator
}

#[test]
fn test_full_orchestration_process() {
    let user_prefs = UserPreferenceVector::new();
    let mut orchestrator = CoreOrchestrator::new(user_prefs);

    // Test the full process with a transportation request
    let input = "Get me an Uber from downtown to the airport tomorrow morning";

    // Process the input through the state machine
    orchestrator.process_input(input).expect("Failed to process input");
    orchestrator.check(Vec::new()).expect("Failed to process input");
    let plan = orchestrator.wait().expect("Failed to process input");

    // Verify we have the expected components
    assert!(matches!(orchestrator.get_state(), OrchestratorState::Wait));
    assert_eq!(plan.paths.len(), 3); // Should have 3 paths
    assert!(matches!(plan.intent.core_intent, CoreIntent::TransportationRequest(_)));

    // Simulate user approval and execute
    let approval_token = "valid_token_123";
    let execution_result = orchestrator.execute_with_approval(token_is_valid(approval_token), 0);

    assert!(execution_result.is_ok());
    assert!(matches!(orchestrator.get_state(), OrchestratorState::Execute));
}

#[test]
fn test_validation_failure() {
    let user_prefs = UserPreferenceVector::new();
    let mut orchestrator = CoreOrchestrator::new(user_prefs);

    // Disable a required capability
    orchestrator.update_capability_availability("uber", false);

    // Try to process a transportation request
    let input = "Get me an Uber from downtown to the airport tomorrow morning";

    // This should fail validation
    let result = orchestrator.process_input(input);

    assert!(result.is_err());
    assert!(result.err().unwrap().message().contains("Required capability"));
}

#[test]
fn submit_fails_when_uber_is_unavailable() {
    let mut registry = CapabilityRegistry::new();
    registry.update_availability("uber", false);
    let mut orchestrator = CoreOrchestrator::with_registry(UserPreferenceVector::new(), registry);

    match orchestrator.submit(ride_home_to_work()) {
        Err(EngineError::CapabilityUnavailable(name)) => assert_eq!(name, "uber"),
        other => panic!("unexpected outcome: {:?}", other),
    }
    assert_eq!(orchestrator.get_state(), OrchestratorState::Error);
    assert!(orchestrator.get_generated_paths().is_empty());
    assert!(matches!(
        orchestrator.get_error(),
        Some(EngineError::CapabilityUnavailable(name)) if name == "uber"
    ));
    // the failure is final
    assert!(matches!(orchestrator.submit(ride_home_to_work()), Err(EngineError::SessionNotReady)));
    assert!(matches!(orchestrator.validate(), Err(EngineError::SessionNotReady)));
    assert!(matches!(orchestrator.draft(), Err(EngineError::SessionNotReady)));
    assert!(matches!(orchestrator.check(vec![]), Err(EngineError::SessionNotReady)));
    assert!(matches!(orchestrator.wait(), Err(EngineError::SessionNotReady)));
    assert_eq!(orchestrator.get_state(), OrchestratorState::Error);
}

#[test]
fn request_without_plans_has_no_viable_path() {
    let mut orchestrator = CoreOrchestrator::new(UserPreferenceVector::new());
    let outcome = orchestrator.submit(schema(CoreIntent::Custom("hello".to_string())));
    assert!(matches!(outcome, Err(EngineError::NoViablePath)));
    assert_eq!(orchestrator.get_state(), OrchestratorState::Error);
    assert!(matches!(orchestrator.get_error(), Some(EngineError::NoViablePath)));
    assert!(orchestrator.get_generated_paths().is_empty());
}

#[test]
fn stages_follow_one_another() {
    let mut orchestrator = CoreOrchestrator::new(UserPreferenceVector::new());
    assert_eq!(orchestrator.get_state(), OrchestratorState::Ingest);
    assert!(orchestrator.get_current_intent().is_none());
    // nothing to validate or draft yet
    assert!(matches!(orchestrator.validate(), Err(EngineError::SessionNotReady)));
    assert!(matches!(orchestrator.draft(), Err(EngineError::SessionNotReady)));

    orchestrator.ingest(event()).unwrap();
    assert_eq!(orchestrator.get_state(), OrchestratorState::Ingest);
    assert!(orchestrator.get_current_intent().is_some());
    assert!(matches!(orchestrator.draft(), Err(EngineError::SessionNotReady)));

    orchestrator.validate().unwrap();
    assert_eq!(orchestrator.get_state(), OrchestratorState::Validate);
    assert!(matches!(orchestrator.check(vec![]), Err(EngineError::SessionNotReady)));

    orchestrator.draft().unwrap();
    assert_eq!(orchestrator.get_state(), OrchestratorState::Draft);
    assert_eq!(orchestrator.get_generated_paths().len(), 3);
    assert!(matches!(orchestrator.wait(), Err(EngineError::SessionNotReady)));
    assert!(matches!(
        orchestrator.execute_with_approval(true, 0),
        Err(EngineError::SessionNotReady)
    ));

    orchestrator.check(vec!["Overlaps with lunch".to_string()]).unwrap();
    assert_eq!(orchestrator.get_state(), OrchestratorState::Check);
    assert!(!orchestrator.expire_if_due(Timestamp { seconds: i64::MAX, nanos: 0 }));

    let at = Timestamp { seconds: 1_700_000_000, nanos: 5 };
    let plan = orchestrator.propose(at).unwrap();
    assert_eq!(orchestrator.get_state(), OrchestratorState::Wait);
    assert_eq!(plan.timestamp, at);
    assert_eq!(plan.conflicts, vec!["Overlaps with lunch".to_string()]);
    assert!(plan.user_preferences_considered);
    assert_eq!(format!("{:?}", plan.clone()), format!("{:?}", plan));
    assert_eq!(plan.paths.len(), 3);
    assert!(matches!(plan.intent.core_intent, CoreIntent::ScheduleEvent(_)));
    assert_eq!(
        format!("{:?}", plan.paths),
        format!("{:?}", orchestrator.get_generated_paths())
    );
    assert!(matches!(orchestrator.submit(event()), Err(EngineError::SessionNotReady)));
    assert!(matches!(orchestrator.report(), Err(EngineError::SessionNotReady)));
    assert!(orchestrator.pending_step().is_none());
}

#[test]
fn approval_with_index_out_of_range_changes_nothing() {
    let mut orchestrator = waiting(ride_home_to_work());
    let before = format!("{:?}", orchestrator);

    let outcome = orchestrator.execute_with_approval(true, 3);
    assert!(matches!(outcome, Err(EngineError::InvalidPathIndex)));
    assert_eq!(outcome.unwrap_err().message(), "Invalid path index");
    assert_eq!(orchestrator.get_state(), OrchestratorState::Wait);
    assert_eq!(format!("{:?}", orchestrator), before);

    assert!(matches!(
        orchestrator.execute_with_approval(true, usize::MAX),
        Err(EngineError::InvalidPathIndex)
    ));
    assert_eq!(orchestrator.get_state(), OrchestratorState::Wait);

    // the caller may try again
    orchestrator.execute_with_approval(true, 2).unwrap();
    assert_eq!(orchestrator.get_state(), OrchestratorState::Execute);
    assert_eq!(orchestrator.get_selected_path().unwrap().path_type, PathType::Discovery);
}

#[test]
fn approval_with_invalid_token_changes_nothing() {
    let mut orchestrator = waiting(ride_home_to_work());
    let before = format!("{:?}", orchestrator);

    let outcome = orchestrator.execute_with_approval(token_is_valid("forged"), 0);
    assert!(matches!(outcome, Err(EngineError::InvalidApprovalToken)));
    assert_eq!(outcome.unwrap_err().message(), "Invalid or expired approval token");
    assert_eq!(orchestrator.get_state(), OrchestratorState::Wait);
    assert_eq!(format!("{:?}", orchestrator), before);

    // the token is judged before the index
    assert!(matches!(
        orchestrator.execute_with_approval(false, 99),
        Err(EngineError::InvalidApprovalToken)
    ));
}

/// A session for `intent` whose proposal went out at `at` and may wait for
/// `window` seconds.
fn waiting_since(intent: IntentSchema, at: Timestamp, window: u64) -> CoreOrchestrator {
    let mut orchestrator = CoreOrchestrator::new(UserPreferenceVector::new());
    orchestrator.set_approval_window(Some(window));
    orchestrator.submit(intent).unwrap();
    orchestrator.check(Vec::new()).unwrap();
    orchestrator.propose(at).unwrap();
    orchestrator
}

#[test]
fn expired_session_cannot_be_approved() {
    let sent = Timestamp { seconds: 1_000, nanos: 500 };
    let mut orchestrator = waiting_since(ride_home_to_work(), sent, 60);

    // on the last instant of the window the session still waits
    let last = Timestamp { seconds: 1_060, nanos: 500 };
    assert!(!orchestrator.is_due(last));
    assert!(!orchestrator.expire_if_due(last));
    assert_eq!(orchestrator.get_state(), OrchestratorState::Wait);
    assert_eq!(orchestrator.get_generated_paths().len(), 3);

    let late = Timestamp { seconds: 1_060, nanos: 501 };
    assert!(orchestrator.is_due(late));
    let outcome = orchestrator.execute_with_approval_at(true, 0, late);
    assert!(matches!(outcome, Err(EngineError::ApprovalExpired)));
    assert_eq!(orchestrator.get_state(), OrchestratorState::Error);
    assert!(matches!(orchestrator.get_error(), Some(EngineError::ApprovalExpired)));
    assert!(orchestrator.get_generated_paths().is_empty());
    assert!(orchestrator.get_selected_path().is_none());

    // no partial execution, and nothing is learned
    assert!(matches!(
        orchestrator.execute_with_approval_at(true, 0, sent),
        Err(EngineError::SessionNotReady)
    ));
    assert!(orchestrator.pending_step().is_none());
    assert!(matches!(
        orchestrator.record_step_result(Ok("late".to_string())),
        Err(EngineError::SessionNotReady)
    ));
    assert!(!orchestrator.expire_if_due(late));
    assert_eq!(orchestrator.get_user_preferences().history.len(), 0);
    assert_eq!(orchestrator.get_error().unwrap().message(), "Approval window has expired");
}

#[test]
fn session_expires_when_the_clock_is_looked_at() {
    let sent = Timestamp { seconds: -5, nanos: 0 };
    let mut orchestrator = waiting_since(event(), sent, 0);
    assert!(!orchestrator.expire_if_due(sent));
    assert!(orchestrator.expire_if_due(Timestamp { seconds: -5, nanos: 1 }));
    assert_eq!(orchestrator.get_state(), OrchestratorState::Error);
    assert!(orchestrator.get_generated_paths().is_empty());
}

#[test]
fn session_without_window_waits_for_ever() {
    let mut orchestrator = CoreOrchestrator::new(UserPreferenceVector::new());
    orchestrator.submit(event()).unwrap();
    orchestrator.check(Vec::new()).unwrap();
    orchestrator.propose(Timestamp { seconds: 0, nanos: 0 }).unwrap();
    let much_later = Timestamp { seconds: i64::MAX, nanos: 999_999_999 };
    assert!(!orchestrator.is_due(much_later));
    assert!(!orchestrator.expire_if_due(much_later));
    orchestrator.execute_with_approval_at(true, 0, much_later).unwrap();
    assert_eq!(orchestrator.get_state(), OrchestratorState::Execute);
}

#[test]
fn approval_in_time_is_accepted() {
    let sent = Timestamp { seconds: 1_000, nanos: 0 };
    let mut orchestrator = waiting_since(event(), sent, 3_600);
    let in_time = Timestamp { seconds: 4_600, nanos: 0 };
    assert!(matches!(
        orchestrator.execute_with_approval_at(true, 9, in_time),
        Err(EngineError::InvalidPathIndex)
    ));
    assert_eq!(orchestrator.get_state(), OrchestratorState::Wait);
    orchestrator.execute_with_approval_at(true, 0, in_time).unwrap();
    assert_eq!(orchestrator.get_state(), OrchestratorState::Execute);
}

#[test]
fn end_to_end_efficient_ride() {
    let mut orchestrator = CoreOrchestrator::new(UserPreferenceVector::new());
    orchestrator.submit(ride_home_to_work()).unwrap();
    orchestrator.check(Vec::new()).unwrap();
    let plan = orchestrator.wait().unwrap();
    assert_eq!(plan.paths.len(), 3);
    assert_eq!(plan.paths[0].path_type, PathType::Efficiency);
    assert_eq!(plan.paths[1].path_type, PathType::Luxury);
    assert_eq!(plan.paths[2].path_type, PathType::Discovery);
    assert_eq!(plan.paths[0].estimated_cost, Some(cents(20.0)));
    assert_eq!(plan.paths[1].estimated_cost, Some(cents(30.0)));
    assert_eq!(plan.paths[2].estimated_cost, Some(cents(14.0)));
    assert!(plan.conflicts.is_empty());

    orchestrator.execute_with_approval(token_is_valid("valid_token_123"), 0).unwrap();
    assert_eq!(orchestrator.get_state(), OrchestratorState::Execute);
    let step = orchestrator.pending_step().unwrap();
    assert_eq!(step.action, "book_transportation");
    assert_eq!(step.capability, "uber");

    let at = Timestamp { seconds: 1_700_000_123, nanos: 0 };
    orchestrator.execute_at(at).unwrap();
    assert_eq!(orchestrator.get_state(), OrchestratorState::Report);
    assert!(orchestrator.pending_step().is_none());

    let summary = orchestrator.report().unwrap();
    assert!(summary.outcome_recorded);
    assert_eq!(summary.step_results.len(), 1);
    assert_eq!(summary.step_results[0].step_id, "step_1");
    assert_eq!(
        summary.step_results[0].outcome.as_ref().unwrap(),
        "Successfully executed book_transportation using uber"
    );
    assert_eq!(
        summary.to_text(),
        "Execution Summary:\n  step_1: Successfully executed book_transportation using uber\n"
    );

    let profile = orchestrator.get_user_preferences();
    assert_eq!(profile.history.len(), 1);
    let record = &profile.history[0];
    assert_eq!(record.action_id, "action_1700000123");
    assert!(matches!(record.action_type, ActionType::TransportationBooking));
    assert_eq!(record.selected_path, Some(PathType::Efficiency));
    assert_eq!(record.outcome, ActionOutcome::Success);
    assert_eq!(record.satisfaction_rating, None);
    assert_eq!(record.timestamp, at);
    assert_eq!(record.cost, Some(cents(20.0)));
    assert_eq!(record.time_spent.as_deref(), Some("PT30M"));
    assert_eq!(profile.last_updated, at);
    assert_eq!(profile.get_preferred_path_type("transportation"), Some(PathType::Efficiency));
    assert_eq!(profile.get_activity_frequency("transportation"), 1);

    // a finished session takes nothing more
    assert!(matches!(orchestrator.execute(), Err(EngineError::SessionNotReady)));
    assert!(matches!(
        orchestrator.execute_with_approval(true, 0),
        Err(EngineError::SessionNotReady)
    ));
    assert!(matches!(orchestrator.submit(event()), Err(EngineError::SessionNotReady)));
    assert_eq!(orchestrator.get_state(), OrchestratorState::Report);
}

#[test]
fn built_in_executor_runs_every_step() {
    let mut orchestrator = waiting(event());
    orchestrator.execute_with_approval(true, 1).unwrap();
    orchestrator.execute().unwrap();
    assert_eq!(orchestrator.get_state(), OrchestratorState::Report);
    let summary = orchestrator.report().unwrap();
    assert_eq!(summary.step_results.len(), 2);
    assert_eq!(summary.step_results[1].step_id, "step_2");
    assert_eq!(
        summary.step_results[1].outcome.as_ref().unwrap(),
        "Successfully executed coordinate_luxury_services using concierge_service"
    );
    let record = &orchestrator.get_user_preferences().history[0];
    assert_eq!(record.selected_path, Some(PathType::Luxury));
    assert_eq!(record.outcome, ActionOutcome::Success);
    assert!(matches!(record.action_type, ActionType::ScheduleEvent));
    assert!(record.action_id.starts_with("action_"));
}

#[test]
fn failed_step_does_not_stop_the_others() {
    let mut orchestrator = waiting(schema(CoreIntent::PurchaseItem(PurchaseIntent {
        item_description: "headphones".to_string(),
        quantity: 1,
        max_price: Some(cents(100.0)),
        delivery_preference: None,
    })));
    orchestrator.execute_with_approval(true, 2).unwrap();

    assert_eq!(orchestrator.pending_step().unwrap().action, "purchase_item");
    assert!(matches!(orchestrator.report(), Err(EngineError::SessionNotReady)));
    orchestrator.record_step_result(Err("card declined".to_string())).unwrap();
    assert_eq!(orchestrator.get_state(), OrchestratorState::Execute);
    assert_eq!(orchestrator.get_user_preferences().history.len(), 0);

    assert_eq!(orchestrator.pending_step().unwrap().action, "discover_similar_items");
    orchestrator.record_step_result(Ok("three similar items".to_string())).unwrap();
    assert_eq!(orchestrator.get_state(), OrchestratorState::Report);
    assert!(matches!(
        orchestrator.record_step_result(Ok("one too many".to_string())),
        Err(EngineError::SessionNotReady)
    ));

    let summary = orchestrator.report().unwrap();
    assert_eq!(summary.step_results.len(), 2);
    match &summary.step_results[0].outcome {
        Err(EngineError::ExecutionStepFailure(step, detail)) => {
            assert_eq!(step, "step_1");
            assert_eq!(detail, "card declined");
        }
        other => panic!("unexpected result: {:?}", other),
    }
    assert_eq!(summary.step_results[1].outcome.as_ref().unwrap(), "three similar items");
    assert_eq!(
        summary.to_text(),
        "Execution Summary:\n  step_1: Step step_1 failed: card declined\n  step_2: three similar items\n"
    );

    let record = &orchestrator.get_user_preferences().history[0];
    assert_eq!(record.outcome, ActionOutcome::PartialSuccess);
    assert_eq!(record.selected_path, Some(PathType::Discovery));
    assert!(matches!(record.action_type, ActionType::Purchase));
    assert_eq!(record.cost, Some(cents(100.0)));
    assert_eq!(orchestrator.get_user_preferences().get_vibe_preference("purchase"), Vibe::Adventurous);
}

#[test]
fn built_in_executor_reports_success() {
    let orchestrator = waiting(ride_home_to_work());
    let step = &orchestrator.get_generated_paths()[2].steps[1];
    assert_eq!(
        orchestrator.execute_step(step),
        Ok("Successfully executed explore_nearby using local_discovery".to_string())
    );
}

#[test]
fn action_types_follow_intents() {
    let orchestrator = CoreOrchestrator::new(UserPreferenceVector::new());
    assert!(matches!(
        orchestrator.get_action_type_from_intent(&ride_home_to_work()),
        ActionType::TransportationBooking
    ));
    assert!(matches!(
        orchestrator.get_action_type_from_intent(&event()),
        ActionType::ScheduleEvent
    ));
    match orchestrator.get_action_type_from_intent(&schema(CoreIntent::Custom("x".to_string()))) {
        ActionType::Custom(label) => assert_eq!(label, "custom"),
        other => panic!("unexpected action type: {:?}", other),
    }
}

#[test]
fn plans_stay_as_drafted_while_waiting() {
    let mut orchestrator = waiting(ride_home_to_work());
    let drafted = format!("{:?}", orchestrator.get_generated_paths());
    orchestrator.update_capability_availability("uber", false);
    let _ = orchestrator.execute_with_approval(false, 0);
    let _ = orchestrator.execute_with_approval(true, 7);
    assert_eq!(format!("{:?}", orchestrator.get_generated_paths()), drafted);
    orchestrator.execute_with_approval(true, 1).unwrap();
    assert_eq!(format!("{:?}", orchestrator.get_generated_paths()), drafted);
    assert_eq!(
        format!("{:?}", orchestrator.get_selected_path().unwrap()),
        format!("{:?}", orchestrator.get_generated_paths()[1])
    );
}

#[test]
fn profile_can_be_replaced() {
    let mut orchestrator = CoreOrchestrator::new(UserPreferenceVector::new());
    orchestrator.update_user_preferences(UserPreferenceVector::with_user_id("ana".to_string()));
    assert_eq!(orchestrator.get_user_preferences().user_id, "ana");
    assert_eq!(orchestrator.get_state(), OrchestratorState::Ingest);
}

#[test]
fn summary_without_steps_is_the_heading() {
    let summary = ExecutionSummary { step_results: vec![], outcome_recorded: false };
    assert_eq!(summary.to_text(), "Execution Summary:\n");
    let result = StepResult { step_id: "step_1".to_string(), outcome: Ok("done".to_string()) };
    let copy = result.clone();
    assert_eq!(copy.step_id, "step_1");
    assert_eq!(copy.outcome.unwrap(), "done");
}

#[test]
fn error_messages() {
    assert_eq!(
        EngineError::CapabilityUnavailable("uber".to_string()).message(),
        "Required capability 'uber' is not available"
    );
    assert_eq!(
        EngineError::SessionNotReady.message(),
        "Session is not ready for this operation"
    );
    assert_eq!(
        EngineError::ConflictDetected("double booking".to_string()).message(),
        "Conflict detected: double booking"
    );
    assert_eq!(
        EngineError::ExecutionStepFailure("step_2".to_string(), "timeout".to_string()).message(),
        "Step step_2 failed: timeout"
    );
}

#[test]
fn luxurious_ride_runs_its_two_steps() {
    let mut orchestrator = waiting(ride_home_to_work());
    orchestrator.execute_with_approval(true, 1).unwrap();
    assert_eq!(orchestrator.pending_step().unwrap().action, "book_transportation");
    orchestrator.execute().unwrap();
    let summary = orchestrator.report().unwrap();
    assert_eq!(summary.step_results.len(), 2);
    assert_eq!(
        summary.step_results[1].outcome.as_ref().unwrap(),
        "Successfully executed arrange_ride_amenities using concierge_service"
    );
    let record = &orchestrator.get_user_preferences().history[0];
    assert_eq!(record.selected_path, Some(PathType::Luxury));
    assert_eq!(record.cost, Some(cents(30.0)));
}
