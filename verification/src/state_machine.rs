//! The session that takes one request from intake to report.
//!
//! A session moves through its stages one transition at a time: a request is
//! taken in, the capabilities it needs are validated, plans are drafted, the
//! findings of the conflict check are attached, the proposal waits for
//! approval, the chosen plan is executed step by step, and the results are
//! reported. Work that others do (checking for conflicts, judging an
//! approval token, running a step) reaches the session as plain values. A
//! transition that does not fit the current stage is refused and changes
//! nothing.

use crate::capability_registry::{
    available_in, first_unavailable, lemma_requirements_by_kind, required_capabilities,
    with_default_capabilities, CapabilityRegistry, CapabilityView,
};
use crate::clock::{now, Timestamp};
use crate::error::{EngineError, EngineErrorView};
use crate::intent_schema::{CoreIntent, CoreIntentView, IntentSchema, IntentSchemaView};
use crate::intention_parser::{default_tables, IntentionParser, IntentionParserView};
use crate::text::{
    clone_strings, decimal, decimal_string, join_texts, signed_decimal, signed_decimal_string,
};
use crate::user_preferences::{
    activity_category, apply_outcome, lemma_first_choice_is_preferred, preferred_path,
    ActionOutcome, ActionType, ActionTypeView, UserActionHistory, UserActionHistoryView,
    UserPreferenceVector, UserPreferenceVectorView,
};
use crate::verification_loop::{
    capabilities_ready, clone_paths, has_generators, lemma_three_plans,
    lemma_three_plans_or_none, planned_paths, ExecutionStep, ExecutionStepView, LifePath,
    LifePathView, PathType, VerificationLoop,
};
use vstd::prelude::*;
use vstd::string::*;

verus! {

/// The stages of a session. `Error` is final, and so is `Report`.
#[derive(Clone, Copy, Debug, PartialEq, Eq, Structural)]
pub enum OrchestratorState {
    /// Waiting for a request, or holding one that is not validated yet.
    Ingest,
    /// The capabilities that the request needs are available.
    Validate,
    /// Plans are drawn up.
    Draft,
    /// The findings of the conflict check are attached.
    Check,
    /// The proposal is out and waits for approval.
    Wait,
    /// A plan is chosen and its steps are being run.
    Execute,
    /// Every step has run and the outcome is recorded.
    Report,
    /// The session failed.
    Error,
}

/// What became of one step of the chosen plan.
#[derive(Debug)]
pub struct StepResult {
    /// `step_1` for the first step, `step_2` for the second, and so on.
    pub step_id: String,
    /// What the step returned, or how it failed.
    pub outcome: Result<String, EngineError>,
}

/// Model of a `StepResult`.
pub struct StepResultView {
    pub step_id: Seq<char>,
    pub outcome: Result<Seq<char>, EngineErrorView>,
}

impl View for StepResult {
    type V = StepResultView;

    open spec fn view(&self) -> StepResultView {
        StepResultView {
            step_id: self.step_id@,
            outcome: match self.outcome {
                Ok(text) => Ok(text@),
                Err(error) => Err(error@),
            },
        }
    }
}

impl DeepView for StepResult {
    type V = StepResultView;

    open spec fn deep_view(&self) -> StepResultView {
        self.view()
    }
}

impl Clone for StepResult {
    fn clone(&self) -> (copy: Self)
        ensures
            copy@ == self@,
    {
        StepResult {
            step_id: self.step_id.clone(),
            outcome: match &self.outcome {
                Ok(text) => Ok(text.clone()),
                Err(error) => Err(error.clone()),
            },
        }
    }
}

/// The proposal that is shown to the user.
#[derive(Debug)]
pub struct ProposedActionPlan {
    pub intent: IntentSchema,
    /// One to three plans: efficient, luxurious, exploring, as available.
    pub paths: Vec<LifePath>,
    /// What the conflict check found; advisory.
    pub conflicts: Vec<String>,
    pub user_preferences_considered: bool,
    pub timestamp: Timestamp,
}

/// Model of a `ProposedActionPlan`.
pub struct ProposedActionPlanView {
    pub intent: IntentSchemaView,
    pub paths: Seq<LifePathView>,
    pub conflicts: Seq<Seq<char>>,
    pub user_preferences_considered: bool,
    pub timestamp: Timestamp,
}

impl View for ProposedActionPlan {
    type V = ProposedActionPlanView;

    open spec fn view(&self) -> ProposedActionPlanView {
        ProposedActionPlanView {
            intent: self.intent@,
            paths: self.paths.deep_view(),
            conflicts: self.conflicts.deep_view(),
            user_preferences_considered: self.user_preferences_considered,
            timestamp: self.timestamp,
        }
    }
}

impl Clone for ProposedActionPlan {
    fn clone(&self) -> (copy: Self)
        ensures
            copy@ == self@,
    {
        ProposedActionPlan {
            intent: self.intent.clone(),
            paths: clone_paths(&self.paths),
            conflicts: clone_strings(&self.conflicts),
            user_preferences_considered: self.user_preferences_considered,
            timestamp: self.timestamp,
        }
    }
}

/// What a finished session reports.
#[derive(Debug)]
pub struct ExecutionSummary {
    /// The result of each step of the chosen plan, in order.
    pub step_results: Vec<StepResult>,
    /// Whether the outcome went into the user's history.
    pub outcome_recorded: bool,
}

/// Model of an `ExecutionSummary`.
pub struct ExecutionSummaryView {
    pub step_results: Seq<StepResultView>,
    pub outcome_recorded: bool,
}

impl View for ExecutionSummary {
    type V = ExecutionSummaryView;

    open spec fn view(&self) -> ExecutionSummaryView {
        ExecutionSummaryView {
            step_results: self.step_results.deep_view(),
            outcome_recorded: self.outcome_recorded,
        }
    }
}

/// The text of one result: what the step returned, or the sentence of its
/// failure.
pub open spec fn result_text(result: StepResultView) -> Seq<char> {
    match result.outcome {
        Ok(text) => text,
        Err(error) => error.message(),
    }
}

/// The lines of a summary, one per result: two spaces, the step's id, a
/// colon and a space, the result's text, and a line break.
pub open spec fn summary_lines(results: Seq<StepResultView>) -> Seq<char>
    decreases results.len(),
{
    if results.len() == 0 {
        Seq::empty()
    } else {
        summary_lines(results.drop_last()) + "  "@ + results.last().step_id + ": "@ + result_text(
            results.last(),
        ) + "\n"@
    }
}

impl ExecutionSummary {
    /// The summary as text: a heading, then one line per step.
    pub fn to_text(&self) -> (text: String)
        ensures
            text@ == "Execution Summary:\n"@ + summary_lines(self@.step_results),
    {
        let ghost results = self@.step_results;
        let mut text = String::from_str("Execution Summary:\n");
        let ghost heading = text@;
        let mut at: usize = 0;
        assert(results.take(0) =~= Seq::empty());
        assert(text@ =~= heading + summary_lines(results.take(0)));
        while at < self.step_results.len()
            invariant
                at <= self.step_results.len(),
                results == self@.step_results,
                results.len() == self.step_results.len(),
                heading == "Execution Summary:\n"@,
                text@ == heading + summary_lines(results.take(at as int)),
            decreases self.step_results.len() - at,
        {
            let result = &self.step_results[at];
            let ghost before = text@;
            proof {
                assert(results.take(at + 1).drop_last() =~= results.take(at as int));
                assert(results.take(at + 1).last() == result@);
            }
            text.append("  ");
            text.append(result.step_id.as_str());
            text.append(": ");
            match &result.outcome {
                Ok(returned) => {
                    text.append(returned.as_str());
                },
                Err(error) => {
                    let sentence = error.message();
                    text.append(sentence.as_str());
                },
            }
            text.append("\n");
            assert(text@ =~= heading + summary_lines(results.take(at + 1)));
            at += 1;
        }
        assert(results.take(at as int) =~= results);
        text
    }
}

/// A session as plain values.
pub struct SessionView {
    pub state: OrchestratorState,
    /// The tables by which requests are read.
    pub parser: IntentionParserView,
    /// The capabilities and their availability.
    pub directory: Map<Seq<char>, CapabilityView>,
    /// The profile of the session's user.
    pub profile: UserPreferenceVectorView,
    pub intent: Option<IntentSchemaView>,
    /// The plans drawn up for the request.
    pub paths: Seq<LifePathView>,
    /// What the conflict check found.
    pub conflicts: Seq<Seq<char>>,
    /// For how many seconds a proposal may wait for approval; `None` where
    /// it may wait for ever.
    pub approval_window: Option<u64>,
    /// When the proposal went out.
    pub proposed_at: Option<Timestamp>,
    /// The plan that was approved.
    pub selected: Option<LifePathView>,
    /// The results of the steps run so far.
    pub results: Seq<StepResultView>,
    /// Why the session failed, if it did.
    pub error: Option<EngineErrorView>,
}

/// The name under which the registry knows a kind of intent.
pub open spec fn intent_kind(intent: CoreIntentView) -> Seq<char> {
    match intent {
        CoreIntentView::BookReservation(_) => "reservationintent"@,
        CoreIntentView::ScheduleEvent(_) => "scheduleintent"@,
        CoreIntentView::TransportationRequest(_) => "transportationrequest"@,
        CoreIntentView::PurchaseItem(_) => "purchaseitem"@,
        CoreIntentView::InformationQuery(_) => "informationquery"@,
        CoreIntentView::Custom(_) => "custom"@,
    }
}

/// The kind of action that serves a kind of intent.
pub open spec fn action_type_of(intent: CoreIntentView) -> ActionTypeView {
    match intent {
        CoreIntentView::TransportationRequest(_) => ActionTypeView::TransportationBooking,
        CoreIntentView::BookReservation(_) => ActionTypeView::ReservationBooking,
        CoreIntentView::ScheduleEvent(_) => ActionTypeView::ScheduleEvent,
        CoreIntentView::PurchaseItem(_) => ActionTypeView::Purchase,
        CoreIntentView::InformationQuery(_) => ActionTypeView::InformationQuery,
        CoreIntentView::Custom(_) => ActionTypeView::Custom("custom"@),
    }
}

/// A session that has just been opened for a user.
pub open spec fn opened(
    profile: UserPreferenceVectorView,
    directory: Map<Seq<char>, CapabilityView>,
) -> SessionView {
    SessionView {
        state: OrchestratorState::Ingest,
        parser: default_tables(),
        directory,
        profile,
        intent: None,
        paths: Seq::empty(),
        conflicts: Seq::empty(),
        approval_window: None,
        proposed_at: None,
        selected: None,
        results: Seq::empty(),
        error: None,
    }
}

/// The session after it failed with `error`.
pub open spec fn failed(session: SessionView, error: EngineErrorView) -> SessionView {
    SessionView { state: OrchestratorState::Error, error: Some(error), ..session }
}

/// The session after it took a request in.
pub open spec fn ingested(session: SessionView, intent: IntentSchemaView) -> SessionView {
    if session.state == OrchestratorState::Ingest {
        SessionView { intent: Some(intent), ..session }
    } else {
        session
    }
}

/// Whether the session holds a request that is not validated yet.
pub open spec fn can_validate(session: SessionView) -> bool {
    session.state == OrchestratorState::Ingest && session.intent is Some
}

/// The session after validation: it fails with the first capability that the
/// request needs and the directory does not list as available.
pub open spec fn validated(session: SessionView) -> SessionView {
    if can_validate(session) {
        match first_unavailable(
            session.directory,
            required_capabilities(intent_kind(session.intent->Some_0.core_intent)),
        ) {
            Some(name) => failed(session, EngineErrorView::CapabilityUnavailable(name)),
            None => SessionView { state: OrchestratorState::Validate, ..session },
        }
    } else {
        session
    }
}

/// Whether the session holds a validated request without plans.
pub open spec fn can_draft(session: SessionView) -> bool {
    session.state == OrchestratorState::Validate && session.intent is Some
}

/// The session after drafting: it holds the plans for its request, or fails
/// where there is none.
pub open spec fn drafted(session: SessionView) -> SessionView {
    if can_draft(session) {
        let paths = planned_paths(session.intent->Some_0.core_intent, session.directory);
        if paths.len() == 0 {
            failed(session, EngineErrorView::NoViablePath)
        } else {
            SessionView { state: OrchestratorState::Draft, paths, ..session }
        }
    } else {
        session
    }
}

/// The session after a request was submitted: taken in, validated and, if
/// that went well, drafted.
pub open spec fn submitted(session: SessionView, intent: IntentSchemaView) -> SessionView {
    if session.state == OrchestratorState::Ingest {
        drafted(validated(ingested(session, intent)))
    } else {
        session
    }
}

/// The session after the findings of the conflict check were attached.
pub open spec fn checked(session: SessionView, conflicts: Seq<Seq<char>>) -> SessionView {
    if session.state == OrchestratorState::Draft {
        SessionView { state: OrchestratorState::Check, conflicts, ..session }
    } else {
        session
    }
}

/// Whether the session can put its proposal out.
pub open spec fn can_propose(session: SessionView) -> bool {
    session.state == OrchestratorState::Check && session.intent is Some
}

/// The session after its proposal went out at the instant `at`.
pub open spec fn proposed(session: SessionView, at: Timestamp) -> SessionView {
    if can_propose(session) {
        SessionView { state: OrchestratorState::Wait, proposed_at: Some(at), ..session }
    } else {
        session
    }
}

/// The proposal of a session, stamped with the instant `at`.
pub open spec fn proposal(session: SessionView, at: Timestamp) -> ProposedActionPlanView {
    ProposedActionPlanView {
        intent: session.intent->Some_0,
        paths: session.paths,
        conflicts: session.conflicts,
        user_preferences_considered: true,
        timestamp: at,
    }
}

/// The time from one instant to another, in nanoseconds.
pub open spec fn elapsed_nanos(from: Timestamp, to: Timestamp) -> int {
    (to.seconds - from.seconds) * 1_000_000_000 + (to.nanos - from.nanos)
}

/// Whether at the instant `now` the session has waited for approval longer
/// than its window allows.
pub open spec fn is_due(session: SessionView, now: Timestamp) -> bool {
    &&& session.state == OrchestratorState::Wait
    &&& session.approval_window matches Some(window)
    &&& session.proposed_at matches Some(since)
    &&& elapsed_nanos(since, now) > window * 1_000_000_000
}

/// The session after the approval window ran out: it has failed and holds
/// its plans no longer.
pub open spec fn expired(session: SessionView) -> SessionView {
    if session.state == OrchestratorState::Wait {
        SessionView {
            paths: Seq::empty(),
            conflicts: Seq::empty(),
            ..failed(session, EngineErrorView::ApprovalExpired)
        }
    } else {
        session
    }
}

/// The session after a look at the clock at the instant `now`: expired where
/// it has waited too long, unchanged otherwise.
pub open spec fn expired_if_due(session: SessionView, now: Timestamp) -> SessionView {
    if is_due(session, now) {
        expired(session)
    } else {
        session
    }
}

/// Why an approval at the instant `at` is refused, if it is: the session is
/// not waiting for one, it has waited too long, the token was not accepted,
/// or the index names no plan.
pub open spec fn approval_error(
    session: SessionView,
    token_valid: bool,
    path_index: int,
    at: Timestamp,
) -> Option<EngineErrorView> {
    if session.state != OrchestratorState::Wait {
        Some(EngineErrorView::SessionNotReady)
    } else if is_due(session, at) {
        Some(EngineErrorView::ApprovalExpired)
    } else if !token_valid {
        Some(EngineErrorView::InvalidApprovalToken)
    } else if !(0 <= path_index < session.paths.len()) {
        Some(EngineErrorView::InvalidPathIndex)
    } else {
        None
    }
}

/// The id of the step at a position: `step_1` for position 0.
pub open spec fn step_id(position: nat) -> Seq<char> {
    "step_"@ + decimal(position + 1)
}

/// The result of the step at a position, from what its executor returned.
pub open spec fn step_result(position: nat, outcome: Result<Seq<char>, Seq<char>>) -> StepResultView {
    StepResultView {
        step_id: step_id(position),
        outcome: match outcome {
            Ok(text) => Ok(text),
            Err(detail) => Err(EngineErrorView::ExecutionStepFailure(step_id(position), detail)),
        },
    }
}

/// What an executor returned, as plain values.
pub open spec fn plain_outcome(outcome: Result<String, String>) -> Result<Seq<char>, Seq<char>> {
    match outcome {
        Ok(text) => Ok(text@),
        Err(detail) => Err(detail@),
    }
}

/// Whether every step succeeded.
pub open spec fn all_succeeded(results: Seq<StepResultView>) -> bool {
    forall|i: int| 0 <= i < results.len() ==> (#[trigger] results[i]).outcome is Ok
}

/// The record of a finished execution: the chosen plan's kind, cost and
/// time, success if every step succeeded and partial success if not, and no
/// rating yet.
pub open spec fn outcome_record(
    intent: IntentSchemaView,
    selected: LifePathView,
    results: Seq<StepResultView>,
    at: Timestamp,
) -> UserActionHistoryView {
    UserActionHistoryView {
        action_id: "action_"@ + signed_decimal(at.seconds as int),
        action_type: action_type_of(intent.core_intent),
        intent,
        selected_path: Some(selected.path_type),
        outcome: if all_succeeded(results) {
            ActionOutcome::Success
        } else {
            ActionOutcome::PartialSuccess
        },
        satisfaction_rating: None,
        timestamp: at,
        cost: selected.estimated_cost,
        time_spent: selected.estimated_time,
    }
}

/// Whether every step of the chosen plan has a result.
pub open spec fn execution_complete(session: SessionView) -> bool {
    session.selected matches Some(plan) && session.results.len() >= plan.steps.len()
}

/// The session after its execution was closed at the instant `at`: the
/// outcome goes into the user's profile and the session can report.
pub open spec fn completed(session: SessionView, at: Timestamp) -> SessionView {
    if session.state == OrchestratorState::Execute && execution_complete(session) {
        SessionView {
            state: OrchestratorState::Report,
            profile: match session.intent {
                Some(intent) => apply_outcome(
                    session.profile,
                    outcome_record(intent, session.selected->Some_0, session.results, at),
                    at,
                ),
                None => session.profile,
            },
            ..session
        }
    } else {
        session
    }
}

/// The session after an approval at the instant `at`. A session that has
/// waited too long expires. Any other refusal changes nothing. Else the
/// chosen plan is selected and execution begins (and ends at once for a plan
/// without steps).
pub open spec fn approved(
    session: SessionView,
    token_valid: bool,
    path_index: int,
    at: Timestamp,
) -> SessionView {
    if approval_error(session, token_valid, path_index, at) is Some {
        expired_if_due(session, at)
    } else {
        completed(
            SessionView {
                state: OrchestratorState::Execute,
                selected: Some(session.paths[path_index]),
                results: Seq::empty(),
                ..session
            },
            at,
        )
    }
}

/// The step that is to run next, if the session is executing.
pub open spec fn next_step(session: SessionView) -> Option<ExecutionStepView> {
    if session.state == OrchestratorState::Execute && session.selected is Some
        && session.results.len() < session.selected->Some_0.steps.len() {
        Some(session.selected->Some_0.steps[session.results.len() as int])
    } else {
        None
    }
}

/// The session after the next step's outcome arrived at the instant `at`:
/// the result is recorded, and with the last one the execution is closed.
pub open spec fn recorded(
    session: SessionView,
    outcome: Result<Seq<char>, Seq<char>>,
    at: Timestamp,
) -> SessionView {
    if next_step(session) is Some {
        completed(
            SessionView {
                results: session.results.push(step_result(session.results.len(), outcome)),
                ..session
            },
            at,
        )
    } else {
        session
    }
}

/// What the built-in executor returns for a step: a sentence that names the
/// action and the capability.
pub open spec fn simulated_outcome(step: ExecutionStepView) -> Seq<char> {
    "Successfully executed "@ + step.action + " using "@ + step.capability
}

/// The session after every remaining step was run by the built-in executor.
pub open spec fn simulated(session: SessionView, at: Timestamp) -> SessionView
    decreases
        (if session.selected is Some {
            session.selected->Some_0.steps.len() - session.results.len()
        } else {
            0
        }),
{
    match next_step(session) {
        Some(step) => simulated(recorded(session, Ok(simulated_outcome(step)), at), at),
        None => session,
    }
}

/// What holds of every session that was opened and then only moved by its
/// transitions.
pub open spec fn is_well_formed(session: SessionView) -> bool {
    match session.state {
        OrchestratorState::Ingest => session.paths.len() == 0 && session.selected is None
            && session.results.len() == 0 && session.error is None,
        OrchestratorState::Validate => session.intent is Some && session.paths.len() == 0
            && session.selected is None && session.results.len() == 0 && session.error is None,
        OrchestratorState::Draft | OrchestratorState::Check => session.intent is Some && 1
            <= session.paths.len() <= 3 && session.selected is None && session.results.len() == 0
            && session.error is None,
        OrchestratorState::Wait => session.intent is Some && 1 <= session.paths.len() <= 3
            && session.selected is None && session.results.len() == 0 && session.error is None
            && session.proposed_at is Some,
        OrchestratorState::Execute => session.intent is Some && 1 <= session.paths.len() <= 3
            && session.selected is Some && session.paths.contains(session.selected->Some_0)
            && session.results.len() < session.selected->Some_0.steps.len() && session.error
            is None,
        OrchestratorState::Report => session.intent is Some && 1 <= session.paths.len() <= 3
            && session.selected is Some && session.paths.contains(session.selected->Some_0)
            && session.results.len() == session.selected->Some_0.steps.len() && session.error
            is None,
        OrchestratorState::Error => session.error is Some && session.selected is None
            && session.results.len() == 0,
    }
}

/// The orchestrator of one session.
#[derive(Debug)]
pub struct CoreOrchestrator {
    state: OrchestratorState,
    intention_parser: IntentionParser,
    verification_loop: VerificationLoop,
    user_preferences: UserPreferenceVector,
    current_intent: Option<IntentSchema>,
    current_paths: Vec<LifePath>,
    conflicts: Vec<String>,
    approval_window: Option<u64>,
    proposed_at: Option<Timestamp>,
    selected_path: Option<LifePath>,
    execution_results: Vec<StepResult>,
    error: Option<EngineError>,
}

impl View for CoreOrchestrator {
    type V = SessionView;

    closed spec fn view(&self) -> SessionView {
        SessionView {
            state: self.state,
            parser: self.intention_parser@,
            directory: self.verification_loop.directory(),
            profile: self.user_preferences@,
            intent: self.current_intent.deep_view(),
            paths: self.current_paths.deep_view(),
            conflicts: self.conflicts.deep_view(),
            approval_window: self.approval_window,
            proposed_at: self.proposed_at,
            selected: self.selected_path.deep_view(),
            results: self.execution_results.deep_view(),
            error: self.error.deep_view(),
        }
    }
}

/// Copies a list of step results.
fn clone_results(results: &Vec<StepResult>) -> (copy: Vec<StepResult>)
    ensures
        copy.deep_view() == results.deep_view(),
{
    let copy = results.clone();
    assert(copy.deep_view() =~= results.deep_view());
    copy
}

impl CoreOrchestrator {
    /// Opens a session for a user, with the default capabilities.
    pub fn new(user_preferences: UserPreferenceVector) -> (orchestrator: Self)
        ensures
            orchestrator@ == opened(user_preferences@, with_default_capabilities(Map::empty())),
            is_well_formed(orchestrator@),
    {
        CoreOrchestrator::with_registry(user_preferences, CapabilityRegistry::new())
    }

    /// Opens a session for a user, with the capabilities of a registry.
    pub fn with_registry(
        user_preferences: UserPreferenceVector,
        registry: CapabilityRegistry,
    ) -> (orchestrator: Self)
        ensures
            orchestrator@ == opened(user_preferences@, registry@),
            is_well_formed(orchestrator@),
    {
        let orchestrator = CoreOrchestrator {
            state: OrchestratorState::Ingest,
            intention_parser: IntentionParser::new(),
            verification_loop: VerificationLoop::new(registry),
            user_preferences,
            current_intent: None,
            current_paths: Vec::new(),
            conflicts: Vec::new(),
            approval_window: None,
            proposed_at: None,
            selected_path: None,
            execution_results: Vec::new(),
            error: None,
        };
        assert(orchestrator.current_paths.deep_view() =~= Seq::empty());
        assert(orchestrator.conflicts.deep_view() =~= Seq::empty());
        assert(orchestrator.execution_results.deep_view() =~= Seq::empty());
        orchestrator
    }

    /// Reads a request from the user's words and submits it.
    pub fn process_input(&mut self, user_input: &str) -> (outcome: Result<(), EngineError>)
        ensures
            final(self)@ == submitted(old(self)@, old(self)@.parser.parsed(user_input@)),
            match outcome {
                Ok(_) => final(self)@.state == OrchestratorState::Draft,
                Err(error) => if old(self)@.state != OrchestratorState::Ingest {
                    error@ == EngineErrorView::SessionNotReady
                } else {
                    final(self)@.state == OrchestratorState::Error && final(self)@.error == Some(
                        error@,
                    )
                },
            },
            is_well_formed(old(self)@) ==> is_well_formed(final(self)@),
    {
        if self.state != OrchestratorState::Ingest {
            return Err(EngineError::SessionNotReady);
        }
        let intent = self.intention_parser.parse(user_input);
        self.submit(intent)
    }

    /// Takes a request through intake, validation and drafting. On success
    /// the session holds one to three plans and is ready for the conflict
    /// check. A missing capability or a request without plans fails the
    /// session; a session that is past intake refuses the request.
    pub fn submit(&mut self, intent: IntentSchema) -> (outcome: Result<(), EngineError>)
        ensures
            final(self)@ == submitted(old(self)@, intent@),
            match outcome {
                Ok(_) => final(self)@.state == OrchestratorState::Draft,
                Err(error) => if old(self)@.state != OrchestratorState::Ingest {
                    error@ == EngineErrorView::SessionNotReady
                } else {
                    final(self)@.state == OrchestratorState::Error && final(self)@.error == Some(
                        error@,
                    )
                },
            },
            is_well_formed(old(self)@) ==> is_well_formed(final(self)@),
    {
        match self.ingest(intent) {
            Ok(_) => {},
            Err(error) => {
                return Err(error);
            },
        }
        match self.validate() {
            Ok(_) => {},
            Err(error) => {
                return Err(error);
            },
        }
        self.draft()
    }

    /// Takes a request in. Only a session at intake does.
    pub fn ingest(&mut self, intent: IntentSchema) -> (outcome: Result<(), EngineError>)
        ensures
            final(self)@ == ingested(old(self)@, intent@),
            match outcome {
                Ok(_) => old(self)@.state == OrchestratorState::Ingest,
                Err(error) => old(self)@.state != OrchestratorState::Ingest && error@
                    == EngineErrorView::SessionNotReady,
            },
            is_well_formed(old(self)@) ==> is_well_formed(final(self)@),
    {
        if self.state != OrchestratorState::Ingest {
            return Err(EngineError::SessionNotReady);
        }
        self.current_intent = Some(intent);
        Ok(())
    }

    /// Checks that the capabilities that the request needs are available, and
    /// fails the session with the first that is not.
    pub fn validate(&mut self) -> (outcome: Result<(), EngineError>)
        ensures
            final(self)@ == validated(old(self)@),
            match outcome {
                Ok(_) => can_validate(old(self)@) && final(self)@.state
                    == OrchestratorState::Validate,
                Err(error) => if can_validate(old(self)@) {
                    final(self)@.state == OrchestratorState::Error && final(self)@.error == Some(
                        error@,
                    )
                } else {
                    error@ == EngineErrorView::SessionNotReady
                },
            },
            is_well_formed(old(self)@) ==> is_well_formed(final(self)@),
    {
        if self.state != OrchestratorState::Ingest {
            return Err(EngineError::SessionNotReady);
        }
        let checked = match &self.current_intent {
            Some(intent) => {
                let intent_type = match &intent.core_intent {
                    CoreIntent::BookReservation(_) => "reservationintent",
                    CoreIntent::ScheduleEvent(_) => "scheduleintent",
                    CoreIntent::TransportationRequest(_) => "transportationrequest",
                    CoreIntent::PurchaseItem(_) => "purchaseitem",
                    CoreIntent::InformationQuery(_) => "informationquery",
                    CoreIntent::Custom(_) => "custom",
                };
                self.verification_loop.registry().validate_required(intent_type)
            },
            None => {
                return Err(EngineError::SessionNotReady);
            },
        };
        match checked {
            Ok(_) => {
                self.state = OrchestratorState::Validate;
                Ok(())
            },
            Err(error) => {
                self.state = OrchestratorState::Error;
                self.error = Some(error.clone());
                Err(error)
            },
        }
    }

    /// Draws up the plans for the validated request, and fails the session
    /// where there is none.
    pub fn draft(&mut self) -> (outcome: Result<(), EngineError>)
        ensures
            final(self)@ == drafted(old(self)@),
            match outcome {
                Ok(_) => can_draft(old(self)@) && final(self)@.state == OrchestratorState::Draft,
                Err(error) => if can_draft(old(self)@) {
                    final(self)@.state == OrchestratorState::Error && final(self)@.error == Some(
                        error@,
                    )
                } else {
                    error@ == EngineErrorView::SessionNotReady
                },
            },
            is_well_formed(old(self)@) ==> is_well_formed(final(self)@),
    {
        if self.state != OrchestratorState::Validate {
            return Err(EngineError::SessionNotReady);
        }
        let generated = match &self.current_intent {
            Some(intent) => self.verification_loop.generate_paths(intent, &self.user_preferences),
            None => {
                return Err(EngineError::SessionNotReady);
            },
        };
        match generated {
            Ok(paths) => {
                proof {
                    lemma_three_plans_or_none(self@.intent->Some_0.core_intent, self@.directory);
                }
                self.current_paths = paths;
                self.state = OrchestratorState::Draft;
                Ok(())
            },
            Err(error) => {
                self.state = OrchestratorState::Error;
                self.error = Some(error.clone());
                Err(error)
            },
        }
    }

    /// Attaches the findings of the conflict check to the drafted plans. The
    /// findings are advisory: whatever they are, the session goes on.
    pub fn check(&mut self, conflicts: Vec<String>) -> (outcome: Result<(), EngineError>)
        ensures
            final(self)@ == checked(old(self)@, conflicts.deep_view()),
            match outcome {
                Ok(_) => old(self)@.state == OrchestratorState::Draft,
                Err(error) => old(self)@.state != OrchestratorState::Draft && error@
                    == EngineErrorView::SessionNotReady,
            },
            is_well_formed(old(self)@) ==> is_well_formed(final(self)@),
    {
        if self.state != OrchestratorState::Draft {
            return Err(EngineError::SessionNotReady);
        }
        self.conflicts = conflicts;
        self.state = OrchestratorState::Check;
        Ok(())
    }

    /// Puts the proposal out, stamped with the current time, and waits for
    /// approval.
    pub fn wait(&mut self) -> (outcome: Result<ProposedActionPlan, EngineError>)
        ensures
            match outcome {
                Ok(plan) => can_propose(old(self)@) && plan@ == proposal(
                    old(self)@,
                    plan.timestamp,
                ) && final(self)@ == proposed(old(self)@, plan.timestamp),
                Err(error) => !can_propose(old(self)@) && error@
                    == EngineErrorView::SessionNotReady && final(self)@ == old(self)@,
            },
            is_well_formed(old(self)@) ==> is_well_formed(final(self)@),
    {
        let at = now();
        self.propose(at)
    }

    /// Puts the proposal out, stamped with the instant `at`, and waits for
    /// approval.
    pub fn propose(&mut self, at: Timestamp) -> (outcome: Result<ProposedActionPlan, EngineError>)
        ensures
            final(self)@ == proposed(old(self)@, at),
            match outcome {
                Ok(plan) => can_propose(old(self)@) && plan@ == proposal(old(self)@, at),
                Err(error) => !can_propose(old(self)@) && error@
                    == EngineErrorView::SessionNotReady,
            },
            is_well_formed(old(self)@) ==> is_well_formed(final(self)@),
    {
        if self.state != OrchestratorState::Check {
            return Err(EngineError::SessionNotReady);
        }
        let plan = match &self.current_intent {
            Some(intent) => ProposedActionPlan {
                intent: intent.clone(),
                paths: clone_paths(&self.current_paths),
                conflicts: clone_strings(&self.conflicts),
                user_preferences_considered: true,
                timestamp: at,
            },
            None => {
                return Err(EngineError::SessionNotReady);
            },
        };
        self.state = OrchestratorState::Wait;
        self.proposed_at = Some(at);
        Ok(plan)
    }

    /// Sets for how many seconds a proposal may wait for approval; `None`
    /// lets it wait for ever, which is how a session begins.
    pub fn set_approval_window(&mut self, seconds: Option<u64>)
        ensures
            final(self)@ == (SessionView { approval_window: seconds, ..old(self)@ }),
            is_well_formed(old(self)@) ==> is_well_formed(final(self)@),
    {
        self.approval_window = seconds;
    }

    /// Whether at the instant `now` the session has waited for approval
    /// longer than its window allows.
    pub fn is_due(&self, now: Timestamp) -> (due: bool)
        ensures
            due == is_due(self@, now),
    {
        if self.state != OrchestratorState::Wait {
            return false;
        }
        match (self.approval_window, self.proposed_at) {
            (Some(window), Some(since)) => {
                let elapsed: i128 = (now.seconds as i128 - since.seconds as i128) * 1_000_000_000
                    + (now.nanos as i128 - since.nanos as i128);
                elapsed > window as i128 * 1_000_000_000
            },
            _ => false,
        }
    }

    /// Looks at the clock: a session that at the instant `now` has waited
    /// for approval longer than its window allows fails as expired and lets
    /// go of its plans. Says whether it did.
    pub fn expire_if_due(&mut self, now: Timestamp) -> (due: bool)
        ensures
            due == is_due(old(self)@, now),
            final(self)@ == expired_if_due(old(self)@, now),
            is_well_formed(old(self)@) ==> is_well_formed(final(self)@),
    {
        if !self.is_due(now) {
            return false;
        }
        self.current_paths = Vec::new();
        self.conflicts = Vec::new();
        self.state = OrchestratorState::Error;
        self.error = Some(EngineError::ApprovalExpired);
        assert(self.current_paths.deep_view() =~= Seq::empty());
        assert(self.conflicts.deep_view() =~= Seq::empty());
        true
    }

    /// Takes the user's approval of the plan at `path_index`, at the current
    /// time. `token_valid` is the validator's verdict on the approval token.
    /// A session that has waited too long expires. Any other refusal (the
    /// session is not waiting, the token is not valid, the index names no
    /// plan) changes nothing, so the caller may try again. On success the
    /// plan is selected and its steps are to be run.
    pub fn execute_with_approval(&mut self, token_valid: bool, path_index: usize) -> (outcome:
        Result<(), EngineError>)
        ensures
            exists|at: Timestamp|
                {
                    &&& final(self)@ == approved(old(self)@, token_valid, path_index as int, at)
                    &&& match outcome {
                        Ok(_) => approval_error(old(self)@, token_valid, path_index as int, at)
                            is None,
                        Err(error) => approval_error(
                            old(self)@,
                            token_valid,
                            path_index as int,
                            at,
                        ) == Some(error@),
                    }
                },
            (outcome matches Err(error) && error@ != EngineErrorView::ApprovalExpired)
                ==> final(self)@ == old(self)@,
            is_well_formed(old(self)@) ==> is_well_formed(final(self)@),
    {
        let at = now();
        self.execute_with_approval_at(token_valid, path_index, at)
    }

    /// Takes the user's approval of the plan at `path_index`, at the instant
    /// `at`.
    pub fn execute_with_approval_at(
        &mut self,
        token_valid: bool,
        path_index: usize,
        at: Timestamp,
    ) -> (outcome: Result<(), EngineError>)
        ensures
            final(self)@ == approved(old(self)@, token_valid, path_index as int, at),
            match outcome {
                Ok(_) => approval_error(old(self)@, token_valid, path_index as int, at) is None,
                Err(error) => approval_error(old(self)@, token_valid, path_index as int, at)
                    == Some(error@),
            },
            (outcome matches Err(error) && error@ != EngineErrorView::ApprovalExpired)
                ==> final(self)@ == old(self)@,
            is_well_formed(old(self)@) ==> is_well_formed(final(self)@),
    {
        if self.state != OrchestratorState::Wait {
            return Err(EngineError::SessionNotReady);
        }
        if self.expire_if_due(at) {
            return Err(EngineError::ApprovalExpired);
        }
        if !token_valid {
            return Err(EngineError::InvalidApprovalToken);
        }
        if path_index >= self.current_paths.len() {
            return Err(EngineError::InvalidPathIndex);
        }
        let selected = self.current_paths[path_index].clone();
        let run_now = selected.steps.len() == 0;
        self.selected_path = Some(selected);
        self.execution_results = Vec::new();
        self.state = OrchestratorState::Execute;
        assert(self.execution_results.deep_view() =~= Seq::empty());
        proof {
            assert(self@.paths[path_index as int] == self@.selected->Some_0);
        }
        if run_now {
            self.complete(at);
        }
        Ok(())
    }

    /// Closes a finished execution at the instant `at`: the outcome goes
    /// into the user's profile and the session can report.
    fn complete(&mut self, at: Timestamp)
        requires
            old(self)@.state == OrchestratorState::Execute,
            execution_complete(old(self)@),
        ensures
            final(self)@ == completed(old(self)@, at),
            final(self)@.profile.last_updated == at || old(self)@.intent is None,
    {
        let record = match (&self.current_intent, &self.selected_path) {
            (Some(intent), Some(selected_path)) => {
                let mut succeeded = true;
                let mut position: usize = 0;
                while position < self.execution_results.len()
                    invariant
                        position <= self.execution_results.len(),
                        succeeded == all_succeeded(
                            self.execution_results.deep_view().take(position as int),
                        ),
                    decreases self.execution_results.len() - position,
                {
                    let ghost seen = self.execution_results.deep_view().take(position as int);
                    let ghost grown = self.execution_results.deep_view().take(position + 1);
                    proof {
                        assert(grown =~= seen.push(self.execution_results[position as int]@));
                        assert forall|i: int| 0 <= i < seen.len() implies seen[i] == grown[i] by {}
                        if all_succeeded(grown) {
                            assert forall|i: int| 0 <= i < seen.len() implies (
                            #[trigger] seen[i]).outcome is Ok by {
                                assert(grown[i].outcome is Ok);
                            }
                        }
                    }
                    if self.execution_results[position].outcome.is_err() {
                        succeeded = false;
                        proof {
                            assert(grown[position as int].outcome is Err);
                        }
                    }
                    position += 1;
                }
                proof {
                    assert(self.execution_results.deep_view().take(position as int)
                        =~= self.execution_results.deep_view());
                }
                let digits = signed_decimal_string(at.seconds);
                Some(
                    UserActionHistory {
                        action_id: join_texts("action_", digits.as_str()),
                        action_type: self.get_action_type_from_intent(intent),
                        intent: intent.clone(),
                        selected_path: Some(selected_path.path_type),
                        outcome: if succeeded {
                            ActionOutcome::Success
                        } else {
                            ActionOutcome::PartialSuccess
                        },
                        satisfaction_rating: None,
                        timestamp: at,
                        cost: selected_path.estimated_cost,
                        time_spent: selected_path.estimated_time.clone(),
                    },
                )
            },
            _ => None,
        };
        match record {
            Some(action_history) => {
                self.user_preferences.apply(action_history, at);
            },
            None => {},
        }
        self.state = OrchestratorState::Report;
    }

    /// The step that is to run next: the first step of the chosen plan that
    /// has no result yet.
    pub fn pending_step(&self) -> (step: Option<&ExecutionStep>)
        ensures
            step.deep_view() == next_step(self@),
    {
        if self.state != OrchestratorState::Execute {
            return None;
        }
        match &self.selected_path {
            Some(selected) => {
                if self.execution_results.len() < selected.steps.len() {
                    Some(&selected.steps[self.execution_results.len()])
                } else {
                    None
                }
            },
            None => None,
        }
    }

    /// Records what the executor returned for the pending step. A failure is
    /// kept as the step's result and does not stop the steps after it. With
    /// the last step the execution is closed, at the current time.
    pub fn record_step_result(&mut self, outcome: Result<String, String>) -> (recording: Result<
        (),
        EngineError,
    >)
        ensures
            final(self)@ == recorded(
                old(self)@,
                plain_outcome(outcome),
                final(self)@.profile.last_updated,
            ),
            match recording {
                Ok(_) => next_step(old(self)@) is Some,
                Err(error) => next_step(old(self)@) is None && error@
                    == EngineErrorView::SessionNotReady,
            },
            is_well_formed(old(self)@) ==> is_well_formed(final(self)@),
    {
        let at = now();
        let ghost before = self@;
        let ghost plain = plain_outcome(outcome);
        let recording = self.record_step_result_at(outcome, at);
        proof {
            if next_step(before) is Some {
                let with_result = SessionView {
                    results: before.results.push(step_result(before.results.len(), plain)),
                    ..before
                };
                if execution_complete(with_result) && before.intent is Some {
                    assert(self@.profile.last_updated == at);
                } else {
                    assert(recorded(before, plain, at) == recorded(
                        before,
                        plain,
                        self@.profile.last_updated,
                    ));
                }
            }
        }
        recording
    }

    /// Records what the executor returned for the pending step; with the last
    /// step the execution is closed at the instant `at`.
    pub fn record_step_result_at(
        &mut self,
        outcome: Result<String, String>,
        at: Timestamp,
    ) -> (recording: Result<(), EngineError>)
        ensures
            final(self)@ == recorded(old(self)@, plain_outcome(outcome), at),
            match recording {
                Ok(_) => next_step(old(self)@) is Some,
                Err(error) => next_step(old(self)@) is None && error@
                    == EngineErrorView::SessionNotReady,
            },
            is_well_formed(old(self)@) ==> is_well_formed(final(self)@),
    {
        if self.state != OrchestratorState::Execute {
            return Err(EngineError::SessionNotReady);
        }
        let total: usize = match &self.selected_path {
            Some(selected) => selected.steps.len(),
            None => {
                return Err(EngineError::SessionNotReady);
            },
        };
        let position: usize = self.execution_results.len();
        if position >= total {
            return Err(EngineError::SessionNotReady);
        }
        let digits = decimal_string((position + 1) as u64);
        let step_id = join_texts("step_", digits.as_str());
        let ghost plain = plain_outcome(outcome);
        let result = match outcome {
            Ok(text) => StepResult { step_id, outcome: Ok(text) },
            Err(detail) => {
                let failed_step = step_id.clone();
                StepResult {
                    step_id,
                    outcome: Err(EngineError::ExecutionStepFailure(failed_step, detail)),
                }
            },
        };
        let ghost earlier = self.execution_results.deep_view();
        assert(result@ == step_result(position as nat, plain));
        self.execution_results.push(result);
        assert(self.execution_results.deep_view() =~= earlier.push(result@));
        if position + 1 >= total {
            self.complete(at);
        }
        Ok(())
    }

    /// What the built-in executor returns for a step. It calls no service:
    /// it reports success with a sentence that names the action and the
    /// capability.
    pub fn execute_step(&self, step: &ExecutionStep) -> (outcome: Result<String, String>)
        ensures
            outcome is Ok,
            outcome->Ok_0@ == simulated_outcome(step@),
    {
        let mut text = join_texts("Successfully executed ", step.action.as_str());
        text.append(" using ");
        text.append(step.capability.as_str());
        Ok(text)
    }

    /// Runs every remaining step of the chosen plan with the built-in
    /// executor and closes the execution.
    pub fn execute(&mut self) -> (outcome: Result<(), EngineError>)
        ensures
            final(self)@ == simulated(old(self)@, final(self)@.profile.last_updated),
            match outcome {
                Ok(_) => next_step(old(self)@) is Some && final(self)@.state
                    == OrchestratorState::Report,
                Err(error) => next_step(old(self)@) is None && error@
                    == EngineErrorView::SessionNotReady,
            },
            is_well_formed(old(self)@) ==> is_well_formed(final(self)@),
    {
        let at = now();
        let outcome = self.execute_at(at);
        proof {
            if next_step(old(self)@) is Some {
                lemma_simulated_time(old(self)@, at, self@.profile.last_updated);
            }
        }
        outcome
    }

    /// Runs every remaining step of the chosen plan with the built-in
    /// executor and closes the execution at the instant `at`.
    pub fn execute_at(&mut self, at: Timestamp) -> (outcome: Result<(), EngineError>)
        ensures
            final(self)@ == simulated(old(self)@, at),
            match outcome {
                Ok(_) => next_step(old(self)@) is Some && final(self)@.state
                    == OrchestratorState::Report,
                Err(error) => next_step(old(self)@) is None && error@
                    == EngineErrorView::SessionNotReady,
            },
            is_well_formed(old(self)@) ==> is_well_formed(final(self)@),
    {
        if self.pending_step().is_none() {
            return Err(EngineError::SessionNotReady);
        }
        loop
            invariant_except_break
                next_step(self@) is Some,
            invariant
                simulated(self@, at) == simulated(old(self)@, at),
                is_well_formed(old(self)@) ==> is_well_formed(self@),
            ensures
                next_step(self@) is None,
                self@.state == OrchestratorState::Report,
            decreases self@.selected->Some_0.steps.len() - self@.results.len(),
        {
            let result = match self.pending_step() {
                Some(step) => self.execute_step(step),
                None => Err(String::new()),
            };
            let recording = self.record_step_result_at(result, at);
            if self.pending_step().is_none() {
                break ;
            }
        }
        Ok(())
    }

    /// The results of the finished execution. Only a session that has
    /// reached its report has them.
    pub fn report(&self) -> (outcome: Result<ExecutionSummary, EngineError>)
        ensures
            match outcome {
                Ok(summary) => self@.state == OrchestratorState::Report && summary@ == (
                ExecutionSummaryView {
                    step_results: self@.results,
                    outcome_recorded: self@.intent is Some,
                }),
                Err(error) => self@.state != OrchestratorState::Report && error@
                    == EngineErrorView::SessionNotReady,
            },
    {
        if self.state != OrchestratorState::Report {
            return Err(EngineError::SessionNotReady);
        }
        Ok(
            ExecutionSummary {
                step_results: clone_results(&self.execution_results),
                outcome_recorded: self.current_intent.is_some(),
            },
        )
    }

    /// The kind of action that serves an intent.
    pub fn get_action_type_from_intent(&self, intent: &IntentSchema) -> (action_type: ActionType)
        ensures
            action_type@ == action_type_of(intent@.core_intent),
    {
        match &intent.core_intent {
            CoreIntent::TransportationRequest(_) => ActionType::TransportationBooking,
            CoreIntent::BookReservation(_) => ActionType::ReservationBooking,
            CoreIntent::ScheduleEvent(_) => ActionType::ScheduleEvent,
            CoreIntent::PurchaseItem(_) => ActionType::Purchase,
            CoreIntent::InformationQuery(_) => ActionType::InformationQuery,
            CoreIntent::Custom(_) => ActionType::Custom(String::from_str("custom")),
        }
    }

    /// The stage of the session.
    pub fn get_state(&self) -> (state: OrchestratorState)
        ensures
            state == self@.state,
    {
        self.state
    }

    /// The request of the session.
    pub fn get_current_intent(&self) -> (intent: Option<&IntentSchema>)
        ensures
            intent.deep_view() == self@.intent,
    {
        self.current_intent.as_ref()
    }

    /// The plans drawn up for the request.
    pub fn get_generated_paths(&self) -> (paths: &Vec<LifePath>)
        ensures
            paths.deep_view() == self@.paths,
    {
        &self.current_paths
    }

    /// The plan that was approved.
    pub fn get_selected_path(&self) -> (path: Option<&LifePath>)
        ensures
            path.deep_view() == self@.selected,
    {
        self.selected_path.as_ref()
    }

    /// Why the session failed, if it did.
    pub fn get_error(&self) -> (error: Option<&EngineError>)
        ensures
            error.deep_view() == self@.error,
    {
        self.error.as_ref()
    }

    /// The profile of the session's user.
    pub fn get_user_preferences(&self) -> (profile: &UserPreferenceVector)
        ensures
            profile@ == self@.profile,
    {
        &self.user_preferences
    }

    /// Replaces the profile of the session's user.
    pub fn update_user_preferences(&mut self, new_preferences: UserPreferenceVector)
        ensures
            final(self)@ == (SessionView { profile: new_preferences@, ..old(self)@ }),
            is_well_formed(old(self)@) ==> is_well_formed(final(self)@),
    {
        self.user_preferences = new_preferences;
    }

    /// Sets the availability of a capability in the session's directory;
    /// does nothing where the directory has no such capability. Plans that
    /// are drawn up already stay as they are.
    pub fn update_capability_availability(&mut self, capability_name: &str, available: bool)
        ensures
            final(self)@ == (SessionView {
                directory: if old(self)@.directory.contains_key(capability_name@) {
                    old(self)@.directory.insert(
                        capability_name@,
                        old(self)@.directory[capability_name@].with_availability(available),
                    )
                } else {
                    old(self)@.directory
                },
                ..old(self)@
            }),
            is_well_formed(old(self)@) ==> is_well_formed(final(self)@),
    {
        self.verification_loop.update_availability(capability_name, available);
    }
}

/// Where the session holds a request, running the remaining steps stamps the
/// profile with the instant given; where it holds none, the instant does not
/// matter.
pub proof fn lemma_simulated_time(session: SessionView, at: Timestamp, other: Timestamp)
    requires
        next_step(session) is Some,
    ensures
        session.intent is Some ==> simulated(session, at).profile.last_updated == at,
        session.intent is None ==> simulated(session, at) == simulated(session, other),
    decreases session.selected->Some_0.steps.len() - session.results.len(),
{
    let step = next_step(session)->Some_0;
    let after = recorded(session, Ok(simulated_outcome(step)), at);
    let after_other = recorded(session, Ok(simulated_outcome(step)), other);
    if next_step(after) is Some {
        assert(after == after_other);
        lemma_simulated_time(after, at, other);
    } else {
        assert(simulated(after, at) == after);
        assert(simulated(after_other, other) == after_other);
    }
}

/// An approval that is refused changes nothing about the session, unless
/// the session has waited too long.
pub proof fn lemma_refused_approval_changes_nothing(
    session: SessionView,
    token_valid: bool,
    path_index: int,
    at: Timestamp,
)
    requires
        approval_error(session, token_valid, path_index, at) is Some,
        !is_due(session, at),
    ensures
        approved(session, token_valid, path_index, at) == session,
{
}

/// A session that waits, and has not done so for too long, refuses an index
/// that names none of its plans, though the token be valid, and goes on
/// waiting with the same plans.
pub proof fn lemma_index_out_of_range(session: SessionView, path_index: int, at: Timestamp)
    requires
        session.state == OrchestratorState::Wait,
        !is_due(session, at),
        !(0 <= path_index < session.paths.len()),
    ensures
        approval_error(session, true, path_index, at) == Some(EngineErrorView::InvalidPathIndex),
        approved(session, true, path_index, at) == session,
        approved(session, true, path_index, at).state == OrchestratorState::Wait,
{
}

/// A request that needs a capability that the directory does not list as
/// available fails the session at validation: the error names the
/// capability, and no plan is drawn up.
pub proof fn lemma_missing_capability_fails(
    session: SessionView,
    intent: IntentSchemaView,
    name: Seq<char>,
)
    requires
        session.state == OrchestratorState::Ingest,
        first_unavailable(
            session.directory,
            required_capabilities(intent_kind(intent.core_intent)),
        ) == Some(name),
    ensures
        submitted(session, intent).state == OrchestratorState::Error,
        submitted(session, intent).error == Some(EngineErrorView::CapabilityUnavailable(name)),
        submitted(session, intent).paths == session.paths,
{
}

/// A ride cannot be requested while the directory does not list `uber` as
/// available.
pub proof fn lemma_ride_needs_uber(session: SessionView, intent: IntentSchemaView)
    requires
        session.state == OrchestratorState::Ingest,
        intent.core_intent is TransportationRequest,
        !available_in(session.directory, "uber"@),
    ensures
        submitted(session, intent).state == OrchestratorState::Error,
        submitted(session, intent).error == Some(
            EngineErrorView::CapabilityUnavailable("uber"@),
        ),
        submitted(session, intent).paths == session.paths,
{
    lemma_requirements_by_kind();
    lemma_missing_capability_fails(session, intent, "uber"@);
}

/// For a request of a kind that has plans, validation passes exactly where
/// the capability that the plans need is available: what the registry
/// requires of the kind and what the generator asks for are the same.
pub proof fn lemma_validation_is_readiness(
    intent: CoreIntentView,
    directory: Map<Seq<char>, CapabilityView>,
)
    requires
        has_generators(intent),
    ensures
        first_unavailable(directory, required_capabilities(intent_kind(intent))) is None
            <==> capabilities_ready(intent, directory),
{
    lemma_requirements_by_kind();
    let required = required_capabilities(intent_kind(intent));
    if required.len() > 0 {
        assert(required.skip(1) =~= Seq::<Seq<char>>::empty());
        assert(first_unavailable(directory, required.skip(1)) is None);
    }
}

/// A request is drafted exactly where its kind has plans and the capability
/// they need is available; the session then holds its three plans.
pub proof fn lemma_submission(session: SessionView, intent: IntentSchemaView)
    requires
        session.state == OrchestratorState::Ingest,
    ensures
        submitted(session, intent).state == OrchestratorState::Draft <==> has_generators(
            intent.core_intent,
        ) && capabilities_ready(intent.core_intent, session.directory),
        submitted(session, intent).state == OrchestratorState::Draft ==> submitted(
            session,
            intent,
        ).paths == planned_paths(intent.core_intent, session.directory) && submitted(
            session,
            intent,
        ).paths.len() == 3,
        submitted(session, intent).state == OrchestratorState::Draft || submitted(
            session,
            intent,
        ).state == OrchestratorState::Error,
{
    lemma_three_plans_or_none(intent.core_intent, session.directory);
    lemma_requirements_by_kind();
    let required = required_capabilities(intent_kind(intent.core_intent));
    if required.len() > 0 {
        assert(required.skip(1) =~= Seq::<Seq<char>>::empty());
        assert(first_unavailable(session.directory, required.skip(1)) is None);
    }
}

/// The plans of a session stay as they were drafted for as long as the
/// session can still be approved or is being executed: attaching findings,
/// proposing, approving in time and recording results all leave them alone,
/// and an approved plan is one of them.
pub proof fn lemma_plans_are_kept(
    session: SessionView,
    conflicts: Seq<Seq<char>>,
    token_valid: bool,
    path_index: int,
    outcome: Result<Seq<char>, Seq<char>>,
    at: Timestamp,
)
    ensures
        checked(session, conflicts).paths == session.paths,
        proposed(session, at).paths == session.paths,
        !is_due(session, at) ==> approved(session, token_valid, path_index, at).paths
            == session.paths,
        recorded(session, outcome, at).paths == session.paths,
        approval_error(session, token_valid, path_index, at) is None ==> approved(
            session,
            token_valid,
            path_index,
            at,
        ).selected == Some(session.paths[path_index]),
{
}

/// The rank of a stage in the order in which a session passes through them.
pub open spec fn stage_rank(state: OrchestratorState) -> int {
    match state {
        OrchestratorState::Ingest => 0,
        OrchestratorState::Validate => 1,
        OrchestratorState::Draft => 2,
        OrchestratorState::Check => 3,
        OrchestratorState::Wait => 4,
        OrchestratorState::Execute => 5,
        OrchestratorState::Report => 6,
        OrchestratorState::Error => 7,
    }
}

/// No transition takes a session back to an earlier stage, and none takes
/// it out of a failure or out of its report.
pub proof fn lemma_stages_only_advance(
    session: SessionView,
    intent: IntentSchemaView,
    conflicts: Seq<Seq<char>>,
    token_valid: bool,
    path_index: int,
    outcome: Result<Seq<char>, Seq<char>>,
    at: Timestamp,
)
    ensures
        stage_rank(submitted(session, intent).state) >= stage_rank(session.state),
        stage_rank(ingested(session, intent).state) >= stage_rank(session.state),
        stage_rank(validated(session).state) >= stage_rank(session.state),
        stage_rank(drafted(session).state) >= stage_rank(session.state),
        stage_rank(checked(session, conflicts).state) >= stage_rank(session.state),
        stage_rank(proposed(session, at).state) >= stage_rank(session.state),
        stage_rank(expired_if_due(session, at).state) >= stage_rank(session.state),
        stage_rank(approved(session, token_valid, path_index, at).state) >= stage_rank(
            session.state,
        ),
        stage_rank(recorded(session, outcome, at).state) >= stage_rank(session.state),
        session.state == OrchestratorState::Error || session.state == OrchestratorState::Report
            ==> submitted(session, intent) == session && validated(session) == session && drafted(
            session,
        ) == session && checked(session, conflicts) == session && proposed(session, at)
            == session && expired_if_due(session, at) == session && approved(
            session,
            token_valid,
            path_index,
            at,
        ) == session && recorded(session, outcome, at) == session,
{
}

/// Every transition keeps a well-formed session well-formed.
pub proof fn lemma_transitions_keep_sessions_well_formed(
    session: SessionView,
    intent: IntentSchemaView,
    conflicts: Seq<Seq<char>>,
    token_valid: bool,
    path_index: int,
    outcome: Result<Seq<char>, Seq<char>>,
    at: Timestamp,
)
    requires
        is_well_formed(session),
    ensures
        is_well_formed(submitted(session, intent)),
        is_well_formed(checked(session, conflicts)),
        is_well_formed(proposed(session, at)),
        is_well_formed(expired_if_due(session, at)),
        is_well_formed(approved(session, token_valid, path_index, at)),
        is_well_formed(recorded(session, outcome, at)),
{
    lemma_three_plans_or_none(
        ingested(session, intent).intent->Some_0.core_intent,
        session.directory,
    );
    if approval_error(session, token_valid, path_index, at) is None {
        assert(session.paths.contains(session.paths[path_index]));
    }
}

/// What running the efficient plan comes to. In a well-formed session that
/// waits with the plans of its request, approving the first plan in time and
/// letting the built-in executor run it ends in the report with one result,
/// a success; the outcome joins the user's history as a success of the
/// efficient kind; and where the user had chosen no plan for this category
/// before, the efficient kind is now the preferred one.
pub proof fn lemma_efficient_plan_runs_to_report(session: SessionView, at: Timestamp)
    requires
        is_well_formed(session),
        session.state == OrchestratorState::Wait,
        !is_due(session, at),
        session.paths == planned_paths(session.intent->Some_0.core_intent, session.directory),
    ensures
        simulated(approved(session, true, 0, at), at).state == OrchestratorState::Report,
        simulated(approved(session, true, 0, at), at).results.len() == 1,
        simulated(approved(session, true, 0, at), at).results[0].outcome is Ok,
        simulated(approved(session, true, 0, at), at).profile.history
            == session.profile.history.push(
            outcome_record(
                session.intent->Some_0,
                session.paths[0],
                simulated(approved(session, true, 0, at), at).results,
                at,
            ),
        ),
        simulated(approved(session, true, 0, at), at).profile.history.last().selected_path == Some(
            PathType::Efficiency,
        ),
        simulated(approved(session, true, 0, at), at).profile.history.last().outcome
            == ActionOutcome::Success,
        preferred_path(
            session.profile.history,
            activity_category(session.intent->Some_0.core_intent),
        ) is None ==> preferred_path(
            simulated(approved(session, true, 0, at), at).profile.history,
            activity_category(session.intent->Some_0.core_intent),
        ) == Some(PathType::Efficiency),
{
    let intent = session.intent->Some_0;
    lemma_three_plans_or_none(intent.core_intent, session.directory);
    lemma_three_plans(intent.core_intent, session.directory);
    let plan = session.paths[0];
    assert(plan.steps.len() == 1);
    let started = approved(session, true, 0, at);
    assert(started.state == OrchestratorState::Execute);
    assert(next_step(started) == Some(plan.steps[0]));
    let done = recorded(started, Ok(simulated_outcome(plan.steps[0])), at);
    assert(done.results.len() == 1);
    assert(done.state == OrchestratorState::Report);
    assert(next_step(done) is None);
    assert(simulated(done, at) == done);
    assert(simulated(started, at) == done) by {
        reveal_with_fuel(simulated, 2);
    }
    let record = outcome_record(intent, plan, done.results, at);
    assert(all_succeeded(done.results));
    assert(done.profile.history == session.profile.history.push(record));
    assert(done.profile.history.last() == record);
    if preferred_path(session.profile.history, activity_category(intent.core_intent)) is None {
        lemma_first_choice_is_preferred(
            session.profile.history,
            record,
            activity_category(intent.core_intent),
            PathType::Efficiency,
        );
    }
}

} // verus!

