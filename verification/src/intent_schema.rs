//! The structured form of a request: what the user wants done, with the
//! constraints and the mood that came with it.
//!
//! Amounts of money are whole hundredths of the currency unit (cents), and
//! scores are whole percent, so every value here is exact.

use crate::collections::StringMap;
use crate::text::clone_strings;
use vstd::prelude::*;
use vstd::string::*;

verus! {

/// Kinds of reservation.
#[derive(Clone, Copy, Debug, PartialEq, Eq, Structural)]
pub enum ReservationType {
    Restaurant,
    Hotel,
    Event,
    Service,
}

impl ReservationType {
    /// The variant's name as text.
    pub open spec fn name_text(self) -> Seq<char> {
        match self {
            ReservationType::Restaurant => "Restaurant"@,
            ReservationType::Hotel => "Hotel"@,
            ReservationType::Event => "Event"@,
            ReservationType::Service => "Service"@,
        }
    }

    /// The variant's name.
    pub fn name(&self) -> (name: &'static str)
        ensures
            name@ == self.name_text(),
    {
        match self {
            ReservationType::Restaurant => "Restaurant",
            ReservationType::Hotel => "Hotel",
            ReservationType::Event => "Event",
            ReservationType::Service => "Service",
        }
    }
}

/// Kinds of vehicle.
#[derive(Clone, Copy, Debug, PartialEq, Eq, Structural)]
pub enum VehicleType {
    Standard,
    Luxury,
    Pool,
    Bike,
}

impl VehicleType {
    /// The variant's name as text.
    pub open spec fn name_text(self) -> Seq<char> {
        match self {
            VehicleType::Standard => "Standard"@,
            VehicleType::Luxury => "Luxury"@,
            VehicleType::Pool => "Pool"@,
            VehicleType::Bike => "Bike"@,
        }
    }

    /// The variant's name.
    pub fn name(&self) -> (name: &'static str)
        ensures
            name@ == self.name_text(),
    {
        match self {
            VehicleType::Standard => "Standard",
            VehicleType::Luxury => "Luxury",
            VehicleType::Pool => "Pool",
            VehicleType::Bike => "Bike",
        }
    }
}

/// Ways to have a purchase delivered.
#[derive(Clone, Copy, Debug, PartialEq, Eq, Structural)]
pub enum DeliveryMethod {
    Standard,
    Express,
    Pickup,
}

/// Levels of quality.
#[derive(Clone, Copy, Debug, PartialEq, Eq, Structural)]
pub enum QualityLevel {
    Basic,
    Standard,
    Premium,
    Luxury,
}

impl DeepView for QualityLevel {
    type V = QualityLevel;

    open spec fn deep_view(&self) -> QualityLevel {
        *self
    }
}

/// The feeling a request carries.
#[derive(Clone, Copy, Debug, PartialEq, Eq, Structural)]
pub enum Sentiment {
    Positive,
    Neutral,
    Negative,
}

/// The style of experience a request asks for.
#[derive(Clone, Copy, Debug, PartialEq, Eq, Hash, Structural)]
pub enum Vibe {
    Efficient,
    Relaxing,
    Luxurious,
    Adventurous,
    Minimalist,
    Social,
    Private,
}

impl DeepView for Vibe {
    type V = Vibe;

    open spec fn deep_view(&self) -> Vibe {
        *self
    }
}

/// How soon a request wants to be served.
#[derive(Clone, Copy, Debug, PartialEq, Eq, Structural)]
pub enum UrgencyLevel {
    Low,
    Medium,
    High,
    Immediate,
}

/// Priority of a scheduled event or of a step of a plan.
#[derive(Clone, Copy, Debug, PartialEq, Eq, Structural)]
pub enum PriorityLevel {
    Low,
    Medium,
    High,
    Critical,
}

/// A reservation to make (restaurant, hotel, ...).
#[derive(Debug)]
pub struct ReservationIntent {
    pub reservation_type: ReservationType,
    pub location: Option<String>,
    pub party_size: Option<u32>,
    pub preferred_time: Option<String>,
    pub special_requests: Vec<String>,
}

/// Model of a `ReservationIntent`.
pub struct ReservationIntentView {
    pub reservation_type: ReservationType,
    pub location: Option<Seq<char>>,
    pub party_size: Option<u32>,
    pub preferred_time: Option<Seq<char>>,
    pub special_requests: Seq<Seq<char>>,
}

impl View for ReservationIntent {
    type V = ReservationIntentView;

    open spec fn view(&self) -> ReservationIntentView {
        ReservationIntentView {
            reservation_type: self.reservation_type,
            location: self.location.deep_view(),
            party_size: self.party_size,
            preferred_time: self.preferred_time.deep_view(),
            special_requests: self.special_requests.deep_view(),
        }
    }
}

impl Clone for ReservationIntent {
    fn clone(&self) -> (copy: Self)
        ensures
            copy@ == self@,
    {
        ReservationIntent {
            reservation_type: self.reservation_type,
            location: self.location.clone(),
            party_size: self.party_size,
            preferred_time: self.preferred_time.clone(),
            special_requests: clone_strings(&self.special_requests),
        }
    }
}

/// An event to put on the calendar.
#[derive(Debug)]
pub struct ScheduleIntent {
    pub event_title: String,
    pub start_time: String,
    pub end_time: String,
    pub location: Option<String>,
    pub attendees: Vec<String>,
    pub priority: PriorityLevel,
}

/// Model of a `ScheduleIntent`.
pub struct ScheduleIntentView {
    pub event_title: Seq<char>,
    pub start_time: Seq<char>,
    pub end_time: Seq<char>,
    pub location: Option<Seq<char>>,
    pub attendees: Seq<Seq<char>>,
    pub priority: PriorityLevel,
}

impl View for ScheduleIntent {
    type V = ScheduleIntentView;

    open spec fn view(&self) -> ScheduleIntentView {
        ScheduleIntentView {
            event_title: self.event_title@,
            start_time: self.start_time@,
            end_time: self.end_time@,
            location: self.location.deep_view(),
            attendees: self.attendees.deep_view(),
            priority: self.priority,
        }
    }
}

impl Clone for ScheduleIntent {
    fn clone(&self) -> (copy: Self)
        ensures
            copy@ == self@,
    {
        ScheduleIntent {
            event_title: self.event_title.clone(),
            start_time: self.start_time.clone(),
            end_time: self.end_time.clone(),
            location: self.location.clone(),
            attendees: clone_strings(&self.attendees),
            priority: self.priority,
        }
    }
}

/// A ride to book. `max_cost` is in cents.
#[derive(Debug)]
pub struct TransportationIntent {
    pub pickup_location: String,
    pub destination: String,
    pub departure_time: Option<String>,
    pub vehicle_preference: Option<VehicleType>,
    pub max_cost: Option<u64>,
}

/// Model of a `TransportationIntent`.
pub struct TransportationIntentView {
    pub pickup_location: Seq<char>,
    pub destination: Seq<char>,
    pub departure_time: Option<Seq<char>>,
    pub vehicle_preference: Option<VehicleType>,
    pub max_cost: Option<u64>,
}

impl View for TransportationIntent {
    type V = TransportationIntentView;

    open spec fn view(&self) -> TransportationIntentView {
        TransportationIntentView {
            pickup_location: self.pickup_location@,
            destination: self.destination@,
            departure_time: self.departure_time.deep_view(),
            vehicle_preference: self.vehicle_preference,
            max_cost: self.max_cost,
        }
    }
}

impl Clone for TransportationIntent {
    fn clone(&self) -> (copy: Self)
        ensures
            copy@ == self@,
    {
        TransportationIntent {
            pickup_location: self.pickup_location.clone(),
            destination: self.destination.clone(),
            departure_time: self.departure_time.clone(),
            vehicle_preference: self.vehicle_preference,
            max_cost: self.max_cost,
        }
    }
}

/// Something to buy. `max_price` is in cents.
#[derive(Debug)]
pub struct PurchaseIntent {
    pub item_description: String,
    pub quantity: u32,
    pub max_price: Option<u64>,
    pub delivery_preference: Option<DeliveryMethod>,
}

/// Model of a `PurchaseIntent`.
pub struct PurchaseIntentView {
    pub item_description: Seq<char>,
    pub quantity: u32,
    pub max_price: Option<u64>,
    pub delivery_preference: Option<DeliveryMethod>,
}

impl View for PurchaseIntent {
    type V = PurchaseIntentView;

    open spec fn view(&self) -> PurchaseIntentView {
        PurchaseIntentView {
            item_description: self.item_description@,
            quantity: self.quantity,
            max_price: self.max_price,
            delivery_preference: self.delivery_preference,
        }
    }
}

impl Clone for PurchaseIntent {
    fn clone(&self) -> (copy: Self)
        ensures
            copy@ == self@,
    {
        PurchaseIntent {
            item_description: self.item_description.clone(),
            quantity: self.quantity,
            max_price: self.max_price,
            delivery_preference: self.delivery_preference,
        }
    }
}

/// A question to answer.
#[derive(Debug)]
pub struct QueryIntent {
    pub query_topic: String,
    pub query_details: StringMap<String>,
}

/// Model of a `QueryIntent`.
pub struct QueryIntentView {
    pub query_topic: Seq<char>,
    pub query_details: Map<Seq<char>, Seq<char>>,
}

impl View for QueryIntent {
    type V = QueryIntentView;

    open spec fn view(&self) -> QueryIntentView {
        QueryIntentView { query_topic: self.query_topic@, query_details: self.query_details@ }
    }
}

impl Clone for QueryIntent {
    fn clone(&self) -> (copy: Self)
        ensures
            copy@ == self@,
    {
        QueryIntent {
            query_topic: self.query_topic.clone(),
            query_details: self.query_details.duplicate(),
        }
    }
}

/// The primary action the user wants to perform.
#[derive(Debug)]
pub enum CoreIntent {
    BookReservation(ReservationIntent),
    ScheduleEvent(ScheduleIntent),
    TransportationRequest(TransportationIntent),
    PurchaseItem(PurchaseIntent),
    InformationQuery(QueryIntent),
    /// A request that fits none of the other kinds, with its text.
    Custom(String),
}

/// Model of a `CoreIntent`.
pub enum CoreIntentView {
    BookReservation(ReservationIntentView),
    ScheduleEvent(ScheduleIntentView),
    TransportationRequest(TransportationIntentView),
    PurchaseItem(PurchaseIntentView),
    InformationQuery(QueryIntentView),
    Custom(Seq<char>),
}

impl View for CoreIntent {
    type V = CoreIntentView;

    open spec fn view(&self) -> CoreIntentView {
        match self {
            CoreIntent::BookReservation(r) => CoreIntentView::BookReservation(r@),
            CoreIntent::ScheduleEvent(s) => CoreIntentView::ScheduleEvent(s@),
            CoreIntent::TransportationRequest(t) => CoreIntentView::TransportationRequest(t@),
            CoreIntent::PurchaseItem(p) => CoreIntentView::PurchaseItem(p@),
            CoreIntent::InformationQuery(q) => CoreIntentView::InformationQuery(q@),
            CoreIntent::Custom(text) => CoreIntentView::Custom(text@),
        }
    }
}

impl Clone for CoreIntent {
    fn clone(&self) -> (copy: Self)
        ensures
            copy@ == self@,
    {
        match self {
            CoreIntent::BookReservation(r) => CoreIntent::BookReservation(r.clone()),
            CoreIntent::ScheduleEvent(s) => CoreIntent::ScheduleEvent(s.clone()),
            CoreIntent::TransportationRequest(t) => CoreIntent::TransportationRequest(t.clone()),
            CoreIntent::PurchaseItem(p) => CoreIntent::PurchaseItem(p.clone()),
            CoreIntent::InformationQuery(q) => CoreIntent::InformationQuery(q.clone()),
            CoreIntent::Custom(text) => CoreIntent::Custom(text.clone()),
        }
    }
}

/// Limits in time. Instants and durations are ISO 8601 texts.
#[derive(Debug)]
pub struct TemporalConstraints {
    pub earliest_start: Option<String>,
    pub latest_end: Option<String>,
    /// Start and end of the preferred range.
    pub preferred_time_range: Option<(String, String)>,
    pub duration: Option<String>,
}

/// Model of `TemporalConstraints`.
pub struct TemporalConstraintsView {
    pub earliest_start: Option<Seq<char>>,
    pub latest_end: Option<Seq<char>>,
    pub preferred_time_range: Option<(Seq<char>, Seq<char>)>,
    pub duration: Option<Seq<char>>,
}

impl View for TemporalConstraints {
    type V = TemporalConstraintsView;

    open spec fn view(&self) -> TemporalConstraintsView {
        TemporalConstraintsView {
            earliest_start: self.earliest_start.deep_view(),
            latest_end: self.latest_end.deep_view(),
            preferred_time_range: self.preferred_time_range.deep_view(),
            duration: self.duration.deep_view(),
        }
    }
}

impl DeepView for TemporalConstraints {
    type V = TemporalConstraintsView;

    open spec fn deep_view(&self) -> TemporalConstraintsView {
        self.view()
    }
}

impl Clone for TemporalConstraints {
    fn clone(&self) -> (copy: Self)
        ensures
            copy@ == self@,
    {
        let preferred_time_range = match &self.preferred_time_range {
            Some(range) => Some((range.0.clone(), range.1.clone())),
            None => None,
        };
        TemporalConstraints {
            earliest_start: self.earliest_start.clone(),
            latest_end: self.latest_end.clone(),
            preferred_time_range,
            duration: self.duration.clone(),
        }
    }
}

/// A budget. `max_amount` is in cents; `flexibility_percentage` says how far
/// over the budget is acceptable, in whole percent.
#[derive(Debug)]
pub struct BudgetConstraints {
    pub max_amount: u64,
    pub currency: String,
    pub flexibility_percentage: u8,
}

/// Model of `BudgetConstraints`.
pub struct BudgetConstraintsView {
    pub max_amount: u64,
    pub currency: Seq<char>,
    pub flexibility_percentage: u8,
}

impl View for BudgetConstraints {
    type V = BudgetConstraintsView;

    open spec fn view(&self) -> BudgetConstraintsView {
        BudgetConstraintsView {
            max_amount: self.max_amount,
            currency: self.currency@,
            flexibility_percentage: self.flexibility_percentage,
        }
    }
}

impl DeepView for BudgetConstraints {
    type V = BudgetConstraintsView;

    open spec fn deep_view(&self) -> BudgetConstraintsView {
        self.view()
    }
}

impl Clone for BudgetConstraints {
    fn clone(&self) -> (copy: Self)
        ensures
            copy@ == self@,
    {
        BudgetConstraints {
            max_amount: self.max_amount,
            currency: self.currency.clone(),
            flexibility_percentage: self.flexibility_percentage,
        }
    }
}

/// A need that a venue or service has to meet.
#[derive(Debug)]
pub enum AccessibilityRequirement {
    WheelchairAccessible,
    HearingAssistance,
    VisualAssistance,
    DietaryRestrictions(Vec<String>),
}

/// Model of an `AccessibilityRequirement`.
pub enum AccessibilityRequirementView {
    WheelchairAccessible,
    HearingAssistance,
    VisualAssistance,
    DietaryRestrictions(Seq<Seq<char>>),
}

impl View for AccessibilityRequirement {
    type V = AccessibilityRequirementView;

    open spec fn view(&self) -> AccessibilityRequirementView {
        match self {
            AccessibilityRequirement::WheelchairAccessible =>
                AccessibilityRequirementView::WheelchairAccessible,
            AccessibilityRequirement::HearingAssistance =>
                AccessibilityRequirementView::HearingAssistance,
            AccessibilityRequirement::VisualAssistance =>
                AccessibilityRequirementView::VisualAssistance,
            AccessibilityRequirement::DietaryRestrictions(items) =>
                AccessibilityRequirementView::DietaryRestrictions(items.deep_view()),
        }
    }
}

impl DeepView for AccessibilityRequirement {
    type V = AccessibilityRequirementView;

    open spec fn deep_view(&self) -> AccessibilityRequirementView {
        self.view()
    }
}

impl Clone for AccessibilityRequirement {
    fn clone(&self) -> (copy: Self)
        ensures
            copy@ == self@,
    {
        match self {
            AccessibilityRequirement::WheelchairAccessible =>
                AccessibilityRequirement::WheelchairAccessible,
            AccessibilityRequirement::HearingAssistance =>
                AccessibilityRequirement::HearingAssistance,
            AccessibilityRequirement::VisualAssistance =>
                AccessibilityRequirement::VisualAssistance,
            AccessibilityRequirement::DietaryRestrictions(items) =>
                AccessibilityRequirement::DietaryRestrictions(clone_strings(items)),
        }
    }
}

/// Copies a list of requirements.
pub fn clone_requirements(list: &Vec<AccessibilityRequirement>) -> (copy: Vec<
    AccessibilityRequirement,
>)
    ensures
        copy.deep_view() == list.deep_view(),
{
    let mut copy: Vec<AccessibilityRequirement> = Vec::new();
    let mut at: usize = 0;
    while at < list.len()
        invariant
            at <= list.len(),
            copy.len() == at,
            forall|i: int| 0 <= i < at ==> copy[i]@ == list[i]@,
        decreases list.len() - at,
    {
        copy.push(list[at].clone());
        at += 1;
    }
    assert(copy.deep_view() =~= list.deep_view());
    copy
}

/// Preferences on quality, brands and needs.
#[derive(Debug)]
pub struct PreferenceConstraints {
    pub quality_preference: QualityLevel,
    pub brand_preferences: Vec<String>,
    /// Things to avoid.
    pub exclusion_list: Vec<String>,
    pub accessibility_needs: Vec<AccessibilityRequirement>,
}

/// Model of `PreferenceConstraints`.
pub struct PreferenceConstraintsView {
    pub quality_preference: QualityLevel,
    pub brand_preferences: Seq<Seq<char>>,
    pub exclusion_list: Seq<Seq<char>>,
    pub accessibility_needs: Seq<AccessibilityRequirementView>,
}

impl View for PreferenceConstraints {
    type V = PreferenceConstraintsView;

    open spec fn view(&self) -> PreferenceConstraintsView {
        PreferenceConstraintsView {
            quality_preference: self.quality_preference,
            brand_preferences: self.brand_preferences.deep_view(),
            exclusion_list: self.exclusion_list.deep_view(),
            accessibility_needs: self.accessibility_needs.deep_view(),
        }
    }
}

impl DeepView for PreferenceConstraints {
    type V = PreferenceConstraintsView;

    open spec fn deep_view(&self) -> PreferenceConstraintsView {
        self.view()
    }
}

impl Clone for PreferenceConstraints {
    fn clone(&self) -> (copy: Self)
        ensures
            copy@ == self@,
    {
        PreferenceConstraints {
            quality_preference: self.quality_preference,
            brand_preferences: clone_strings(&self.brand_preferences),
            exclusion_list: clone_strings(&self.exclusion_list),
            accessibility_needs: clone_requirements(&self.accessibility_needs),
        }
    }
}

/// Feeling, style and urgency of a request.
#[derive(Clone, Copy, Debug, PartialEq, Eq, Structural)]
pub struct SentimentVibe {
    pub sentiment: Sentiment,
    pub vibe: Vibe,
    pub urgency_level: UrgencyLevel,
}

/// A request in structured form.
#[derive(Debug)]
pub struct IntentSchema {
    /// The primary action the user wants to perform.
    pub core_intent: CoreIntent,
    /// When the action should happen.
    pub temporal_constraints: Option<TemporalConstraints>,
    /// What it may cost.
    pub budget_constraints: Option<BudgetConstraints>,
    /// Quality and other preferences.
    pub preference_constraints: Option<PreferenceConstraints>,
    /// Feeling and style of the request.
    pub sentiment_vibe: SentimentVibe,
    /// How sure the reading of the request is, in percent (0 to 100).
    pub confidence: u8,
    /// The request as the user wrote it.
    pub raw_input: String,
}

/// Model of an `IntentSchema`.
pub struct IntentSchemaView {
    pub core_intent: CoreIntentView,
    pub temporal_constraints: Option<TemporalConstraintsView>,
    pub budget_constraints: Option<BudgetConstraintsView>,
    pub preference_constraints: Option<PreferenceConstraintsView>,
    pub sentiment_vibe: SentimentVibe,
    pub confidence: u8,
    pub raw_input: Seq<char>,
}

impl View for IntentSchema {
    type V = IntentSchemaView;

    open spec fn view(&self) -> IntentSchemaView {
        IntentSchemaView {
            core_intent: self.core_intent@,
            temporal_constraints: self.temporal_constraints.deep_view(),
            budget_constraints: self.budget_constraints.deep_view(),
            preference_constraints: self.preference_constraints.deep_view(),
            sentiment_vibe: self.sentiment_vibe,
            confidence: self.confidence,
            raw_input: self.raw_input@,
        }
    }
}

impl DeepView for IntentSchema {
    type V = IntentSchemaView;

    open spec fn deep_view(&self) -> IntentSchemaView {
        self.view()
    }
}

impl Clone for IntentSchema {
    fn clone(&self) -> (copy: Self)
        ensures
            copy@ == self@,
    {
        let temporal_constraints = match &self.temporal_constraints {
            Some(t) => Some(t.clone()),
            None => None,
        };
        let budget_constraints = match &self.budget_constraints {
            Some(b) => Some(b.clone()),
            None => None,
        };
        let preference_constraints = match &self.preference_constraints {
            Some(p) => Some(p.clone()),
            None => None,
        };
        IntentSchema {
            core_intent: self.core_intent.clone(),
            temporal_constraints,
            budget_constraints,
            preference_constraints,
            sentiment_vibe: self.sentiment_vibe,
            confidence: self.confidence,
            raw_input: self.raw_input.clone(),
        }
    }
}

} // verus!
