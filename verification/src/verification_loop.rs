//! Drawing up plans. For one request the generator proposes up to three
//! ways to serve it: the efficient one, the luxurious one and the one that
//! explores. Each is a list of steps with an estimate of cost and time.
//!
//! What is generated depends on the request and on which capabilities are
//! available, and on nothing else: the functions `planned_paths` and those
//! below it say what, as plain values.

use crate::capability_registry::{available_in, CapabilityRegistry, CapabilityView};
use crate::collections::StringMap;
use crate::error::{EngineError, EngineErrorView};
use crate::intent_schema::{
    CoreIntent, CoreIntentView, IntentSchema, PriorityLevel, PurchaseIntent,
    PurchaseIntentView, ReservationIntent, ReservationIntentView, ScheduleIntent,
    ScheduleIntentView, TransportationIntent, TransportationIntentView,
};
use crate::text::{
    amount_string, amount_text, decimal, decimal_string, scale_amount, scaled_amount,
};
use crate::user_preferences::UserPreferenceVector;
use vstd::prelude::*;
use vstd::string::*;

verus! {

/// The three kinds of plan.
#[derive(Clone, Copy, Debug, PartialEq, Eq, Hash, Structural)]
pub enum PathType {
    Efficiency,
    Luxury,
    Discovery,
}

/// One step of a plan: an action on a capability.
#[derive(Debug)]
pub struct ExecutionStep {
    /// What to do.
    pub action: String,
    /// The capability that does it.
    pub capability: String,
    /// Arguments of the action, by name.
    pub parameters: StringMap<String>,
    pub priority: PriorityLevel,
}

/// Model of an `ExecutionStep`.
pub struct ExecutionStepView {
    pub action: Seq<char>,
    pub capability: Seq<char>,
    pub parameters: Map<Seq<char>, Seq<char>>,
    pub priority: PriorityLevel,
}

impl View for ExecutionStep {
    type V = ExecutionStepView;

    open spec fn view(&self) -> ExecutionStepView {
        ExecutionStepView {
            action: self.action@,
            capability: self.capability@,
            parameters: self.parameters@,
            priority: self.priority,
        }
    }
}

impl DeepView for ExecutionStep {
    type V = ExecutionStepView;

    open spec fn deep_view(&self) -> ExecutionStepView {
        self.view()
    }
}

impl Clone for ExecutionStep {
    fn clone(&self) -> (copy: Self)
        ensures
            copy@ == self@,
    {
        ExecutionStep {
            action: self.action.clone(),
            capability: self.capability.clone(),
            parameters: self.parameters.duplicate(),
            priority: self.priority,
        }
    }
}

/// A plan: one way to serve a request. `estimated_cost` is in cents,
/// `estimated_time` an ISO 8601 duration, `confidence` in percent.
#[derive(Debug)]
pub struct LifePath {
    pub path_type: PathType,
    pub description: String,
    pub estimated_cost: Option<u64>,
    pub estimated_time: Option<String>,
    pub steps: Vec<ExecutionStep>,
    pub confidence: u8,
}

/// Model of a `LifePath`.
pub struct LifePathView {
    pub path_type: PathType,
    pub description: Seq<char>,
    pub estimated_cost: Option<u64>,
    pub estimated_time: Option<Seq<char>>,
    pub steps: Seq<ExecutionStepView>,
    pub confidence: u8,
}

impl View for LifePath {
    type V = LifePathView;

    open spec fn view(&self) -> LifePathView {
        LifePathView {
            path_type: self.path_type,
            description: self.description@,
            estimated_cost: self.estimated_cost,
            estimated_time: self.estimated_time.deep_view(),
            steps: self.steps.deep_view(),
            confidence: self.confidence,
        }
    }
}

impl DeepView for LifePath {
    type V = LifePathView;

    open spec fn deep_view(&self) -> LifePathView {
        self.view()
    }
}

impl Clone for LifePath {
    fn clone(&self) -> (copy: Self)
        ensures
            copy@ == self@,
    {
        let steps = self.steps.clone();
        assert(steps.deep_view() =~= self.steps.deep_view());
        LifePath {
            path_type: self.path_type,
            description: self.description.clone(),
            estimated_cost: self.estimated_cost,
            estimated_time: self.estimated_time.clone(),
            steps,
            confidence: self.confidence,
        }
    }
}

/// Copies a list of plans.
pub fn clone_paths(paths: &Vec<LifePath>) -> (copy: Vec<LifePath>)
    ensures
        copy.deep_view() == paths.deep_view(),
{
    let copy = paths.clone();
    assert(copy.deep_view() =~= paths.deep_view());
    copy
}

/// `map` with `key` set to `value` where there is a value.
pub open spec fn with_optional(
    map: Map<Seq<char>, Seq<char>>,
    key: Seq<char>,
    value: Option<Seq<char>>,
) -> Map<Seq<char>, Seq<char>> {
    match value {
        Some(text) => map.insert(key, text),
        None => map,
    }
}

/// A text or, where there is none, the empty text.
pub open spec fn text_or_empty(value: Option<Seq<char>>) -> Seq<char> {
    match value {
        Some(text) => text,
        None => Seq::empty(),
    }
}

/// A cost scaled by a ratio, where there is a cost.
pub open spec fn scaled_cost(cost: Option<u64>, numerator: u64, denominator: u64) -> Option<u64> {
    match cost {
        Some(amount) => Some(scaled_amount(amount, numerator, denominator)),
        None => None,
    }
}

/// Arguments of a ride booking: where from, where to, when if a time was
/// asked for, and the vehicle if one is named.
pub open spec fn transportation_parameters(
    intent: TransportationIntentView,
    vehicle: Option<Seq<char>>,
) -> Map<Seq<char>, Seq<char>> {
    with_optional(
        with_optional(
            Map::empty().insert("pickup_location"@, intent.pickup_location).insert(
                "destination"@,
                intent.destination,
            ),
            "departure_time"@,
            intent.departure_time,
        ),
        "vehicle_type"@,
        vehicle,
    )
}

/// The step that books a ride.
pub open spec fn transportation_step(
    intent: TransportationIntentView,
    vehicle: Option<Seq<char>>,
) -> ExecutionStepView {
    ExecutionStepView {
        action: "book_transportation"@,
        capability: "uber"@,
        parameters: transportation_parameters(intent, vehicle),
        priority: PriorityLevel::High,
    }
}

/// The efficient ride: the vehicle the user asked for, at the cost given.
pub open spec fn efficiency_transportation_plan(intent: TransportationIntentView) -> LifePathView {
    LifePathView {
        path_type: PathType::Efficiency,
        description: "Direct route with standard vehicle for fastest arrival"@,
        estimated_cost: intent.max_cost,
        estimated_time: Some("PT30M"@),
        steps: seq![
            transportation_step(
                intent,
                match intent.vehicle_preference {
                    Some(vehicle) => Some(vehicle.name_text()),
                    None => None,
                },
            ),
        ],
        confidence: 90,
    }
}

/// The step that has a concierge fit out a booked ride.
pub open spec fn ride_upgrade_step() -> ExecutionStepView {
    ExecutionStepView {
        action: "arrange_ride_amenities"@,
        capability: "concierge_service"@,
        parameters: Map::empty().insert("ride_id"@, "{{ride_id}}"@).insert(
            "service_type"@,
            "premium_amenities"@,
        ),
        priority: PriorityLevel::High,
    }
}

/// The luxurious ride: a luxury vehicle, fitted out by a concierge, at one
/// and a half times the cost of the efficient ride.
pub open spec fn luxury_transportation_plan(intent: TransportationIntentView) -> LifePathView {
    LifePathView {
        path_type: PathType::Luxury,
        description: "Luxury vehicle with premium amenities for comfortable journey"@,
        estimated_cost: scaled_cost(efficiency_transportation_plan(intent).estimated_cost, 3, 2),
        estimated_time: Some("PT30M"@),
        steps: seq![transportation_step(intent, Some("Luxury"@)), ride_upgrade_step()],
        confidence: 85,
    }
}

/// The step that looks for attractions around the destination of a ride.
pub open spec fn explore_nearby_step(intent: TransportationIntentView) -> ExecutionStepView {
    ExecutionStepView {
        action: "explore_nearby"@,
        capability: "local_discovery"@,
        parameters: Map::empty().insert("location"@, intent.destination).insert(
            "category"@,
            "attractions"@,
        ).insert("radius"@, "2000"@),
        priority: PriorityLevel::Medium,
    }
}

/// The exploring ride: a shared vehicle at seven tenths of the cost of the
/// efficient ride, and a look at what is near the destination.
pub open spec fn discovery_transportation_plan(intent: TransportationIntentView) -> LifePathView {
    LifePathView {
        path_type: PathType::Discovery,
        description: "Shared ride with stops at interesting places along the way"@,
        estimated_cost: scaled_cost(efficiency_transportation_plan(intent).estimated_cost, 7, 10),
        estimated_time: Some("PT45M"@),
        steps: seq![transportation_step(intent, Some("Pool"@)), explore_nearby_step(intent)],
        confidence: 80,
    }
}

/// Arguments of a reservation: its kind, then place, party size and time
/// where they are given, and the preference of the plan if it has one.
pub open spec fn reservation_parameters(
    intent: ReservationIntentView,
    preference: Option<Seq<char>>,
) -> Map<Seq<char>, Seq<char>> {
    with_optional(
        with_optional(
            with_optional(
                with_optional(
                    Map::empty().insert("reservation_type"@, intent.reservation_type.name_text()),
                    "location"@,
                    intent.location,
                ),
                "party_size"@,
                match intent.party_size {
                    Some(size) => Some(decimal(size as nat)),
                    None => None,
                },
            ),
            "preferred_time"@,
            intent.preferred_time,
        ),
        "preference"@,
        preference,
    )
}

/// The step that books a reservation.
pub open spec fn reservation_step(
    intent: ReservationIntentView,
    preference: Option<Seq<char>>,
) -> ExecutionStepView {
    ExecutionStepView {
        action: "book_reservation"@,
        capability: "opentable"@,
        parameters: reservation_parameters(intent, preference),
        priority: PriorityLevel::High,
    }
}

/// The efficient reservation.
pub open spec fn efficiency_reservation_plan(intent: ReservationIntentView) -> LifePathView {
    LifePathView {
        path_type: PathType::Efficiency,
        description: "Quick reservation at the most convenient available time"@,
        estimated_cost: None,
        estimated_time: Some("PT1H"@),
        steps: seq![reservation_step(intent, None)],
        confidence: 90,
    }
}

/// The step that has a concierge see to the seating of a reservation.
pub open spec fn reservation_upgrade_step() -> ExecutionStepView {
    ExecutionStepView {
        action: "arrange_premium_seating"@,
        capability: "concierge_service"@,
        parameters: Map::empty().insert("reservation_id"@, "{{reservation_id}}"@).insert(
            "service_type"@,
            "premium_seating"@,
        ),
        priority: PriorityLevel::High,
    }
}

/// The luxurious reservation: premium seating, seen to by a concierge, for
/// a longer stay, at one and a half times the cost of the efficient
/// reservation (which states none).
pub open spec fn luxury_reservation_plan(intent: ReservationIntentView) -> LifePathView {
    LifePathView {
        path_type: PathType::Luxury,
        description: "Premium reservation with best available seating and amenities"@,
        estimated_cost: scaled_cost(efficiency_reservation_plan(intent).estimated_cost, 3, 2),
        estimated_time: Some("PT2H"@),
        steps: seq![reservation_step(intent, Some("premium"@)), reservation_upgrade_step()],
        confidence: 85,
    }
}

/// The step that looks for cuisines the user does not know yet.
pub open spec fn discover_cuisine_step(intent: ReservationIntentView) -> ExecutionStepView {
    ExecutionStepView {
        action: "discover_cuisine"@,
        capability: "cuisine_discovery"@,
        parameters: Map::empty().insert("cuisine_type"@, "unknown"@).insert(
            "location"@,
            text_or_empty(intent.location),
        ),
        priority: PriorityLevel::Medium,
    }
}

/// The exploring reservation: an experimental venue, and a look at new
/// cuisines.
pub open spec fn discovery_reservation_plan(intent: ReservationIntentView) -> LifePathView {
    LifePathView {
        path_type: PathType::Discovery,
        description: "Reservation at an experimental venue with unique culinary experience"@,
        estimated_cost: None,
        estimated_time: Some("PT2H30M"@),
        steps: seq![reservation_step(intent, Some("experimental"@)), discover_cuisine_step(intent)],
        confidence: 80,
    }
}

/// The step that puts an event on the calendar.
pub open spec fn scheduling_step(intent: ScheduleIntentView) -> ExecutionStepView {
    ExecutionStepView {
        action: "create_calendar_event"@,
        capability: "calendar"@,
        parameters: with_optional(
            Map::empty().insert("event_title"@, intent.event_title).insert(
                "start_time"@,
                intent.start_time,
            ).insert("end_time"@, intent.end_time),
            "location"@,
            intent.location,
        ),
        priority: intent.priority,
    }
}

/// The efficient calendar entry: free, and quickly made.
pub open spec fn efficiency_scheduling_plan(intent: ScheduleIntentView) -> LifePathView {
    LifePathView {
        path_type: PathType::Efficiency,
        description: "Straightforward calendar entry with minimal setup"@,
        estimated_cost: Some(0u64),
        estimated_time: Some("PT5M"@),
        steps: seq![scheduling_step(intent)],
        confidence: 95,
    }
}

/// The step that has a concierge look after an event.
pub open spec fn concierge_step() -> ExecutionStepView {
    ExecutionStepView {
        action: "coordinate_luxury_services"@,
        capability: "concierge_service"@,
        parameters: Map::empty().insert("event_id"@, "{{event_id}}"@).insert(
            "service_type"@,
            "concierge"@,
        ),
        priority: PriorityLevel::High,
    }
}

/// The luxurious calendar entry: with a concierge, at one and a half times
/// the cost of the efficient entry, which is free.
pub open spec fn luxury_scheduling_plan(intent: ScheduleIntentView) -> LifePathView {
    LifePathView {
        path_type: PathType::Luxury,
        description: "Calendar event with luxury coordination services"@,
        estimated_cost: scaled_cost(efficiency_scheduling_plan(intent).estimated_cost, 3, 2),
        estimated_time: Some("PT10M"@),
        steps: seq![scheduling_step(intent), concierge_step()],
        confidence: 90,
    }
}

/// The step that looks for activities related to an event.
pub open spec fn related_activities_step(intent: ScheduleIntentView) -> ExecutionStepView {
    ExecutionStepView {
        action: "discover_related_activities"@,
        capability: "activity_discovery"@,
        parameters: Map::empty().insert("event_topic"@, intent.event_title).insert(
            "location"@,
            text_or_empty(intent.location),
        ),
        priority: PriorityLevel::Medium,
    }
}

/// The exploring calendar entry: with a look at related activities.
pub open spec fn discovery_scheduling_plan(intent: ScheduleIntentView) -> LifePathView {
    LifePathView {
        path_type: PathType::Discovery,
        description: "Calendar event with discovery of related activities"@,
        estimated_cost: Some(0u64),
        estimated_time: Some("PT15M"@),
        steps: seq![scheduling_step(intent), related_activities_step(intent)],
        confidence: 85,
    }
}

/// The step that buys an item on a platform, up to a price where one is
/// given.
pub open spec fn purchase_step(
    intent: PurchaseIntentView,
    platform: Seq<char>,
    max_price: Option<u64>,
) -> ExecutionStepView {
    ExecutionStepView {
        action: "purchase_item"@,
        capability: platform,
        parameters: with_optional(
            Map::empty().insert("item_description"@, intent.item_description).insert(
                "quantity"@,
                decimal(intent.quantity as nat),
            ),
            "max_price"@,
            match max_price {
                Some(price) => Some(amount_text(price)),
                None => None,
            },
        ),
        priority: PriorityLevel::High,
    }
}

/// The efficient purchase: from the cheapest vendor, at the price given.
pub open spec fn efficiency_purchase_plan(intent: PurchaseIntentView) -> LifePathView {
    LifePathView {
        path_type: PathType::Efficiency,
        description: "Direct purchase from the most cost-effective vendor"@,
        estimated_cost: intent.max_price,
        estimated_time: Some("PT2H"@),
        steps: seq![purchase_step(intent, "ecommerce_platform"@, intent.max_price)],
        confidence: 90,
    }
}

/// The step that arranges premium delivery.
pub open spec fn premium_delivery_step() -> ExecutionStepView {
    ExecutionStepView {
        action: "arrange_premium_delivery"@,
        capability: "premium_delivery"@,
        parameters: Map::empty().insert("item_id"@, "{{item_id}}"@).insert(
            "delivery_type"@,
            "express_premium"@,
        ),
        priority: PriorityLevel::High,
    }
}

/// The luxurious purchase: up to one and a half times the price, with
/// premium delivery, for 1.7 times the price in all.
pub open spec fn luxury_purchase_plan(intent: PurchaseIntentView) -> LifePathView {
    LifePathView {
        path_type: PathType::Luxury,
        description: "Premium purchase with express delivery and gift wrapping"@,
        estimated_cost: scaled_cost(efficiency_purchase_plan(intent).estimated_cost, 17, 10),
        estimated_time: Some("PT1H"@),
        steps: seq![
            purchase_step(intent, "premium_ecommerce"@, scaled_cost(intent.max_price, 3, 2)),
            premium_delivery_step(),
        ],
        confidence: 80,
    }
}

/// The step that looks for similar items.
pub open spec fn similar_items_step(intent: PurchaseIntentView) -> ExecutionStepView {
    ExecutionStepView {
        action: "discover_similar_items"@,
        capability: "recommendation_engine"@,
        parameters: Map::empty().insert("item_category"@, intent.item_description).insert(
            "user_preferences"@,
            "exploration"@,
        ),
        priority: PriorityLevel::Medium,
    }
}

/// The exploring purchase: at the price given, with a look at similar items.
pub open spec fn discovery_purchase_plan(intent: PurchaseIntentView) -> LifePathView {
    LifePathView {
        path_type: PathType::Discovery,
        description: "Purchase with discovery of similar or complementary items"@,
        estimated_cost: intent.max_price,
        estimated_time: Some("PT24H"@),
        steps: seq![
            purchase_step(intent, "discovery_ecommerce"@, intent.max_price),
            similar_items_step(intent),
        ],
        confidence: 75,
    }
}

/// The capability without which no plan of a kind of request is drawn up;
/// `None` where the plans need none, or where the kind has no plans.
pub open spec fn needed_capability(intent: CoreIntentView) -> Option<Seq<char>> {
    match intent {
        CoreIntentView::TransportationRequest(_) => Some("uber"@),
        CoreIntentView::BookReservation(_) => Some("opentable"@),
        CoreIntentView::ScheduleEvent(_) => Some("calendar"@),
        _ => None,
    }
}

/// Whether plans are drawn up for this kind of request at all.
pub open spec fn has_generators(intent: CoreIntentView) -> bool {
    intent is TransportationRequest || intent is BookReservation || intent is ScheduleEvent
        || intent is PurchaseItem
}

/// Whether the capability that the plans of a request need is available.
pub open spec fn capabilities_ready(
    intent: CoreIntentView,
    directory: Map<Seq<char>, CapabilityView>,
) -> bool {
    match needed_capability(intent) {
        Some(name) => available_in(directory, name),
        None => true,
    }
}

/// The plan of one kind for a request, given which capabilities are
/// available; `None` where the kind of request has no plans or the
/// capability they need is not available.
pub open spec fn planned_path(
    kind: PathType,
    intent: CoreIntentView,
    directory: Map<Seq<char>, CapabilityView>,
) -> Option<LifePathView> {
    if !has_generators(intent) || !capabilities_ready(intent, directory) {
        None
    } else {
        match intent {
            CoreIntentView::TransportationRequest(t) => Some(
                match kind {
                    PathType::Efficiency => efficiency_transportation_plan(t),
                    PathType::Luxury => luxury_transportation_plan(t),
                    PathType::Discovery => discovery_transportation_plan(t),
                },
            ),
            CoreIntentView::BookReservation(r) => Some(
                match kind {
                    PathType::Efficiency => efficiency_reservation_plan(r),
                    PathType::Luxury => luxury_reservation_plan(r),
                    PathType::Discovery => discovery_reservation_plan(r),
                },
            ),
            CoreIntentView::ScheduleEvent(s) => Some(
                match kind {
                    PathType::Efficiency => efficiency_scheduling_plan(s),
                    PathType::Luxury => luxury_scheduling_plan(s),
                    PathType::Discovery => discovery_scheduling_plan(s),
                },
            ),
            CoreIntentView::PurchaseItem(p) => Some(
                match kind {
                    PathType::Efficiency => efficiency_purchase_plan(p),
                    PathType::Luxury => luxury_purchase_plan(p),
                    PathType::Discovery => discovery_purchase_plan(p),
                },
            ),
            _ => None,
        }
    }
}

/// A plan as a list: one item where there is a plan, none where there is not.
pub open spec fn as_list(path: Option<LifePathView>) -> Seq<LifePathView> {
    match path {
        Some(plan) => seq![plan],
        None => Seq::empty(),
    }
}

/// The plans for a request, in the order efficient, luxurious, exploring,
/// each present where `planned_path` gives it.
pub open spec fn planned_paths(
    intent: CoreIntentView,
    directory: Map<Seq<char>, CapabilityView>,
) -> Seq<LifePathView> {
    as_list(planned_path(PathType::Efficiency, intent, directory)) + as_list(
        planned_path(PathType::Luxury, intent, directory),
    ) + as_list(planned_path(PathType::Discovery, intent, directory))
}

/// A request of a kind that has plans, with the capability that its plans
/// need available, gets exactly three plans: the efficient, the luxurious
/// and the exploring one, in this order.
pub proof fn lemma_three_plans(intent: CoreIntentView, directory: Map<Seq<char>, CapabilityView>)
    requires
        has_generators(intent),
        capabilities_ready(intent, directory),
    ensures
        planned_paths(intent, directory).len() == 3,
        planned_paths(intent, directory)[0].path_type == PathType::Efficiency,
        planned_paths(intent, directory)[1].path_type == PathType::Luxury,
        planned_paths(intent, directory)[2].path_type == PathType::Discovery,
{
}

/// A request gets three plans or none: none exactly where its kind has no
/// plans or the capability that they need is not available.
pub proof fn lemma_three_plans_or_none(
    intent: CoreIntentView,
    directory: Map<Seq<char>, CapabilityView>,
)
    ensures
        planned_paths(intent, directory).len() == 3 || planned_paths(intent, directory).len() == 0,
        planned_paths(intent, directory).len() == 3 <==> has_generators(intent)
            && capabilities_ready(intent, directory),
{
}

/// The confidence of every plan is a percentage, and every plan has at
/// least one step.
pub proof fn lemma_plans_are_sound(intent: CoreIntentView, directory: Map<Seq<char>, CapabilityView>)
    ensures
        forall|i: int|
            0 <= i < planned_paths(intent, directory).len() ==> (#[trigger] planned_paths(
                intent,
                directory,
            )[i]).confidence <= 100 && planned_paths(intent, directory)[i].steps.len() >= 1,
{
    lemma_three_plans_or_none(intent, directory);
}

/// How the three plans of a request stand to one another. The efficient
/// plan is the baseline. The luxurious and the exploring plan each begin
/// with the baseline's action on the baseline's number of steps and add one
/// step of their own. The confidence of the efficient plan lies between 90
/// and 95 percent, that of the luxurious plan between 80 and 90, that of the
/// exploring plan between 75 and 85.
pub proof fn lemma_plans_transform_the_baseline(
    intent: CoreIntentView,
    directory: Map<Seq<char>, CapabilityView>,
)
    requires
        has_generators(intent),
        capabilities_ready(intent, directory),
    ensures
        planned_paths(intent, directory)[1].steps.len() == planned_paths(
            intent,
            directory,
        )[0].steps.len() + 1,
        planned_paths(intent, directory)[2].steps.len() == planned_paths(
            intent,
            directory,
        )[0].steps.len() + 1,
        planned_paths(intent, directory)[0].steps.len() == 1,
        planned_paths(intent, directory)[1].steps[0].action == planned_paths(
            intent,
            directory,
        )[0].steps[0].action,
        planned_paths(intent, directory)[2].steps[0].action == planned_paths(
            intent,
            directory,
        )[0].steps[0].action,
        90 <= planned_paths(intent, directory)[0].confidence <= 95,
        80 <= planned_paths(intent, directory)[1].confidence <= 90,
        75 <= planned_paths(intent, directory)[2].confidence <= 85,
{
    lemma_three_plans(intent, directory);
}

/// How the costs of the three plans stand to one another. The luxurious
/// plan costs one and a half times what the efficient plan costs; for a
/// purchase, where delivery comes on top, 1.7 times. The exploring plan
/// costs seven tenths of it for a ride, where sharing is cheaper, and the
/// same for anything else. A plan has no cost where the efficient plan has
/// none.
pub proof fn lemma_costs_follow_the_baseline(
    intent: CoreIntentView,
    directory: Map<Seq<char>, CapabilityView>,
)
    requires
        has_generators(intent),
        capabilities_ready(intent, directory),
    ensures
        planned_paths(intent, directory)[1].estimated_cost == scaled_cost(
            planned_paths(intent, directory)[0].estimated_cost,
            if intent is PurchaseItem {
                17
            } else {
                3
            },
            if intent is PurchaseItem {
                10
            } else {
                2
            },
        ),
        planned_paths(intent, directory)[2].estimated_cost == if intent is TransportationRequest {
            scaled_cost(planned_paths(intent, directory)[0].estimated_cost, 7, 10)
        } else {
            planned_paths(intent, directory)[0].estimated_cost
        },
        intent is ScheduleEvent ==> planned_paths(intent, directory)[0].estimated_cost == Some(0u64)
            && planned_paths(intent, directory)[1].estimated_cost == Some(0u64),
{
    lemma_three_plans(intent, directory);
}

/// Generation is a function of the request and of the availability of the
/// one capability that its plans need: two directories that agree on that
/// give the same plans, whatever else they hold. The user's profile plays no
/// part.
pub proof fn lemma_plans_are_determined(
    intent: CoreIntentView,
    directory: Map<Seq<char>, CapabilityView>,
    other: Map<Seq<char>, CapabilityView>,
)
    requires
        capabilities_ready(intent, directory) == capabilities_ready(intent, other),
    ensures
        planned_paths(intent, directory) == planned_paths(intent, other),
{
}

/// For a ride with a stated cost, the luxurious plan costs one and a half
/// times as much and the exploring plan seven tenths, in whole cents rounded
/// down, as long as the larger amount fits.
pub proof fn lemma_ride_costs_scale(
    intent: TransportationIntentView,
    directory: Map<Seq<char>, CapabilityView>,
    cost: u64,
)
    requires
        intent.max_cost == Some(cost),
        available_in(directory, "uber"@),
        cost * 3 / 2 <= u64::MAX,
    ensures
        planned_paths(CoreIntentView::TransportationRequest(intent), directory)[0].estimated_cost
            == Some(cost),
        planned_paths(CoreIntentView::TransportationRequest(intent), directory)[1].estimated_cost
            == Some((cost * 3 / 2) as u64),
        planned_paths(CoreIntentView::TransportationRequest(intent), directory)[2].estimated_cost
            == Some((cost * 7 / 10) as u64),
{
    lemma_three_plans(CoreIntentView::TransportationRequest(intent), directory);
}

/// For a purchase with a stated price, the luxurious plan costs 1.7 times
/// as much in all and offers up to one and a half times the price for the
/// item, as long as the larger amount fits.
pub proof fn lemma_purchase_costs_scale(
    intent: PurchaseIntentView,
    directory: Map<Seq<char>, CapabilityView>,
    price: u64,
)
    requires
        intent.max_price == Some(price),
        price * 17 / 10 <= u64::MAX,
    ensures
        planned_paths(CoreIntentView::PurchaseItem(intent), directory)[1].estimated_cost == Some(
            (price * 17 / 10) as u64,
        ),
        planned_paths(CoreIntentView::PurchaseItem(intent), directory)[1].steps[0]
            == purchase_step(intent, "premium_ecommerce"@, Some((price * 3 / 2) as u64)),
        planned_paths(CoreIntentView::PurchaseItem(intent), directory)[0].estimated_cost == Some(
            price,
        ),
        planned_paths(CoreIntentView::PurchaseItem(intent), directory)[2].estimated_cost == Some(
            price,
        ),
{
    lemma_three_plans(CoreIntentView::PurchaseItem(intent), directory);
}

fn new_step(
    action: &str,
    capability: &str,
    parameters: StringMap<String>,
    priority: PriorityLevel,
) -> (step: ExecutionStep)
    ensures
        step@ == (ExecutionStepView {
            action: action@,
            capability: capability@,
            parameters: parameters@,
            priority,
        }),
{
    ExecutionStep {
        action: String::from_str(action),
        capability: String::from_str(capability),
        parameters,
        priority,
    }
}

fn insert_text(parameters: &mut StringMap<String>, key: &str, value: &str)
    ensures
        final(parameters)@ == old(parameters)@.insert(key@, value@),
{
    parameters.insert(String::from_str(key), String::from_str(value));
}

fn insert_optional(parameters: &mut StringMap<String>, key: &str, value: &Option<String>)
    ensures
        final(parameters)@ == with_optional(old(parameters)@, key@, value.deep_view()),
{
    match value {
        Some(text) => {
            insert_text(parameters, key, text.as_str());
        },
        None => {},
    }
}

fn optional_text(value: &Option<String>) -> (text: String)
    ensures
        text@ == text_or_empty(value.deep_view()),
{
    match value {
        Some(text) => text.clone(),
        None => String::new(),
    }
}

fn scale_cost(cost: Option<u64>, numerator: u64, denominator: u64) -> (scaled: Option<u64>)
    requires
        denominator > 0,
    ensures
        scaled == scaled_cost(cost, numerator, denominator),
{
    match cost {
        Some(amount) => Some(scale_amount(amount, numerator, denominator)),
        None => None,
    }
}

fn build_transportation_step(intent: &TransportationIntent, vehicle: Option<&str>) -> (step:
    ExecutionStep)
    ensures
        step@ == transportation_step(
            intent@,
            match vehicle {
                Some(name) => Some(name@),
                None => None,
            },
        ),
{
    let mut parameters: StringMap<String> = StringMap::new();
    insert_text(&mut parameters, "pickup_location", intent.pickup_location.as_str());
    insert_text(&mut parameters, "destination", intent.destination.as_str());
    insert_optional(&mut parameters, "departure_time", &intent.departure_time);
    match vehicle {
        Some(name) => {
            insert_text(&mut parameters, "vehicle_type", name);
        },
        None => {},
    }
    new_step("book_transportation", "uber", parameters, PriorityLevel::High)
}

fn build_reservation_step(intent: &ReservationIntent, preference: Option<&str>) -> (step:
    ExecutionStep)
    ensures
        step@ == reservation_step(
            intent@,
            match preference {
                Some(name) => Some(name@),
                None => None,
            },
        ),
{
    let mut parameters: StringMap<String> = StringMap::new();
    insert_text(&mut parameters, "reservation_type", intent.reservation_type.name());
    insert_optional(&mut parameters, "location", &intent.location);
    match intent.party_size {
        Some(size) => {
            let digits = decimal_string(size as u64);
            insert_text(&mut parameters, "party_size", digits.as_str());
        },
        None => {},
    }
    insert_optional(&mut parameters, "preferred_time", &intent.preferred_time);
    match preference {
        Some(name) => {
            insert_text(&mut parameters, "preference", name);
        },
        None => {},
    }
    new_step("book_reservation", "opentable", parameters, PriorityLevel::High)
}

fn build_scheduling_step(intent: &ScheduleIntent) -> (step: ExecutionStep)
    ensures
        step@ == scheduling_step(intent@),
{
    let mut parameters: StringMap<String> = StringMap::new();
    insert_text(&mut parameters, "event_title", intent.event_title.as_str());
    insert_text(&mut parameters, "start_time", intent.start_time.as_str());
    insert_text(&mut parameters, "end_time", intent.end_time.as_str());
    insert_optional(&mut parameters, "location", &intent.location);
    new_step("create_calendar_event", "calendar", parameters, intent.priority)
}

fn build_purchase_step(intent: &PurchaseIntent, platform: &str, max_price: Option<u64>) -> (step:
    ExecutionStep)
    ensures
        step@ == purchase_step(intent@, platform@, max_price),
{
    let mut parameters: StringMap<String> = StringMap::new();
    insert_text(&mut parameters, "item_description", intent.item_description.as_str());
    let digits = decimal_string(intent.quantity as u64);
    insert_text(&mut parameters, "quantity", digits.as_str());
    match max_price {
        Some(price) => {
            let amount = amount_string(price);
            insert_text(&mut parameters, "max_price", amount.as_str());
        },
        None => {},
    }
    new_step("purchase_item", platform, parameters, PriorityLevel::High)
}

fn new_path(
    path_type: PathType,
    description: &str,
    estimated_cost: Option<u64>,
    estimated_time: &str,
    steps: Vec<ExecutionStep>,
    confidence: u8,
) -> (path: LifePath)
    ensures
        path@ == (LifePathView {
            path_type,
            description: description@,
            estimated_cost,
            estimated_time: Some(estimated_time@),
            steps: steps.deep_view(),
            confidence,
        }),
{
    LifePath {
        path_type,
        description: String::from_str(description),
        estimated_cost,
        estimated_time: Some(String::from_str(estimated_time)),
        steps,
        confidence,
    }
}

fn one_step(step: ExecutionStep) -> (steps: Vec<ExecutionStep>)
    ensures
        steps.deep_view() == seq![step@],
{
    let mut steps: Vec<ExecutionStep> = Vec::new();
    steps.push(step);
    assert(steps.deep_view() =~= seq![step@]);
    steps
}

fn two_steps(first: ExecutionStep, second: ExecutionStep) -> (steps: Vec<ExecutionStep>)
    ensures
        steps.deep_view() == seq![first@, second@],
{
    let mut steps: Vec<ExecutionStep> = Vec::new();
    steps.push(first);
    steps.push(second);
    assert(steps.deep_view() =~= seq![first@, second@]);
    steps
}

/// The generator of plans, with the registry it consults.
#[derive(Debug)]
pub struct VerificationLoop {
    capability_registry: CapabilityRegistry,
}

impl VerificationLoop {
    /// The directory of the registry that the generator consults.
    pub closed spec fn directory(self) -> Map<Seq<char>, CapabilityView> {
        self.capability_registry@
    }

    /// A generator that consults `capability_registry`.
    pub fn new(capability_registry: CapabilityRegistry) -> (generator: Self)
        ensures
            generator.directory() == capability_registry@,
    {
        VerificationLoop { capability_registry }
    }

    /// The registry that the generator consults.
    pub fn registry(&self) -> (registry: &CapabilityRegistry)
        ensures
            registry@ == self.directory(),
    {
        &self.capability_registry
    }

    /// Sets the availability of a capability in the generator's registry.
    pub fn update_availability(&mut self, capability_name: &str, available: bool)
        ensures
            old(self).directory().contains_key(capability_name@) ==> final(self).directory() == old(
                self,
            ).directory().insert(
                capability_name@,
                old(self).directory()[capability_name@].with_availability(available),
            ),
            !old(self).directory().contains_key(capability_name@) ==> final(self).directory()
                == old(self).directory(),
    {
        self.capability_registry.update_availability(capability_name, available);
    }

    /// The plans for a request: the efficient, the luxurious and the
    /// exploring one, in this order, each where it can be drawn up. With no
    /// plan at all the request has no viable path. The user's preferences do
    /// not change what is proposed.
    pub fn generate_paths(
        &self,
        intent: &IntentSchema,
        user_preferences: &UserPreferenceVector,
    ) -> (outcome: Result<Vec<LifePath>, EngineError>)
        ensures
            match outcome {
                Ok(paths) => paths.deep_view() == planned_paths(
                    intent@.core_intent,
                    self.directory(),
                ) && paths.len() > 0,
                Err(error) => error@ == EngineErrorView::NoViablePath && planned_paths(
                    intent@.core_intent,
                    self.directory(),
                ).len() == 0,
            },
            has_generators(intent@.core_intent) && capabilities_ready(
                intent@.core_intent,
                self.directory(),
            ) ==> outcome is Ok && outcome->Ok_0.len() == 3,
            outcome matches Ok(paths) ==> forall|i: int|
                0 <= i < paths.len() ==> (#[trigger] paths[i]).confidence <= 100,
    {
        let mut paths: Vec<LifePath> = Vec::new();
        let ghost mut listed: Seq<LifePathView> = Seq::empty();
        assert(paths.deep_view() =~= listed);

        match self.generate_efficiency_path(intent, user_preferences) {
            Some(path) => {
                proof {
                    listed = listed.push(path@);
                }
                paths.push(path);
            },
            None => {},
        }
        assert(paths.deep_view() =~= listed);
        assert(listed =~= as_list(
            planned_path(PathType::Efficiency, intent@.core_intent, self.directory()),
        ));
        match self.generate_luxury_path(intent, user_preferences) {
            Some(path) => {
                proof {
                    listed = listed.push(path@);
                }
                paths.push(path);
            },
            None => {},
        }
        assert(paths.deep_view() =~= listed);
        assert(listed =~= as_list(
            planned_path(PathType::Efficiency, intent@.core_intent, self.directory()),
        ) + as_list(planned_path(PathType::Luxury, intent@.core_intent, self.directory())));
        match self.generate_discovery_path(intent, user_preferences) {
            Some(path) => {
                proof {
                    listed = listed.push(path@);
                }
                paths.push(path);
            },
            None => {},
        }
        assert(paths.deep_view() =~= listed);
        assert(listed =~= planned_paths(intent@.core_intent, self.directory()));
        proof {
            lemma_plans_are_sound(intent@.core_intent, self.directory());
            assert forall|i: int| 0 <= i < paths.len() implies (#[trigger] paths[i]).confidence
                <= 100 by {
                assert(paths.deep_view()[i] == paths[i]@);
            }
        }

        if paths.len() == 0 {
            return Err(EngineError::NoViablePath);
        }
        Ok(paths)
    }

    /// The efficient plan for a request.
    pub fn generate_efficiency_path(
        &self,
        intent: &IntentSchema,
        user_preferences: &UserPreferenceVector,
    ) -> (path: Option<LifePath>)
        ensures
            path.deep_view() == planned_path(
                PathType::Efficiency,
                intent@.core_intent,
                self.directory(),
            ),
    {
        match &intent.core_intent {
            CoreIntent::TransportationRequest(transport_intent) => {
                self.generate_efficiency_transportation_path(transport_intent, user_preferences)
            },
            CoreIntent::BookReservation(reservation_intent) => {
                self.generate_efficiency_reservation_path(reservation_intent, user_preferences)
            },
            CoreIntent::ScheduleEvent(schedule_intent) => {
                self.generate_efficiency_scheduling_path(schedule_intent, user_preferences)
            },
            CoreIntent::PurchaseItem(purchase_intent) => {
                self.generate_efficiency_purchase_path(purchase_intent, user_preferences)
            },
            _ => None,
        }
    }

    /// The luxurious plan for a request.
    pub fn generate_luxury_path(
        &self,
        intent: &IntentSchema,
        user_preferences: &UserPreferenceVector,
    ) -> (path: Option<LifePath>)
        ensures
            path.deep_view() == planned_path(
                PathType::Luxury,
                intent@.core_intent,
                self.directory(),
            ),
    {
        match &intent.core_intent {
            CoreIntent::TransportationRequest(transport_intent) => {
                self.generate_luxury_transportation_path(transport_intent, user_preferences)
            },
            CoreIntent::BookReservation(reservation_intent) => {
                self.generate_luxury_reservation_path(reservation_intent, user_preferences)
            },
            CoreIntent::ScheduleEvent(schedule_intent) => {
                self.generate_luxury_scheduling_path(schedule_intent, user_preferences)
            },
            CoreIntent::PurchaseItem(purchase_intent) => {
                self.generate_luxury_purchase_path(purchase_intent, user_preferences)
            },
            _ => None,
        }
    }

    /// The exploring plan for a request.
    pub fn generate_discovery_path(
        &self,
        intent: &IntentSchema,
        user_preferences: &UserPreferenceVector,
    ) -> (path: Option<LifePath>)
        ensures
            path.deep_view() == planned_path(
                PathType::Discovery,
                intent@.core_intent,
                self.directory(),
            ),
    {
        match &intent.core_intent {
            CoreIntent::TransportationRequest(transport_intent) => {
                self.generate_discovery_transportation_path(transport_intent, user_preferences)
            },
            CoreIntent::BookReservation(reservation_intent) => {
                self.generate_discovery_reservation_path(reservation_intent, user_preferences)
            },
            CoreIntent::ScheduleEvent(schedule_intent) => {
                self.generate_discovery_scheduling_path(schedule_intent, user_preferences)
            },
            CoreIntent::PurchaseItem(purchase_intent) => {
                self.generate_discovery_purchase_path(purchase_intent, user_preferences)
            },
            _ => None,
        }
    }

    /// The efficient ride, where rides can be booked.
    pub fn generate_efficiency_transportation_path(
        &self,
        transport_intent: &TransportationIntent,
        _user_preferences: &UserPreferenceVector,
    ) -> (path: Option<LifePath>)
        ensures
            path.deep_view() == if available_in(self.directory(), "uber"@) {
                Some(efficiency_transportation_plan(transport_intent@))
            } else {
                None
            },
    {
        if !self.capability_registry.is_available("uber") {
            return None;
        }
        let vehicle: Option<&str> = match &transport_intent.vehicle_preference {
            Some(vehicle_type) => Some(vehicle_type.name()),
            None => None,
        };
        let steps = one_step(build_transportation_step(transport_intent, vehicle));
        Some(
            new_path(
                PathType::Efficiency,
                "Direct route with standard vehicle for fastest arrival",
                transport_intent.max_cost,
                "PT30M",
                steps,
                90,
            ),
        )
    }

    /// The luxurious ride, where rides can be booked.
    pub fn generate_luxury_transportation_path(
        &self,
        transport_intent: &TransportationIntent,
        _user_preferences: &UserPreferenceVector,
    ) -> (path: Option<LifePath>)
        ensures
            path.deep_view() == if available_in(self.directory(), "uber"@) {
                Some(luxury_transportation_plan(transport_intent@))
            } else {
                None
            },
    {
        if !self.capability_registry.is_available("uber") {
            return None;
        }
        let booking = build_transportation_step(transport_intent, Some("Luxury"));

        let mut upgrade_params: StringMap<String> = StringMap::new();
        insert_text(&mut upgrade_params, "ride_id", "{{ride_id}}");
        insert_text(&mut upgrade_params, "service_type", "premium_amenities");
        let upgrading = new_step(
            "arrange_ride_amenities",
            "concierge_service",
            upgrade_params,
            PriorityLevel::High,
        );

        let steps = two_steps(booking, upgrading);
        Some(
            new_path(
                PathType::Luxury,
                "Luxury vehicle with premium amenities for comfortable journey",
                scale_cost(transport_intent.max_cost, 3, 2),
                "PT30M",
                steps,
                85,
            ),
        )
    }

    /// The exploring ride, where rides can be booked.
    pub fn generate_discovery_transportation_path(
        &self,
        transport_intent: &TransportationIntent,
        _user_preferences: &UserPreferenceVector,
    ) -> (path: Option<LifePath>)
        ensures
            path.deep_view() == if available_in(self.directory(), "uber"@) {
                Some(discovery_transportation_plan(transport_intent@))
            } else {
                None
            },
    {
        if !self.capability_registry.is_available("uber") {
            return None;
        }
        let booking = build_transportation_step(transport_intent, Some("Pool"));

        let mut explore_params: StringMap<String> = StringMap::new();
        insert_text(&mut explore_params, "location", transport_intent.destination.as_str());
        insert_text(&mut explore_params, "category", "attractions");
        insert_text(&mut explore_params, "radius", "2000");
        let exploring = new_step(
            "explore_nearby",
            "local_discovery",
            explore_params,
            PriorityLevel::Medium,
        );

        let steps = two_steps(booking, exploring);
        Some(
            new_path(
                PathType::Discovery,
                "Shared ride with stops at interesting places along the way",
                scale_cost(transport_intent.max_cost, 7, 10),
                "PT45M",
                steps,
                80,
            ),
        )
    }

    /// The efficient reservation, where reservations can be made.
    pub fn generate_efficiency_reservation_path(
        &self,
        reservation_intent: &ReservationIntent,
        _user_preferences: &UserPreferenceVector,
    ) -> (path: Option<LifePath>)
        ensures
            path.deep_view() == if available_in(self.directory(), "opentable"@) {
                Some(efficiency_reservation_plan(reservation_intent@))
            } else {
                None
            },
    {
        if !self.capability_registry.is_available("opentable") {
            return None;
        }
        let steps = one_step(build_reservation_step(reservation_intent, None));
        Some(
            new_path(
                PathType::Efficiency,
                "Quick reservation at the most convenient available time",
                None,
                "PT1H",
                steps,
                90,
            ),
        )
    }

    /// The luxurious reservation, where reservations can be made.
    pub fn generate_luxury_reservation_path(
        &self,
        reservation_intent: &ReservationIntent,
        _user_preferences: &UserPreferenceVector,
    ) -> (path: Option<LifePath>)
        ensures
            path.deep_view() == if available_in(self.directory(), "opentable"@) {
                Some(luxury_reservation_plan(reservation_intent@))
            } else {
                None
            },
    {
        if !self.capability_registry.is_available("opentable") {
            return None;
        }
        let booking = build_reservation_step(reservation_intent, Some("premium"));

        let mut upgrade_params: StringMap<String> = StringMap::new();
        insert_text(&mut upgrade_params, "reservation_id", "{{reservation_id}}");
        insert_text(&mut upgrade_params, "service_type", "premium_seating");
        let upgrading = new_step(
            "arrange_premium_seating",
            "concierge_service",
            upgrade_params,
            PriorityLevel::High,
        );

        let steps = two_steps(booking, upgrading);
        Some(
            new_path(
                PathType::Luxury,
                "Premium reservation with best available seating and amenities",
                scale_cost(None, 3, 2),
                "PT2H",
                steps,
                85,
            ),
        )
    }

    /// The exploring reservation, where reservations can be made.
    pub fn generate_discovery_reservation_path(
        &self,
        reservation_intent: &ReservationIntent,
        _user_preferences: &UserPreferenceVector,
    ) -> (path: Option<LifePath>)
        ensures
            path.deep_view() == if available_in(self.directory(), "opentable"@) {
                Some(discovery_reservation_plan(reservation_intent@))
            } else {
                None
            },
    {
        if !self.capability_registry.is_available("opentable") {
            return None;
        }
        let booking = build_reservation_step(reservation_intent, Some("experimental"));

        let mut discover_params: StringMap<String> = StringMap::new();
        insert_text(&mut discover_params, "cuisine_type", "unknown");
        let place = optional_text(&reservation_intent.location);
        insert_text(&mut discover_params, "location", place.as_str());
        let discovering = new_step(
            "discover_cuisine",
            "cuisine_discovery",
            discover_params,
            PriorityLevel::Medium,
        );

        let steps = two_steps(booking, discovering);
        Some(
            new_path(
                PathType::Discovery,
                "Reservation at an experimental venue with unique culinary experience",
                None,
                "PT2H30M",
                steps,
                80,
            ),
        )
    }

    /// The efficient calendar entry, where the calendar can be used.
    pub fn generate_efficiency_scheduling_path(
        &self,
        schedule_intent: &ScheduleIntent,
        _user_preferences: &UserPreferenceVector,
    ) -> (path: Option<LifePath>)
        ensures
            path.deep_view() == if available_in(self.directory(), "calendar"@) {
                Some(efficiency_scheduling_plan(schedule_intent@))
            } else {
                None
            },
    {
        if !self.capability_registry.is_available("calendar") {
            return None;
        }
        let steps = one_step(build_scheduling_step(schedule_intent));
        Some(
            new_path(
                PathType::Efficiency,
                "Straightforward calendar entry with minimal setup",
                Some(0),
                "PT5M",
                steps,
                95,
            ),
        )
    }

    /// The luxurious calendar entry, where the calendar can be used.
    pub fn generate_luxury_scheduling_path(
        &self,
        schedule_intent: &ScheduleIntent,
        _user_preferences: &UserPreferenceVector,
    ) -> (path: Option<LifePath>)
        ensures
            path.deep_view() == if available_in(self.directory(), "calendar"@) {
                Some(luxury_scheduling_plan(schedule_intent@))
            } else {
                None
            },
    {
        if !self.capability_registry.is_available("calendar") {
            return None;
        }
        let entry = build_scheduling_step(schedule_intent);

        let mut coord_params: StringMap<String> = StringMap::new();
        insert_text(&mut coord_params, "event_id", "{{event_id}}");
        insert_text(&mut coord_params, "service_type", "concierge");
        let coordinating = new_step(
            "coordinate_luxury_services",
            "concierge_service",
            coord_params,
            PriorityLevel::High,
        );

        let steps = two_steps(entry, coordinating);
        Some(
            new_path(
                PathType::Luxury,
                "Calendar event with luxury coordination services",
                scale_cost(Some(0), 3, 2),
                "PT10M",
                steps,
                90,
            ),
        )
    }

    /// The exploring calendar entry, where the calendar can be used.
    pub fn generate_discovery_scheduling_path(
        &self,
        schedule_intent: &ScheduleIntent,
        _user_preferences: &UserPreferenceVector,
    ) -> (path: Option<LifePath>)
        ensures
            path.deep_view() == if available_in(self.directory(), "calendar"@) {
                Some(discovery_scheduling_plan(schedule_intent@))
            } else {
                None
            },
    {
        if !self.capability_registry.is_available("calendar") {
            return None;
        }
        let entry = build_scheduling_step(schedule_intent);

        let mut discover_params: StringMap<String> = StringMap::new();
        insert_text(&mut discover_params, "event_topic", schedule_intent.event_title.as_str());
        let place = optional_text(&schedule_intent.location);
        insert_text(&mut discover_params, "location", place.as_str());
        let discovering = new_step(
            "discover_related_activities",
            "activity_discovery",
            discover_params,
            PriorityLevel::Medium,
        );

        let steps = two_steps(entry, discovering);
        Some(
            new_path(
                PathType::Discovery,
                "Calendar event with discovery of related activities",
                Some(0),
                "PT15M",
                steps,
                85,
            ),
        )
    }

    /// The efficient purchase. It needs no registered capability.
    pub fn generate_efficiency_purchase_path(
        &self,
        purchase_intent: &PurchaseIntent,
        _user_preferences: &UserPreferenceVector,
    ) -> (path: Option<LifePath>)
        ensures
            path.deep_view() == Some(efficiency_purchase_plan(purchase_intent@)),
    {
        let steps = one_step(
            build_purchase_step(purchase_intent, "ecommerce_platform", purchase_intent.max_price),
        );
        Some(
            new_path(
                PathType::Efficiency,
                "Direct purchase from the most cost-effective vendor",
                purchase_intent.max_price,
                "PT2H",
                steps,
                90,
            ),
        )
    }

    /// The luxurious purchase. It needs no registered capability.
    pub fn generate_luxury_purchase_path(
        &self,
        purchase_intent: &PurchaseIntent,
        _user_preferences: &UserPreferenceVector,
    ) -> (path: Option<LifePath>)
        ensures
            path.deep_view() == Some(luxury_purchase_plan(purchase_intent@)),
    {
        let buying = build_purchase_step(
            purchase_intent,
            "premium_ecommerce",
            scale_cost(purchase_intent.max_price, 3, 2),
        );

        let mut delivery_params: StringMap<String> = StringMap::new();
        insert_text(&mut delivery_params, "item_id", "{{item_id}}");
        insert_text(&mut delivery_params, "delivery_type", "express_premium");
        let delivering = new_step(
            "arrange_premium_delivery",
            "premium_delivery",
            delivery_params,
            PriorityLevel::High,
        );

        let steps = two_steps(buying, delivering);
        Some(
            new_path(
                PathType::Luxury,
                "Premium purchase with express delivery and gift wrapping",
                scale_cost(purchase_intent.max_price, 17, 10),
                "PT1H",
                steps,
                80,
            ),
        )
    }

    /// The exploring purchase. It needs no registered capability.
    pub fn generate_discovery_purchase_path(
        &self,
        purchase_intent: &PurchaseIntent,
        _user_preferences: &UserPreferenceVector,
    ) -> (path: Option<LifePath>)
        ensures
            path.deep_view() == Some(discovery_purchase_plan(purchase_intent@)),
    {
        let buying = build_purchase_step(
            purchase_intent,
            "discovery_ecommerce",
            purchase_intent.max_price,
        );

        let mut discover_params: StringMap<String> = StringMap::new();
        insert_text(&mut discover_params, "item_category", purchase_intent.item_description.as_str());
        insert_text(&mut discover_params, "user_preferences", "exploration");
        let discovering = new_step(
            "discover_similar_items",
            "recommendation_engine",
            discover_params,
            PriorityLevel::Medium,
        );

        let steps = two_steps(buying, discovering);
        Some(
            new_path(
                PathType::Discovery,
                "Purchase with discovery of similar or complementary items",
                purchase_intent.max_price,
                "PT24H",
                steps,
                75,
            ),
        )
    }
}

} // verus!
