//! What the engine has learned about a user: preferences by category, and
//! the record of past actions from which they were learned.

use crate::clock::{now, Timestamp};
use crate::collections::{lemma_same_entries_same_view, StringMap, StringSet};
use crate::intent_schema::{
    clone_requirements, AccessibilityRequirement, AccessibilityRequirementView, CoreIntent,
    CoreIntentView, IntentSchema, IntentSchemaView, QualityLevel, Vibe,
};
use crate::text::{clone_strings, join_texts, str_eq};
use crate::verification_loop::PathType;
use vstd::prelude::*;
use vstd::string::*;

verus! {

/// What the user allows to be shared.
#[derive(Clone, Copy, Debug, PartialEq, Eq, Structural)]
pub struct PrivacySettings {
    pub share_location: bool,
    pub share_purchase_history: bool,
    pub allow_personalized_recommendations: bool,
    pub share_with_third_parties: bool,
}

impl Default for PrivacySettings {
    /// Nothing is shared.
    fn default() -> (settings: Self)
        ensures
            settings == (PrivacySettings {
                share_location: false,
                share_purchase_history: false,
                allow_personalized_recommendations: false,
                share_with_third_parties: false,
            }),
    {
        PrivacySettings {
            share_location: false,
            share_purchase_history: false,
            allow_personalized_recommendations: false,
            share_with_third_parties: false,
        }
    }
}

/// Kinds of action.
#[derive(Debug)]
pub enum ActionType {
    TransportationBooking,
    ReservationBooking,
    ScheduleEvent,
    Purchase,
    InformationQuery,
    Custom(String),
}

/// Model of an `ActionType`.
pub enum ActionTypeView {
    TransportationBooking,
    ReservationBooking,
    ScheduleEvent,
    Purchase,
    InformationQuery,
    Custom(Seq<char>),
}

impl View for ActionType {
    type V = ActionTypeView;

    open spec fn view(&self) -> ActionTypeView {
        match self {
            ActionType::TransportationBooking => ActionTypeView::TransportationBooking,
            ActionType::ReservationBooking => ActionTypeView::ReservationBooking,
            ActionType::ScheduleEvent => ActionTypeView::ScheduleEvent,
            ActionType::Purchase => ActionTypeView::Purchase,
            ActionType::InformationQuery => ActionTypeView::InformationQuery,
            ActionType::Custom(label) => ActionTypeView::Custom(label@),
        }
    }
}

impl Clone for ActionType {
    fn clone(&self) -> (copy: Self)
        ensures
            copy@ == self@,
    {
        match self {
            ActionType::TransportationBooking => ActionType::TransportationBooking,
            ActionType::ReservationBooking => ActionType::ReservationBooking,
            ActionType::ScheduleEvent => ActionType::ScheduleEvent,
            ActionType::Purchase => ActionType::Purchase,
            ActionType::InformationQuery => ActionType::InformationQuery,
            ActionType::Custom(label) => ActionType::Custom(label.clone()),
        }
    }
}

/// How an action ended.
#[derive(Clone, Copy, Debug, PartialEq, Eq, Structural)]
pub enum ActionOutcome {
    Success,
    PartialSuccess,
    Failure,
    Cancelled,
    Timeout,
}

/// The record of one action taken for the user. `cost` is in cents.
#[derive(Debug)]
pub struct UserActionHistory {
    pub action_id: String,
    pub action_type: ActionType,
    /// The request that led to the action.
    pub intent: IntentSchema,
    /// The kind of plan the user chose.
    pub selected_path: Option<PathType>,
    pub outcome: ActionOutcome,
    /// The user's rating, 1 to 5.
    pub satisfaction_rating: Option<u8>,
    pub timestamp: Timestamp,
    pub cost: Option<u64>,
    /// Duration as ISO 8601 text.
    pub time_spent: Option<String>,
}

/// Model of a `UserActionHistory`.
pub struct UserActionHistoryView {
    pub action_id: Seq<char>,
    pub action_type: ActionTypeView,
    pub intent: IntentSchemaView,
    pub selected_path: Option<PathType>,
    pub outcome: ActionOutcome,
    pub satisfaction_rating: Option<u8>,
    pub timestamp: Timestamp,
    pub cost: Option<u64>,
    pub time_spent: Option<Seq<char>>,
}

impl View for UserActionHistory {
    type V = UserActionHistoryView;

    open spec fn view(&self) -> UserActionHistoryView {
        UserActionHistoryView {
            action_id: self.action_id@,
            action_type: self.action_type@,
            intent: self.intent@,
            selected_path: self.selected_path,
            outcome: self.outcome,
            satisfaction_rating: self.satisfaction_rating,
            timestamp: self.timestamp,
            cost: self.cost,
            time_spent: self.time_spent.deep_view(),
        }
    }
}

impl DeepView for UserActionHistory {
    type V = UserActionHistoryView;

    open spec fn deep_view(&self) -> UserActionHistoryView {
        self.view()
    }
}

impl Clone for UserActionHistory {
    fn clone(&self) -> (copy: Self)
        ensures
            copy@ == self@,
    {
        UserActionHistory {
            action_id: self.action_id.clone(),
            action_type: self.action_type.clone(),
            intent: self.intent.clone(),
            selected_path: self.selected_path,
            outcome: self.outcome,
            satisfaction_rating: self.satisfaction_rating,
            timestamp: self.timestamp,
            cost: self.cost,
            time_spent: self.time_spent.clone(),
        }
    }
}

/// The preferences of one user. Price ranges are in cents, lowest first.
#[derive(Debug)]
pub struct UserPreferences {
    /// Preferred quality by category.
    pub quality_preferences: StringMap<QualityLevel>,
    pub brand_preferences: StringSet,
    /// Brands or services to avoid.
    pub brand_exclusions: StringSet,
    /// Preferred price range by category.
    pub price_preferences: StringMap<(u64, u64)>,
    /// Preferred times by activity.
    pub time_preferences: StringMap<Vec<String>>,
    pub location_preferences: StringSet,
    pub transportation_preferences: StringSet,
    pub dietary_restrictions: StringSet,
    pub accessibility_requirements: Vec<AccessibilityRequirement>,
    pub communication_preferences: StringSet,
    pub privacy_settings: PrivacySettings,
    /// How often each kind of activity was recorded.
    pub activity_frequency: StringMap<u32>,
    /// Preferred style by context.
    pub vibe_preferences: StringMap<Vibe>,
}

/// Model of `UserPreferences`.
pub struct UserPreferencesView {
    pub quality_preferences: Map<Seq<char>, QualityLevel>,
    pub brand_preferences: Set<Seq<char>>,
    pub brand_exclusions: Set<Seq<char>>,
    pub price_preferences: Map<Seq<char>, (u64, u64)>,
    pub time_preferences: Map<Seq<char>, Seq<Seq<char>>>,
    pub location_preferences: Set<Seq<char>>,
    pub transportation_preferences: Set<Seq<char>>,
    pub dietary_restrictions: Set<Seq<char>>,
    pub accessibility_requirements: Seq<AccessibilityRequirementView>,
    pub communication_preferences: Set<Seq<char>>,
    pub privacy_settings: PrivacySettings,
    pub activity_frequency: Map<Seq<char>, u32>,
    pub vibe_preferences: Map<Seq<char>, Vibe>,
}

impl View for UserPreferences {
    type V = UserPreferencesView;

    open spec fn view(&self) -> UserPreferencesView {
        UserPreferencesView {
            quality_preferences: self.quality_preferences@,
            brand_preferences: self.brand_preferences@,
            brand_exclusions: self.brand_exclusions@,
            price_preferences: self.price_preferences@,
            time_preferences: self.time_preferences@,
            location_preferences: self.location_preferences@,
            transportation_preferences: self.transportation_preferences@,
            dietary_restrictions: self.dietary_restrictions@,
            accessibility_requirements: self.accessibility_requirements.deep_view(),
            communication_preferences: self.communication_preferences@,
            privacy_settings: self.privacy_settings,
            activity_frequency: self.activity_frequency@,
            vibe_preferences: self.vibe_preferences@,
        }
    }
}

impl Clone for UserPreferences {
    fn clone(&self) -> (copy: Self)
        ensures
            copy@ == self@,
    {
        let copy = UserPreferences {
            quality_preferences: self.quality_preferences.copied(),
            brand_preferences: self.brand_preferences.clone(),
            brand_exclusions: self.brand_exclusions.clone(),
            price_preferences: self.price_preferences.copied(),
            time_preferences: self.time_preferences.clone(),
            location_preferences: self.location_preferences.clone(),
            transportation_preferences: self.transportation_preferences.clone(),
            dietary_restrictions: self.dietary_restrictions.clone(),
            accessibility_requirements: clone_requirements(&self.accessibility_requirements),
            communication_preferences: self.communication_preferences.clone(),
            privacy_settings: self.privacy_settings,
            activity_frequency: self.activity_frequency.copied(),
            vibe_preferences: self.vibe_preferences.copied(),
        };
        proof {
            assert forall|i: int| 0 <= i < self.time_preferences.value_seq().len() implies (
            #[trigger] self.time_preferences.value_seq()[i]).deep_view()
                == copy.time_preferences.value_seq()[i].deep_view() by {
                assert(self.time_preferences.value_seq()[i].deep_view()
                    =~= copy.time_preferences.value_seq()[i].deep_view());
            }
            lemma_same_entries_same_view(self.time_preferences, copy.time_preferences);
        }
        copy
    }
}

/// Preferences of a user of whom nothing is known yet.
pub open spec fn empty_preferences() -> UserPreferencesView {
    UserPreferencesView {
        quality_preferences: Map::empty(),
        brand_preferences: Set::empty(),
        brand_exclusions: Set::empty(),
        price_preferences: Map::empty(),
        time_preferences: Map::empty(),
        location_preferences: Set::empty(),
        transportation_preferences: Set::empty(),
        dietary_restrictions: Set::empty(),
        accessibility_requirements: Seq::empty(),
        communication_preferences: Set::empty(),
        privacy_settings: PrivacySettings {
            share_location: false,
            share_purchase_history: false,
            allow_personalized_recommendations: false,
            share_with_third_parties: false,
        },
        activity_frequency: Map::empty(),
        vibe_preferences: Map::empty(),
    }
}

impl Default for UserPreferences {
    /// No preference recorded, nothing shared.
    fn default() -> (preferences: Self)
        ensures
            preferences@ == empty_preferences(),
    {
        let preferences = UserPreferences {
            quality_preferences: StringMap::new(),
            brand_preferences: StringSet::new(),
            brand_exclusions: StringSet::new(),
            price_preferences: StringMap::new(),
            time_preferences: StringMap::new(),
            location_preferences: StringSet::new(),
            transportation_preferences: StringSet::new(),
            dietary_restrictions: StringSet::new(),
            accessibility_requirements: Vec::new(),
            communication_preferences: StringSet::new(),
            privacy_settings: PrivacySettings::default(),
            activity_frequency: StringMap::new(),
            vibe_preferences: StringMap::new(),
        };
        assert(preferences.accessibility_requirements.deep_view() =~= Seq::empty());
        preferences
    }
}

/// A user's preferences together with the history they were learned from.
#[derive(Debug)]
pub struct UserPreferenceVector {
    pub user_id: String,
    pub preferences: UserPreferences,
    /// Past actions, oldest first; entries are only ever added at the end.
    pub history: Vec<UserActionHistory>,
    pub last_updated: Timestamp,
}

/// Model of a `UserPreferenceVector`.
pub struct UserPreferenceVectorView {
    pub user_id: Seq<char>,
    pub preferences: UserPreferencesView,
    pub history: Seq<UserActionHistoryView>,
    pub last_updated: Timestamp,
}

impl View for UserPreferenceVector {
    type V = UserPreferenceVectorView;

    open spec fn view(&self) -> UserPreferenceVectorView {
        UserPreferenceVectorView {
            user_id: self.user_id@,
            preferences: self.preferences@,
            history: self.history.deep_view(),
            last_updated: self.last_updated,
        }
    }
}

impl Clone for UserPreferenceVector {
    fn clone(&self) -> (copy: Self)
        ensures
            copy@ == self@,
    {
        let history = self.history.clone();
        assert(history.deep_view() =~= self.history.deep_view());
        UserPreferenceVector {
            user_id: self.user_id.clone(),
            preferences: self.preferences.clone(),
            history,
            last_updated: self.last_updated,
        }
    }
}

/// The category under which an intent is counted and its preferences are
/// kept: a fixed name for each kind of intent, with the kind of reservation
/// or the first twenty characters of a custom request appended.
pub open spec fn activity_category(intent: CoreIntentView) -> Seq<char> {
    match intent {
        CoreIntentView::TransportationRequest(_) => "transportation"@,
        CoreIntentView::BookReservation(reservation) => "reservation_"@
            + reservation.reservation_type.name_text(),
        CoreIntentView::ScheduleEvent(_) => "scheduling"@,
        CoreIntentView::PurchaseItem(_) => "purchase"@,
        CoreIntentView::InformationQuery(_) => "information"@,
        CoreIntentView::Custom(text) => "custom_"@ + (if text.len() <= 20 {
            text
        } else {
            text.subrange(0, 20)
        }),
    }
}

/// A counter after one more occurrence; it stays at the largest value once
/// it has reached it.
pub open spec fn bumped(count: u32) -> u32 {
    if count < u32::MAX {
        (count + 1) as u32
    } else {
        u32::MAX
    }
}

/// The count recorded for a category, zero where there is none.
pub open spec fn frequency_of(frequencies: Map<Seq<char>, u32>, category: Seq<char>) -> u32 {
    if frequencies.contains_key(category) {
        frequencies[category]
    } else {
        0
    }
}

/// Quality preferences after an action: the efficient plan sets the
/// category to standard quality, the luxurious plan to luxury.
pub open spec fn learned_quality(
    quality: Map<Seq<char>, QualityLevel>,
    outcome: UserActionHistoryView,
) -> Map<Seq<char>, QualityLevel> {
    let category = activity_category(outcome.intent.core_intent);
    match outcome.selected_path {
        Some(PathType::Efficiency) => quality.insert(category, QualityLevel::Standard),
        Some(PathType::Luxury) => quality.insert(category, QualityLevel::Luxury),
        _ => quality,
    }
}

/// Style preferences after an action: the exploring plan sets the category
/// to adventurous.
pub open spec fn learned_vibe(
    vibes: Map<Seq<char>, Vibe>,
    outcome: UserActionHistoryView,
) -> Map<Seq<char>, Vibe> {
    let category = activity_category(outcome.intent.core_intent);
    match outcome.selected_path {
        Some(PathType::Discovery) => vibes.insert(category, Vibe::Adventurous),
        _ => vibes,
    }
}

/// Activity counts after an action: one more for its category.
pub open spec fn learned_frequency(
    frequencies: Map<Seq<char>, u32>,
    outcome: UserActionHistoryView,
) -> Map<Seq<char>, u32> {
    let category = activity_category(outcome.intent.core_intent);
    frequencies.insert(category, bumped(frequency_of(frequencies, category)))
}

/// The preferred time range of a request, written as start, hyphen, end.
pub open spec fn preferred_range_text(intent: IntentSchemaView) -> Option<Seq<char>> {
    match intent.temporal_constraints {
        Some(constraints) => match constraints.preferred_time_range {
            Some(range) => Some(range.0 + "-"@ + range.1),
            None => None,
        },
        None => None,
    }
}

/// Time preferences after an action: the preferred range of the request, if
/// it has one, is added to those of its category.
pub open spec fn learned_times(
    times: Map<Seq<char>, Seq<Seq<char>>>,
    outcome: UserActionHistoryView,
) -> Map<Seq<char>, Seq<Seq<char>>> {
    let category = activity_category(outcome.intent.core_intent);
    match preferred_range_text(outcome.intent) {
        Some(range) => times.insert(
            category,
            (if times.contains_key(category) {
                times[category]
            } else {
                Seq::empty()
            }).push(range),
        ),
        None => times,
    }
}

/// Whether the action was rated four or better.
pub open spec fn rated_high(outcome: UserActionHistoryView) -> bool {
    outcome.satisfaction_rating matches Some(rating) && rating >= 4
}

/// Whether the action was rated two or worse.
pub open spec fn rated_low(outcome: UserActionHistoryView) -> bool {
    outcome.satisfaction_rating matches Some(rating) && rating <= 2
}

/// The vehicle that a ride request names.
pub open spec fn requested_vehicle(intent: CoreIntentView) -> Option<Seq<char>> {
    match intent {
        CoreIntentView::TransportationRequest(ride) => match ride.vehicle_preference {
            Some(vehicle) => Some(vehicle.name_text()),
            None => None,
        },
        _ => None,
    }
}

/// The place that a reservation request names.
pub open spec fn requested_location(intent: CoreIntentView) -> Option<Seq<char>> {
    match intent {
        CoreIntentView::BookReservation(reservation) => reservation.location,
        _ => None,
    }
}

/// `set` with `item` added where there is an item.
pub open spec fn with_item(set: Set<Seq<char>>, item: Option<Seq<char>>) -> Set<Seq<char>> {
    match item {
        Some(text) => set.insert(text),
        None => set,
    }
}

/// Preferences after what a well-rated request asked for was reinforced:
/// the vehicle of a ride, the place of a reservation.
pub open spec fn reinforced(
    preferences: UserPreferencesView,
    intent: CoreIntentView,
) -> UserPreferencesView {
    UserPreferencesView {
        transportation_preferences: with_item(
            preferences.transportation_preferences,
            requested_vehicle(intent),
        ),
        location_preferences: with_item(
            preferences.location_preferences,
            requested_location(intent),
        ),
        ..preferences
    }
}

/// Preferences after what a badly rated request asked for was set aside:
/// the place of a reservation joins the exclusions.
pub open spec fn discouraged(
    preferences: UserPreferencesView,
    intent: CoreIntentView,
) -> UserPreferencesView {
    UserPreferencesView {
        brand_exclusions: with_item(preferences.brand_exclusions, requested_location(intent)),
        ..preferences
    }
}

/// Preferences after the rating of an action was taken into account.
pub open spec fn learned_from_rating(
    preferences: UserPreferencesView,
    outcome: UserActionHistoryView,
) -> UserPreferencesView {
    if rated_high(outcome) {
        reinforced(preferences, outcome.intent.core_intent)
    } else if rated_low(outcome) {
        discouraged(preferences, outcome.intent.core_intent)
    } else {
        preferences
    }
}

/// The preferences after one action was learned from.
pub open spec fn learned_preferences(
    preferences: UserPreferencesView,
    outcome: UserActionHistoryView,
) -> UserPreferencesView {
    learned_from_rating(
        UserPreferencesView {
            quality_preferences: learned_quality(preferences.quality_preferences, outcome),
            vibe_preferences: learned_vibe(preferences.vibe_preferences, outcome),
            activity_frequency: learned_frequency(preferences.activity_frequency, outcome),
            time_preferences: learned_times(preferences.time_preferences, outcome),
            ..preferences
        },
        outcome,
    )
}

/// The profile after one action was recorded at the instant `at`: the action
/// joins the history at its end and the preferences learn from it.
pub open spec fn apply_outcome(
    profile: UserPreferenceVectorView,
    outcome: UserActionHistoryView,
    at: Timestamp,
) -> UserPreferenceVectorView {
    UserPreferenceVectorView {
        user_id: profile.user_id,
        preferences: learned_preferences(profile.preferences, outcome),
        history: profile.history.push(outcome),
        last_updated: at,
    }
}

/// Whether a past action chose a plan of `kind` for a request of `category`.
pub open spec fn selects(entry: UserActionHistoryView, category: Seq<char>, kind: PathType) -> bool {
    entry.selected_path == Some(kind) && activity_category(entry.intent.core_intent) == category
}

/// How often the history chose a plan of `kind` for requests of `category`.
pub open spec fn selection_count(
    history: Seq<UserActionHistoryView>,
    category: Seq<char>,
    kind: PathType,
) -> nat
    decreases history.len(),
{
    if history.len() == 0 {
        0
    } else {
        selection_count(history.drop_last(), category, kind) + (if selects(
            history.last(),
            category,
            kind,
        ) {
            1nat
        } else {
            0nat
        })
    }
}

/// Position in the history of the latest choice of a plan of `kind` for a
/// request of `category`; -1 where there is none.
pub open spec fn last_selection(
    history: Seq<UserActionHistoryView>,
    category: Seq<char>,
    kind: PathType,
) -> int
    decreases history.len(),
{
    if history.len() == 0 {
        -1
    } else if selects(history.last(), category, kind) {
        history.len() - 1
    } else {
        last_selection(history.drop_last(), category, kind)
    }
}

/// Whether `kind` is ahead of `other` for a category: chosen more often, or
/// as often and more recently.
pub open spec fn outranks(
    history: Seq<UserActionHistoryView>,
    category: Seq<char>,
    kind: PathType,
    other: PathType,
) -> bool {
    let count = selection_count(history, category, kind);
    let other_count = selection_count(history, category, other);
    count > other_count || (count == other_count && last_selection(history, category, kind)
        > last_selection(history, category, other))
}

/// The kind of plan chosen most often for a category, the most recently
/// chosen among those chosen equally often; `None` where none was chosen.
pub open spec fn preferred_path(history: Seq<UserActionHistoryView>, category: Seq<char>) -> Option<
    PathType,
> {
    if selection_count(history, category, PathType::Efficiency) == 0 && selection_count(
        history,
        category,
        PathType::Luxury,
    ) == 0 && selection_count(history, category, PathType::Discovery) == 0 {
        None
    } else {
        let first = if outranks(history, category, PathType::Luxury, PathType::Efficiency) {
            PathType::Luxury
        } else {
            PathType::Efficiency
        };
        if outranks(history, category, PathType::Discovery, first) {
            Some(PathType::Discovery)
        } else {
            Some(first)
        }
    }
}

/// Whether a past action chose a plan of `kind` and was rated.
pub open spec fn rates(entry: UserActionHistoryView, kind: PathType) -> bool {
    entry.selected_path == Some(kind) && entry.satisfaction_rating is Some
}

/// How many actions of the history chose a plan of `kind` and were rated.
pub open spec fn rating_count(history: Seq<UserActionHistoryView>, kind: PathType) -> nat
    decreases history.len(),
{
    if history.len() == 0 {
        0
    } else {
        rating_count(history.drop_last(), kind) + (if rates(history.last(), kind) {
            1nat
        } else {
            0nat
        })
    }
}

/// The sum of the ratings of the actions that chose a plan of `kind`.
pub open spec fn rating_total(history: Seq<UserActionHistoryView>, kind: PathType) -> nat
    decreases history.len(),
{
    if history.len() == 0 {
        0
    } else {
        rating_total(history.drop_last(), kind) + (if rates(history.last(), kind) {
            history.last().satisfaction_rating->Some_0 as nat
        } else {
            0nat
        })
    }
}

/// Learning never discards history: the recorded action is added at the end
/// and every earlier entry stays where it was.
pub proof fn lemma_history_is_appended(
    profile: UserPreferenceVectorView,
    outcome: UserActionHistoryView,
    at: Timestamp,
)
    ensures
        apply_outcome(profile, outcome, at).history.len() == profile.history.len() + 1,
        apply_outcome(profile, outcome, at).history.last() == outcome,
        forall|i: int|
            0 <= i < profile.history.len() ==> apply_outcome(profile, outcome, at).history[i]
                == profile.history[i],
{
}

/// The activity counts do not depend on the order in which two actions are
/// recorded, nor on when.
pub proof fn lemma_frequency_commutes(
    profile: UserPreferenceVectorView,
    first: UserActionHistoryView,
    second: UserActionHistoryView,
    first_at: Timestamp,
    second_at: Timestamp,
    other_first_at: Timestamp,
    other_second_at: Timestamp,
)
    ensures
        apply_outcome(
            apply_outcome(profile, first, first_at),
            second,
            second_at,
        ).preferences.activity_frequency == apply_outcome(
            apply_outcome(profile, second, other_first_at),
            first,
            other_second_at,
        ).preferences.activity_frequency,
{
    let one_way = apply_outcome(
        apply_outcome(profile, first, first_at),
        second,
        second_at,
    ).preferences.activity_frequency;
    let other_way = apply_outcome(
        apply_outcome(profile, second, other_first_at),
        first,
        other_second_at,
    ).preferences.activity_frequency;
    assert(one_way =~= other_way);
}

/// What ratings add to the sets of preferred places, preferred means of
/// transportation and excluded brands does not depend on the order in which
/// two actions are recorded either.
pub proof fn lemma_preference_sets_commute(
    profile: UserPreferenceVectorView,
    first: UserActionHistoryView,
    second: UserActionHistoryView,
    first_at: Timestamp,
    second_at: Timestamp,
)
    ensures
        apply_outcome(
            apply_outcome(profile, first, first_at),
            second,
            second_at,
        ).preferences.location_preferences == apply_outcome(
            apply_outcome(profile, second, first_at),
            first,
            second_at,
        ).preferences.location_preferences,
        apply_outcome(
            apply_outcome(profile, first, first_at),
            second,
            second_at,
        ).preferences.transportation_preferences == apply_outcome(
            apply_outcome(profile, second, first_at),
            first,
            second_at,
        ).preferences.transportation_preferences,
        apply_outcome(
            apply_outcome(profile, first, first_at),
            second,
            second_at,
        ).preferences.brand_exclusions == apply_outcome(
            apply_outcome(profile, second, first_at),
            first,
            second_at,
        ).preferences.brand_exclusions,
{
    let one_way = apply_outcome(apply_outcome(profile, first, first_at), second, second_at);
    let other_way = apply_outcome(apply_outcome(profile, second, first_at), first, second_at);
    assert(one_way.preferences.location_preferences =~= other_way.preferences.location_preferences);
    assert(one_way.preferences.transportation_preferences
        =~= other_way.preferences.transportation_preferences);
    assert(one_way.preferences.brand_exclusions =~= other_way.preferences.brand_exclusions);
}

/// Each recorded action raises the count of its category by one (up to the
/// largest count) and leaves the other counts alone.
pub proof fn lemma_frequency_counts_one(
    profile: UserPreferenceVectorView,
    outcome: UserActionHistoryView,
    at: Timestamp,
    category: Seq<char>,
)
    ensures
        frequency_of(apply_outcome(profile, outcome, at).preferences.activity_frequency, category)
            == if category == activity_category(outcome.intent.core_intent) {
            bumped(frequency_of(profile.preferences.activity_frequency, category))
        } else {
            frequency_of(profile.preferences.activity_frequency, category)
        },
{
}

/// The quality preference of a category is that of the action recorded
/// last: after an efficient choice and then a luxurious one for the same
/// category it is luxury, after the same two in the other order it is
/// standard. So the order of recording matters here.
pub proof fn lemma_quality_is_last_write(
    profile: UserPreferenceVectorView,
    efficient: UserActionHistoryView,
    luxurious: UserActionHistoryView,
    first_at: Timestamp,
    second_at: Timestamp,
)
    requires
        efficient.selected_path == Some(PathType::Efficiency),
        luxurious.selected_path == Some(PathType::Luxury),
        activity_category(efficient.intent.core_intent) == activity_category(
            luxurious.intent.core_intent,
        ),
    ensures
        apply_outcome(
            apply_outcome(profile, efficient, first_at),
            luxurious,
            second_at,
        ).preferences.quality_preferences[activity_category(efficient.intent.core_intent)]
            == QualityLevel::Luxury,
        apply_outcome(
            apply_outcome(profile, luxurious, first_at),
            efficient,
            second_at,
        ).preferences.quality_preferences[activity_category(efficient.intent.core_intent)]
            == QualityLevel::Standard,
        apply_outcome(
            apply_outcome(profile, efficient, first_at),
            luxurious,
            second_at,
        ).preferences.quality_preferences != apply_outcome(
            apply_outcome(profile, luxurious, first_at),
            efficient,
            second_at,
        ).preferences.quality_preferences,
{
}

/// Recording one more choice adds one to the count of its kind for its
/// category and makes it the latest of its kind.
pub proof fn lemma_selection_counts(
    history: Seq<UserActionHistoryView>,
    outcome: UserActionHistoryView,
    category: Seq<char>,
    kind: PathType,
)
    ensures
        selection_count(history.push(outcome), category, kind) == selection_count(
            history,
            category,
            kind,
        ) + (if selects(outcome, category, kind) {
            1nat
        } else {
            0nat
        }),
        last_selection(history.push(outcome), category, kind) == if selects(
            outcome,
            category,
            kind,
        ) {
            history.len() as int
        } else {
            last_selection(history, category, kind)
        },
        -1 <= last_selection(history, category, kind) < history.len(),
        selection_count(history, category, kind) == 0 <==> last_selection(history, category, kind)
            == -1,
    decreases history.len(),
{
    assert(history.push(outcome).drop_last() =~= history);
    if history.len() > 0 {
        lemma_selection_counts(history.drop_last(), history.last(), category, kind);
        assert(history.drop_last().push(history.last()) =~= history);
    }
}

/// In a category for which no plan was chosen before, the kind of the first
/// recorded choice is the preferred one.
pub proof fn lemma_first_choice_is_preferred(
    history: Seq<UserActionHistoryView>,
    outcome: UserActionHistoryView,
    category: Seq<char>,
    kind: PathType,
)
    requires
        preferred_path(history, category) is None,
        selects(outcome, category, kind),
    ensures
        preferred_path(history.push(outcome), category) == Some(kind),
{
    lemma_selection_counts(history, outcome, category, PathType::Efficiency);
    lemma_selection_counts(history, outcome, category, PathType::Luxury);
    lemma_selection_counts(history, outcome, category, PathType::Discovery);
}

/// The preferred kind was chosen at least once, and no other kind is ahead
/// of it: none was chosen more often, and none as often and more recently.
pub proof fn lemma_preferred_is_ahead(
    history: Seq<UserActionHistoryView>,
    category: Seq<char>,
    other: PathType,
)
    requires
        preferred_path(history, category) is Some,
    ensures
        selection_count(history, category, preferred_path(history, category)->Some_0) > 0,
        !outranks(history, category, other, preferred_path(history, category)->Some_0),
{
    if history.len() > 0 {
        lemma_selection_counts(history.drop_last(), history.last(), category, PathType::Efficiency);
        lemma_selection_counts(history.drop_last(), history.last(), category, PathType::Luxury);
        lemma_selection_counts(history.drop_last(), history.last(), category, PathType::Discovery);
        assert(history.drop_last().push(history.last()) =~= history);
    }
}

/// The ratings given to one kind of plan: how many, and their sum. The
/// average is `total` divided by `count`.
#[derive(Clone, Copy, Debug, PartialEq, Eq, Structural)]
pub struct RatingSummary {
    pub total: u128,
    pub count: u64,
}

/// The category of an intent, as text.
pub fn category_of(intent: &CoreIntent) -> (category: String)
    ensures
        category@ == activity_category(intent@),
{
    match intent {
        CoreIntent::TransportationRequest(_) => String::from_str("transportation"),
        CoreIntent::BookReservation(reservation) => join_texts(
            "reservation_",
            reservation.reservation_type.name(),
        ),
        CoreIntent::ScheduleEvent(_) => String::from_str("scheduling"),
        CoreIntent::PurchaseItem(_) => String::from_str("purchase"),
        CoreIntent::InformationQuery(_) => String::from_str("information"),
        CoreIntent::Custom(text) => {
            let length = text.as_str().unicode_len();
            if length <= 20 {
                join_texts("custom_", text.as_str())
            } else {
                join_texts("custom_", text.as_str().substring_char(0, 20))
            }
        },
    }
}

impl UserPreferenceVector {
    /// The profile of the default user, with nothing learned yet.
    pub fn new() -> (profile: Self)
        ensures
            profile@.user_id == "default_user"@,
            profile@.preferences == empty_preferences(),
            profile@.history == Seq::<UserActionHistoryView>::empty(),
    {
        UserPreferenceVector::with_user_id(String::from_str("default_user"))
    }

    /// The profile of a user, with nothing learned yet.
    pub fn with_user_id(user_id: String) -> (profile: Self)
        ensures
            profile@.user_id == user_id@,
            profile@.preferences == empty_preferences(),
            profile@.history == Seq::<UserActionHistoryView>::empty(),
    {
        let profile = UserPreferenceVector {
            user_id,
            preferences: UserPreferences::default(),
            history: Vec::new(),
            last_updated: now(),
        };
        assert(profile.history.deep_view() =~= Seq::<UserActionHistoryView>::empty());
        profile
    }

    /// Records an action at the current time.
    pub fn update_from_action(&mut self, action_history: UserActionHistory)
        ensures
            final(self)@ == apply_outcome(old(self)@, action_history@, final(self).last_updated),
    {
        let at = now();
        self.apply(action_history, at);
    }

    /// Records an action at the instant `at`: the preferences learn from it
    /// and it joins the history.
    pub fn apply(&mut self, action_history: UserActionHistory, at: Timestamp)
        ensures
            final(self)@ == apply_outcome(old(self)@, action_history@, at),
    {
        self.update_preferences_from_action(&action_history);
        let ghost before = self.history.deep_view();
        self.history.push(action_history);
        assert(self.history.deep_view() =~= before.push(action_history@));
        self.last_updated = at;
    }

    /// Lets the preferences learn from an action.
    pub fn update_preferences_from_action(&mut self, action_history: &UserActionHistory)
        ensures
            final(self)@ == (UserPreferenceVectorView {
                preferences: learned_preferences(old(self)@.preferences, action_history@),
                ..old(self)@
            }),
    {
        match action_history.selected_path {
            Some(PathType::Efficiency) => {
                self.adjust_quality_preference_for_efficiency(&action_history.intent);
            },
            Some(PathType::Luxury) => {
                self.adjust_quality_preference_for_luxury(&action_history.intent);
            },
            Some(PathType::Discovery) => {
                self.adjust_preferences_for_discovery(&action_history.intent);
            },
            None => {},
        }

        let activity_type = self.get_activity_type_from_intent(&action_history.intent);
        let count: u32 = match self.preferences.activity_frequency.get(activity_type.as_str()) {
            Some(count) => *count,
            None => 0,
        };
        let next: u32 = if count < u32::MAX {
            count + 1
        } else {
            u32::MAX
        };
        self.preferences.activity_frequency.insert(activity_type, next);

        match &action_history.intent.temporal_constraints {
            Some(temporal_constraints) => {
                match &temporal_constraints.preferred_time_range {
                    Some(time_range) => {
                        let activity_type = self.get_activity_type_from_intent(
                            &action_history.intent,
                        );
                        let mut times: Vec<String> = match self.preferences.time_preferences.get(
                            activity_type.as_str(),
                        ) {
                            Some(times) => clone_strings(times),
                            None => Vec::new(),
                        };
                        let ghost earlier = times.deep_view();
                        let mut range = join_texts(time_range.0.as_str(), "-");
                        range.append(time_range.1.as_str());
                        times.push(range);
                        assert(times.deep_view() =~= earlier.push(range@));
                        assert(earlier =~= if old(self)@.preferences.time_preferences.contains_key(
                            activity_type@,
                        ) {
                            old(self)@.preferences.time_preferences[activity_type@]
                        } else {
                            Seq::empty()
                        });
                        self.preferences.time_preferences.insert(activity_type, times);
                    },
                    None => {},
                }
            },
            None => {},
        }

        match action_history.satisfaction_rating {
            Some(rating) => {
                if rating >= 4 {
                    self.reinforce_positive_preferences(&action_history.intent);
                } else if rating <= 2 {
                    self.adjust_for_negative_feedback(&action_history.intent);
                }
            },
            None => {},
        }
    }

    /// Efficient choices set the category of the request to standard quality.
    pub fn adjust_quality_preference_for_efficiency(&mut self, intent: &IntentSchema)
        ensures
            final(self)@ == (UserPreferenceVectorView {
                preferences: UserPreferencesView {
                    quality_preferences: old(self)@.preferences.quality_preferences.insert(
                        activity_category(intent@.core_intent),
                        QualityLevel::Standard,
                    ),
                    ..old(self)@.preferences
                },
                ..old(self)@
            }),
    {
        let category = self.get_activity_type_from_intent(intent);
        self.preferences.quality_preferences.insert(category, QualityLevel::Standard);
    }

    /// Luxurious choices set the category of the request to luxury quality.
    pub fn adjust_quality_preference_for_luxury(&mut self, intent: &IntentSchema)
        ensures
            final(self)@ == (UserPreferenceVectorView {
                preferences: UserPreferencesView {
                    quality_preferences: old(self)@.preferences.quality_preferences.insert(
                        activity_category(intent@.core_intent),
                        QualityLevel::Luxury,
                    ),
                    ..old(self)@.preferences
                },
                ..old(self)@
            }),
    {
        let category = self.get_activity_type_from_intent(intent);
        self.preferences.quality_preferences.insert(category, QualityLevel::Luxury);
    }

    /// Exploring choices set the style of the category to adventurous.
    pub fn adjust_preferences_for_discovery(&mut self, intent: &IntentSchema)
        ensures
            final(self)@ == (UserPreferenceVectorView {
                preferences: UserPreferencesView {
                    vibe_preferences: old(self)@.preferences.vibe_preferences.insert(
                        activity_category(intent@.core_intent),
                        Vibe::Adventurous,
                    ),
                    ..old(self)@.preferences
                },
                ..old(self)@
            }),
    {
        let category = self.get_activity_type_from_intent(intent);
        self.preferences.vibe_preferences.insert(category, Vibe::Adventurous);
    }

    /// Keeps what a well-rated request asked for: the vehicle of a ride, the
    /// place of a reservation.
    pub fn reinforce_positive_preferences(&mut self, intent: &IntentSchema)
        ensures
            final(self)@ == (UserPreferenceVectorView {
                preferences: reinforced(old(self)@.preferences, intent@.core_intent),
                ..old(self)@
            }),
    {
        match &intent.core_intent {
            CoreIntent::TransportationRequest(transport_intent) => {
                match &transport_intent.vehicle_preference {
                    Some(vehicle_pref) => {
                        self.preferences.transportation_preferences.insert(
                            String::from_str(vehicle_pref.name()),
                        );
                    },
                    None => {},
                }
            },
            CoreIntent::BookReservation(reservation_intent) => {
                match &reservation_intent.location {
                    Some(location) => {
                        self.preferences.location_preferences.insert(location.clone());
                    },
                    None => {},
                }
            },
            _ => {},
        }
    }

    /// Sets aside what a badly rated request asked for: the place of a
    /// reservation joins the exclusions.
    pub fn adjust_for_negative_feedback(&mut self, intent: &IntentSchema)
        ensures
            final(self)@ == (UserPreferenceVectorView {
                preferences: discouraged(old(self)@.preferences, intent@.core_intent),
                ..old(self)@
            }),
    {
        match &intent.core_intent {
            CoreIntent::BookReservation(reservation_intent) => {
                match &reservation_intent.location {
                    Some(location) => {
                        self.preferences.brand_exclusions.insert(location.clone());
                    },
                    None => {},
                }
            },
            _ => {},
        }
    }

    /// The category under which a request is counted.
    pub fn get_activity_type_from_intent(&self, intent: &IntentSchema) -> (category: String)
        ensures
            category@ == activity_category(intent@.core_intent),
    {
        category_of(&intent.core_intent)
    }

    /// The kind of plan that the user chose most often for a category of
    /// requests; among kinds chosen equally often, the one chosen last.
    pub fn get_preferred_path_type(&self, intent_category: &str) -> (preferred: Option<PathType>)
        ensures
            preferred == preferred_path(self@.history, intent_category@),
    {
        let ghost history = self@.history;
        let ghost category = intent_category@;
        let mut counts: [usize; 3] = [0, 0, 0];
        let mut latest: [usize; 3] = [0, 0, 0];
        let mut at: usize = 0;
        assert(history.take(0) =~= Seq::empty());
        while at < self.history.len()
            invariant
                at <= self.history.len(),
                history == self@.history,
                category == intent_category@,
                history.len() == self.history.len(),
                counts[0] == selection_count(history.take(at as int), category, PathType::Efficiency),
                counts[1] == selection_count(history.take(at as int), category, PathType::Luxury),
                counts[2] == selection_count(history.take(at as int), category, PathType::Discovery),
                latest[0] == last_selection(history.take(at as int), category, PathType::Efficiency)
                    + 1,
                latest[1] == last_selection(history.take(at as int), category, PathType::Luxury) + 1,
                latest[2] == last_selection(history.take(at as int), category, PathType::Discovery)
                    + 1,
                counts[0] <= at,
                counts[1] <= at,
                counts[2] <= at,
            decreases self.history.len() - at,
        {
            let action = &self.history[at];
            proof {
                assert(history.take(at + 1).drop_last() =~= history.take(at as int));
                assert(history.take(at + 1).last() == action@);
            }
            match action.selected_path {
                Some(path_type) => {
                    let entry_category = self.get_activity_type_from_intent(&action.intent);
                    if str_eq(entry_category.as_str(), intent_category) {
                        match path_type {
                            PathType::Efficiency => {
                                counts[0] = counts[0] + 1;
                                latest[0] = at + 1;
                            },
                            PathType::Luxury => {
                                counts[1] = counts[1] + 1;
                                latest[1] = at + 1;
                            },
                            PathType::Discovery => {
                                counts[2] = counts[2] + 1;
                                latest[2] = at + 1;
                            },
                        }
                    }
                },
                None => {},
            }
            at += 1;
        }
        assert(history.take(at as int) =~= history);

        if counts[0] == 0 && counts[1] == 0 && counts[2] == 0 {
            return None;
        }
        let mut best = PathType::Efficiency;
        let mut best_count: usize = counts[0];
        let mut best_latest: usize = latest[0];
        if counts[1] > best_count || (counts[1] == best_count && latest[1] > best_latest) {
            best = PathType::Luxury;
            best_count = counts[1];
            best_latest = latest[1];
        }
        if counts[2] > best_count || (counts[2] == best_count && latest[2] > best_latest) {
            best = PathType::Discovery;
        }
        Some(best)
    }

    /// The ratings given to plans of one kind: their number and their sum,
    /// from which the average follows; `None` where no such plan was rated.
    pub fn get_average_satisfaction_for_path(&self, path_type: &PathType) -> (summary: Option<
        RatingSummary,
    >)
        ensures
            match summary {
                Some(ratings) => ratings.count == rating_count(self@.history, *path_type)
                    && ratings.total == rating_total(self@.history, *path_type) && ratings.count
                    > 0,
                None => rating_count(self@.history, *path_type) == 0,
            },
    {
        let ghost history = self@.history;
        let mut total: u128 = 0;
        let mut count: u64 = 0;
        let mut at: usize = 0;
        assert(history.take(0) =~= Seq::empty());
        while at < self.history.len()
            invariant
                at <= self.history.len(),
                history == self@.history,
                history.len() == self.history.len(),
                count == rating_count(history.take(at as int), *path_type),
                total == rating_total(history.take(at as int), *path_type),
                count <= at,
                total <= 255 * at,
            decreases self.history.len() - at,
        {
            let action = &self.history[at];
            proof {
                assert(history.take(at + 1).drop_last() =~= history.take(at as int));
                assert(history.take(at + 1).last() == action@);
            }
            match (action.selected_path, action.satisfaction_rating) {
                (Some(chosen), Some(rating)) => {
                    if chosen == *path_type {
                        total = total + rating as u128;
                        count = count + 1;
                    }
                },
                _ => {},
            }
            at += 1;
        }
        assert(history.take(at as int) =~= history);
        if count == 0 {
            None
        } else {
            Some(RatingSummary { total, count })
        }
    }

    /// Whether `preference_value` is among the preferences of a group: the
    /// brands, the locations, the means of transportation or the dietary
    /// restrictions. Any other group has no preferences.
    pub fn has_preference(&self, category: &str, preference_value: &str) -> (present: bool)
        ensures
            present == if category@ == "brand"@ {
                self@.preferences.brand_preferences.contains(preference_value@)
            } else if category@ == "location"@ {
                self@.preferences.location_preferences.contains(preference_value@)
            } else if category@ == "transportation"@ {
                self@.preferences.transportation_preferences.contains(preference_value@)
            } else if category@ == "dietary"@ {
                self@.preferences.dietary_restrictions.contains(preference_value@)
            } else {
                false
            },
    {
        if str_eq(category, "brand") {
            self.preferences.brand_preferences.contains(preference_value)
        } else if str_eq(category, "location") {
            self.preferences.location_preferences.contains(preference_value)
        } else if str_eq(category, "transportation") {
            self.preferences.transportation_preferences.contains(preference_value)
        } else if str_eq(category, "dietary") {
            self.preferences.dietary_restrictions.contains(preference_value)
        } else {
            false
        }
    }

    /// The quality preferred for a category; standard where none is recorded.
    pub fn get_quality_preference(&self, category: &str) -> (quality: QualityLevel)
        ensures
            quality == if self@.preferences.quality_preferences.contains_key(category@) {
                self@.preferences.quality_preferences[category@]
            } else {
                QualityLevel::Standard
            },
    {
        match self.preferences.quality_preferences.get(category) {
            Some(quality) => *quality,
            None => QualityLevel::Standard,
        }
    }

    /// The style preferred in a context; efficient where none is recorded.
    pub fn get_vibe_preference(&self, context: &str) -> (vibe: Vibe)
        ensures
            vibe == if self@.preferences.vibe_preferences.contains_key(context@) {
                self@.preferences.vibe_preferences[context@]
            } else {
                Vibe::Efficient
            },
    {
        match self.preferences.vibe_preferences.get(context) {
            Some(vibe) => *vibe,
            None => Vibe::Efficient,
        }
    }

    /// The price range preferred for a category, in cents.
    pub fn get_price_preference(&self, category: &str) -> (range: Option<(u64, u64)>)
        ensures
            range == if self@.preferences.price_preferences.contains_key(category@) {
                Some(self@.preferences.price_preferences[category@])
            } else {
                None
            },
    {
        match self.preferences.price_preferences.get(category) {
            Some(range) => Some(*range),
            None => None,
        }
    }

    /// The times preferred for an activity.
    pub fn get_time_preference(&self, activity: &str) -> (times: Option<Vec<String>>)
        ensures
            times.deep_view() == if self@.preferences.time_preferences.contains_key(activity@) {
                Some(self@.preferences.time_preferences[activity@])
            } else {
                None
            },
    {
        match self.preferences.time_preferences.get(activity) {
            Some(times) => Some(clone_strings(times)),
            None => None,
        }
    }

    /// How often an activity was recorded.
    pub fn get_activity_frequency(&self, activity: &str) -> (count: u32)
        ensures
            count == frequency_of(self@.preferences.activity_frequency, activity@),
    {
        match self.preferences.activity_frequency.get(activity) {
            Some(count) => *count,
            None => 0,
        }
    }

    /// Adds a brand to the preferred ones.
    pub fn add_brand_preference(&mut self, brand: String)
        ensures
            final(self)@ == (UserPreferenceVectorView {
                preferences: UserPreferencesView {
                    brand_preferences: old(self)@.preferences.brand_preferences.insert(brand@),
                    ..old(self)@.preferences
                },
                last_updated: final(self).last_updated,
                ..old(self)@
            }),
    {
        self.preferences.brand_preferences.insert(brand);
        self.last_updated = now();
    }

    /// Takes a brand out of the preferred ones.
    pub fn remove_brand_preference(&mut self, brand: &str)
        ensures
            final(self)@ == (UserPreferenceVectorView {
                preferences: UserPreferencesView {
                    brand_preferences: old(self)@.preferences.brand_preferences.remove(brand@),
                    ..old(self)@.preferences
                },
                last_updated: final(self).last_updated,
                ..old(self)@
            }),
    {
        self.preferences.brand_preferences.remove(brand);
        self.last_updated = now();
    }

    /// Adds a brand to those to avoid.
    pub fn add_brand_exclusion(&mut self, brand: String)
        ensures
            final(self)@ == (UserPreferenceVectorView {
                preferences: UserPreferencesView {
                    brand_exclusions: old(self)@.preferences.brand_exclusions.insert(brand@),
                    ..old(self)@.preferences
                },
                last_updated: final(self).last_updated,
                ..old(self)@
            }),
    {
        self.preferences.brand_exclusions.insert(brand);
        self.last_updated = now();
    }

    /// Adds a dietary restriction.
    pub fn add_dietary_restriction(&mut self, restriction: String)
        ensures
            final(self)@ == (UserPreferenceVectorView {
                preferences: UserPreferencesView {
                    dietary_restrictions: old(self)@.preferences.dietary_restrictions.insert(
                        restriction@,
                    ),
                    ..old(self)@.preferences
                },
                last_updated: final(self).last_updated,
                ..old(self)@
            }),
    {
        self.preferences.dietary_restrictions.insert(restriction);
        self.last_updated = now();
    }

    /// Adds an accessibility requirement at the end of the list.
    pub fn add_accessibility_requirement(&mut self, requirement: AccessibilityRequirement)
        ensures
            final(self)@ == (UserPreferenceVectorView {
                preferences: UserPreferencesView {
                    accessibility_requirements: old(
                        self,
                    )@.preferences.accessibility_requirements.push(requirement@),
                    ..old(self)@.preferences
                },
                last_updated: final(self).last_updated,
                ..old(self)@
            }),
    {
        let ghost before = self.preferences.accessibility_requirements.deep_view();
        self.preferences.accessibility_requirements.push(requirement);
        assert(self.preferences.accessibility_requirements.deep_view() =~= before.push(
            requirement@,
        ));
        self.last_updated = now();
    }

    /// Replaces the privacy settings.
    pub fn update_privacy_settings(&mut self, settings: PrivacySettings)
        ensures
            final(self)@ == (UserPreferenceVectorView {
                preferences: UserPreferencesView {
                    privacy_settings: settings,
                    ..old(self)@.preferences
                },
                last_updated: final(self).last_updated,
                ..old(self)@
            }),
    {
        self.preferences.privacy_settings = settings;
        self.last_updated = now();
    }
}

impl Default for UserPreferenceVector {
    /// The profile of the default user.
    fn default() -> (profile: Self)
        ensures
            profile@.user_id == "default_user"@,
            profile@.preferences == empty_preferences(),
            profile@.history == Seq::<UserActionHistoryView>::empty(),
    {
        UserPreferenceVector::new()
    }
}

} // verus!
