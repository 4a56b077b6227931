//! Reading a request: from the words of the user to an `IntentSchema`.
//!
//! The reading goes by keywords and by regular expressions. What each
//! function finds is stated over the text alone: keywords by `is_substring`,
//! expressions by the names that the module `pattern` gives their matches.

use crate::collections::StringMap;
use crate::intent_schema::{
    AccessibilityRequirement, AccessibilityRequirementView, BudgetConstraints,
    BudgetConstraintsView, CoreIntent, CoreIntentView, DeliveryMethod, IntentSchema,
    IntentSchemaView, PreferenceConstraints, PreferenceConstraintsView, PriorityLevel,
    PurchaseIntent, PurchaseIntentView, QualityLevel, QueryIntent, QueryIntentView,
    ReservationIntent, ReservationIntentView, ReservationType, ScheduleIntent, ScheduleIntentView,
    Sentiment, SentimentVibe, TemporalConstraints, TemporalConstraintsView, TransportationIntent,
    TransportationIntentView, UrgencyLevel, VehicleType, Vibe,
};
use crate::pattern::{
    capture_group, find_group, first_capture, group_text, regex_all_captures, regex_captures,
    regex_captures_iter, regex_first_captures, regex_is_match, regex_matches,
};
use crate::text::{
    is_substring, lowercase_of, parse_amount, parse_count, parsed_amount, parsed_count,
    split_after, str_contains, string_list, text_after, texts_of, to_lowercase, trim, trimmed_of,
};
use vstd::prelude::*;
use vstd::string::*;

verus! {

/// Words that mark a reservation.
pub const RESERVATION_PATTERN: &'static str = r"(book|reserve|table|restaurant|hotel|appointment)";

/// Words that mark a ride.
pub const TRANSPORTATION_PATTERN: &'static str = r"(uber|taxi|ride|car|pickup|drive|get me to)";

/// Words that mark an event to schedule.
pub const SCHEDULE_PATTERN: &'static str =
    r"(schedule|calendar|meeting|appointment|event|set up|arrange)";

/// Words that mark a purchase.
pub const PURCHASE_PATTERN: &'static str = r"(buy|purchase|order|get|deliver|send|shop)";

/// Words that mark a question.
pub const QUERY_PATTERN: &'static str = r"(what|where|when|who|how|find|search|tell me|know)";

/// A capitalised place name after "at", "in", "near" or "by".
pub const LOCATION_PATTERN: &'static str =
    r"(?:at|in|near|by)\s+([A-Z][^,\.\s]+(?:\s+[A-Z][^,\.\s]+)*)";

/// A capitalised place name at the start of a text, after whitespace.
pub const PHRASE_LOCATION_PATTERN: &'static str = r"^\s+([A-Z][^,\.\s]+(?:\s+[A-Z][^,\.\s]+)*)";

/// "for N people" and the like.
pub const PARTY_SIZE_PATTERN: &'static str = r"for\s+(\d+)\s+(?:people|person|ppl|guests?)";

/// A time of day after "at", "on", "by" or "for".
pub const TIME_PATTERN: &'static str =
    r"\b(?:at|on|by|for)\s*(\d{1,2}(?::\d{2})?\s*(?:AM|PM|am|pm)?)\b";

/// A date with slashes, or in the form year-month-day.
pub const DATE_PATTERN: &'static str = r"\b(\d{1,2}/\d{1,2}(?:/\d{2,4})?|\d{4}-\d{2}-\d{2})\b";

/// A time of day after "until" or "to".
pub const END_TIME_PATTERN: &'static str =
    r"(?:until|to)\s+(\d{1,2}(?::\d{2})?\s*(?:AM|PM|am|pm)?)";

/// An amount after a dollar sign, before "dollars", or after "budget of".
pub const BUDGET_PATTERN: &'static str =
    r"\$(\d+(?:\.\d{2})?)|(\d+(?:\.\d{2})?)\s+dollars|budget\s+of\s+(\d+(?:\.\d{2})?)";

/// What follows a word for scheduling, up to "for", "on", "at" or the end.
pub const EVENT_TITLE_PATTERN: &'static str =
    r"(?:schedule|set up|arrange|plan|book)\s+(.+?)(?:\s+for|\s+on|\s+at|$)";

/// A capitalised name after "with", "and" or "meet".
pub const ATTENDEE_PATTERN: &'static str = r"(?:with|and|meet)\s+([A-Z][a-z]+(?:\s+[A-Z][a-z]+)?)";

/// "N items" and the like.
pub const QUANTITY_PATTERN: &'static str = r"(\d+)\s+(?:item|items|piece|pieces|quantity)";

/// What follows a word for buying, up to "for", "with", "that" or the end.
pub const ITEM_PATTERN: &'static str =
    r"(?:buy|purchase|order|get)\s+(.+?)(?:\s+for|\s+with|\s+that|$)";

/// What a question asks about.
pub const QUERY_TOPIC_PATTERN: &'static str =
    r"(?:what|where|when|who|how|find|search|tell me|know)\s+(?:is|are|was|were|about|regarding|concerning)?\s*(.+?)(?:\?|$)";

/// The kind of reservation that a text speaks of.
pub open spec fn reservation_type_in(text: Seq<char>) -> ReservationType {
    if is_substring("restaurant"@, text) || is_substring("eat"@, text) {
        ReservationType::Restaurant
    } else if is_substring("hotel"@, text) || is_substring("stay"@, text) {
        ReservationType::Hotel
    } else if is_substring("event"@, text) {
        ReservationType::Event
    } else {
        ReservationType::Service
    }
}

/// The place that a text names.
pub open spec fn location_in(text: Seq<char>) -> Option<Seq<char>> {
    first_capture(regex_first_captures(LOCATION_PATTERN@, text), 1)
}

/// The place that a text names after the first of `prefixes` that is
/// followed by one.
pub open spec fn location_after(text: Seq<char>, prefixes: Seq<Seq<char>>) -> Option<Seq<char>>
    decreases prefixes.len(),
{
    if prefixes.len() == 0 {
        None
    } else {
        let here = match text_after(prefixes[0], text) {
            Some(rest) => first_capture(regex_first_captures(PHRASE_LOCATION_PATTERN@, rest), 1),
            None => None,
        };
        match here {
            Some(place) => Some(place),
            None => location_after(text, prefixes.skip(1)),
        }
    }
}

/// The size of the party that a text names.
pub open spec fn party_size_in(text: Seq<char>) -> Option<u32> {
    match first_capture(regex_first_captures(PARTY_SIZE_PATTERN@, text), 1) {
        Some(digits) => parsed_count(digits),
        None => None,
    }
}

/// The time that a text names: a time of day, or else a date.
pub open spec fn time_in(text: Seq<char>) -> Option<Seq<char>> {
    match regex_first_captures(TIME_PATTERN@, text) {
        Some(groups) => capture_group(groups, 1),
        None => first_capture(regex_first_captures(DATE_PATTERN@, text), 1),
    }
}

/// The time at which what a text speaks of ends.
pub open spec fn end_time_in(text: Seq<char>) -> Option<Seq<char>> {
    first_capture(regex_first_captures(END_TIME_PATTERN@, text), 1)
}

/// `items` where `present`, nothing otherwise.
pub open spec fn items_if(present: bool, items: Seq<Seq<char>>) -> Seq<Seq<char>> {
    if present {
        items
    } else {
        Seq::empty()
    }
}

/// The special requests that a text makes.
pub open spec fn special_requests_in(text: Seq<char>) -> Seq<Seq<char>> {
    items_if(
        is_substring("window seat"@, text) || is_substring("window table"@, text),
        seq!["Window seating"@],
    ) + items_if(is_substring("non-smoking"@, text), seq!["Non-smoking area"@]) + items_if(
        is_substring("vegetarian"@, text) || is_substring("vegan"@, text),
        seq!["Vegetarian/Vegan options"@],
    )
}

/// The kind of vehicle that a text asks for; standard where it names none.
pub open spec fn vehicle_in(text: Seq<char>) -> VehicleType {
    if is_substring("luxury"@, text) || is_substring("premium"@, text) {
        VehicleType::Luxury
    } else if is_substring("bike"@, text) || is_substring("motorcycle"@, text) {
        VehicleType::Bike
    } else if is_substring("pool"@, text) || is_substring("shared"@, text) {
        VehicleType::Pool
    } else {
        VehicleType::Standard
    }
}

/// The first amount among the groups of a match, from group `from` on.
pub open spec fn first_amount(groups: Seq<Option<Seq<char>>>, from: int) -> Option<u64>
    decreases groups.len() - from,
{
    if from < 0 || from >= groups.len() {
        None
    } else {
        let here = match groups[from] {
            Some(digits) => parsed_amount(digits),
            None => None,
        };
        match here {
            Some(amount) => Some(amount),
            None => first_amount(groups, from + 1),
        }
    }
}

/// The amount of money that a text names, in cents.
pub open spec fn budget_in(text: Seq<char>) -> Option<u64> {
    match regex_first_captures(BUDGET_PATTERN@, text) {
        Some(groups) => first_amount(groups, 1),
        None => None,
    }
}

/// The title of the event that a text speaks of; the whole text where no
/// title stands out.
pub open spec fn event_title_in(text: Seq<char>) -> Seq<char> {
    match first_capture(regex_first_captures(EVENT_TITLE_PATTERN@, text), 1) {
        Some(title) => title,
        None => text,
    }
}

/// Group `group` of each match that has it, in the order of the matches.
pub open spec fn groups_of(all: Seq<Seq<Option<Seq<char>>>>, group: int) -> Seq<Seq<char>>
    decreases all.len(),
{
    if all.len() == 0 {
        Seq::empty()
    } else {
        match capture_group(all.last(), group) {
            Some(text) => groups_of(all.drop_last(), group).push(text),
            None => groups_of(all.drop_last(), group),
        }
    }
}

/// The people that a text names.
pub open spec fn attendees_in(text: Seq<char>) -> Seq<Seq<char>> {
    groups_of(regex_all_captures(ATTENDEE_PATTERN@, text), 1)
}

/// The priority that a text gives; medium where it gives none.
pub open spec fn priority_in(text: Seq<char>) -> PriorityLevel {
    if is_substring("urgent"@, text) || is_substring("critical"@, text) || is_substring(
        "emergency"@,
        text,
    ) {
        PriorityLevel::Critical
    } else if is_substring("important"@, text) || is_substring("high priority"@, text) {
        PriorityLevel::High
    } else if is_substring("low priority"@, text) {
        PriorityLevel::Low
    } else {
        PriorityLevel::Medium
    }
}

/// The number of items that a text asks for.
pub open spec fn quantity_in(text: Seq<char>) -> Option<u32> {
    match first_capture(regex_first_captures(QUANTITY_PATTERN@, text), 1) {
        Some(digits) => parsed_count(digits),
        None => None,
    }
}

/// What a text asks to buy; the whole text where no item stands out.
pub open spec fn item_description_in(text: Seq<char>) -> Seq<char> {
    match first_capture(regex_first_captures(ITEM_PATTERN@, text), 1) {
        Some(item) => item,
        None => text,
    }
}

/// How a text wants a purchase delivered; the standard way where it does not
/// say.
pub open spec fn delivery_in(text: Seq<char>) -> DeliveryMethod {
    if is_substring("express"@, text) || is_substring("fast"@, text) || is_substring(
        "urgent"@,
        text,
    ) {
        DeliveryMethod::Express
    } else if is_substring("pickup"@, text) || is_substring("collect"@, text) {
        DeliveryMethod::Pickup
    } else {
        DeliveryMethod::Standard
    }
}

/// What a question is about, without whitespace around it; the whole text
/// where no topic stands out.
pub open spec fn query_topic_in(text: Seq<char>) -> Seq<char> {
    match first_capture(regex_first_captures(QUERY_TOPIC_PATTERN@, text), 1) {
        Some(topic) => trimmed_of(topic),
        None => text,
    }
}

/// `map` with `key` set to `value` where there is a value.
pub open spec fn with_detail(
    map: Map<Seq<char>, Seq<char>>,
    key: Seq<char>,
    value: Option<Seq<char>>,
) -> Map<Seq<char>, Seq<char>> {
    match value {
        Some(text) => map.insert(key, text),
        None => map,
    }
}

/// The place and the time that a question names.
pub open spec fn query_details_in(text: Seq<char>) -> Map<Seq<char>, Seq<char>> {
    with_detail(with_detail(Map::empty(), "location"@, location_in(text)), "time"@, time_in(text))
}

/// The level of quality that a text asks for; standard where it asks for
/// none.
pub open spec fn quality_in(text: Seq<char>) -> QualityLevel {
    if is_substring("premium"@, text) || is_substring("high-end"@, text) || is_substring(
        "luxury"@,
        text,
    ) {
        QualityLevel::Premium
    } else if is_substring("basic"@, text) || is_substring("simple"@, text) || is_substring(
        "minimal"@,
        text,
    ) {
        QualityLevel::Basic
    } else if is_substring("deluxe"@, text) || is_substring("top"@, text) || is_substring(
        "best"@,
        text,
    ) {
        QualityLevel::Luxury
    } else {
        QualityLevel::Standard
    }
}

/// The brands that a text names.
pub open spec fn brands_in(text: Seq<char>) -> Seq<Seq<char>> {
    items_if(is_substring("starbucks"@, text), seq!["Starbucks"@]) + items_if(
        is_substring("mcdonald's"@, text) || is_substring("mcdonalds"@, text),
        seq!["McDonald's"@],
    ) + items_if(
        is_substring("whole foods"@, text) || is_substring("wholefoods"@, text),
        seq!["Whole Foods"@],
    )
}

/// What a text asks to avoid.
pub open spec fn exclusions_in(text: Seq<char>) -> Seq<Seq<char>> {
    items_if(
        is_substring("no peanuts"@, text) || is_substring("peanut free"@, text),
        seq!["Peanuts"@],
    ) + items_if(
        is_substring("no seafood"@, text) || is_substring("seafood free"@, text),
        seq!["Seafood"@],
    ) + items_if(
        is_substring("not too loud"@, text) || is_substring("quiet place"@, text),
        seq!["Loud environments"@],
    )
}

/// The diets that a text names.
pub open spec fn diets_in(text: Seq<char>) -> Seq<Seq<char>> {
    items_if(is_substring("vegetarian"@, text), seq!["vegetarian"@]) + items_if(
        is_substring("vegan"@, text),
        seq!["vegan"@],
    ) + items_if(
        is_substring("gluten free"@, text) || is_substring("gluten-free"@, text),
        seq!["gluten-free"@],
    ) + items_if(is_substring("kosher"@, text), seq!["kosher"@]) + items_if(
        is_substring("halal"@, text),
        seq!["halal"@],
    )
}

/// `needs` where `present`, nothing otherwise.
pub open spec fn needs_if(present: bool, needs: Seq<AccessibilityRequirementView>) -> Seq<
    AccessibilityRequirementView,
> {
    if present {
        needs
    } else {
        Seq::empty()
    }
}

/// The accessibility needs that a text names, the diets last and together.
pub open spec fn accessibility_needs_in(text: Seq<char>) -> Seq<AccessibilityRequirementView> {
    needs_if(
        is_substring("wheelchair accessible"@, text) || is_substring("wheelchair"@, text),
        seq![AccessibilityRequirementView::WheelchairAccessible],
    ) + needs_if(
        is_substring("hearing impaired"@, text) || is_substring("hearing assistance"@, text),
        seq![AccessibilityRequirementView::HearingAssistance],
    ) + needs_if(
        is_substring("visual impairment"@, text) || is_substring("seeing assistance"@, text),
        seq![AccessibilityRequirementView::VisualAssistance],
    ) + needs_if(
        diets_in(text).len() > 0,
        seq![AccessibilityRequirementView::DietaryRestrictions(diets_in(text))],
    )
}

/// How many of `keywords` occur in a text.
pub open spec fn keyword_hits(keywords: Seq<Seq<char>>, text: Seq<char>) -> nat
    decreases keywords.len(),
{
    if keywords.len() == 0 {
        0
    } else {
        keyword_hits(keywords.drop_last(), text) + (if is_substring(keywords.last(), text) {
            1nat
        } else {
            0nat
        })
    }
}

/// The feeling of a text: negative or positive as the words of one kind
/// outnumber those of the other, neutral where neither does.
pub open spec fn sentiment_in(
    positive: Seq<Seq<char>>,
    negative: Seq<Seq<char>>,
    text: Seq<char>,
) -> Sentiment {
    let pos_count = keyword_hits(positive, text);
    let neg_count = keyword_hits(negative, text);
    if neg_count > pos_count {
        Sentiment::Negative
    } else if pos_count > neg_count {
        Sentiment::Positive
    } else {
        Sentiment::Neutral
    }
}

/// The style whose keywords occur most in a text, with its number of hits.
/// Among styles with as many hits the one that comes first in the table
/// leads. With no hit at all the style is efficient.
pub open spec fn leading_vibe(table: Seq<(Vibe, Seq<Seq<char>>)>, text: Seq<char>) -> (Vibe, nat)
    decreases table.len(),
{
    if table.len() == 0 {
        (Vibe::Efficient, 0)
    } else {
        let earlier = leading_vibe(table.drop_last(), text);
        let hits = keyword_hits(table.last().1, text);
        if hits > earlier.1 {
            (table.last().0, hits)
        } else {
            earlier
        }
    }
}

/// How soon a text wants to be served; at medium urgency where it does not
/// say.
pub open spec fn urgency_in(text: Seq<char>) -> UrgencyLevel {
    if is_substring("now"@, text) || is_substring("immediately"@, text) || is_substring(
        "right away"@,
        text,
    ) || is_substring("asap"@, text) || is_substring("urgent"@, text) {
        UrgencyLevel::Immediate
    } else if is_substring("soon"@, text) || is_substring("today"@, text) || is_substring(
        "tonight"@,
        text,
    ) {
        UrgencyLevel::High
    } else if is_substring("sometime"@, text) || is_substring("whenever"@, text) || is_substring(
        "whenever works"@,
        text,
    ) {
        UrgencyLevel::Low
    } else {
        UrgencyLevel::Medium
    }
}

/// The reservation that a text asks for.
pub open spec fn reservation_in(text: Seq<char>) -> ReservationIntentView {
    ReservationIntentView {
        reservation_type: reservation_type_in(text),
        location: location_in(text),
        party_size: party_size_in(text),
        preferred_time: time_in(text),
        special_requests: special_requests_in(text),
    }
}

/// A text or, where there is none, a default.
pub open spec fn text_or(value: Option<Seq<char>>, default: Seq<char>) -> Seq<char> {
    match value {
        Some(text) => text,
        None => default,
    }
}

/// The ride that a text asks for.
pub open spec fn transportation_in(text: Seq<char>) -> TransportationIntentView {
    TransportationIntentView {
        pickup_location: text_or(
            location_after(text, seq!["from"@, "pickup"@]),
            "Current location"@,
        ),
        destination: text_or(
            location_after(text, seq!["to"@, "destination"@]),
            "Unknown destination"@,
        ),
        departure_time: time_in(text),
        vehicle_preference: Some(vehicle_in(text)),
        max_cost: budget_in(text),
    }
}

/// The event that a text asks to schedule. Without an end the event ends
/// when it starts.
pub open spec fn schedule_in(text: Seq<char>) -> ScheduleIntentView {
    let start_time = text_or(time_in(text), "Not specified"@);
    ScheduleIntentView {
        event_title: event_title_in(text),
        start_time,
        end_time: text_or(end_time_in(text), start_time),
        location: location_in(text),
        attendees: attendees_in(text),
        priority: priority_in(text),
    }
}

/// The purchase that a text asks for; one item where it names no number.
pub open spec fn purchase_in(text: Seq<char>) -> PurchaseIntentView {
    PurchaseIntentView {
        item_description: item_description_in(text),
        quantity: match quantity_in(text) {
            Some(quantity) => quantity,
            None => 1,
        },
        max_price: budget_in(text),
        delivery_preference: Some(delivery_in(text)),
    }
}

/// The question that a text asks.
pub open spec fn query_in(text: Seq<char>) -> QueryIntentView {
    QueryIntentView { query_topic: query_topic_in(text), query_details: query_details_in(text) }
}

/// The limits in time that a text sets.
pub open spec fn temporal_constraints_in(text: Seq<char>) -> Option<TemporalConstraintsView> {
    match time_in(text) {
        Some(time) => Some(
            TemporalConstraintsView {
                earliest_start: Some(time),
                latest_end: None,
                preferred_time_range: None,
                duration: None,
            },
        ),
        None => None,
    }
}

/// The budget that a text sets: in dollars, with a tenth of leeway.
pub open spec fn budget_constraints_in(text: Seq<char>) -> Option<BudgetConstraintsView> {
    match budget_in(text) {
        Some(max_amount) => Some(
            BudgetConstraintsView { max_amount, currency: "USD"@, flexibility_percentage: 10 },
        ),
        None => None,
    }
}

/// The preferences that a text states.
pub open spec fn preference_constraints_in(text: Seq<char>) -> PreferenceConstraintsView {
    PreferenceConstraintsView {
        quality_preference: quality_in(text),
        brand_preferences: brands_in(text),
        exclusion_list: exclusions_in(text),
        accessibility_needs: accessibility_needs_in(text),
    }
}

/// How sure a reading is, in percent: 50 to begin with, 30 more for a
/// request of a known kind, 10 for limits in time, 5 for a budget, 5 for
/// preferences; never more than 100.
pub open spec fn confidence_score(
    recognized: bool,
    has_temporal: bool,
    has_budget: bool,
    has_preferences: bool,
) -> u8 {
    let score = 50 + (if recognized {
        30int
    } else {
        0int
    }) + (if has_temporal {
        10int
    } else {
        0int
    }) + (if has_budget {
        5int
    } else {
        0int
    }) + (if has_preferences {
        5int
    } else {
        0int
    });
    if score > 100 {
        100
    } else {
        score as u8
    }
}

/// Computes how sure a reading is from what was found.
pub fn score_confidence(
    recognized: bool,
    has_temporal: bool,
    has_budget: bool,
    has_preferences: bool,
) -> (score: u8)
    ensures
        score == confidence_score(recognized, has_temporal, has_budget, has_preferences),
        score <= 100,
{
    let mut score: u8 = 50;
    if recognized {
        score = score + 30;
    }
    if has_temporal {
        score = score + 10;
    }
    if has_budget {
        score = score + 5;
    }
    if has_preferences {
        score = score + 5;
    }
    if score > 100 {
        100
    } else {
        score
    }
}

/// The tables of a parser as plain values.
pub struct IntentionParserView {
    /// The regular expression of each kind of intent, by the kind's name.
    pub intent_patterns: Map<Seq<char>, Seq<char>>,
    pub positive_keywords: Seq<Seq<char>>,
    pub negative_keywords: Seq<Seq<char>>,
    /// The keywords of each style, in the order in which styles are tried.
    pub vibe_keywords: Seq<(Vibe, Seq<Seq<char>>)>,
}

/// The tables of a new parser.
pub open spec fn default_tables() -> IntentionParserView {
    IntentionParserView {
        intent_patterns: Map::empty().insert("reservation"@, RESERVATION_PATTERN@).insert(
            "transportation"@,
            TRANSPORTATION_PATTERN@,
        ).insert("schedule"@, SCHEDULE_PATTERN@).insert("purchase"@, PURCHASE_PATTERN@).insert(
            "query"@,
            QUERY_PATTERN@,
        ),
        positive_keywords: seq![
            "happy"@,
            "great"@,
            "love"@,
            "amazing"@,
            "perfect"@,
            "excellent"@,
            "fantastic"@,
            "wonderful"@,
        ],
        negative_keywords: seq![
            "hate"@,
            "terrible"@,
            "awful"@,
            "horrible"@,
            "disappointed"@,
            "bad"@,
            "annoying"@,
            "frustrating"@,
        ],
        vibe_keywords: seq![
            (
                Vibe::Efficient,
                seq![
                    "quick"@,
                    "fast"@,
                    "efficient"@,
                    "time-saving"@,
                    "straightforward"@,
                    "direct"@,
                ],
            ),
            (
                Vibe::Relaxing,
                seq!["relaxing"@, "calming"@, "peaceful"@, "chill"@, "unwind"@, "rest"@],
            ),
            (
                Vibe::Luxurious,
                seq!["luxury"@, "premium"@, "high-end"@, "upscale"@, "exclusive"@, "posh"@],
            ),
            (
                Vibe::Adventurous,
                seq!["adventure"@, "explore"@, "discover"@, "new"@, "different"@, "exciting"@],
            ),
            (
                Vibe::Minimalist,
                seq!["simple"@, "minimal"@, "basic"@, "clean"@, "straight"@, "no frills"@],
            ),
            (
                Vibe::Social,
                seq!["social"@, "friends"@, "group"@, "party"@, "together"@, "community"@],
            ),
            (
                Vibe::Private,
                seq!["private"@, "quiet"@, "personal"@, "intimate"@, "alone"@, "personal space"@],
            ),
        ],
    }
}

impl IntentionParserView {
    /// Whether the expression of a kind of intent matches a text; a kind
    /// without an expression matches nothing.
    pub open spec fn kind_matches(self, kind: Seq<char>, text: Seq<char>) -> bool {
        self.intent_patterns.contains_key(kind) && regex_matches(self.intent_patterns[kind], text)
    }

    /// The intent of a text: the first kind, in the order reservation, ride,
    /// event, purchase, question, whose expression matches; a custom intent
    /// with the text itself where none does.
    pub open spec fn core_intent_in(self, text: Seq<char>) -> CoreIntentView {
        if self.kind_matches("reservation"@, text) {
            CoreIntentView::BookReservation(reservation_in(text))
        } else if self.kind_matches("transportation"@, text) {
            CoreIntentView::TransportationRequest(transportation_in(text))
        } else if self.kind_matches("schedule"@, text) {
            CoreIntentView::ScheduleEvent(schedule_in(text))
        } else if self.kind_matches("purchase"@, text) {
            CoreIntentView::PurchaseItem(purchase_in(text))
        } else if self.kind_matches("query"@, text) {
            CoreIntentView::InformationQuery(query_in(text))
        } else {
            CoreIntentView::Custom(text)
        }
    }

    /// Feeling, style and urgency of a text.
    pub open spec fn sentiment_vibe_in(self, text: Seq<char>) -> SentimentVibe {
        SentimentVibe {
            sentiment: sentiment_in(self.positive_keywords, self.negative_keywords, text),
            vibe: leading_vibe(self.vibe_keywords, text).0,
            urgency_level: urgency_in(text),
        }
    }

    /// The reading of a request. The kind of intent and the mood are read
    /// from the lowercase form of the request, the constraints from the
    /// request as it was written.
    pub open spec fn parsed(self, input: Seq<char>) -> IntentSchemaView {
        let lower_input = lowercase_of(input);
        let core_intent = self.core_intent_in(lower_input);
        IntentSchemaView {
            core_intent,
            temporal_constraints: temporal_constraints_in(input),
            budget_constraints: budget_constraints_in(input),
            preference_constraints: Some(preference_constraints_in(input)),
            sentiment_vibe: self.sentiment_vibe_in(lower_input),
            confidence: confidence_score(
                !(core_intent is Custom),
                temporal_constraints_in(input) is Some,
                budget_constraints_in(input) is Some,
                true,
            ),
            raw_input: input,
        }
    }
}

/// The keywords of the styles, as plain values.
pub open spec fn vibe_table(table: Seq<(Vibe, Vec<String>)>) -> Seq<(Vibe, Seq<Seq<char>>)> {
    Seq::new(table.len(), |i: int| (table[i].0, table[i].1.deep_view()))
}

/// Counts the keywords that occur in a text.
fn count_hits(keywords: &Vec<String>, text: &str) -> (hits: usize)
    ensures
        hits == keyword_hits(keywords.deep_view(), text@),
        hits <= keywords.len(),
{
    let ghost words = keywords.deep_view();
    let mut hits: usize = 0;
    let mut at: usize = 0;
    assert(words.take(0) =~= Seq::empty());
    while at < keywords.len()
        invariant
            at <= keywords.len(),
            words == keywords.deep_view(),
            hits == keyword_hits(words.take(at as int), text@),
            hits <= at,
        decreases keywords.len() - at,
    {
        proof {
            assert(words.take(at + 1).drop_last() =~= words.take(at as int));
            assert(words.take(at + 1).last() == keywords[at as int]@);
        }
        if str_contains(text, keywords[at].as_str()) {
            hits += 1;
        }
        at += 1;
    }
    assert(words.take(at as int) =~= words);
    hits
}

fn push_if(list: &mut Vec<String>, present: bool, item: &str)
    ensures
        final(list).deep_view() == old(list).deep_view() + items_if(present, seq![item@]),
{
    let ghost before = list.deep_view();
    if present {
        list.push(String::from_str(item));
        assert(list.deep_view() =~= before + seq![item@]);
    } else {
        assert(list.deep_view() =~= before + Seq::<Seq<char>>::empty());
    }
}

fn or_default(value: Option<String>, default: &str) -> (text: String)
    ensures
        text@ == text_or(value.deep_view(), default@),
{
    match value {
        Some(text) => text,
        None => String::from_str(default),
    }
}

/// The reader of requests, with its tables of expressions and keywords.
#[derive(Debug)]
pub struct IntentionParser {
    intent_patterns: StringMap<String>,
    positive_keywords: Vec<String>,
    negative_keywords: Vec<String>,
    vibe_keywords: Vec<(Vibe, Vec<String>)>,
}

impl View for IntentionParser {
    type V = IntentionParserView;

    closed spec fn view(&self) -> IntentionParserView {
        IntentionParserView {
            intent_patterns: self.intent_patterns@,
            positive_keywords: self.positive_keywords.deep_view(),
            negative_keywords: self.negative_keywords.deep_view(),
            vibe_keywords: vibe_table(self.vibe_keywords@),
        }
    }
}

impl IntentionParser {
    /// A parser with the default tables.
    pub fn new() -> (parser: Self)
        ensures
            parser@ == default_tables(),
    {
        let mut intent_patterns: StringMap<String> = StringMap::new();
        intent_patterns.insert(
            String::from_str("reservation"),
            String::from_str(RESERVATION_PATTERN),
        );
        intent_patterns.insert(
            String::from_str("transportation"),
            String::from_str(TRANSPORTATION_PATTERN),
        );
        intent_patterns.insert(String::from_str("schedule"), String::from_str(SCHEDULE_PATTERN));
        intent_patterns.insert(String::from_str("purchase"), String::from_str(PURCHASE_PATTERN));
        intent_patterns.insert(String::from_str("query"), String::from_str(QUERY_PATTERN));

        let positive_keywords = string_list(
            &[
                "happy",
                "great",
                "love",
                "amazing",
                "perfect",
                "excellent",
                "fantastic",
                "wonderful",
            ],
        );
        let negative_keywords = string_list(
            &[
                "hate",
                "terrible",
                "awful",
                "horrible",
                "disappointed",
                "bad",
                "annoying",
                "frustrating",
            ],
        );

        let mut vibe_keywords: Vec<(Vibe, Vec<String>)> = Vec::new();
        vibe_keywords.push(
            (
                Vibe::Efficient,
                string_list(
                    &["quick", "fast", "efficient", "time-saving", "straightforward", "direct"],
                ),
            ),
        );
        vibe_keywords.push(
            (
                Vibe::Relaxing,
                string_list(&["relaxing", "calming", "peaceful", "chill", "unwind", "rest"]),
            ),
        );
        vibe_keywords.push(
            (
                Vibe::Luxurious,
                string_list(&["luxury", "premium", "high-end", "upscale", "exclusive", "posh"]),
            ),
        );
        vibe_keywords.push(
            (
                Vibe::Adventurous,
                string_list(&["adventure", "explore", "discover", "new", "different", "exciting"]),
            ),
        );
        vibe_keywords.push(
            (
                Vibe::Minimalist,
                string_list(&["simple", "minimal", "basic", "clean", "straight", "no frills"]),
            ),
        );
        vibe_keywords.push(
            (
                Vibe::Social,
                string_list(&["social", "friends", "group", "party", "together", "community"]),
            ),
        );
        vibe_keywords.push(
            (
                Vibe::Private,
                string_list(
                    &["private", "quiet", "personal", "intimate", "alone", "personal space"],
                ),
            ),
        );

        let parser = IntentionParser {
            intent_patterns,
            positive_keywords,
            negative_keywords,
            vibe_keywords,
        };
        proof {
            let tables = default_tables();
            assert(parser@.positive_keywords =~= tables.positive_keywords);
            assert(parser@.negative_keywords =~= tables.negative_keywords);
            assert(parser@.vibe_keywords.len() == 7);
            assert(parser@.vibe_keywords[0].1 =~= tables.vibe_keywords[0].1);
            assert(parser@.vibe_keywords[1].1 =~= tables.vibe_keywords[1].1);
            assert(parser@.vibe_keywords[2].1 =~= tables.vibe_keywords[2].1);
            assert(parser@.vibe_keywords[3].1 =~= tables.vibe_keywords[3].1);
            assert(parser@.vibe_keywords[4].1 =~= tables.vibe_keywords[4].1);
            assert(parser@.vibe_keywords[5].1 =~= tables.vibe_keywords[5].1);
            assert(parser@.vibe_keywords[6].1 =~= tables.vibe_keywords[6].1);
            assert(parser@.vibe_keywords =~= tables.vibe_keywords);
        }
        parser
    }

    /// Reads a request.
    pub fn parse(&self, input: &str) -> (intent: IntentSchema)
        ensures
            intent@ == self@.parsed(input@),
            intent.confidence <= 100,
    {
        let lowered = to_lowercase(input);
        let lower_input = lowered.as_str();

        let core_intent = self.extract_core_intent(lower_input);
        let temporal_constraints = self.extract_temporal_constraints(input);
        let budget_constraints = self.extract_budget_constraints(input);
        let preference_constraints = self.extract_preference_constraints(input);
        let sentiment_vibe = self.extract_sentiment_vibe(lower_input);
        let confidence = self.calculate_confidence(
            &core_intent,
            &temporal_constraints,
            &budget_constraints,
            &preference_constraints,
        );

        IntentSchema {
            core_intent,
            temporal_constraints,
            budget_constraints,
            preference_constraints,
            sentiment_vibe,
            confidence,
            raw_input: String::from_str(input),
        }
    }

    /// Whether the expression of a kind of intent matches a text.
    pub fn matches_kind(&self, kind: &str, input: &str) -> (matched: bool)
        ensures
            matched == self@.kind_matches(kind@, input@),
    {
        match self.intent_patterns.get(kind) {
            Some(pattern) => regex_is_match(pattern.as_str(), input),
            None => false,
        }
    }

    /// Reads the intent of a text.
    pub fn extract_core_intent(&self, input: &str) -> (intent: CoreIntent)
        ensures
            intent@ == self@.core_intent_in(input@),
    {
        if self.matches_kind("reservation", input) {
            return CoreIntent::BookReservation(self.extract_reservation_intent(input));
        }
        if self.matches_kind("transportation", input) {
            return CoreIntent::TransportationRequest(self.extract_transportation_intent(input));
        }
        if self.matches_kind("schedule", input) {
            return CoreIntent::ScheduleEvent(self.extract_schedule_intent(input));
        }
        if self.matches_kind("purchase", input) {
            return CoreIntent::PurchaseItem(self.extract_purchase_intent(input));
        }
        if self.matches_kind("query", input) {
            return CoreIntent::InformationQuery(self.extract_query_intent(input));
        }
        CoreIntent::Custom(String::from_str(input))
    }

    /// Reads a reservation from a text.
    pub fn extract_reservation_intent(&self, input: &str) -> (intent: ReservationIntent)
        ensures
            intent@ == reservation_in(input@),
    {
        let reservation_type = if str_contains(input, "restaurant") || str_contains(
            input,
            "eat",
        ) {
            ReservationType::Restaurant
        } else if str_contains(input, "hotel") || str_contains(input, "stay") {
            ReservationType::Hotel
        } else if str_contains(input, "event") {
            ReservationType::Event
        } else {
            ReservationType::Service
        };
        let location = self.extract_location(input);
        let party_size = self.extract_party_size(input);
        let preferred_time = self.extract_time(input);
        let special_requests = self.extract_special_requests(input);

        ReservationIntent {
            reservation_type,
            location,
            party_size,
            preferred_time,
            special_requests,
        }
    }

    /// Reads a ride from a text.
    pub fn extract_transportation_intent(&self, input: &str) -> (intent: TransportationIntent)
        ensures
            intent@ == transportation_in(input@),
    {
        let pickup_location = self.extract_location_from_phrase(input, &["from", "pickup"]);
        let destination = self.extract_location_from_phrase(input, &["to", "destination"]);
        let departure_time = self.extract_time(input);
        let vehicle_preference = self.extract_vehicle_preference(input);
        let max_cost = self.extract_budget_amount(input);
        proof {
            assert(texts_of(seq!["from", "pickup"]) =~= seq!["from"@, "pickup"@]);
            assert(texts_of(seq!["to", "destination"]) =~= seq!["to"@, "destination"@]);
        }

        TransportationIntent {
            pickup_location: or_default(pickup_location, "Current location"),
            destination: or_default(destination, "Unknown destination"),
            departure_time,
            vehicle_preference,
            max_cost,
        }
    }

    /// Reads an event from a text.
    pub fn extract_schedule_intent(&self, input: &str) -> (intent: ScheduleIntent)
        ensures
            intent@ == schedule_in(input@),
    {
        let event_title = self.extract_event_title(input);
        let start_time = or_default(self.extract_time(input), "Not specified");
        let end_time = or_default(self.extract_end_time(input), start_time.as_str());
        let location = self.extract_location(input);
        let attendees = self.extract_attendees(input);
        let priority = self.extract_priority(input);

        ScheduleIntent { event_title, start_time, end_time, location, attendees, priority }
    }

    /// Reads a purchase from a text.
    pub fn extract_purchase_intent(&self, input: &str) -> (intent: PurchaseIntent)
        ensures
            intent@ == purchase_in(input@),
    {
        let item_description = self.extract_item_description(input);
        let quantity: u32 = match self.extract_quantity(input) {
            Some(quantity) => quantity,
            None => 1,
        };
        let max_price = self.extract_budget_amount(input);
        let delivery_preference = self.extract_delivery_method(input);

        PurchaseIntent { item_description, quantity, max_price, delivery_preference }
    }

    /// Reads a question from a text.
    pub fn extract_query_intent(&self, input: &str) -> (intent: QueryIntent)
        ensures
            intent@ == query_in(input@),
    {
        let query_topic = self.extract_query_topic(input);
        let query_details = self.extract_query_details(input);

        QueryIntent { query_topic, query_details }
    }

    /// Reads the limits in time from a text.
    pub fn extract_temporal_constraints(&self, input: &str) -> (constraints: Option<
        TemporalConstraints,
    >)
        ensures
            constraints.deep_view() == temporal_constraints_in(input@),
    {
        match self.extract_time(input) {
            Some(time) => Some(
                TemporalConstraints {
                    earliest_start: Some(time),
                    latest_end: None,
                    preferred_time_range: None,
                    duration: None,
                },
            ),
            None => None,
        }
    }

    /// Reads the budget from a text.
    pub fn extract_budget_constraints(&self, input: &str) -> (constraints: Option<
        BudgetConstraints,
    >)
        ensures
            constraints.deep_view() == budget_constraints_in(input@),
    {
        match self.extract_budget_amount(input) {
            Some(max_amount) => Some(
                BudgetConstraints {
                    max_amount,
                    currency: String::from_str("USD"),
                    flexibility_percentage: 10,
                },
            ),
            None => None,
        }
    }

    /// Reads the preferences from a text. Every text has some, if only the
    /// standard ones.
    pub fn extract_preference_constraints(&self, input: &str) -> (constraints: Option<
        PreferenceConstraints,
    >)
        ensures
            constraints.deep_view() == Some(preference_constraints_in(input@)),
    {
        let quality_preference = self.extract_quality_preference(input);
        let brand_preferences = self.extract_brand_preferences(input);
        let exclusion_list = self.extract_exclusions(input);
        let accessibility_needs = self.extract_accessibility_needs(input);

        Some(
            PreferenceConstraints {
                quality_preference,
                brand_preferences,
                exclusion_list,
                accessibility_needs,
            },
        )
    }

    /// Reads feeling, style and urgency from a text.
    pub fn extract_sentiment_vibe(&self, input: &str) -> (mood: SentimentVibe)
        ensures
            mood == self@.sentiment_vibe_in(input@),
    {
        let sentiment = self.determine_sentiment(input);
        let vibe = self.determine_vibe(input);
        let urgency_level = self.determine_urgency(input);

        SentimentVibe { sentiment, vibe, urgency_level }
    }

    /// How sure the reading is, from what was found.
    pub fn calculate_confidence(
        &self,
        core_intent: &CoreIntent,
        temporal_constraints: &Option<TemporalConstraints>,
        budget_constraints: &Option<BudgetConstraints>,
        preference_constraints: &Option<PreferenceConstraints>,
    ) -> (score: u8)
        ensures
            score == confidence_score(
                !(core_intent@ is Custom),
                temporal_constraints is Some,
                budget_constraints is Some,
                preference_constraints is Some,
            ),
            score <= 100,
    {
        let recognized = match core_intent {
            CoreIntent::Custom(_) => false,
            _ => true,
        };
        score_confidence(
            recognized,
            temporal_constraints.is_some(),
            budget_constraints.is_some(),
            preference_constraints.is_some(),
        )
    }

    /// Reads a place from a text.
    pub fn extract_location(&self, input: &str) -> (location: Option<String>)
        ensures
            location.deep_view() == location_in(input@),
    {
        find_group(LOCATION_PATTERN, input, 1)
    }

    /// Reads the place that follows one of some words in a text.
    pub fn extract_location_from_phrase(&self, input: &str, prefixes: &[&str]) -> (location: Option<
        String,
    >)
        ensures
            location.deep_view() == location_after(input@, texts_of(prefixes@)),
    {
        let ghost words = texts_of(prefixes@);
        let mut at: usize = 0;
        assert(words.skip(0) =~= words);
        while at < prefixes.len()
            invariant
                at <= prefixes.len(),
                words == texts_of(prefixes@),
                location_after(input@, words) == location_after(input@, words.skip(at as int)),
            decreases prefixes.len() - at,
        {
            proof {
                assert(words.skip(at as int)[0] == prefixes[at as int]@);
                assert(words.skip(at as int).skip(1) =~= words.skip(at + 1));
            }
            match split_after(input, prefixes[at]) {
                Some(after_prefix) => {
                    match find_group(PHRASE_LOCATION_PATTERN, after_prefix.as_str(), 1) {
                        Some(location) => {
                            return Some(location);
                        },
                        None => {},
                    }
                },
                None => {},
            }
            at += 1;
        }
        None
    }

    /// Reads the size of a party from a text.
    pub fn extract_party_size(&self, input: &str) -> (size: Option<u32>)
        ensures
            size == party_size_in(input@),
    {
        match find_group(PARTY_SIZE_PATTERN, input, 1) {
            Some(digits) => parse_count(digits.as_str()),
            None => None,
        }
    }

    /// Reads a time from a text.
    pub fn extract_time(&self, input: &str) -> (time: Option<String>)
        ensures
            time.deep_view() == time_in(input@),
    {
        match regex_captures(TIME_PATTERN, input) {
            Some(groups) => group_text(&groups, 1),
            None => find_group(DATE_PATTERN, input, 1),
        }
    }

    /// Reads the end of a span of time from a text.
    pub fn extract_end_time(&self, input: &str) -> (time: Option<String>)
        ensures
            time.deep_view() == end_time_in(input@),
    {
        find_group(END_TIME_PATTERN, input, 1)
    }

    /// Reads the special requests from a text.
    pub fn extract_special_requests(&self, input: &str) -> (requests: Vec<String>)
        ensures
            requests.deep_view() == special_requests_in(input@),
    {
        let mut requests: Vec<String> = Vec::new();
        assert(requests.deep_view() =~= Seq::<Seq<char>>::empty());
        push_if(
            &mut requests,
            str_contains(input, "window seat") || str_contains(input, "window table"),
            "Window seating",
        );
        push_if(&mut requests, str_contains(input, "non-smoking"), "Non-smoking area");
        push_if(
            &mut requests,
            str_contains(input, "vegetarian") || str_contains(input, "vegan"),
            "Vegetarian/Vegan options",
        );
        assert(requests.deep_view() =~= special_requests_in(input@));
        requests
    }

    /// Reads the kind of vehicle from a text.
    pub fn extract_vehicle_preference(&self, input: &str) -> (vehicle: Option<VehicleType>)
        ensures
            vehicle == Some(vehicle_in(input@)),
    {
        if str_contains(input, "luxury") || str_contains(input, "premium") {
            Some(VehicleType::Luxury)
        } else if str_contains(input, "bike") || str_contains(input, "motorcycle") {
            Some(VehicleType::Bike)
        } else if str_contains(input, "pool") || str_contains(input, "shared") {
            Some(VehicleType::Pool)
        } else {
            Some(VehicleType::Standard)
        }
    }

    /// Reads an amount of money from a text, in cents.
    pub fn extract_budget_amount(&self, input: &str) -> (amount: Option<u64>)
        ensures
            amount == budget_in(input@),
    {
        match regex_captures(BUDGET_PATTERN, input) {
            Some(groups) => {
                let ghost found = groups.deep_view();
                let mut at: usize = 1;
                while at < groups.len()
                    invariant
                        1 <= at,
                        found == groups.deep_view(),
                        regex_first_captures(BUDGET_PATTERN@, input@) == Some(found),
                        first_amount(found, 1) == first_amount(found, at as int),
                    decreases groups.len() - at,
                {
                    match &groups[at] {
                        Some(matched) => {
                            match parse_amount(matched.as_str()) {
                                Some(amount) => {
                                    return Some(amount);
                                },
                                None => {},
                            }
                        },
                        None => {},
                    }
                    at += 1;
                }
                None
            },
            None => None,
        }
    }

    /// Reads the title of an event from a text.
    pub fn extract_event_title(&self, input: &str) -> (title: String)
        ensures
            title@ == event_title_in(input@),
    {
        match find_group(EVENT_TITLE_PATTERN, input, 1) {
            Some(title) => title,
            None => String::from_str(input),
        }
    }

    /// Reads the people named in a text.
    pub fn extract_attendees(&self, input: &str) -> (attendees: Vec<String>)
        ensures
            attendees.deep_view() == attendees_in(input@),
    {
        let all = regex_captures_iter(ATTENDEE_PATTERN, input);
        let ghost found = all.deep_view();
        let mut attendees: Vec<String> = Vec::new();
        let mut at: usize = 0;
        assert(found.take(0) =~= Seq::empty());
        assert(attendees.deep_view() =~= groups_of(found.take(0), 1));
        while at < all.len()
            invariant
                at <= all.len(),
                found == all.deep_view(),
                attendees.deep_view() == groups_of(found.take(at as int), 1),
            decreases all.len() - at,
        {
            let ghost before = attendees.deep_view();
            proof {
                assert(found.take(at + 1).drop_last() =~= found.take(at as int));
                assert(found.take(at + 1).last() == all[at as int].deep_view());
            }
            match group_text(&all[at], 1) {
                Some(person) => {
                    attendees.push(person);
                    assert(attendees.deep_view() =~= before.push(person@));
                },
                None => {},
            }
            at += 1;
        }
        assert(found.take(at as int) =~= found);
        attendees
    }

    /// Reads the priority from a text.
    pub fn extract_priority(&self, input: &str) -> (priority: PriorityLevel)
        ensures
            priority == priority_in(input@),
    {
        if str_contains(input, "urgent") || str_contains(input, "critical") || str_contains(
            input,
            "emergency",
        ) {
            PriorityLevel::Critical
        } else if str_contains(input, "important") || str_contains(input, "high priority") {
            PriorityLevel::High
        } else if str_contains(input, "low priority") {
            PriorityLevel::Low
        } else {
            PriorityLevel::Medium
        }
    }

    /// Reads the number of items from a text.
    pub fn extract_quantity(&self, input: &str) -> (quantity: Option<u32>)
        ensures
            quantity == quantity_in(input@),
    {
        match find_group(QUANTITY_PATTERN, input, 1) {
            Some(digits) => parse_count(digits.as_str()),
            None => None,
        }
    }

    /// Reads what is to be bought from a text.
    pub fn extract_item_description(&self, input: &str) -> (item: String)
        ensures
            item@ == item_description_in(input@),
    {
        match find_group(ITEM_PATTERN, input, 1) {
            Some(item) => item,
            None => String::from_str(input),
        }
    }

    /// Reads the way of delivery from a text.
    pub fn extract_delivery_method(&self, input: &str) -> (method: Option<DeliveryMethod>)
        ensures
            method == Some(delivery_in(input@)),
    {
        if str_contains(input, "express") || str_contains(input, "fast") || str_contains(
            input,
            "urgent",
        ) {
            Some(DeliveryMethod::Express)
        } else if str_contains(input, "pickup") || str_contains(input, "collect") {
            Some(DeliveryMethod::Pickup)
        } else {
            Some(DeliveryMethod::Standard)
        }
    }

    /// Reads the topic of a question from a text.
    pub fn extract_query_topic(&self, input: &str) -> (topic: String)
        ensures
            topic@ == query_topic_in(input@),
    {
        match find_group(QUERY_TOPIC_PATTERN, input, 1) {
            Some(topic) => trim(topic.as_str()),
            None => String::from_str(input),
        }
    }

    /// Reads the place and the time of a question from a text.
    pub fn extract_query_details(&self, input: &str) -> (details: StringMap<String>)
        ensures
            details@ == query_details_in(input@),
    {
        let mut details: StringMap<String> = StringMap::new();
        match self.extract_location(input) {
            Some(location) => {
                details.insert(String::from_str("location"), location);
            },
            None => {},
        }
        match self.extract_time(input) {
            Some(time) => {
                details.insert(String::from_str("time"), time);
            },
            None => {},
        }
        details
    }

    /// Reads the level of quality from a text.
    pub fn extract_quality_preference(&self, input: &str) -> (quality: QualityLevel)
        ensures
            quality == quality_in(input@),
    {
        if str_contains(input, "premium") || str_contains(input, "high-end") || str_contains(
            input,
            "luxury",
        ) {
            QualityLevel::Premium
        } else if str_contains(input, "basic") || str_contains(input, "simple") || str_contains(
            input,
            "minimal",
        ) {
            QualityLevel::Basic
        } else if str_contains(input, "deluxe") || str_contains(input, "top") || str_contains(
            input,
            "best",
        ) {
            QualityLevel::Luxury
        } else {
            QualityLevel::Standard
        }
    }

    /// Reads the brands from a text.
    pub fn extract_brand_preferences(&self, input: &str) -> (brands: Vec<String>)
        ensures
            brands.deep_view() == brands_in(input@),
    {
        let mut brands: Vec<String> = Vec::new();
        assert(brands.deep_view() =~= Seq::<Seq<char>>::empty());
        push_if(&mut brands, str_contains(input, "starbucks"), "Starbucks");
        push_if(
            &mut brands,
            str_contains(input, "mcdonald's") || str_contains(input, "mcdonalds"),
            "McDonald's",
        );
        push_if(
            &mut brands,
            str_contains(input, "whole foods") || str_contains(input, "wholefoods"),
            "Whole Foods",
        );
        assert(brands.deep_view() =~= brands_in(input@));
        brands
    }

    /// Reads what is to be avoided from a text.
    pub fn extract_exclusions(&self, input: &str) -> (exclusions: Vec<String>)
        ensures
            exclusions.deep_view() == exclusions_in(input@),
    {
        let mut exclusions: Vec<String> = Vec::new();
        assert(exclusions.deep_view() =~= Seq::<Seq<char>>::empty());
        push_if(
            &mut exclusions,
            str_contains(input, "no peanuts") || str_contains(input, "peanut free"),
            "Peanuts",
        );
        push_if(
            &mut exclusions,
            str_contains(input, "no seafood") || str_contains(input, "seafood free"),
            "Seafood",
        );
        push_if(
            &mut exclusions,
            str_contains(input, "not too loud") || str_contains(input, "quiet place"),
            "Loud environments",
        );
        assert(exclusions.deep_view() =~= exclusions_in(input@));
        exclusions
    }

    /// Reads the accessibility needs from a text.
    pub fn extract_accessibility_needs(&self, input: &str) -> (needs: Vec<
        AccessibilityRequirement,
    >)
        ensures
            needs.deep_view() == accessibility_needs_in(input@),
    {
        let mut needs: Vec<AccessibilityRequirement> = Vec::new();
        let ghost mut listed: Seq<AccessibilityRequirementView> = Seq::empty();
        assert(needs.deep_view() =~= listed);

        if str_contains(input, "wheelchair accessible") || str_contains(input, "wheelchair") {
            needs.push(AccessibilityRequirement::WheelchairAccessible);
            proof {
                listed = listed.push(AccessibilityRequirementView::WheelchairAccessible);
            }
        }
        assert(needs.deep_view() =~= listed);
        if str_contains(input, "hearing impaired") || str_contains(input, "hearing assistance") {
            needs.push(AccessibilityRequirement::HearingAssistance);
            proof {
                listed = listed.push(AccessibilityRequirementView::HearingAssistance);
            }
        }
        assert(needs.deep_view() =~= listed);
        if str_contains(input, "visual impairment") || str_contains(input, "seeing assistance") {
            needs.push(AccessibilityRequirement::VisualAssistance);
            proof {
                listed = listed.push(AccessibilityRequirementView::VisualAssistance);
            }
        }
        assert(needs.deep_view() =~= listed);

        let mut dietary_restrictions: Vec<String> = Vec::new();
        assert(dietary_restrictions.deep_view() =~= Seq::<Seq<char>>::empty());
        push_if(&mut dietary_restrictions, str_contains(input, "vegetarian"), "vegetarian");
        push_if(&mut dietary_restrictions, str_contains(input, "vegan"), "vegan");
        push_if(
            &mut dietary_restrictions,
            str_contains(input, "gluten free") || str_contains(input, "gluten-free"),
            "gluten-free",
        );
        push_if(&mut dietary_restrictions, str_contains(input, "kosher"), "kosher");
        push_if(&mut dietary_restrictions, str_contains(input, "halal"), "halal");
        assert(dietary_restrictions.deep_view() =~= diets_in(input@));

        if dietary_restrictions.len() > 0 {
            proof {
                listed = listed.push(
                    AccessibilityRequirementView::DietaryRestrictions(
                        dietary_restrictions.deep_view(),
                    ),
                );
            }
            needs.push(AccessibilityRequirement::DietaryRestrictions(dietary_restrictions));
        }
        assert(needs.deep_view() =~= listed);
        assert(listed =~= accessibility_needs_in(input@));
        needs
    }

    /// Reads the feeling of a text.
    pub fn determine_sentiment(&self, input: &str) -> (sentiment: Sentiment)
        ensures
            sentiment == sentiment_in(
                self@.positive_keywords,
                self@.negative_keywords,
                input@,
            ),
    {
        let pos_count = count_hits(&self.positive_keywords, input);
        let neg_count = count_hits(&self.negative_keywords, input);

        if neg_count > pos_count {
            Sentiment::Negative
        } else if pos_count > neg_count {
            Sentiment::Positive
        } else {
            Sentiment::Neutral
        }
    }

    /// Reads the style of a text.
    pub fn determine_vibe(&self, input: &str) -> (vibe: Vibe)
        ensures
            vibe == leading_vibe(self@.vibe_keywords, input@).0,
    {
        let ghost table = self@.vibe_keywords;
        let mut max_vibe = Vibe::Efficient;
        let mut max_score: usize = 0;
        let mut at: usize = 0;
        assert(table.take(0) =~= Seq::empty());
        while at < self.vibe_keywords.len()
            invariant
                at <= self.vibe_keywords.len(),
                table == self@.vibe_keywords,
                table.len() == self.vibe_keywords.len(),
                (max_vibe, max_score as nat) == leading_vibe(table.take(at as int), input@),
            decreases self.vibe_keywords.len() - at,
        {
            proof {
                assert(table.take(at + 1).drop_last() =~= table.take(at as int));
                assert(table.take(at + 1).last() == table[at as int]);
            }
            let score = count_hits(&self.vibe_keywords[at].1, input);
            if score > max_score {
                max_score = score;
                max_vibe = self.vibe_keywords[at].0;
            }
            at += 1;
        }
        assert(table.take(at as int) =~= table);
        max_vibe
    }

    /// Reads the urgency of a text.
    pub fn determine_urgency(&self, input: &str) -> (urgency: UrgencyLevel)
        ensures
            urgency == urgency_in(input@),
    {
        if str_contains(input, "now") || str_contains(input, "immediately") || str_contains(
            input,
            "right away",
        ) || str_contains(input, "asap") || str_contains(input, "urgent") {
            UrgencyLevel::Immediate
        } else if str_contains(input, "soon") || str_contains(input, "today") || str_contains(
            input,
            "tonight",
        ) {
            UrgencyLevel::High
        } else if str_contains(input, "sometime") || str_contains(input, "whenever")
            || str_contains(input, "whenever works") {
            UrgencyLevel::Low
        } else {
            UrgencyLevel::Medium
        }
    }
}

} // verus!
