use intention_engine::intent_schema::{
    AccessibilityRequirement, CoreIntent, DeliveryMethod, PriorityLevel, QualityLevel,
    ReservationType, Sentiment, UrgencyLevel, VehicleType, Vibe,
};
use intention_engine::intention_parser::{score_confidence, IntentionParser};

#[test]
fn test_parse_transportation_request() {
    let parser = IntentionParser::new();
    let input = "Get me an Uber from downtown to the airport tomorrow morning";

    let result = parser.parse(input);

    assert!(matches!(result.core_intent, CoreIntent::TransportationRequest(_)));
}

#[test]
fn test_parse_simple_reservation() {
    let parser = IntentionParser::new();
    let input = "I want to book a table for 4 people at a nice restaurant tonight at 7pm";

    let result = parser.parse(input);

    assert!(matches!(result.core_intent, CoreIntent::BookReservation(_)));
    // Should have high confidence. It is 95 and not 100: the request names no
    // budget, so the 5 points that a budget brings are not given.
    assert_eq!(result.confidence, 95);
}

#[test]
fn parse_reservation_request() {
    let parser = IntentionParser::new();
    let input = "I want to book a table for 4 people at a nice restaurant tonight at 7pm";

    let result = parser.parse(input);

    match &result.core_intent {
        CoreIntent::BookReservation(reservation) => {
            assert_eq!(reservation.reservation_type, ReservationType::Restaurant);
            assert_eq!(reservation.party_size, Some(4));
            assert_eq!(reservation.location, None);
            assert!(reservation.special_requests.is_empty());
        }
        other => panic!("unexpected intent: {:?}", other),
    }
    assert!(result.temporal_constraints.is_some());
    assert!(result.budget_constraints.is_none());
    assert!(result.preference_constraints.is_some());
    // 50 to begin with, 30 for the known kind, 10 for the time, 5 for the preferences
    assert_eq!(result.confidence, 95);
    assert_eq!(result.sentiment_vibe.urgency_level, UrgencyLevel::High);
    assert_eq!(result.sentiment_vibe.sentiment, Sentiment::Neutral);
    assert_eq!(result.raw_input, input);
}

#[test]
fn parse_ride_request_in_detail() {
    let parser = IntentionParser::new();
    let result = parser.parse("Get me an Uber from downtown to the airport tomorrow morning");
    match &result.core_intent {
        CoreIntent::TransportationRequest(ride) => {
            // places are looked for in the lowercase text, where none is capitalised
            assert_eq!(ride.pickup_location, "Current location");
            assert_eq!(ride.destination, "Unknown destination");
            assert_eq!(ride.departure_time, None);
            assert_eq!(ride.vehicle_preference, Some(VehicleType::Standard));
            assert_eq!(ride.max_cost, None);
        }
        other => panic!("unexpected intent: {:?}", other),
    }
    assert_eq!(result.confidence, 85);
}

#[test]
fn parse_purchase_request() {
    let parser = IntentionParser::new();
    let result = parser.parse("Buy 3 items for $25.50 with express delivery");
    match &result.core_intent {
        CoreIntent::PurchaseItem(purchase) => {
            assert_eq!(purchase.item_description, "3 items");
            assert_eq!(purchase.quantity, 3);
            assert_eq!(purchase.max_price, Some(2550));
            assert_eq!(purchase.delivery_preference, Some(DeliveryMethod::Express));
        }
        other => panic!("unexpected intent: {:?}", other),
    }
    let budget = result.budget_constraints.as_ref().unwrap();
    assert_eq!(budget.max_amount, 2550);
    assert_eq!(budget.currency, "USD");
    assert_eq!(budget.flexibility_percentage, 10);
    assert!(result.temporal_constraints.is_none());
    assert_eq!(result.confidence, 90);
}

#[test]
fn parse_question() {
    let parser = IntentionParser::new();
    let result = parser.parse("What is the weather in Paris?");
    match &result.core_intent {
        CoreIntent::InformationQuery(question) => {
            assert_eq!(question.query_topic, "the weather in paris");
            assert!(question.query_details.is_empty());
        }
        other => panic!("unexpected intent: {:?}", other),
    }
}

#[test]
fn parse_custom_request() {
    let parser = IntentionParser::new();
    let result = parser.parse("Hello There");
    match &result.core_intent {
        CoreIntent::Custom(text) => assert_eq!(text, "hello there"),
        other => panic!("unexpected intent: {:?}", other),
    }
    assert_eq!(result.confidence, 55);
    assert_eq!(result.raw_input, "Hello There");
}

#[test]
fn parse_schedule_request() {
    let parser = IntentionParser::new();
    let intent = parser.extract_core_intent("schedule a sync at 10:30 until 11");
    match &intent {
        CoreIntent::ScheduleEvent(event) => {
            assert_eq!(event.event_title, "a sync");
            // the time runs up to the next word, the space before it included
            assert_eq!(event.start_time, "10:30 ");
            assert_eq!(event.end_time, "11");
            assert_eq!(event.priority, PriorityLevel::Medium);
            assert!(event.attendees.is_empty());
        }
        other => panic!("unexpected intent: {:?}", other),
    }
    let event = parser.extract_schedule_intent("arrange lunch");
    assert_eq!(event.event_title, "lunch");
    assert_eq!(event.start_time, "Not specified");
    assert_eq!(event.end_time, "Not specified");
}

#[test]
fn kinds_are_tried_in_order() {
    let parser = IntentionParser::new();
    // "book" marks a reservation before "meeting" marks an event
    assert!(matches!(
        parser.extract_core_intent("book a meeting"),
        CoreIntent::BookReservation(_)
    ));
    assert!(parser.matches_kind("reservation", "book a meeting"));
    assert!(parser.matches_kind("schedule", "book a meeting"));
    assert!(!parser.matches_kind("purchase", "book a meeting"));
    assert!(!parser.matches_kind("no such kind", "book a meeting"));
}

#[test]
fn locations_need_a_capital_letter() {
    let parser = IntentionParser::new();
    assert_eq!(
        parser.extract_location("Meet me at Central Park, please"),
        Some("Central Park".to_string())
    );
    assert_eq!(parser.extract_location("meet me at central park"), None);
}

#[test]
fn locations_after_a_word() {
    let parser = IntentionParser::new();
    assert_eq!(
        parser.extract_location_from_phrase("Go from Paris to Rome", &["from", "pickup"]),
        Some("Paris".to_string())
    );
    assert_eq!(
        parser.extract_location_from_phrase("Go from Paris to Rome", &["to", "destination"]),
        Some("Rome".to_string())
    );
    // only the first occurrence of a word is looked at: here the "to" in "Boston"
    assert_eq!(
        parser.extract_location_from_phrase("Ride from Boston to Denver", &["to"]),
        None
    );
    // the second word is tried where the first is followed by no place
    assert_eq!(
        parser.extract_location_from_phrase("pickup Airport from nowhere", &["from", "pickup"]),
        Some("Airport".to_string())
    );
    assert_eq!(parser.extract_location_from_phrase("Go from Paris", &[]), None);
}

#[test]
fn ride_with_capitalised_places() {
    let parser = IntentionParser::new();
    let ride = parser.extract_transportation_intent("taxi from Paris to Rome for $30 shared");
    assert_eq!(ride.pickup_location, "Paris");
    assert_eq!(ride.destination, "Rome");
    assert_eq!(ride.vehicle_preference, Some(VehicleType::Pool));
    assert_eq!(ride.max_cost, Some(3000));
}

#[test]
fn party_size_and_quantity() {
    let parser = IntentionParser::new();
    assert_eq!(parser.extract_party_size("a table for 12 guests"), Some(12));
    assert_eq!(parser.extract_party_size("a table for two"), None);
    assert_eq!(parser.extract_party_size("for 99999999999 people"), None);
    assert_eq!(parser.extract_quantity("send 7 pieces"), Some(7));
    assert_eq!(parser.extract_quantity("send some"), None);
    let purchase = parser.extract_purchase_intent("order socks");
    assert_eq!(purchase.quantity, 1);
    assert_eq!(purchase.item_description, "socks");
    assert_eq!(purchase.max_price, None);
    assert_eq!(purchase.delivery_preference, Some(DeliveryMethod::Standard));
}

#[test]
fn times_and_dates() {
    let parser = IntentionParser::new();
    assert_eq!(parser.extract_time("see you at 7pm"), Some("7pm".to_string()));
    assert_eq!(parser.extract_time("see you at 10:30 AM sharp"), Some("10:30 AM".to_string()));
    assert_eq!(parser.extract_time("due 2024-05-17"), Some("2024-05-17".to_string()));
    assert_eq!(parser.extract_time("due 3/14"), Some("3/14".to_string()));
    assert_eq!(parser.extract_time("sometime"), None);
    assert_eq!(parser.extract_end_time("from 9 until 5pm"), Some("5pm".to_string()));
    assert_eq!(parser.extract_end_time("all day"), None);
    let constraints = parser.extract_temporal_constraints("see you at 7pm").unwrap();
    assert_eq!(constraints.earliest_start, Some("7pm".to_string()));
    assert_eq!(constraints.latest_end, None);
    assert_eq!(constraints.preferred_time_range, None);
    assert_eq!(constraints.duration, None);
    assert!(parser.extract_temporal_constraints("whenever").is_none());
}

#[test]
fn budgets_in_cents() {
    let parser = IntentionParser::new();
    assert_eq!(parser.extract_budget_amount("it costs $7"), Some(700));
    assert_eq!(parser.extract_budget_amount("it costs $18.50"), Some(1850));
    assert_eq!(parser.extract_budget_amount("I have 50 dollars"), Some(5000));
    assert_eq!(parser.extract_budget_amount("a budget of 100"), Some(10000));
    assert_eq!(parser.extract_budget_amount("no money named"), None);
    assert!(parser.extract_budget_constraints("no money named").is_none());
}

#[test]
fn titles_items_and_topics() {
    let parser = IntentionParser::new();
    assert_eq!(parser.extract_event_title("plan the offsite on friday"), "the offsite");
    assert_eq!(parser.extract_event_title("nothing here"), "nothing here");
    assert_eq!(parser.extract_item_description("buy red shoes that fit"), "red shoes");
    assert_eq!(parser.extract_item_description("red shoes"), "red shoes");
    assert_eq!(parser.extract_query_topic("where is   the station  ?"), "the station");
    assert_eq!(parser.extract_query_topic("station"), "station");
}

#[test]
fn query_details_hold_place_and_time() {
    let parser = IntentionParser::new();
    let details = parser.extract_query_details("what happens in Berlin at 9pm");
    assert_eq!(details.get("location").map(|v| v.as_str()), Some("Berlin"));
    assert_eq!(details.get("time").map(|v| v.as_str()), Some("9pm"));
    assert_eq!(details.len(), 2);
    let none = parser.extract_query_details("what happens");
    assert!(none.is_empty());
}

#[test]
fn attendees_are_capitalised_names() {
    let parser = IntentionParser::new();
    assert_eq!(
        parser.extract_attendees("Lunch with Alice and Bob Smith"),
        vec!["Alice".to_string(), "Bob Smith".to_string()]
    );
    assert!(parser.extract_attendees("lunch with alice").is_empty());
}

#[test]
fn keywords_decide_kinds_and_levels() {
    let parser = IntentionParser::new();
    assert_eq!(parser.extract_reservation_intent("a place to eat").reservation_type, ReservationType::Restaurant);
    assert_eq!(parser.extract_reservation_intent("somewhere to stay").reservation_type, ReservationType::Hotel);
    assert_eq!(parser.extract_reservation_intent("tickets to the event").reservation_type, ReservationType::Event);
    assert_eq!(parser.extract_reservation_intent("a haircut").reservation_type, ReservationType::Service);

    assert_eq!(parser.extract_vehicle_preference("a premium car"), Some(VehicleType::Luxury));
    assert_eq!(parser.extract_vehicle_preference("a motorcycle"), Some(VehicleType::Bike));
    assert_eq!(parser.extract_vehicle_preference("a pool ride"), Some(VehicleType::Pool));
    assert_eq!(parser.extract_vehicle_preference("a ride"), Some(VehicleType::Standard));

    assert_eq!(parser.extract_priority("this is an emergency"), PriorityLevel::Critical);
    assert_eq!(parser.extract_priority("important call"), PriorityLevel::High);
    assert_eq!(parser.extract_priority("low priority call"), PriorityLevel::Low);
    assert_eq!(parser.extract_priority("a call"), PriorityLevel::Medium);

    assert_eq!(parser.extract_delivery_method("please collect"), Some(DeliveryMethod::Pickup));
    assert_eq!(parser.extract_delivery_method("urgent"), Some(DeliveryMethod::Express));

    assert_eq!(parser.extract_quality_preference("high-end"), QualityLevel::Premium);
    assert_eq!(parser.extract_quality_preference("simple"), QualityLevel::Basic);
    assert_eq!(parser.extract_quality_preference("the best"), QualityLevel::Luxury);
    assert_eq!(parser.extract_quality_preference("anything"), QualityLevel::Standard);

    assert_eq!(parser.determine_urgency("asap"), UrgencyLevel::Immediate);
    assert_eq!(parser.determine_urgency("today"), UrgencyLevel::High);
    assert_eq!(parser.determine_urgency("whenever"), UrgencyLevel::Low);
    assert_eq!(parser.determine_urgency("later"), UrgencyLevel::Medium);
}

#[test]
fn lists_follow_the_order_of_the_checks() {
    let parser = IntentionParser::new();
    assert_eq!(
        parser.extract_special_requests("vegan, non-smoking, window seat"),
        vec!["Window seating", "Non-smoking area", "Vegetarian/Vegan options"]
    );
    assert!(parser.extract_special_requests("nothing special").is_empty());
    assert_eq!(
        parser.extract_brand_preferences("wholefoods or starbucks"),
        vec!["Starbucks", "Whole Foods"]
    );
    assert_eq!(parser.extract_brand_preferences("mcdonalds"), vec!["McDonald's"]);
    assert_eq!(
        parser.extract_exclusions("quiet place, no seafood"),
        vec!["Seafood", "Loud environments"]
    );
    assert_eq!(parser.extract_exclusions("peanut free"), vec!["Peanuts"]);
}

#[test]
fn accessibility_needs_end_with_the_diets() {
    let parser = IntentionParser::new();
    let needs = parser.extract_accessibility_needs("halal, gluten free, wheelchair, hearing assistance");
    assert_eq!(needs.len(), 3);
    assert!(matches!(needs[0], AccessibilityRequirement::WheelchairAccessible));
    assert!(matches!(needs[1], AccessibilityRequirement::HearingAssistance));
    match &needs[2] {
        AccessibilityRequirement::DietaryRestrictions(diets) => {
            assert_eq!(diets, &vec!["gluten-free".to_string(), "halal".to_string()]);
        }
        other => panic!("unexpected need: {:?}", other),
    }
    let visual = parser.extract_accessibility_needs("visual impairment");
    assert_eq!(visual.len(), 1);
    assert!(matches!(visual[0], AccessibilityRequirement::VisualAssistance));
    assert!(parser.extract_accessibility_needs("none").is_empty());
    let preferences = parser.extract_preference_constraints("vegan and kosher").unwrap();
    assert_eq!(preferences.accessibility_needs.len(), 1);
    assert_eq!(preferences.quality_preference, QualityLevel::Standard);
}

#[test]
fn sentiment_counts_keywords() {
    let parser = IntentionParser::new();
    assert_eq!(parser.determine_sentiment("i love this great place"), Sentiment::Positive);
    assert_eq!(parser.determine_sentiment("terrible and awful"), Sentiment::Negative);
    assert_eq!(parser.determine_sentiment("great but terrible"), Sentiment::Neutral);
    assert_eq!(parser.determine_sentiment("a place"), Sentiment::Neutral);
}

#[test]
fn vibe_is_the_style_with_most_keywords() {
    let parser = IntentionParser::new();
    assert_eq!(parser.determine_vibe("a place"), Vibe::Efficient);
    assert_eq!(parser.determine_vibe("posh and exclusive"), Vibe::Luxurious);
    assert_eq!(parser.determine_vibe("quiet and intimate, quick"), Vibe::Private);
    // with as many keywords each, the style that comes first in the table leads
    assert_eq!(parser.determine_vibe("quick and posh"), Vibe::Efficient);
    assert_eq!(parser.determine_vibe("posh with friends"), Vibe::Luxurious);
    let mood = parser.extract_sentiment_vibe("i hate waiting, asap, with friends");
    assert_eq!(mood.sentiment, Sentiment::Negative);
    assert_eq!(mood.vibe, Vibe::Social);
    assert_eq!(mood.urgency_level, UrgencyLevel::Immediate);
}

#[test]
fn confidence_adds_up_in_percent() {
    assert_eq!(score_confidence(false, false, false, false), 50);
    assert_eq!(score_confidence(true, false, false, false), 80);
    assert_eq!(score_confidence(false, true, false, false), 60);
    assert_eq!(score_confidence(false, false, true, false), 55);
    assert_eq!(score_confidence(false, false, false, true), 55);
    assert_eq!(score_confidence(true, true, true, true), 100);
    let parser = IntentionParser::new();
    let intent = CoreIntent::Custom("x".to_string());
    assert_eq!(parser.calculate_confidence(&intent, &None, &None, &None), 50);
    let full = parser.parse("Book a table at 7pm for $40");
    assert_eq!(full.confidence, 100);
}
