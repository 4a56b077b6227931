use chrono::Utc;
use intention_engine::clock::Timestamp;
use intention_engine::intent_schema::{
    AccessibilityRequirement, CoreIntent, IntentSchema, QualityLevel, ReservationIntent,
    ReservationType, Sentiment, SentimentVibe, TemporalConstraints, TransportationIntent,
    UrgencyLevel, VehicleType, Vibe,
};
use intention_engine::user_preferences::{
    category_of, ActionOutcome, ActionType, PrivacySettings, RatingSummary, UserActionHistory,
    UserPreferenceVector, UserPreferences,
};
use intention_engine::verification_loop::PathType;

/// An amount given in units, as cents.
fn cents(units: f64) -> u64 {
    (units * 100.0).round() as u64
}

/// A score given as a fraction, in percent.
fn percent(fraction: f64) -> u8 {
    (fraction * 100.0).round() as u8
}

fn now() -> Timestamp {
    let instant = Utc::now();
    Timestamp { seconds: instant.timestamp(), nanos: instant.timestamp_subsec_nanos() }
}

fn mood() -> SentimentVibe {
    SentimentVibe {
        sentiment: Sentiment::Positive,
        vibe: Vibe::Efficient,
        urgency_level: UrgencyLevel::High,
    }
}

fn schema(core_intent: CoreIntent) -> IntentSchema {
    IntentSchema {
        core_intent,
        temporal_constraints: None,
        budget_constraints: None,
        preference_constraints: None,
        sentiment_vibe: mood(),
        confidence: 90,
        raw_input: String::new(),
    }
}

fn ride_to_work() -> IntentSchema {
    schema(CoreIntent::TransportationRequest(TransportationIntent {
        pickup_location: "Home".to_string(),
        destination: "Work".to_string(),
        departure_time: Some("08:00".to_string()),
        vehicle_preference: Some(VehicleType::Standard),
        max_cost: Some(cents(20.0)),
    }))
}

fn dinner(location: Option<&str>) -> IntentSchema {
    schema(CoreIntent::BookReservation(ReservationIntent {
        reservation_type: ReservationType::Restaurant,
        location: location.map(|place| place.to_string()),
        party_size: Some(2),
        preferred_time: None,
        special_requests: vec![],
    }))
}

fn action(
    id: &str,
    intent: IntentSchema,
    selected_path: Option<PathType>,
    satisfaction_rating: Option<u8>,
) -> UserActionHistory {
    UserActionHistory {
        action_id: id.to_string(),
        action_type: ActionType::TransportationBooking,
        intent,
        selected_path,
        outcome: ActionOutcome::Success,
        satisfaction_rating,
        timestamp: Timestamp { seconds: 1_700_000_000, nanos: 0 },
        cost: None,
        time_spent: None,
    }
}

#[test]
fn test_create_user_preference_vector() {
    let user_prefs = UserPreferenceVector::new();

    assert_eq!(user_prefs.user_id, "default_user");
    assert!(user_prefs.history.is_empty());
    assert!(user_prefs.preferences.brand_preferences.is_empty());
}

#[test]
fn test_update_from_action() {
    let mut user_prefs = UserPreferenceVector::new();

    // Create a sample action history
    let action_history = UserActionHistory {
        action_id: "action_1".to_string(),
        action_type: ActionType::TransportationBooking,
        intent: IntentSchema {
            core_intent: CoreIntent::TransportationRequest(TransportationIntent {
                pickup_location: "Home".to_string(),
                destination: "Work".to_string(),
                departure_time: Some("08:00".to_string()),
                vehicle_preference: Some(VehicleType::Standard),
                max_cost: Some(cents(20.0)),
            }),
            temporal_constraints: None,
            budget_constraints: None,
            preference_constraints: None,
            sentiment_vibe: SentimentVibe {
                sentiment: Sentiment::Positive,
                vibe: Vibe::Efficient,
                urgency_level: UrgencyLevel::High,
            },
            confidence: percent(0.9),
            raw_input: "Get me to work by 8 AM".to_string(),
        },
        selected_path: Some(PathType::Efficiency),
        outcome: ActionOutcome::Success,
        satisfaction_rating: Some(5),
        timestamp: now(),
        cost: Some(cents(18.50)),
        time_spent: Some("PT25M".to_string()),
    };

    user_prefs.update_from_action(action_history);

    assert_eq!(user_prefs.history.len(), 1);
    assert!(user_prefs.has_preference("transportation", "Standard"));
}

#[test]
fn test_get_preferred_path_type() {
    let mut user_prefs = UserPreferenceVector::new();

    // Add some history with Efficiency path selections
    let action_history = UserActionHistory {
        action_id: "action_1".to_string(),
        action_type: ActionType::TransportationBooking,
        intent: IntentSchema {
            core_intent: CoreIntent::TransportationRequest(TransportationIntent {
                pickup_location: "Home".to_string(),
                destination: "Work".to_string(),
                departure_time: Some("08:00".to_string()),
                vehicle_preference: Some(VehicleType::Standard),
                max_cost: Some(cents(20.0)),
            }),
            temporal_constraints: None,
            budget_constraints: None,
            preference_constraints: None,
            sentiment_vibe: SentimentVibe {
                sentiment: Sentiment::Positive,
                vibe: Vibe::Efficient,
                urgency_level: UrgencyLevel::High,
            },
            confidence: percent(0.9),
            raw_input: "Get me to work by 8 AM".to_string(),
        },
        selected_path: Some(PathType::Efficiency),
        outcome: ActionOutcome::Success,
        satisfaction_rating: Some(5),
        timestamp: now(),
        cost: Some(cents(18.50)),
        time_spent: Some("PT25M".to_string()),
    };

    user_prefs.update_from_action(action_history);

    let preferred_path = user_prefs.get_preferred_path_type("transportation");
    assert_eq!(preferred_path, Some(PathType::Efficiency));
}

#[test]
fn new_profiles_start_empty() {
    let profile = UserPreferenceVector::with_user_id("ana".to_string());
    assert_eq!(profile.user_id, "ana");
    assert!(profile.history.is_empty());
    assert!(profile.preferences.quality_preferences.is_empty());
    assert!(profile.preferences.activity_frequency.is_empty());
    assert!(profile.preferences.accessibility_requirements.is_empty());
    assert_eq!(profile.preferences.privacy_settings, PrivacySettings::default());
    assert!(!profile.preferences.privacy_settings.share_location);
    assert_eq!(profile.get_preferred_path_type("transportation"), None);
    assert_eq!(profile.get_average_satisfaction_for_path(&PathType::Luxury), None);
    assert_eq!(profile.get_quality_preference("transportation"), QualityLevel::Standard);
    assert_eq!(profile.get_vibe_preference("transportation"), Vibe::Efficient);
    assert_eq!(profile.get_price_preference("transportation"), None);
    assert_eq!(profile.get_time_preference("transportation"), None);
    assert_eq!(profile.get_activity_frequency("transportation"), 0);
    assert!(!profile.has_preference("brand", "Starbucks"));

    let default_profile = UserPreferenceVector::default();
    assert_eq!(default_profile.user_id, "default_user");
    let default_preferences = UserPreferences::default();
    assert!(default_preferences.brand_exclusions.is_empty());
}

#[test]
fn history_is_appended_in_order() {
    let mut profile = UserPreferenceVector::new();
    let at = Timestamp { seconds: 42, nanos: 7 };
    profile.apply(action("first", ride_to_work(), None, None), at);
    profile.apply(action("second", dinner(None), None, None), at);
    profile.apply(action("third", ride_to_work(), None, None), Timestamp { seconds: 43, nanos: 0 });
    let ids: Vec<&str> = profile.history.iter().map(|entry| entry.action_id.as_str()).collect();
    assert_eq!(ids, vec!["first", "second", "third"]);
    assert_eq!(profile.last_updated, Timestamp { seconds: 43, nanos: 0 });
}

#[test]
fn frequency_counts_do_not_depend_on_order() {
    let at = Timestamp { seconds: 1, nanos: 0 };
    let mut one_way = UserPreferenceVector::new();
    one_way.apply(action("a", ride_to_work(), Some(PathType::Efficiency), None), at);
    one_way.apply(action("b", dinner(None), Some(PathType::Luxury), None), at);
    one_way.apply(action("c", ride_to_work(), Some(PathType::Luxury), None), at);

    let mut other_way = UserPreferenceVector::new();
    other_way.apply(action("c", ride_to_work(), Some(PathType::Luxury), None), at);
    other_way.apply(action("b", dinner(None), Some(PathType::Luxury), None), at);
    other_way.apply(action("a", ride_to_work(), Some(PathType::Efficiency), None), at);

    for profile in [&one_way, &other_way] {
        assert_eq!(profile.get_activity_frequency("transportation"), 2);
        assert_eq!(profile.get_activity_frequency("reservation_Restaurant"), 1);
        assert_eq!(profile.get_activity_frequency("purchase"), 0);
    }
}

#[test]
fn quality_preference_is_last_write_wins() {
    let at = Timestamp { seconds: 1, nanos: 0 };
    let mut efficient_then_luxurious = UserPreferenceVector::new();
    efficient_then_luxurious
        .apply(action("a", ride_to_work(), Some(PathType::Efficiency), None), at);
    efficient_then_luxurious.apply(action("b", ride_to_work(), Some(PathType::Luxury), None), at);
    assert_eq!(
        efficient_then_luxurious.get_quality_preference("transportation"),
        QualityLevel::Luxury
    );

    let mut luxurious_then_efficient = UserPreferenceVector::new();
    luxurious_then_efficient.apply(action("b", ride_to_work(), Some(PathType::Luxury), None), at);
    luxurious_then_efficient
        .apply(action("a", ride_to_work(), Some(PathType::Efficiency), None), at);
    assert_eq!(
        luxurious_then_efficient.get_quality_preference("transportation"),
        QualityLevel::Standard
    );
}

#[test]
fn discovery_sets_the_vibe_and_leaves_quality_alone() {
    let mut profile = UserPreferenceVector::new();
    profile.update_from_action(action("a", dinner(None), Some(PathType::Discovery), None));
    assert_eq!(profile.get_vibe_preference("reservation_Restaurant"), Vibe::Adventurous);
    assert_eq!(profile.get_vibe_preference("transportation"), Vibe::Efficient);
    assert!(profile.preferences.quality_preferences.is_empty());
}

#[test]
fn action_without_selected_path_only_counts() {
    let mut profile = UserPreferenceVector::new();
    profile.update_from_action(action("a", ride_to_work(), None, None));
    assert_eq!(profile.get_activity_frequency("transportation"), 1);
    assert!(profile.preferences.quality_preferences.is_empty());
    assert!(profile.preferences.vibe_preferences.is_empty());
    assert!(profile.preferences.transportation_preferences.is_empty());
    assert_eq!(profile.get_preferred_path_type("transportation"), None);
}

#[test]
fn high_rating_reinforces_what_was_asked_for() {
    let mut profile = UserPreferenceVector::new();
    profile.update_from_action(action("a", dinner(Some("Luigi's")), None, Some(4)));
    assert!(profile.has_preference("location", "Luigi's"));
    assert!(!profile.preferences.brand_exclusions.contains("Luigi's"));

    let mut other = UserPreferenceVector::new();
    other.update_from_action(action("b", ride_to_work(), None, Some(5)));
    assert!(other.has_preference("transportation", "Standard"));
    assert!(!other.has_preference("transportation", "Luxury"));
    assert!(!other.has_preference("location", "Standard"));
}

#[test]
fn low_rating_excludes_the_place() {
    let mut profile = UserPreferenceVector::new();
    profile.update_from_action(action("a", dinner(Some("Luigi's")), None, Some(2)));
    assert!(profile.preferences.brand_exclusions.contains("Luigi's"));
    assert!(!profile.has_preference("location", "Luigi's"));

    let mut other = UserPreferenceVector::new();
    other.update_from_action(action("b", ride_to_work(), None, Some(1)));
    assert!(other.preferences.brand_exclusions.is_empty());
    assert!(other.preferences.transportation_preferences.is_empty());
}

#[test]
fn middling_rating_changes_no_preference_set() {
    let mut profile = UserPreferenceVector::new();
    profile.update_from_action(action("a", dinner(Some("Luigi's")), None, Some(3)));
    assert!(profile.preferences.brand_exclusions.is_empty());
    assert!(profile.preferences.location_preferences.is_empty());
}

#[test]
fn preferred_time_range_is_remembered() {
    let mut profile = UserPreferenceVector::new();
    let mut request = ride_to_work();
    request.temporal_constraints = Some(TemporalConstraints {
        earliest_start: None,
        latest_end: None,
        preferred_time_range: Some(("08:00".to_string(), "09:00".to_string())),
        duration: None,
    });
    let again = request.clone();
    profile.update_from_action(action("a", request, None, None));
    assert_eq!(profile.get_time_preference("transportation"), Some(vec!["08:00-09:00".to_string()]));
    profile.update_from_action(action("b", again, None, None));
    assert_eq!(
        profile.get_time_preference("transportation"),
        Some(vec!["08:00-09:00".to_string(), "08:00-09:00".to_string()])
    );
    assert_eq!(profile.get_time_preference("purchase"), None);
}

#[test]
fn preferred_path_is_the_most_chosen() {
    let mut profile = UserPreferenceVector::new();
    profile.update_from_action(action("a", ride_to_work(), Some(PathType::Luxury), None));
    profile.update_from_action(action("b", ride_to_work(), Some(PathType::Discovery), None));
    profile.update_from_action(action("c", ride_to_work(), Some(PathType::Discovery), None));
    profile.update_from_action(action("d", dinner(None), Some(PathType::Efficiency), None));
    profile.update_from_action(action("e", ride_to_work(), Some(PathType::Luxury), None));
    profile.update_from_action(action("f", ride_to_work(), Some(PathType::Discovery), None));
    assert_eq!(profile.get_preferred_path_type("transportation"), Some(PathType::Discovery));
    assert_eq!(profile.get_preferred_path_type("reservation_Restaurant"), Some(PathType::Efficiency));
    assert_eq!(profile.get_preferred_path_type("scheduling"), None);
}

#[test]
fn preferred_path_ties_go_to_the_most_recent() {
    let mut profile = UserPreferenceVector::new();
    profile.update_from_action(action("a", ride_to_work(), Some(PathType::Efficiency), None));
    profile.update_from_action(action("b", ride_to_work(), Some(PathType::Luxury), None));
    assert_eq!(profile.get_preferred_path_type("transportation"), Some(PathType::Luxury));
    profile.update_from_action(action("c", ride_to_work(), Some(PathType::Discovery), None));
    assert_eq!(profile.get_preferred_path_type("transportation"), Some(PathType::Discovery));
    profile.update_from_action(action("d", ride_to_work(), Some(PathType::Efficiency), None));
    assert_eq!(profile.get_preferred_path_type("transportation"), Some(PathType::Efficiency));
    profile.update_from_action(action("e", ride_to_work(), Some(PathType::Discovery), None));
    assert_eq!(profile.get_preferred_path_type("transportation"), Some(PathType::Discovery));
    profile.update_from_action(action("f", ride_to_work(), Some(PathType::Luxury), None));
    assert_eq!(profile.get_preferred_path_type("transportation"), Some(PathType::Luxury));
}

#[test]
fn average_satisfaction_is_total_over_count() {
    let mut profile = UserPreferenceVector::new();
    profile.update_from_action(action("a", ride_to_work(), Some(PathType::Luxury), Some(5)));
    profile.update_from_action(action("b", dinner(None), Some(PathType::Luxury), Some(4)));
    profile.update_from_action(action("c", ride_to_work(), Some(PathType::Luxury), None));
    profile.update_from_action(action("d", ride_to_work(), Some(PathType::Efficiency), Some(1)));
    profile.update_from_action(action("e", ride_to_work(), None, Some(3)));

    let luxury = profile.get_average_satisfaction_for_path(&PathType::Luxury).unwrap();
    assert_eq!(luxury, RatingSummary { total: 9, count: 2 });
    assert_eq!(luxury.total as f64 / luxury.count as f64, 4.5);
    let efficiency = profile.get_average_satisfaction_for_path(&PathType::Efficiency).unwrap();
    assert_eq!(efficiency, RatingSummary { total: 1, count: 1 });
    assert_eq!(profile.get_average_satisfaction_for_path(&PathType::Discovery), None);
}

#[test]
fn categories_of_intents() {
    assert_eq!(category_of(&ride_to_work().core_intent), "transportation");
    assert_eq!(category_of(&dinner(None).core_intent), "reservation_Restaurant");
    assert_eq!(category_of(&CoreIntent::Custom("short".to_string())), "custom_short");
    assert_eq!(
        category_of(&CoreIntent::Custom("exactly twenty chars".to_string())),
        "custom_exactly twenty chars"
    );
    assert_eq!(
        category_of(&CoreIntent::Custom("this one is longer than twenty".to_string())),
        "custom_this one is longer t"
    );
    assert_eq!(
        category_of(&CoreIntent::Custom("ÄÖÜäöüßÄÖÜäöüßÄÖÜäöüß".to_string())),
        "custom_ÄÖÜäöüßÄÖÜäöüßÄÖÜäöü"
    );
    let profile = UserPreferenceVector::new();
    assert_eq!(profile.get_activity_type_from_intent(&ride_to_work()), "transportation");
}

#[test]
fn frequency_counter_stops_at_its_largest_value() {
    let mut profile = UserPreferenceVector::new();
    profile.preferences.activity_frequency.insert("transportation".to_string(), u32::MAX - 1);
    profile.update_from_action(action("a", ride_to_work(), None, None));
    assert_eq!(profile.get_activity_frequency("transportation"), u32::MAX);
    profile.update_from_action(action("b", ride_to_work(), None, None));
    assert_eq!(profile.get_activity_frequency("transportation"), u32::MAX);
}

#[test]
fn has_preference_by_group() {
    let mut profile = UserPreferenceVector::new();
    profile.add_brand_preference("Starbucks".to_string());
    profile.add_dietary_restriction("vegan".to_string());
    profile.add_brand_exclusion("McDonald's".to_string());
    assert!(profile.has_preference("brand", "Starbucks"));
    assert!(!profile.has_preference("brand", "vegan"));
    assert!(profile.has_preference("dietary", "vegan"));
    assert!(!profile.has_preference("dietary", "Starbucks"));
    assert!(!profile.has_preference("exclusion", "McDonald's"));
    assert!(profile.preferences.brand_exclusions.contains("McDonald's"));
    assert!(!profile.has_preference("Brand", "Starbucks"));

    profile.remove_brand_preference("Starbucks");
    assert!(!profile.has_preference("brand", "Starbucks"));
    profile.remove_brand_preference("never there");
    assert!(profile.preferences.brand_preferences.is_empty());
}

#[test]
fn settings_and_requirements_are_stored() {
    let mut profile = UserPreferenceVector::new();
    profile.add_accessibility_requirement(AccessibilityRequirement::WheelchairAccessible);
    profile.add_accessibility_requirement(AccessibilityRequirement::DietaryRestrictions(vec![
        "kosher".to_string(),
    ]));
    assert_eq!(profile.preferences.accessibility_requirements.len(), 2);
    assert!(matches!(
        profile.preferences.accessibility_requirements[0],
        AccessibilityRequirement::WheelchairAccessible
    ));
    let settings = PrivacySettings {
        share_location: true,
        share_purchase_history: false,
        allow_personalized_recommendations: true,
        share_with_third_parties: false,
    };
    profile.update_privacy_settings(settings);
    assert_eq!(profile.preferences.privacy_settings, settings);
    profile.preferences.price_preferences.insert("purchase".to_string(), (cents(5.0), cents(20.0)));
    assert_eq!(profile.get_price_preference("purchase"), Some((500, 2000)));
}

#[test]
fn cloned_profile_holds_the_same() {
    let mut profile = UserPreferenceVector::with_user_id("ana".to_string());
    profile.add_brand_preference("Starbucks".to_string());
    profile.preferences.price_preferences.insert("purchase".to_string(), (100, 200));
    profile.update_from_action(action("a", ride_to_work(), Some(PathType::Luxury), Some(5)));
    let copy = profile.clone();
    assert_eq!(format!("{:?}", copy), format!("{:?}", profile));
    assert_eq!(copy.get_price_preference("purchase"), Some((100, 200)));
    assert_eq!(copy.get_quality_preference("transportation"), QualityLevel::Luxury);
    assert_eq!(copy.history.len(), 1);
}
