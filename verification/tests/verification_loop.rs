use intention_engine::capability_registry::CapabilityRegistry;
use intention_engine::error::EngineError;
use intention_engine::intent_schema::{
    CoreIntent, DeliveryMethod, IntentSchema, PriorityLevel, PurchaseIntent, QueryIntent,
    ReservationIntent, ReservationType, ScheduleIntent, Sentiment, SentimentVibe,
    TransportationIntent, UrgencyLevel, VehicleType, Vibe,
};
use intention_engine::collections::StringMap;
use intention_engine::user_preferences::UserPreferenceVector;
use intention_engine::verification_loop::{ExecutionStep, LifePath, PathType, VerificationLoop};

/// An amount given in units, as cents.
fn cents(units: f64) -> u64 {
    (units * 100.0).round() as u64
}

fn schema(core_intent: CoreIntent, raw_input: &str) -> IntentSchema {
    IntentSchema {
        core_intent,
        temporal_constraints: None,
        budget_constraints: None,
        preference_constraints: None,
        sentiment_vibe: SentimentVibe {
            sentiment: Sentiment::Neutral,
            vibe: Vibe::Efficient,
            urgency_level: UrgencyLevel::Medium,
        },
        confidence: 90,
        raw_input: raw_input.to_string(),
    }
}

fn ride(max_cost: Option<f64>) -> IntentSchema {
    schema(
        CoreIntent::TransportationRequest(TransportationIntent {
            pickup_location: "Downtown".to_string(),
            destination: "Airport".to_string(),
            departure_time: Some("14:30".to_string()),
            vehicle_preference: Some(VehicleType::Standard),
            max_cost: max_cost.map(cents),
        }),
        "Get me an Uber from downtown to the airport",
    )
}

fn parameter<'a>(step: &'a ExecutionStep, key: &str) -> Option<&'a str> {
    step.parameters.get(key).map(|value| value.as_str())
}

fn kinds(paths: &[LifePath]) -> Vec<PathType> {
    paths.iter().map(|path| path.path_type).collect()
}

#[test]
fn test_generate_paths_for_transportation() {
    let registry = CapabilityRegistry::new();
    let verification_loop = VerificationLoop::new(registry);
    let user_prefs = UserPreferenceVector::new();

    // Create a transportation intent
    let transport_intent = TransportationIntent {
        pickup_location: "Downtown".to_string(),
        destination: "Airport".to_string(),
        departure_time: Some("14:30".to_string()),
        vehicle_preference: Some(VehicleType::Standard),
        max_cost: Some(cents(50.0)),
    };

    let intent = IntentSchema {
        core_intent: CoreIntent::TransportationRequest(transport_intent),
        temporal_constraints: None,
        budget_constraints: None,
        preference_constraints: None,
        sentiment_vibe: SentimentVibe {
            sentiment: Sentiment::Neutral,
            vibe: Vibe::Efficient,
            urgency_level: UrgencyLevel::Medium,
        },
        confidence: 90,
        raw_input: "Get me an Uber from downtown to the airport".to_string(),
    };

    let paths = verification_loop.generate_paths(&intent, &user_prefs).unwrap();

    assert_eq!(paths.len(), 3); // Should have 3 paths: Efficiency, Luxury, Discovery
    assert!(paths.iter().any(|p| matches!(p.path_type, PathType::Efficiency)));
    assert!(paths.iter().any(|p| matches!(p.path_type, PathType::Luxury)));
    assert!(paths.iter().any(|p| matches!(p.path_type, PathType::Discovery)));
}

#[test]
fn three_plans_in_fixed_order_with_confidence_in_range() {
    let generator = VerificationLoop::new(CapabilityRegistry::new());
    let profile = UserPreferenceVector::new();
    let requests = vec![
        ride(Some(50.0)),
        schema(
            CoreIntent::BookReservation(ReservationIntent {
                reservation_type: ReservationType::Restaurant,
                location: Some("Luigi's".to_string()),
                party_size: Some(4),
                preferred_time: Some("19:00".to_string()),
                special_requests: vec![],
            }),
            "table for four",
        ),
        schema(
            CoreIntent::ScheduleEvent(ScheduleIntent {
                event_title: "Review".to_string(),
                start_time: "10:00".to_string(),
                end_time: "11:00".to_string(),
                location: None,
                attendees: vec![],
                priority: PriorityLevel::Low,
            }),
            "schedule review",
        ),
        schema(
            CoreIntent::PurchaseItem(PurchaseIntent {
                item_description: "headphones".to_string(),
                quantity: 2,
                max_price: Some(cents(100.0)),
                delivery_preference: Some(DeliveryMethod::Standard),
            }),
            "buy headphones",
        ),
    ];
    for request in &requests {
        let paths = generator.generate_paths(request, &profile).unwrap();
        assert_eq!(
            kinds(&paths),
            vec![PathType::Efficiency, PathType::Luxury, PathType::Discovery]
        );
        for path in &paths {
            assert!(path.confidence <= 100);
            assert!(!path.steps.is_empty());
        }
    }
}

#[test]
fn generation_is_repeatable() {
    let generator = VerificationLoop::new(CapabilityRegistry::new());
    let profile = UserPreferenceVector::new();
    let request = ride(Some(50.0));
    let first = generator.generate_paths(&request, &profile).unwrap();
    let second = generator.generate_paths(&request, &profile).unwrap();
    assert_eq!(format!("{:?}", first), format!("{:?}", second));
}

#[test]
fn generation_ignores_the_profile() {
    let generator = VerificationLoop::new(CapabilityRegistry::new());
    let request = ride(Some(50.0));
    let plain = UserPreferenceVector::new();
    let mut seasoned = UserPreferenceVector::with_user_id("someone".to_string());
    seasoned.add_brand_preference("Starbucks".to_string());
    let first = generator.generate_paths(&request, &plain).unwrap();
    let second = generator.generate_paths(&request, &seasoned).unwrap();
    assert_eq!(format!("{:?}", first), format!("{:?}", second));
}

#[test]
fn ride_costs_scale_with_the_kind_of_plan() {
    let generator = VerificationLoop::new(CapabilityRegistry::new());
    let profile = UserPreferenceVector::new();
    let paths = generator.generate_paths(&ride(Some(50.0)), &profile).unwrap();
    assert_eq!(paths[0].estimated_cost, Some(cents(50.0)));
    assert_eq!(paths[1].estimated_cost, Some(cents(75.0)));
    assert_eq!(paths[2].estimated_cost, Some(cents(35.0)));
    assert_eq!(paths[0].estimated_time.as_deref(), Some("PT30M"));
    assert_eq!(paths[1].estimated_time.as_deref(), Some("PT30M"));
    assert_eq!(paths[2].estimated_time.as_deref(), Some("PT45M"));
    assert_eq!(paths[0].confidence, 90);
    assert_eq!(paths[1].confidence, 85);
    assert_eq!(paths[2].confidence, 80);
}

#[test]
fn ride_costs_round_down_to_whole_cents() {
    let generator = VerificationLoop::new(CapabilityRegistry::new());
    let profile = UserPreferenceVector::new();
    let paths = generator.generate_paths(&ride(Some(0.33)), &profile).unwrap();
    assert_eq!(paths[1].estimated_cost, Some(49));
    assert_eq!(paths[2].estimated_cost, Some(23));
}

#[test]
fn ride_without_cost_has_no_estimate() {
    let generator = VerificationLoop::new(CapabilityRegistry::new());
    let profile = UserPreferenceVector::new();
    let paths = generator.generate_paths(&ride(None), &profile).unwrap();
    assert_eq!(paths[0].estimated_cost, None);
    assert_eq!(paths[1].estimated_cost, None);
    assert_eq!(paths[2].estimated_cost, None);
}

#[test]
fn scaled_cost_is_held_at_the_largest_amount() {
    let generator = VerificationLoop::new(CapabilityRegistry::new());
    let profile = UserPreferenceVector::new();
    let mut request = ride(None);
    if let CoreIntent::TransportationRequest(ride) = &mut request.core_intent {
        ride.max_cost = Some(u64::MAX);
    }
    let paths = generator.generate_paths(&request, &profile).unwrap();
    assert_eq!(paths[1].estimated_cost, Some(u64::MAX));
    assert_eq!(paths[2].estimated_cost, Some(12912720851596686130));
}

#[test]
fn ride_steps_carry_the_parameters() {
    let generator = VerificationLoop::new(CapabilityRegistry::new());
    let profile = UserPreferenceVector::new();
    let paths = generator.generate_paths(&ride(Some(50.0)), &profile).unwrap();

    assert_eq!(paths[0].steps.len(), 1);
    let booking = &paths[0].steps[0];
    assert_eq!(booking.action, "book_transportation");
    assert_eq!(booking.capability, "uber");
    assert_eq!(booking.priority, PriorityLevel::High);
    assert_eq!(parameter(booking, "pickup_location"), Some("Downtown"));
    assert_eq!(parameter(booking, "destination"), Some("Airport"));
    assert_eq!(parameter(booking, "departure_time"), Some("14:30"));
    assert_eq!(parameter(booking, "vehicle_type"), Some("Standard"));
    assert_eq!(booking.parameters.len(), 4);

    assert_eq!(paths[1].steps.len(), 2);
    assert_eq!(paths[1].steps[0].action, "book_transportation");
    assert_eq!(parameter(&paths[1].steps[0], "vehicle_type"), Some("Luxury"));
    let upgrading = &paths[1].steps[1];
    assert_eq!(upgrading.action, "arrange_ride_amenities");
    assert_eq!(upgrading.capability, "concierge_service");
    assert_eq!(upgrading.priority, PriorityLevel::High);
    assert_eq!(parameter(upgrading, "ride_id"), Some("{{ride_id}}"));
    assert_eq!(parameter(upgrading, "service_type"), Some("premium_amenities"));
    assert_eq!(upgrading.parameters.len(), 2);

    assert_eq!(paths[2].steps.len(), 2);
    assert_eq!(parameter(&paths[2].steps[0], "vehicle_type"), Some("Pool"));
    let exploring = &paths[2].steps[1];
    assert_eq!(exploring.action, "explore_nearby");
    assert_eq!(exploring.capability, "local_discovery");
    assert_eq!(exploring.priority, PriorityLevel::Medium);
    assert_eq!(parameter(exploring, "location"), Some("Airport"));
    assert_eq!(parameter(exploring, "category"), Some("attractions"));
    assert_eq!(parameter(exploring, "radius"), Some("2000"));
}

#[test]
fn efficient_ride_without_vehicle_names_none() {
    let generator = VerificationLoop::new(CapabilityRegistry::new());
    let profile = UserPreferenceVector::new();
    let ride = TransportationIntent {
        pickup_location: "Home".to_string(),
        destination: "Work".to_string(),
        departure_time: None,
        vehicle_preference: None,
        max_cost: None,
    };
    let path = generator.generate_efficiency_transportation_path(&ride, &profile).unwrap();
    let booking = &path.steps[0];
    assert_eq!(parameter(booking, "vehicle_type"), None);
    assert_eq!(parameter(booking, "departure_time"), None);
    assert_eq!(booking.parameters.len(), 2);
}

#[test]
fn no_ride_plans_without_uber() {
    let mut registry = CapabilityRegistry::new();
    registry.update_availability("uber", false);
    let generator = VerificationLoop::new(registry);
    let profile = UserPreferenceVector::new();
    match generator.generate_paths(&ride(Some(50.0)), &profile) {
        Err(EngineError::NoViablePath) => {}
        other => panic!("unexpected outcome: {:?}", other),
    }
    assert!(generator.generate_efficiency_path(&ride(None), &profile).is_none());
    assert!(generator.generate_luxury_path(&ride(None), &profile).is_none());
    assert!(generator.generate_discovery_path(&ride(None), &profile).is_none());
}

#[test]
fn questions_and_custom_requests_have_no_plans() {
    let generator = VerificationLoop::new(CapabilityRegistry::new());
    let profile = UserPreferenceVector::new();
    let question = schema(
        CoreIntent::InformationQuery(QueryIntent {
            query_topic: "weather".to_string(),
            query_details: StringMap::new(),
        }),
        "what is the weather",
    );
    let custom = schema(CoreIntent::Custom("hello".to_string()), "hello");
    for request in [question, custom] {
        let outcome = generator.generate_paths(&request, &profile);
        assert!(matches!(outcome, Err(EngineError::NoViablePath)));
        assert_eq!(
            outcome.unwrap_err().message(),
            "Could not generate any viable paths for the given intent"
        );
    }
}

#[test]
fn reservation_plans() {
    let generator = VerificationLoop::new(CapabilityRegistry::new());
    let profile = UserPreferenceVector::new();
    let reservation = ReservationIntent {
        reservation_type: ReservationType::Restaurant,
        location: Some("Luigi's".to_string()),
        party_size: Some(12),
        preferred_time: Some("19:00".to_string()),
        special_requests: vec![],
    };

    let efficient = generator.generate_efficiency_reservation_path(&reservation, &profile).unwrap();
    assert_eq!(efficient.path_type, PathType::Efficiency);
    assert_eq!(efficient.estimated_cost, None);
    assert_eq!(efficient.estimated_time.as_deref(), Some("PT1H"));
    assert_eq!(efficient.confidence, 90);
    let booking = &efficient.steps[0];
    assert_eq!(booking.action, "book_reservation");
    assert_eq!(booking.capability, "opentable");
    assert_eq!(parameter(booking, "reservation_type"), Some("Restaurant"));
    assert_eq!(parameter(booking, "location"), Some("Luigi's"));
    assert_eq!(parameter(booking, "party_size"), Some("12"));
    assert_eq!(parameter(booking, "preferred_time"), Some("19:00"));
    assert_eq!(parameter(booking, "preference"), None);

    let luxurious = generator.generate_luxury_reservation_path(&reservation, &profile).unwrap();
    assert_eq!(luxurious.estimated_cost, None);
    assert_eq!(luxurious.estimated_time.as_deref(), Some("PT2H"));
    assert_eq!(luxurious.confidence, 85);
    assert_eq!(luxurious.steps.len(), 2);
    assert_eq!(luxurious.steps[0].action, "book_reservation");
    assert_eq!(parameter(&luxurious.steps[0], "preference"), Some("premium"));
    let upgrading = &luxurious.steps[1];
    assert_eq!(upgrading.action, "arrange_premium_seating");
    assert_eq!(upgrading.capability, "concierge_service");
    assert_eq!(upgrading.priority, PriorityLevel::High);
    assert_eq!(parameter(upgrading, "reservation_id"), Some("{{reservation_id}}"));
    assert_eq!(parameter(upgrading, "service_type"), Some("premium_seating"));

    let exploring = generator.generate_discovery_reservation_path(&reservation, &profile).unwrap();
    assert_eq!(exploring.estimated_time.as_deref(), Some("PT2H30M"));
    assert_eq!(exploring.confidence, 80);
    assert_eq!(parameter(&exploring.steps[0], "preference"), Some("experimental"));
    let discovering = &exploring.steps[1];
    assert_eq!(discovering.action, "discover_cuisine");
    assert_eq!(discovering.capability, "cuisine_discovery");
    assert_eq!(parameter(discovering, "cuisine_type"), Some("unknown"));
    assert_eq!(parameter(discovering, "location"), Some("Luigi's"));
}

#[test]
fn reservation_without_details() {
    let generator = VerificationLoop::new(CapabilityRegistry::new());
    let profile = UserPreferenceVector::new();
    let reservation = ReservationIntent {
        reservation_type: ReservationType::Hotel,
        location: None,
        party_size: None,
        preferred_time: None,
        special_requests: vec![],
    };
    let exploring = generator.generate_discovery_reservation_path(&reservation, &profile).unwrap();
    assert_eq!(parameter(&exploring.steps[0], "reservation_type"), Some("Hotel"));
    assert_eq!(exploring.steps[0].parameters.len(), 2);
    assert_eq!(parameter(&exploring.steps[1], "location"), Some(""));

    let mut registry = CapabilityRegistry::new();
    registry.update_availability("opentable", false);
    let closed = VerificationLoop::new(registry);
    assert!(closed.generate_efficiency_reservation_path(&reservation, &profile).is_none());
    assert!(closed.generate_luxury_reservation_path(&reservation, &profile).is_none());
    assert!(closed.generate_discovery_reservation_path(&reservation, &profile).is_none());
}

#[test]
fn scheduling_plans() {
    let generator = VerificationLoop::new(CapabilityRegistry::new());
    let profile = UserPreferenceVector::new();
    let event = ScheduleIntent {
        event_title: "Quarterly review".to_string(),
        start_time: "10:00".to_string(),
        end_time: "11:00".to_string(),
        location: Some("Room 4".to_string()),
        attendees: vec!["Ana".to_string()],
        priority: PriorityLevel::Critical,
    };

    let efficient = generator.generate_efficiency_scheduling_path(&event, &profile).unwrap();
    assert_eq!(efficient.estimated_cost, Some(0));
    assert_eq!(efficient.estimated_time.as_deref(), Some("PT5M"));
    assert_eq!(efficient.confidence, 95);
    let entry = &efficient.steps[0];
    assert_eq!(entry.action, "create_calendar_event");
    assert_eq!(entry.capability, "calendar");
    assert_eq!(entry.priority, PriorityLevel::Critical);
    assert_eq!(parameter(entry, "event_title"), Some("Quarterly review"));
    assert_eq!(parameter(entry, "start_time"), Some("10:00"));
    assert_eq!(parameter(entry, "end_time"), Some("11:00"));
    assert_eq!(parameter(entry, "location"), Some("Room 4"));

    let luxurious = generator.generate_luxury_scheduling_path(&event, &profile).unwrap();
    // one and a half times the cost of the efficient entry, which is free
    assert_eq!(luxurious.estimated_cost, Some(cents(0.0)));
    assert_eq!(luxurious.steps.len(), 2);
    assert_eq!(luxurious.estimated_time.as_deref(), Some("PT10M"));
    assert_eq!(luxurious.confidence, 90);
    let concierge = &luxurious.steps[1];
    assert_eq!(concierge.action, "coordinate_luxury_services");
    assert_eq!(concierge.capability, "concierge_service");
    assert_eq!(concierge.priority, PriorityLevel::High);
    assert_eq!(parameter(concierge, "event_id"), Some("{{event_id}}"));
    assert_eq!(parameter(concierge, "service_type"), Some("concierge"));

    let exploring = generator.generate_discovery_scheduling_path(&event, &profile).unwrap();
    assert_eq!(exploring.estimated_cost, Some(0));
    assert_eq!(exploring.estimated_time.as_deref(), Some("PT15M"));
    assert_eq!(exploring.confidence, 85);
    let related = &exploring.steps[1];
    assert_eq!(related.action, "discover_related_activities");
    assert_eq!(related.capability, "activity_discovery");
    assert_eq!(parameter(related, "event_topic"), Some("Quarterly review"));
    assert_eq!(parameter(related, "location"), Some("Room 4"));

    let mut registry = CapabilityRegistry::new();
    registry.update_availability("calendar", false);
    let closed = VerificationLoop::new(registry);
    assert!(closed.generate_efficiency_scheduling_path(&event, &profile).is_none());
    assert!(closed.generate_luxury_scheduling_path(&event, &profile).is_none());
    assert!(closed.generate_discovery_scheduling_path(&event, &profile).is_none());
}

#[test]
fn purchase_plans() {
    let mut registry = CapabilityRegistry::new();
    registry.update_availability("uber", false);
    registry.update_availability("opentable", false);
    registry.update_availability("calendar", false);
    let generator = VerificationLoop::new(registry);
    let profile = UserPreferenceVector::new();
    let purchase = PurchaseIntent {
        item_description: "headphones".to_string(),
        quantity: 2,
        max_price: Some(cents(18.5)),
        delivery_preference: None,
    };

    let efficient = generator.generate_efficiency_purchase_path(&purchase, &profile).unwrap();
    assert_eq!(efficient.estimated_cost, Some(1850));
    assert_eq!(efficient.estimated_time.as_deref(), Some("PT2H"));
    assert_eq!(efficient.confidence, 90);
    assert_eq!(efficient.steps.len(), 1);
    let buying = &efficient.steps[0];
    assert_eq!(buying.action, "purchase_item");
    assert_eq!(buying.capability, "ecommerce_platform");
    assert_eq!(parameter(buying, "item_description"), Some("headphones"));
    assert_eq!(parameter(buying, "quantity"), Some("2"));
    assert_eq!(parameter(buying, "max_price"), Some("18.5"));

    let luxurious = generator.generate_luxury_purchase_path(&purchase, &profile).unwrap();
    assert_eq!(luxurious.estimated_cost, Some(3145));
    assert_eq!(luxurious.estimated_time.as_deref(), Some("PT1H"));
    assert_eq!(luxurious.confidence, 80);
    assert_eq!(luxurious.steps[0].capability, "premium_ecommerce");
    assert_eq!(parameter(&luxurious.steps[0], "max_price"), Some("27.75"));
    let delivering = &luxurious.steps[1];
    assert_eq!(delivering.action, "arrange_premium_delivery");
    assert_eq!(delivering.capability, "premium_delivery");
    assert_eq!(parameter(delivering, "item_id"), Some("{{item_id}}"));
    assert_eq!(parameter(delivering, "delivery_type"), Some("express_premium"));

    let exploring = generator.generate_discovery_purchase_path(&purchase, &profile).unwrap();
    assert_eq!(exploring.estimated_cost, Some(1850));
    assert_eq!(exploring.estimated_time.as_deref(), Some("PT24H"));
    assert_eq!(exploring.confidence, 75);
    assert_eq!(exploring.steps[0].capability, "discovery_ecommerce");
    assert_eq!(parameter(&exploring.steps[0], "max_price"), Some("18.5"));
    let similar = &exploring.steps[1];
    assert_eq!(similar.action, "discover_similar_items");
    assert_eq!(similar.capability, "recommendation_engine");
    assert_eq!(parameter(similar, "item_category"), Some("headphones"));
    assert_eq!(parameter(similar, "user_preferences"), Some("exploration"));
}

#[test]
fn purchase_without_price() {
    let generator = VerificationLoop::new(CapabilityRegistry::new());
    let profile = UserPreferenceVector::new();
    let purchase = PurchaseIntent {
        item_description: "socks".to_string(),
        quantity: 4000000000,
        max_price: None,
        delivery_preference: None,
    };
    let luxurious = generator.generate_luxury_purchase_path(&purchase, &profile).unwrap();
    assert_eq!(luxurious.estimated_cost, None);
    assert_eq!(parameter(&luxurious.steps[0], "max_price"), None);
    assert_eq!(parameter(&luxurious.steps[0], "quantity"), Some("4000000000"));
}

#[test]
fn cloned_plan_is_equal() {
    let generator = VerificationLoop::new(CapabilityRegistry::new());
    let profile = UserPreferenceVector::new();
    let paths = generator.generate_paths(&ride(Some(50.0)), &profile).unwrap();
    let copy = paths[2].clone();
    assert_eq!(format!("{:?}", copy), format!("{:?}", paths[2]));
}

#[test]
fn luxurious_and_exploring_plans_add_one_step_to_the_baseline() {
    let generator = VerificationLoop::new(CapabilityRegistry::new());
    let profile = UserPreferenceVector::new();
    let requests = vec![
        ride(Some(50.0)),
        schema(
            CoreIntent::BookReservation(ReservationIntent {
                reservation_type: ReservationType::Hotel,
                location: None,
                party_size: None,
                preferred_time: None,
                special_requests: vec![],
            }),
            "a room",
        ),
        schema(
            CoreIntent::ScheduleEvent(ScheduleIntent {
                event_title: "Review".to_string(),
                start_time: "10:00".to_string(),
                end_time: "11:00".to_string(),
                location: None,
                attendees: vec![],
                priority: PriorityLevel::Low,
            }),
            "schedule review",
        ),
        schema(
            CoreIntent::PurchaseItem(PurchaseIntent {
                item_description: "headphones".to_string(),
                quantity: 1,
                max_price: Some(cents(10.0)),
                delivery_preference: None,
            }),
            "buy headphones",
        ),
    ];
    for request in &requests {
        let paths = generator.generate_paths(request, &profile).unwrap();
        assert_eq!(paths[0].steps.len(), 1);
        assert_eq!(paths[1].steps.len(), 2);
        assert_eq!(paths[2].steps.len(), 2);
        assert_eq!(paths[1].steps[0].action, paths[0].steps[0].action);
        assert_eq!(paths[2].steps[0].action, paths[0].steps[0].action);
        assert!((90..=95).contains(&paths[0].confidence));
        assert!((80..=90).contains(&paths[1].confidence));
        assert!((75..=85).contains(&paths[2].confidence));
    }
}

#[test]
fn luxurious_cost_is_the_baseline_cost_scaled() {
    let generator = VerificationLoop::new(CapabilityRegistry::new());
    let profile = UserPreferenceVector::new();
    let event = schema(
        CoreIntent::ScheduleEvent(ScheduleIntent {
            event_title: "Review".to_string(),
            start_time: "10:00".to_string(),
            end_time: "11:00".to_string(),
            location: None,
            attendees: vec![],
            priority: PriorityLevel::Low,
        }),
        "schedule review",
    );
    let paths = generator.generate_paths(&event, &profile).unwrap();
    assert_eq!(paths[0].estimated_cost, Some(0));
    assert_eq!(paths[1].estimated_cost, Some(0));
    assert_eq!(paths[2].estimated_cost, Some(0));

    let purchase = schema(
        CoreIntent::PurchaseItem(PurchaseIntent {
            item_description: "headphones".to_string(),
            quantity: 1,
            max_price: Some(cents(10.0)),
            delivery_preference: None,
        }),
        "buy headphones",
    );
    let paths = generator.generate_paths(&purchase, &profile).unwrap();
    assert_eq!(paths[0].estimated_cost, Some(cents(10.0)));
    assert_eq!(paths[1].estimated_cost, Some(cents(17.0)));
    assert_eq!(paths[2].estimated_cost, Some(cents(10.0)));
}
