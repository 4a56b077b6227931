//! The directory of outside services (capabilities) that plans may use, with
//! their availability and the parameters they take.

use crate::collections::{lemma_entries_view, StringMap};
use crate::error::{EngineError, EngineErrorView};
use crate::text::{clone_strings, lowercase_of, str_eq, string_list, to_lowercase};
use vstd::prelude::*;
use vstd::string::*;

verus! {

/// A third-party service that a plan can call.
#[derive(Debug)]
pub struct Capability {
    pub name: String,
    pub description: String,
    pub available: bool,
    pub api_endpoint: String,
    pub required_params: Vec<String>,
    pub optional_params: Vec<String>,
    /// Requests per minute, where the service sets a limit.
    pub rate_limit: Option<u32>,
    pub authentication_required: bool,
}

/// Model of a `Capability`.
pub struct CapabilityView {
    pub name: Seq<char>,
    pub description: Seq<char>,
    pub available: bool,
    pub api_endpoint: Seq<char>,
    pub required_params: Seq<Seq<char>>,
    pub optional_params: Seq<Seq<char>>,
    pub rate_limit: Option<u32>,
    pub authentication_required: bool,
}

impl View for Capability {
    type V = CapabilityView;

    open spec fn view(&self) -> CapabilityView {
        CapabilityView {
            name: self.name@,
            description: self.description@,
            available: self.available,
            api_endpoint: self.api_endpoint@,
            required_params: self.required_params.deep_view(),
            optional_params: self.optional_params.deep_view(),
            rate_limit: self.rate_limit,
            authentication_required: self.authentication_required,
        }
    }
}

impl DeepView for Capability {
    type V = CapabilityView;

    open spec fn deep_view(&self) -> CapabilityView {
        self.view()
    }
}

impl Clone for Capability {
    fn clone(&self) -> (copy: Self)
        ensures
            copy@ == self@,
    {
        Capability {
            name: self.name.clone(),
            description: self.description.clone(),
            available: self.available,
            api_endpoint: self.api_endpoint.clone(),
            required_params: clone_strings(&self.required_params),
            optional_params: clone_strings(&self.optional_params),
            rate_limit: self.rate_limit,
            authentication_required: self.authentication_required,
        }
    }
}

impl CapabilityView {
    /// The same capability with another availability.
    pub open spec fn with_availability(self, available: bool) -> CapabilityView {
        CapabilityView { available, ..self }
    }
}

/// The ride service that a fresh registry holds under `uber`.
pub open spec fn uber_capability() -> CapabilityView {
    CapabilityView {
        name: "Uber"@,
        description: "Transportation service for booking rides"@,
        available: true,
        api_endpoint: "https://api.uber.com/v1"@,
        required_params: seq![
            "pickup_latitude"@,
            "pickup_longitude"@,
            "destination_latitude"@,
            "destination_longitude"@,
        ],
        optional_params: seq!["product_id"@, "surge_confirmation_id"@, "payment_method_id"@],
        rate_limit: Some(100u32),
        authentication_required: true,
    }
}

/// The restaurant service that a fresh registry holds under `opentable`.
pub open spec fn opentable_capability() -> CapabilityView {
    CapabilityView {
        name: "OpenTable"@,
        description: "Restaurant reservation service"@,
        available: true,
        api_endpoint: "https://opentable.herokuapp.com/api"@,
        required_params: seq!["date"@, "time"@, "party_size"@, "postal_code"@],
        optional_params: seq!["restaurant_id"@, "neighborhood_id"@, "cuisine"@],
        rate_limit: Some(1000u32),
        authentication_required: false,
    }
}

/// The calendar service that a fresh registry holds under `calendar`.
pub open spec fn calendar_capability() -> CapabilityView {
    CapabilityView {
        name: "Calendar"@,
        description: "Calendar service for scheduling events"@,
        available: true,
        api_endpoint: "https://www.googleapis.com/calendar/v3"@,
        required_params: seq!["event_title"@, "start_time"@, "end_time"@],
        optional_params: seq!["attendees"@, "location"@, "description"@],
        rate_limit: Some(1000u32),
        authentication_required: true,
    }
}

/// The weather service that a fresh registry holds under `weather`.
pub open spec fn weather_capability() -> CapabilityView {
    CapabilityView {
        name: "Weather"@,
        description: "Weather information service"@,
        available: true,
        api_endpoint: "https://api.openweathermap.org/data/2.5"@,
        required_params: seq!["city"@],
        optional_params: seq!["country"@, "units"@],
        rate_limit: Some(60u32),
        authentication_required: true,
    }
}

/// The mail service that a fresh registry holds under `email`.
pub open spec fn email_capability() -> CapabilityView {
    CapabilityView {
        name: "Email"@,
        description: "Email sending service"@,
        available: true,
        api_endpoint: "smtp://email-service.com"@,
        required_params: seq!["to"@, "subject"@, "body"@],
        optional_params: seq!["cc"@, "bcc"@, "attachments"@],
        rate_limit: Some(500u32),
        authentication_required: true,
    }
}

/// A directory after the five default services were registered in it.
pub open spec fn with_default_capabilities(directory: Map<Seq<char>, CapabilityView>) -> Map<
    Seq<char>,
    CapabilityView,
> {
    directory.insert("uber"@, uber_capability()).insert(
        "opentable"@,
        opentable_capability(),
    ).insert("calendar"@, calendar_capability()).insert("weather"@, weather_capability()).insert(
        "email"@,
        email_capability(),
    )
}

/// The entries of a fresh registry, in the order in which they are
/// registered.
pub open spec fn default_entries() -> Seq<(Seq<char>, CapabilityView)> {
    seq![
        ("uber"@, uber_capability()),
        ("opentable"@, opentable_capability()),
        ("calendar"@, calendar_capability()),
        ("weather"@, weather_capability()),
        ("email"@, email_capability()),
    ]
}

/// The keys of a list of entries.
pub open spec fn entry_names(entries: Seq<(Seq<char>, CapabilityView)>) -> Seq<Seq<char>> {
    Seq::new(entries.len(), |i: int| entries[i].0)
}

/// A list of entries after `capability` was registered under `key`: in the
/// place of the entry that had the key, or at the end where none had it.
pub open spec fn registered(
    entries: Seq<(Seq<char>, CapabilityView)>,
    key: Seq<char>,
    capability: CapabilityView,
) -> Seq<(Seq<char>, CapabilityView)> {
    if entry_names(entries).contains(key) {
        entries.update(entry_names(entries).index_of(key), (key, capability))
    } else {
        entries.push((key, capability))
    }
}

/// The capabilities that a kind of intent needs, by the kind's lowercase name.
pub open spec fn required_capabilities(intent_kind: Seq<char>) -> Seq<Seq<char>> {
    if intent_kind == "transportationrequest"@ {
        seq!["uber"@]
    } else if intent_kind == "reservationintent"@ {
        seq!["opentable"@]
    } else if intent_kind == "scheduleintent"@ {
        seq!["calendar"@]
    } else if intent_kind == "weatherquery"@ {
        seq!["weather"@]
    } else {
        Seq::empty()
    }
}

/// The keys of the default capabilities differ from one another.
pub proof fn lemma_default_names_differ()
    ensures
        "uber"@ != "opentable"@,
        "uber"@ != "calendar"@,
        "uber"@ != "weather"@,
        "uber"@ != "email"@,
        "opentable"@ != "calendar"@,
        "opentable"@ != "weather"@,
        "opentable"@ != "email"@,
        "calendar"@ != "weather"@,
        "calendar"@ != "email"@,
        "weather"@ != "email"@,
{
    reveal_strlit("uber");
    reveal_strlit("opentable");
    reveal_strlit("calendar");
    reveal_strlit("weather");
    reveal_strlit("email");
    assert("uber"@.len() == 4);
    assert("opentable"@.len() == 9);
    assert("calendar"@.len() == 8);
    assert("weather"@.len() == 7);
    assert("email"@.len() == 5);
}

/// What each kind of intent needs: a ride needs `uber`, a reservation
/// `opentable`, an event `calendar`, a weather question `weather`; a
/// purchase, a question and a custom request need nothing.
pub proof fn lemma_requirements_by_kind()
    ensures
        required_capabilities("transportationrequest"@) == seq!["uber"@],
        required_capabilities("reservationintent"@) == seq!["opentable"@],
        required_capabilities("scheduleintent"@) == seq!["calendar"@],
        required_capabilities("weatherquery"@) == seq!["weather"@],
        required_capabilities("purchaseitem"@) == Seq::<Seq<char>>::empty(),
        required_capabilities("informationquery"@) == Seq::<Seq<char>>::empty(),
        required_capabilities("custom"@) == Seq::<Seq<char>>::empty(),
{
    reveal_strlit("transportationrequest");
    reveal_strlit("reservationintent");
    reveal_strlit("scheduleintent");
    reveal_strlit("weatherquery");
    reveal_strlit("purchaseitem");
    reveal_strlit("informationquery");
    reveal_strlit("custom");
    assert("transportationrequest"@.len() == 21);
    assert("reservationintent"@.len() == 17);
    assert("scheduleintent"@.len() == 14);
    assert("weatherquery"@.len() == 12);
    assert("purchaseitem"@.len() == 12);
    assert("informationquery"@.len() == 16);
    assert("custom"@.len() == 6);
    assert("weatherquery"@[0] != "purchaseitem"@[0]);
}

/// Whether `directory` lists `name` as available.
pub open spec fn available_in(directory: Map<Seq<char>, CapabilityView>, name: Seq<char>) -> bool {
    directory.contains_key(name) && directory[name].available
}

/// The first of `names` that `directory` does not list as available.
pub open spec fn first_unavailable(
    directory: Map<Seq<char>, CapabilityView>,
    names: Seq<Seq<char>>,
) -> Option<Seq<char>>
    decreases names.len(),
{
    if names.len() == 0 {
        None
    } else if !available_in(directory, names[0]) {
        Some(names[0])
    } else {
        first_unavailable(directory, names.skip(1))
    }
}

/// The names of the capabilities that a kind of intent needs.
pub fn required_capability_names(intent_kind: &str) -> (names: Vec<String>)
    ensures
        names.deep_view() == required_capabilities(intent_kind@),
{
    let names = if str_eq(intent_kind, "transportationrequest") {
        string_list(&["uber"])
    } else if str_eq(intent_kind, "reservationintent") {
        string_list(&["opentable"])
    } else if str_eq(intent_kind, "scheduleintent") {
        string_list(&["calendar"])
    } else if str_eq(intent_kind, "weatherquery") {
        string_list(&["weather"])
    } else {
        string_list(&[])
    };
    assert(names.deep_view() =~= required_capabilities(intent_kind@));
    names
}

/// Registry of the capabilities that the engine knows.
#[derive(Debug)]
pub struct CapabilityRegistry {
    capabilities: StringMap<Capability>,
}

impl View for CapabilityRegistry {
    type V = Map<Seq<char>, CapabilityView>;

    /// The directory: each registered key with its capability.
    closed spec fn view(&self) -> Map<Seq<char>, CapabilityView> {
        self.capabilities@
    }
}

impl CapabilityRegistry {
    /// The registered keys with their capabilities, in order of registration.
    pub closed spec fn entries(self) -> Seq<(Seq<char>, CapabilityView)> {
        Seq::new(
            self.capabilities.key_seq().len(),
            |i: int| (self.capabilities.key_seq()[i], self.capabilities.value_seq()[i]@),
        )
    }

    /// What holds of every registry: `entries` lists each key of the
    /// directory once, with the capability that the directory gives it.
    pub open spec fn is_consistent(self) -> bool {
        &&& forall|i: int, j: int|
            0 <= i < j < self.entries().len() ==> self.entries()[i].0 != self.entries()[j].0
        &&& forall|i: int|
            0 <= i < self.entries().len() ==> self@.contains_key(#[trigger] self.entries()[i].0)
                && self@[self.entries()[i].0] == self.entries()[i].1
        &&& forall|key: Seq<char>|
            self@.contains_key(key) ==> exists|i: int|
                0 <= i < self.entries().len() && #[trigger] self.entries()[i].0 == key
    }

    /// Whether the registry lists `name` as available.
    pub open spec fn spec_is_available(self, name: Seq<char>) -> bool {
        available_in(self@, name)
    }

    proof fn lemma_registered(self, before: Self, key: Seq<char>, capability: Capability)
        requires
            before.capabilities.is_consistent(),
            before.capabilities.key_seq().contains(key) ==> self.capabilities.key_seq()
                == before.capabilities.key_seq() && self.capabilities.value_seq()
                == before.capabilities.value_seq().update(
                before.capabilities.key_seq().index_of(key),
                capability,
            ),
            !before.capabilities.key_seq().contains(key) ==> self.capabilities.key_seq()
                == before.capabilities.key_seq().push(key) && self.capabilities.value_seq()
                == before.capabilities.value_seq().push(capability),
        ensures
            self.entries() == registered(before.entries(), key, capability@),
    {
        let keys = before.capabilities.key_seq();
        assert(entry_names(before.entries()) =~= keys);
        if keys.contains(key) {
            let at = keys.index_of(key);
            assert(keys[at] == key);
            assert(self.entries() =~= before.entries().update(at, (key, capability@)));
        } else {
            assert(self.entries() =~= before.entries().push((key, capability@)));
        }
    }

    proof fn lemma_consistent(self)
        requires
            self.capabilities.is_consistent(),
        ensures
            self.is_consistent(),
    {
        lemma_entries_view(self.capabilities);
        let keys = self.capabilities.key_seq();
        assert forall|key: Seq<char>| self@.contains_key(key) implies exists|i: int|
            0 <= i < self.entries().len() && #[trigger] self.entries()[i].0 == key by {
            let i = keys.index_of(key);
            assert(keys[i] == key);
            assert(self.entries()[i].0 == key);
        }
    }

    /// A registry with the default capabilities.
    pub fn new() -> (registry: Self)
        ensures
            registry@ == with_default_capabilities(Map::empty()),
            registry.entries() == default_entries(),
            registry.is_consistent(),
    {
        let mut registry = CapabilityRegistry { capabilities: StringMap::new() };
        assert(registry.entries() =~= Seq::empty());
        registry.register_default_capabilities();
        registry
    }

    /// Registers the default capabilities: rides, restaurant reservations,
    /// calendar, weather and mail, all available.
    pub fn register_default_capabilities(&mut self)
        ensures
            final(self)@ == with_default_capabilities(old(self)@),
            final(self).entries() == registered(
                registered(
                    registered(
                        registered(
                            registered(old(self).entries(), "uber"@, uber_capability()),
                            "opentable"@,
                            opentable_capability(),
                        ),
                        "calendar"@,
                        calendar_capability(),
                    ),
                    "weather"@,
                    weather_capability(),
                ),
                "email"@,
                email_capability(),
            ),
            old(self).entries().len() == 0 ==> final(self).entries() == default_entries(),
            final(self).is_consistent(),
    {
        let uber = Capability {
            name: String::from_str("Uber"),
            description: String::from_str("Transportation service for booking rides"),
            available: true,
            api_endpoint: String::from_str("https://api.uber.com/v1"),
            required_params: string_list(
                &[
                    "pickup_latitude",
                    "pickup_longitude",
                    "destination_latitude",
                    "destination_longitude",
                ],
            ),
            optional_params: string_list(
                &["product_id", "surge_confirmation_id", "payment_method_id"],
            ),
            rate_limit: Some(100),
            authentication_required: true,
        };
        assert(uber.required_params.deep_view() =~= uber_capability().required_params);
        assert(uber.optional_params.deep_view() =~= uber_capability().optional_params);
        let ghost before_uber = *self;
        self.capabilities.insert(String::from_str("uber"), uber);
        proof {
            self.lemma_registered(before_uber, "uber"@, uber);
        }

        let opentable = Capability {
            name: String::from_str("OpenTable"),
            description: String::from_str("Restaurant reservation service"),
            available: true,
            api_endpoint: String::from_str("https://opentable.herokuapp.com/api"),
            required_params: string_list(&["date", "time", "party_size", "postal_code"]),
            optional_params: string_list(&["restaurant_id", "neighborhood_id", "cuisine"]),
            rate_limit: Some(1000),
            authentication_required: false,
        };
        assert(opentable.required_params.deep_view() =~= opentable_capability().required_params);
        assert(opentable.optional_params.deep_view() =~= opentable_capability().optional_params);
        let ghost before_opentable = *self;
        self.capabilities.insert(String::from_str("opentable"), opentable);
        proof {
            self.lemma_registered(before_opentable, "opentable"@, opentable);
        }

        let calendar = Capability {
            name: String::from_str("Calendar"),
            description: String::from_str("Calendar service for scheduling events"),
            available: true,
            api_endpoint: String::from_str("https://www.googleapis.com/calendar/v3"),
            required_params: string_list(&["event_title", "start_time", "end_time"]),
            optional_params: string_list(&["attendees", "location", "description"]),
            rate_limit: Some(1000),
            authentication_required: true,
        };
        assert(calendar.required_params.deep_view() =~= calendar_capability().required_params);
        assert(calendar.optional_params.deep_view() =~= calendar_capability().optional_params);
        let ghost before_calendar = *self;
        self.capabilities.insert(String::from_str("calendar"), calendar);
        proof {
            self.lemma_registered(before_calendar, "calendar"@, calendar);
        }

        let weather = Capability {
            name: String::from_str("Weather"),
            description: String::from_str("Weather information service"),
            available: true,
            api_endpoint: String::from_str("https://api.openweathermap.org/data/2.5"),
            required_params: string_list(&["city"]),
            optional_params: string_list(&["country", "units"]),
            rate_limit: Some(60),
            authentication_required: true,
        };
        assert(weather.required_params.deep_view() =~= weather_capability().required_params);
        assert(weather.optional_params.deep_view() =~= weather_capability().optional_params);
        let ghost before_weather = *self;
        self.capabilities.insert(String::from_str("weather"), weather);
        proof {
            self.lemma_registered(before_weather, "weather"@, weather);
        }

        let email = Capability {
            name: String::from_str("Email"),
            description: String::from_str("Email sending service"),
            available: true,
            api_endpoint: String::from_str("smtp://email-service.com"),
            required_params: string_list(&["to", "subject", "body"]),
            optional_params: string_list(&["cc", "bcc", "attachments"]),
            rate_limit: Some(500),
            authentication_required: true,
        };
        assert(email.required_params.deep_view() =~= email_capability().required_params);
        assert(email.optional_params.deep_view() =~= email_capability().optional_params);
        let ghost before_email = *self;
        self.capabilities.insert(String::from_str("email"), email);
        proof {
            self.lemma_registered(before_email, "email"@, email);
            self.lemma_consistent();
            if old(self).entries().len() == 0 {
                lemma_default_names_differ();
                let first = registered(old(self).entries(), "uber"@, uber_capability());
                assert(entry_names(old(self).entries()) =~= Seq::empty());
                assert(first =~= seq![("uber"@, uber_capability())]);
                assert(entry_names(first) =~= seq!["uber"@]);
                let second = registered(first, "opentable"@, opentable_capability());
                assert(second =~= first.push(("opentable"@, opentable_capability())));
                assert(entry_names(second) =~= seq!["uber"@, "opentable"@]);
                let third = registered(second, "calendar"@, calendar_capability());
                assert(third =~= second.push(("calendar"@, calendar_capability())));
                assert(entry_names(third) =~= seq!["uber"@, "opentable"@, "calendar"@]);
                let fourth = registered(third, "weather"@, weather_capability());
                assert(fourth =~= third.push(("weather"@, weather_capability())));
                assert(entry_names(fourth) =~= seq![
                    "uber"@,
                    "opentable"@,
                    "calendar"@,
                    "weather"@,
                ]);
                let fifth = registered(fourth, "email"@, email_capability());
                assert(fifth =~= fourth.push(("email"@, email_capability())));
                assert(fifth =~= default_entries());
            }
        }
    }

    /// Whether a capability is registered under `capability_name` and is
    /// available.
    pub fn is_available(&self, capability_name: &str) -> (available: bool)
        ensures
            available == self.spec_is_available(capability_name@),
    {
        match self.capabilities.get(capability_name) {
            Some(capability) => capability.available,
            None => false,
        }
    }

    /// The capability registered under `capability_name`.
    pub fn get_capability(&self, capability_name: &str) -> (found: Option<&Capability>)
        ensures
            match found {
                Some(capability) => self@.contains_key(capability_name@) && capability@
                    == self@[capability_name@],
                None => !self@.contains_key(capability_name@),
            },
    {
        self.capabilities.get(capability_name)
    }

    /// The capabilities that are available, in order of registration.
    pub fn list_available_capabilities(&self) -> (list: Vec<&Capability>)
        ensures
            list.deep_view() == self.entries().filter(
                |entry: (Seq<char>, CapabilityView)| entry.1.available,
            ).map_values(|entry: (Seq<char>, CapabilityView)| entry.1),
            self.is_consistent(),
    {
        let ghost available = |entry: (Seq<char>, CapabilityView)| entry.1.available;
        let ghost second = |entry: (Seq<char>, CapabilityView)| entry.1;
        let mut list: Vec<&Capability> = Vec::new();
        let count = self.capabilities.len();
        let mut at: usize = 0;
        proof {
            self.lemma_consistent();
            assert(self.entries().take(0) =~= Seq::empty());
            assert(list.deep_view() =~= self.entries().take(0).filter(available).map_values(
                second,
            ));
        }
        while at < count
            invariant
                at <= count,
                count == self.entries().len(),
                count == self.capabilities.key_seq().len(),
                available == |entry: (Seq<char>, CapabilityView)| entry.1.available,
                second == |entry: (Seq<char>, CapabilityView)| entry.1,
                list.deep_view() == self.entries().take(at as int).filter(available).map_values(
                    second,
                ),
            decreases count - at,
        {
            let capability = self.capabilities.value_at(at);
            let ghost before = list.deep_view();
            let ghost seen = self.entries().take(at as int);
            proof {
                assert(self.entries().take(at + 1) =~= seen.push(self.entries()[at as int]));
                seen.lemma_filter_push(self.entries()[at as int], available);
            }
            if capability.available {
                list.push(capability);
                proof {
                    assert(list.deep_view() =~= before.push(capability@));
                    assert(seen.filter(available).push(self.entries()[at as int]).map_values(second)
                        =~= seen.filter(available).map_values(second).push(capability@));
                }
            }
            at += 1;
        }
        proof {
            assert(self.entries().take(count as int) =~= self.entries());
        }
        list
    }

    /// Registers a capability under the lowercase form of its name. A
    /// capability already registered under that key is replaced.
    pub fn register_capability(&mut self, capability: Capability)
        ensures
            final(self)@ == old(self)@.insert(lowercase_of(capability.name@), capability@),
            final(self).entries() == registered(
                old(self).entries(),
                lowercase_of(capability.name@),
                capability@,
            ),
            final(self).is_consistent(),
    {
        let key = to_lowercase(capability.name.as_str());
        let ghost name = key@;
        self.capabilities.insert(key, capability);
        proof {
            self.lemma_registered(*old(self), name, capability);
            self.lemma_consistent();
        }
    }

    /// Sets the availability of the capability registered under
    /// `capability_name`; does nothing where there is none.
    pub fn update_availability(&mut self, capability_name: &str, available: bool)
        ensures
            old(self)@.contains_key(capability_name@) ==> final(self)@ == old(self)@.insert(
                capability_name@,
                old(self)@[capability_name@].with_availability(available),
            ),
            !old(self)@.contains_key(capability_name@) ==> final(self)@ == old(self)@,
            old(self)@.contains_key(capability_name@) ==> final(self).entries() == registered(
                old(self).entries(),
                capability_name@,
                old(self)@[capability_name@].with_availability(available),
            ),
            !old(self)@.contains_key(capability_name@) ==> final(self).entries() == old(
                self,
            ).entries(),
            final(self).is_consistent(),
    {
        let updated = match self.capabilities.get(capability_name) {
            Some(capability) => {
                let mut copy = capability.clone();
                copy.available = available;
                Some(copy)
            },
            None => None,
        };
        match updated {
            Some(capability) => {
                self.capabilities.insert(String::from_str(capability_name), capability);
                proof {
                    self.lemma_registered(*old(self), capability_name@, capability);
                }
            },
            None => {
                assert(self.entries() =~= old(self).entries());
            },
        }
        proof {
            self.lemma_consistent();
        }
    }

    /// Checks the capabilities that a kind of intent needs, given the kind's
    /// lowercase name, and names the first that is not available.
    pub fn validate_required(&self, intent_kind: &str) -> (outcome: Result<(), EngineError>)
        ensures
            match first_unavailable(self@, required_capabilities(intent_kind@)) {
                Some(name) => outcome is Err && outcome->Err_0@
                    == EngineErrorView::CapabilityUnavailable(name),
                None => outcome is Ok,
            },
    {
        let names = required_capability_names(intent_kind);
        let ghost required = required_capabilities(intent_kind@);
        let mut at: usize = 0;
        assert(required.skip(0) =~= required);
        while at < names.len()
            invariant
                at <= names.len(),
                names.deep_view() == required,
                required == required_capabilities(intent_kind@),
                first_unavailable(self@, required) == first_unavailable(
                    self@,
                    required.skip(at as int),
                ),
            decreases names.len() - at,
        {
            proof {
                assert(required.len() == names.len());
                assert(required[at as int] == names[at as int]@);
                assert(required.skip(at as int).len() > 0);
                assert(required.skip(at as int)[0] == names[at as int]@);
                assert(required.skip(at as int).skip(1) =~= required.skip(at + 1));
            }
            if !self.is_available(names[at].as_str()) {
                return Err(EngineError::CapabilityUnavailable(names[at].clone()));
            }
            at += 1;
        }
        Ok(())
    }

    /// Checks that every capability that a kind of intent needs is available.
    /// The kind is matched by its lowercase form, whatever its spelling.
    pub fn validate_intent_capabilities(&self, intent_name: &str) -> (outcome: Result<
        (),
        EngineError,
    >)
        ensures
            match first_unavailable(self@, required_capabilities(lowercase_of(intent_name@))) {
                Some(name) => outcome is Err && outcome->Err_0@
                    == EngineErrorView::CapabilityUnavailable(name),
                None => outcome is Ok,
            },
    {
        let lowered = to_lowercase(intent_name);
        self.validate_required(lowered.as_str())
    }

    /// The stored availability of every registered capability, by key, in
    /// order of registration.
    pub fn health_check(&self) -> (report: Vec<(String, bool)>)
        ensures
            report.deep_view() == self.entries().map_values(
                |entry: (Seq<char>, CapabilityView)| (entry.0, entry.1.available),
            ),
            self.is_consistent(),
    {
        let mut report: Vec<(String, bool)> = Vec::new();
        let count = self.capabilities.len();
        let mut at: usize = 0;
        proof {
            self.lemma_consistent();
        }
        while at < count
            invariant
                at <= count,
                count == self.entries().len(),
                count == self.capabilities.key_seq().len(),
                report.len() == at,
                forall|i: int|
                    0 <= i < at ==> (#[trigger] report[i]).0@ == self.entries()[i].0 && report[i].1
                        == self.entries()[i].1.available,
            decreases count - at,
        {
            let key = self.capabilities.key_at(at).clone();
            let available = self.capabilities.value_at(at).available;
            report.push((key, available));
            at += 1;
        }
        assert(report.deep_view() =~= self.entries().map_values(
            |entry: (Seq<char>, CapabilityView)| (entry.0, entry.1.available),
        ));
        report
    }

    /// The parameters that a capability requires.
    pub fn get_required_params(&self, capability_name: &str) -> (params: Option<Vec<String>>)
        ensures
            params.deep_view() == if self@.contains_key(capability_name@) {
                Some(self@[capability_name@].required_params)
            } else {
                None
            },
    {
        match self.capabilities.get(capability_name) {
            Some(capability) => Some(clone_strings(&capability.required_params)),
            None => None,
        }
    }

    /// The parameters that a capability accepts beyond the required ones.
    pub fn get_optional_params(&self, capability_name: &str) -> (params: Option<Vec<String>>)
        ensures
            params.deep_view() == if self@.contains_key(capability_name@) {
                Some(self@[capability_name@].optional_params)
            } else {
                None
            },
    {
        match self.capabilities.get(capability_name) {
            Some(capability) => Some(clone_strings(&capability.optional_params)),
            None => None,
        }
    }
}

} // verus!
