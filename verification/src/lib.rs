//! An engine that turns one request of a user into a few alternative plans,
//! waits for the user to approve one, runs it, and learns from the outcome.
//!
//! - `intent_schema`: the structured form of a request.
//! - `intention_parser`: reading a request from the user's words.
//! - `capability_registry`: the directory of services that plans may use.
//! - `verification_loop`: drawing up the efficient, the luxurious and the
//!   exploring plan for a request.
//! - `user_preferences`: the user's profile and how it learns from outcomes.
//! - `state_machine`: the session that takes a request from intake to report.
//! - `error`: the errors that the engine reports.
//! - `collections`, `text`, `pattern`, `clock`: string-keyed collections, text
//!   helpers, regular expressions and the clock.

pub mod capability_registry;
pub mod clock;
pub mod collections;
pub mod error;
pub mod intent_schema;
pub mod intention_parser;
pub mod pattern;
pub mod state_machine;
pub mod text;
pub mod user_preferences;
pub mod verification_loop;
