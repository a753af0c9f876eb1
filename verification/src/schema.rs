//! The types behind the GraphQL schema.
use vstd::prelude::*;

verus! {

/// The root of the queries.
pub struct Query;

impl Default for Query {
    fn default() -> (query: Query)
        ensures
            query == Query,
    {
        Query
    }
}

/// The root of the subscriptions.
pub struct Subscription;

impl Default for Subscription {
    fn default() -> (subscription: Subscription)
        ensures
            subscription == Subscription,
    {
        Subscription
    }
}

/// What the fields of the schema are resolved with.
pub struct Context {}

/// What a subscriber is told.
#[derive(Clone, Copy, Debug, PartialEq, Eq, Structural)]
pub enum Event {
    NewUpdate,
}

/// The seconds between two ticks of the timer that subscriptions wait for.
pub const UPDATE_INTERVAL_SECS: u64 = 3;

impl Subscription {
    /// What subscribers are told next: an update at each tick of the timer,
    /// and nothing more once the timer has stopped.
    pub fn watch_updates(ticked: bool) -> (event: Option<Event>)
        ensures
            event == if ticked {
                Some(Event::NewUpdate)
            } else {
                None
            },
    {
        if ticked {
            Some(Event::NewUpdate)
        } else {
            None
        }
    }
}

} // verus!
