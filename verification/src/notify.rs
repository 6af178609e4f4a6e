//! The notify characteristic's subscription state machine and the sampler's
//! per-tick step.
//!
//! A single dispatcher consumes the characteristic's subscription events in
//! arrival order. A subscribe starts a fresh periodic sampler bound to the
//! subscriber's channel; an unsubscribe asks the running sampler to stop,
//! which it observes at its next tick. Every other event is ignored. Each
//! sampler tick loads the current snapshot, encodes it with the rolling
//! counter, and advances the counter by two so that the two sub-counters
//! embedded per frame form one contiguous modulo-256 sequence across
//! frames.

use vstd::prelude::*;

use crate::input_state::{payload_spec, KeyInput};
use crate::shared_cell::KeyInputReader;

verus! {

/// Whether the characteristic currently has a subscriber.
#[derive(Clone, Copy, Debug, PartialEq, Eq, Structural)]
pub enum EngineState {
    /// No subscriber; no sampler runs.
    Idle,
    /// A subscriber is attached and its sampler runs.
    Subscribed,
}

/// One inbound event on the characteristic's stream, stripped to what the
/// dispatcher decides on.
#[derive(Clone, Copy, Debug, PartialEq, Eq, Structural)]
pub enum SubscriptionEvent {
    /// A central subscribed to notifications.
    NotifySubscribe,
    /// The central unsubscribed.
    NotifyUnsubscribe,
    /// Any other characteristic event.
    Other,
}

/// What the dispatcher must do after a transition.
#[derive(Clone, Copy, Debug, PartialEq, Eq, Structural)]
pub enum EngineAction {
    /// Clear the cancellation flag and start a sampler for the new
    /// subscriber.
    StartSampler,
    /// Set the cancellation flag; the sampler exits at its next tick.
    StopSampler,
    /// Log and ignore the event.
    Ignore,
}

/// The dispatcher's transition: a subscribe always (re)enters `Subscribed`
/// and starts a sampler, an unsubscribe always enters `Idle` and stops the
/// sampler, and any other event leaves the state alone.
pub open spec fn transition_spec(s: EngineState, e: SubscriptionEvent) -> (EngineState,
    EngineAction) {
    match e {
        SubscriptionEvent::NotifySubscribe => (EngineState::Subscribed, EngineAction::StartSampler),
        SubscriptionEvent::NotifyUnsubscribe => (EngineState::Idle, EngineAction::StopSampler),
        SubscriptionEvent::Other => (s, EngineAction::Ignore),
    }
}

/// Decide the next state and action for one subscription event.
pub fn handle_subscription_event(s: EngineState, e: SubscriptionEvent) -> (r: (
    EngineState,
    EngineAction,
))
    ensures
        r == transition_spec(s, e),
{
    match e {
        SubscriptionEvent::NotifySubscribe => (EngineState::Subscribed, EngineAction::StartSampler),
        SubscriptionEvent::NotifyUnsubscribe => (EngineState::Idle, EngineAction::StopSampler),
        SubscriptionEvent::Other => (s, EngineAction::Ignore),
    }
}

/// One sampler tick. When the cancellation flag is set the sampler stops
/// and emits nothing. Otherwise it loads the current snapshot from the
/// shared cell, encodes it with the rolling counter, and hands back the
/// frame together with the counter advanced by two modulo 256. Which
/// snapshot the load observes depends on the racing writer, so the frame is
/// pinned only up to it: it is the encoding of some whole snapshot.
pub fn sampler_step(cancelled: bool, reader: &KeyInputReader, counter: u8) -> (r: Option<
    ([u8; 10], u8),
>)
    ensures
        r is None <==> cancelled,
        r matches Some((frame, next)) ==> next == ((counter as int) + 2) % 256 && (exists|
            s: KeyInput,
        |
            frame@ == payload_spec(s, counter)),
{
    if cancelled {
        return None;
    }
    let snapshot = reader.load();
    let frame = snapshot.to_payload(counter);
    let next: u8 = if counter >= 254 {
        counter - 254
    } else {
        counter + 2
    };
    proof {
        assert(frame@ == payload_spec(snapshot, counter));
    }
    Some((frame, next))
}

} // verus!
