use beatble::input_state::KeyInput;
use beatble::notify::{
    handle_subscription_event, sampler_step, EngineAction, EngineState, SubscriptionEvent,
};
use beatble::shared_cell::create_state_cell;

#[test]
fn subscribe_starts_a_sampler_and_unsubscribe_stops_it() {
    let (state, action) =
        handle_subscription_event(EngineState::Idle, SubscriptionEvent::NotifySubscribe);
    assert_eq!(state, EngineState::Subscribed);
    assert_eq!(action, EngineAction::StartSampler);

    let (state, action) = handle_subscription_event(state, SubscriptionEvent::NotifyUnsubscribe);
    assert_eq!(state, EngineState::Idle);
    assert_eq!(action, EngineAction::StopSampler);
}

#[test]
fn other_events_are_ignored_in_both_states() {
    for start in [EngineState::Idle, EngineState::Subscribed] {
        let (state, action) = handle_subscription_event(start, SubscriptionEvent::Other);
        assert_eq!(state, start);
        assert_eq!(action, EngineAction::Ignore);
    }
}

#[test]
fn sampler_emits_current_state_until_cancelled() {
    let (mut cell, reader) = create_state_cell();
    let snapshot = KeyInput { scratch: 200, normal_button: 0x41, option_button: 0x05 };
    cell.store(snapshot);

    // Subscribed: each tick emits the stored snapshot's frame and advances
    // the counter by two.
    let (frame, next) = sampler_step(false, &reader, 0).expect("not cancelled");
    assert_eq!(frame, snapshot.to_payload(0));
    assert_eq!(next, 2);

    let (frame, next) = sampler_step(false, &reader, next).expect("not cancelled");
    assert_eq!(frame[4], 2);
    assert_eq!(frame[9], 3);
    assert_eq!(next, 4);

    // After the unsubscribe's StopSampler action sets the flag, the next
    // tick emits nothing.
    assert!(sampler_step(true, &reader, next).is_none());
}

#[test]
fn sampler_counter_wraps_modulo_256() {
    let (_cell, reader) = create_state_cell();
    let (frame, next) = sampler_step(false, &reader, 254).expect("not cancelled");
    assert_eq!(frame[4], 254);
    assert_eq!(frame[9], 255);
    assert_eq!(next, 0);
    let (frame, next) = sampler_step(false, &reader, 255).expect("not cancelled");
    assert_eq!(frame[4], 255);
    assert_eq!(frame[9], 0);
    assert_eq!(next, 1);
}

#[test]
fn successive_frames_form_a_contiguous_counter_sequence() {
    let (_cell, reader) = create_state_cell();
    let mut counter = 250u8;
    let mut expected = 250u16;
    for _ in 0..8 {
        let (frame, next) = sampler_step(false, &reader, counter).expect("not cancelled");
        assert_eq!(frame[4], (expected & 0xFF) as u8);
        assert_eq!(frame[9], ((expected + 1) & 0xFF) as u8);
        counter = next;
        expected = (expected + 2) & 0xFF;
    }
}
