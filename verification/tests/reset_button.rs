use terralib::reset::{
    ButtonEvent, ResetAction, ResetPhase, RESET_CONFIRM_SECS, RESET_HOLD_SECS,
};

#[test]
fn a_short_press_resets_nothing() {
    let mut phase = ResetPhase::Idle;
    assert_eq!(
        phase.on_event(ButtonEvent::Pressed),
        vec![ResetAction::TakeoverLights, ResetAction::StartBreathe { period_ms: 1_000 }]
    );
    assert_eq!(phase, ResetPhase::Held);
    assert_eq!(
        phase.on_event(ButtonEvent::Released),
        vec![ResetAction::StopBreathe, ResetAction::ReleaseLights]
    );
    assert_eq!(phase, ResetPhase::Idle);
}

#[test]
fn a_long_press_resets() {
    let mut phase = ResetPhase::Idle;
    phase.on_event(ButtonEvent::Pressed);
    assert_eq!(
        phase.on_event(ButtonEvent::HoldElapsed),
        vec![
            ResetAction::StopBreathe,
            ResetAction::ReleaseLights,
            ResetAction::StartBreathe { period_ms: 100 },
        ]
    );
    assert_eq!(phase, ResetPhase::Confirming);
    assert_eq!(
        phase.on_event(ButtonEvent::ConfirmElapsed),
        vec![ResetAction::StopBreathe, ResetAction::DeleteConfig, ResetAction::Restart]
    );
    assert_eq!(phase, ResetPhase::Idle);
    assert_eq!(RESET_HOLD_SECS, 5);
    assert_eq!(RESET_CONFIRM_SECS, 1);
}

#[test]
fn events_out_of_turn_do_nothing() {
    let events = [
        ButtonEvent::Pressed,
        ButtonEvent::Released,
        ButtonEvent::HoldElapsed,
        ButtonEvent::ConfirmElapsed,
    ];
    let expected = [
        (ResetPhase::Idle, ButtonEvent::Pressed),
        (ResetPhase::Held, ButtonEvent::Released),
        (ResetPhase::Held, ButtonEvent::HoldElapsed),
        (ResetPhase::Confirming, ButtonEvent::ConfirmElapsed),
    ];
    for start in [ResetPhase::Idle, ResetPhase::Held, ResetPhase::Confirming] {
        for event in events {
            let mut phase = start;
            let actions = phase.on_event(event);
            if !expected.contains(&(start, event)) {
                assert_eq!(actions, vec![]);
                assert_eq!(phase, start);
            } else {
                assert!(!actions.is_empty());
            }
        }
    }
}

#[test]
fn the_lights_are_taken_and_handed_back_in_turn() {
    let paths = [
        vec![ButtonEvent::Pressed, ButtonEvent::Released, ButtonEvent::Pressed],
        vec![
            ButtonEvent::Pressed,
            ButtonEvent::Pressed,
            ButtonEvent::HoldElapsed,
            ButtonEvent::Released,
            ButtonEvent::ConfirmElapsed,
            ButtonEvent::Pressed,
            ButtonEvent::Released,
        ],
    ];
    for path in paths {
        let mut phase = ResetPhase::Idle;
        let mut taken = false;
        for event in path {
            for action in phase.on_event(event) {
                match action {
                    ResetAction::TakeoverLights => {
                        assert!(!taken);
                        taken = true;
                    }
                    ResetAction::ReleaseLights => {
                        assert!(taken);
                        taken = false;
                    }
                    _ => {}
                }
            }
            assert_eq!(taken, phase == ResetPhase::Held);
        }
    }
}
