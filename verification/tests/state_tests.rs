use design_patterns::state::{
    Context, DiceEvent, StateContextEnum, StatePowerOff, StatePowerOn, StateStop, event_message,
};

#[test]
fn fresh_context_is_powered_off() {
    let c = Context::new();
    assert_eq!(*c.state(), StateContextEnum::StatePowerOff(StatePowerOff::new()));
}

#[test]
fn presses_cycle_through_the_three_states() {
    let mut c = Context::new();
    for _ in 0..4 {
        assert_eq!(*c.state(), StateContextEnum::StatePowerOff(StatePowerOff::new()));
        c.press_button();
        assert_eq!(*c.state(), StateContextEnum::StatePowerOn(StatePowerOn::new()));
        c.press_button();
        assert_eq!(*c.state(), StateContextEnum::StateStop(StateStop::new()));
        c.press_button();
    }
    assert_eq!(*c.state(), StateContextEnum::StatePowerOff(StatePowerOff::new()));
}

#[test]
fn twelve_presses_emit_the_cycle_of_messages_in_order() {
    let mut c = Context::new();
    for _ in 0..4 {
        let e1 = c.press_button();
        assert_eq!(e1, DiceEvent::PowerOn);
        assert_eq!(event_message(&e1), "Power on.");

        let e2 = c.press_button();
        assert_eq!(e2, DiceEvent::ShakingDice);
        assert_eq!(event_message(&e2), "shaking dice.");

        let e3 = c.press_button();
        match e3 {
            DiceEvent::PowerOff(n) => {
                assert!((1..=6).contains(&n));
                assert_eq!(
                    event_message(&e3),
                    format!("Power off and output value is {}.", n)
                );
            },
            _ => panic!("the third press must power the die off"),
        }
    }
    assert_eq!(*c.state(), StateContextEnum::StatePowerOff(StatePowerOff::new()));
}

#[test]
fn set_state_replaces_the_state() {
    let mut c = Context::new();
    c.set_state(StateContextEnum::StateStop(StateStop::new()));
    assert_eq!(*c.state(), StateContextEnum::StateStop(StateStop::new()));
    let e = c.press_button();
    assert!(matches!(e, DiceEvent::PowerOff(_)));
    assert_eq!(*c.state(), StateContextEnum::StatePowerOff(StatePowerOff::new()));
}

#[test]
fn power_off_message_reports_the_face() {
    assert_eq!(
        event_message(&DiceEvent::PowerOff(1)),
        "Power off and output value is 1."
    );
    assert_eq!(
        event_message(&DiceEvent::PowerOff(6)),
        "Power off and output value is 6."
    );
}

#[test]
fn reported_faces_stay_in_range_over_many_rolls() {
    // Exercises the random source behind the stopped state repeatedly.
    let mut c = Context::new();
    for _ in 0..100 {
        c.press_button();
        c.press_button();
        match c.press_button() {
            DiceEvent::PowerOff(n) => assert!((1..=6).contains(&n)),
            _ => panic!("the third press must power the die off"),
        }
    }
}
