use lumiemu::controller::{
    Controller, ControllerState, BUTTON_A, BUTTON_B, BUTTON_DOWN, BUTTON_LEFT, BUTTON_RIGHT,
    BUTTON_SELECT, BUTTON_START, BUTTON_UP,
};

#[test]
fn test_button_masks_are_distinct_bits() {
    let all = [
        BUTTON_A, BUTTON_B, BUTTON_SELECT, BUTTON_START, BUTTON_UP, BUTTON_DOWN, BUTTON_LEFT,
        BUTTON_RIGHT,
    ];
    let mut seen: u8 = 0;
    for &b in all.iter() {
        assert_eq!(b.count_ones(), 1);
        assert_eq!(seen & b, 0);
        seen |= b;
    }
    assert_eq!(seen, 0xFF);
}

#[test]
fn test_state_press_release() {
    let mut state = ControllerState::new();
    assert!(!state.is_pressed(BUTTON_A));
    state.press(BUTTON_A);
    state.press(BUTTON_UP);
    assert!(state.is_pressed(BUTTON_A));
    assert!(state.is_pressed(BUTTON_UP));
    state.release(BUTTON_A);
    assert!(!state.is_pressed(BUTTON_A));
    assert!(state.is_pressed(BUTTON_UP));
    state.set(BUTTON_B, true);
    assert!(state.is_pressed(BUTTON_B));
    state.set(BUTTON_B, false);
    assert!(!state.is_pressed(BUTTON_B));
}

#[test]
fn test_strobe_latches_on_falling_edge() {
    let mut c = Controller::new();
    c.state().press(BUTTON_START);
    c.write(1);
    assert_eq!(c.shift_register, 0); // not latched yet
    c.write(0);
    assert_eq!(c.shift_register, BUTTON_START); // latched on the falling edge
}

#[test]
fn test_shift_out_lsb_first() {
    let mut c = Controller::new();
    c.state().press(BUTTON_A);
    c.state().press(BUTTON_DOWN);
    let mask = c.state_ref().buttons;
    c.write(1);
    c.write(0);
    for k in 0..8 {
        let bit = c.read();
        assert_eq!(bit, (mask >> k) & 1);
    }
    // After eight reads the open-bus fill keeps returning 1.
    assert_eq!(c.read(), 1);
    assert_eq!(c.read(), 1);
}

#[test]
fn test_strobe_high_repeats_a_button() {
    let mut c = Controller::new();
    c.state().press(BUTTON_A);
    c.write(1);
    assert_eq!(c.read(), 1);
    assert_eq!(c.read(), 1); // no shifting while the strobe is high
    c.state().release(BUTTON_A);
    assert_eq!(c.read(), 0);
}
