use rust_libretro::input::{ButtonState, ControllerButton, InputState};

const BUTTONS: [ControllerButton; 16] = [
    ControllerButton::PadB,
    ControllerButton::PadY,
    ControllerButton::PadSelect,
    ControllerButton::PadStart,
    ControllerButton::PadUp,
    ControllerButton::PadDown,
    ControllerButton::PadLeft,
    ControllerButton::PadRight,
    ControllerButton::PadA,
    ControllerButton::PadX,
    ControllerButton::PadL,
    ControllerButton::PadR,
    ControllerButton::PadL2,
    ControllerButton::PadR2,
    ControllerButton::PadL3,
    ControllerButton::PadR3,
];

#[test]
fn buttons_have_the_identifiers_of_the_frontend() {
    for (id, button) in BUTTONS.iter().enumerate() {
        assert_eq!(button.device_id(), id as u32);
    }
}

#[test]
fn poll_reads_each_button_at_its_place() {
    for held in 0..16usize {
        let mut answers = [0i16; 16];
        answers[held] = 1;
        let state = InputState::poll(&answers);
        for (id, button) in BUTTONS.iter().enumerate() {
            let expected = ButtonState { pressed: id == held, down: false, up: false };
            assert_eq!(*state.index(*button), expected);
            assert_eq!(state.button[id], expected);
        }
    }
}

#[test]
fn any_answer_but_zero_is_held() {
    let mut answers = [0i16; 16];
    answers[0] = -1;
    answers[8] = i16::MAX;
    answers[15] = i16::MIN;
    let state = InputState::poll(&answers);
    assert!(state.index(ControllerButton::PadB).pressed);
    assert!(state.index(ControllerButton::PadA).pressed);
    assert!(state.index(ControllerButton::PadR3).pressed);
    assert!(!state.index(ControllerButton::PadY).pressed);
    assert!(!state.index(ControllerButton::PadA).down);
    assert!(!state.index(ControllerButton::PadA).up);
}

#[test]
fn released_holds_nothing() {
    let state = InputState::released();
    assert_eq!(state, InputState::poll(&[0i16; 16]));
    for button in BUTTONS.iter() {
        assert!(!state.index(*button).pressed);
    }
}
