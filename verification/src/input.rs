//! The state of a player's joypad, as the frontend reports it.

use vstd::prelude::*;

verus! {

/// The buttons of a joypad, in the order of their identifiers.
#[derive(Clone, Copy, Debug, PartialEq, Eq)]
pub enum ControllerButton {
    PadB,
    PadY,
    PadSelect,
    PadStart,
    PadUp,
    PadDown,
    PadLeft,
    PadRight,
    PadA,
    PadX,
    PadL,
    PadR,
    PadL2,
    PadR2,
    PadL3,
    PadR3,
}

impl ControllerButton {
    /// The identifier by which the frontend knows the button.
    pub open spec fn id(self) -> nat {
        match self {
            ControllerButton::PadB => 0,
            ControllerButton::PadY => 1,
            ControllerButton::PadSelect => 2,
            ControllerButton::PadStart => 3,
            ControllerButton::PadUp => 4,
            ControllerButton::PadDown => 5,
            ControllerButton::PadLeft => 6,
            ControllerButton::PadRight => 7,
            ControllerButton::PadA => 8,
            ControllerButton::PadX => 9,
            ControllerButton::PadL => 10,
            ControllerButton::PadR => 11,
            ControllerButton::PadL2 => 12,
            ControllerButton::PadR2 => 13,
            ControllerButton::PadL3 => 14,
            ControllerButton::PadR3 => 15,
        }
    }

    /// The identifier by which the frontend knows the button.
    pub fn device_id(self) -> (id: u32)
        ensures
            id == self.id(),
            id < 16,
    {
        match self {
            ControllerButton::PadB => 0,
            ControllerButton::PadY => 1,
            ControllerButton::PadSelect => 2,
            ControllerButton::PadStart => 3,
            ControllerButton::PadUp => 4,
            ControllerButton::PadDown => 5,
            ControllerButton::PadLeft => 6,
            ControllerButton::PadRight => 7,
            ControllerButton::PadA => 8,
            ControllerButton::PadX => 9,
            ControllerButton::PadL => 10,
            ControllerButton::PadR => 11,
            ControllerButton::PadL2 => 12,
            ControllerButton::PadR2 => 13,
            ControllerButton::PadL3 => 14,
            ControllerButton::PadR3 => 15,
        }
    }
}

/// The state of one button.
#[derive(Clone, Copy, Debug, PartialEq, Eq)]
pub struct ButtonState {
    /// Whether the button is held.
    pub pressed: bool,
    /// Whether the button went down since the last poll. Not tracked: always
    /// `false`.
    pub down: bool,
    /// Whether the button came up since the last poll. Not tracked: always
    /// `false`.
    pub up: bool,
}

/// The state of the sixteen buttons of a joypad, each at the place of its
/// identifier.
#[derive(Clone, Copy, Debug, PartialEq, Eq)]
pub struct InputState {
    pub button: [ButtonState; 16],
}

/// The state of a button for which the frontend answered `answer`: held
/// unless the answer is zero.
pub open spec fn button_state(answer: i16) -> ButtonState {
    ButtonState { pressed: answer != 0, down: false, up: false }
}

fn read_button(answer: i16) -> (state: ButtonState)
    ensures
        state == button_state(answer),
{
    ButtonState { pressed: answer != 0, down: false, up: false }
}

impl InputState {
    /// The state of a button.
    pub fn index(&self, index: ControllerButton) -> (state: &ButtonState)
        ensures
            *state == self.button[index.id() as int],
    {
        let id = index.device_id() as usize;
        &self.button[id]
    }

    /// The state of a joypad of which no button is held.
    pub fn released() -> (state: InputState)
        ensures
            forall|id: int| 0 <= id < 16 ==> state.button[id] == button_state(0),
    {
        InputState { button: [ButtonState { pressed: false, down: false, up: false };16] }
    }

    /// The state of a joypad from what the frontend answered when asked for
    /// each of its buttons, in the order of their identifiers.
    pub fn poll(answers: &[i16; 16]) -> (state: InputState)
        ensures
            forall|id: int| 0 <= id < 16 ==> state.button[id] == button_state(answers[id]),
    {
        let mut button = [ButtonState { pressed: false, down: false, up: false };16];
        let mut id: usize = 0;
        while id < 16
            invariant
                id <= 16,
                forall|done: int| 0 <= done < id ==> button[done] == button_state(answers[done]),
            decreases 16 - id,
        {
            button[id] = read_button(answers[id]);
            id += 1;
        }
        InputState { button }
    }
}

} // verus!
