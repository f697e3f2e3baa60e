//! The controller: which buttons are held, and the interrupt that a press
//! raises.

use vstd::prelude::*;
use crate::gameboy::{
    Gameboy, INT_HILO, CONTROLLER_DATA_A, CONTROLLER_DATA_B, CONTROLLER_DATA_SE,
    CONTROLLER_DATA_ST, CONTROLLER_DATA_RIGHT, CONTROLLER_DATA_LEFT, CONTROLLER_DATA_UP,
    CONTROLLER_DATA_DOWN,
};
use crate::ppu::{raised, raise_interrupt};

verus! {

/// The buttons of the controller, each held or not.
#[derive(Debug, Clone, Copy, PartialEq, Eq)]
pub struct Buttons {
    pub right: bool,
    pub left: bool,
    pub up: bool,
    pub down: bool,
    pub a: bool,
    pub b: bool,
    pub select: bool,
    pub start: bool,
}

/// A byte of controller data with the line of a button pulled low if the
/// button is held.
pub open spec fn with_button(data: u8, line: u8, held: bool) -> u8 {
    if held {
        data & !line
    } else {
        data
    }
}

/// The controller data of a set of buttons: one line per button, low
/// while the button is held.
pub open spec fn controller_data_of(buttons: Buttons) -> u8 {
    with_button(
        with_button(
            with_button(
                with_button(
                    with_button(
                        with_button(
                            with_button(
                                with_button(0b1111_1111, CONTROLLER_DATA_RIGHT, buttons.right),
                                CONTROLLER_DATA_LEFT,
                                buttons.left,
                            ),
                            CONTROLLER_DATA_UP,
                            buttons.up,
                        ),
                        CONTROLLER_DATA_DOWN,
                        buttons.down,
                    ),
                    CONTROLLER_DATA_A,
                    buttons.a,
                ),
                CONTROLLER_DATA_B,
                buttons.b,
            ),
            CONTROLLER_DATA_SE,
            buttons.select,
        ),
        CONTROLLER_DATA_ST,
        buttons.start,
    )
}

/// Computes the controller data of a set of buttons.
pub fn controller_data(buttons: Buttons) -> (data: u8)
    ensures
        data == controller_data_of(buttons),
{
    let mut cont_data: u8 = 0b1111_1111;
    if buttons.right {
        cont_data = cont_data & !CONTROLLER_DATA_RIGHT;
    }
    if buttons.left {
        cont_data = cont_data & !CONTROLLER_DATA_LEFT;
    }
    if buttons.up {
        cont_data = cont_data & !CONTROLLER_DATA_UP;
    }
    if buttons.down {
        cont_data = cont_data & !CONTROLLER_DATA_DOWN;
    }
    if buttons.a {
        cont_data = cont_data & !CONTROLLER_DATA_A;
    }
    if buttons.b {
        cont_data = cont_data & !CONTROLLER_DATA_B;
    }
    if buttons.select {
        cont_data = cont_data & !CONTROLLER_DATA_SE;
    }
    if buttons.start {
        cont_data = cont_data & !CONTROLLER_DATA_ST;
    }
    cont_data
}

/// Whether some line that was high is now low: whether a button has been
/// pressed.
pub open spec fn newly_pressed(previous: u8, current: u8) -> bool {
    previous & !current != 0
}

/// Whether new controller data raises the Joypad interrupt: a button has
/// been pressed.
pub open spec fn joypad_interrupt(gb: Gameboy, data: u8) -> bool {
    newly_pressed(gb.controller_data, data)
}

/// The machine after new controller data has arrived.
pub open spec fn after_controller(gb: Gameboy, data: u8) -> Gameboy {
    let stored = Gameboy { controller_data: data, ..gb };
    if joypad_interrupt(gb, data) {
        raised(stored, INT_HILO)
    } else {
        stored
    }
}

/// Stores new controller data and raises the Joypad interrupt where a
/// button has been pressed. Says whether it was raised.
pub fn update_controller(gb: &mut Gameboy, data: u8) -> (interrupted: bool)
    ensures
        *final(gb) == after_controller(*old(gb), data),
        interrupted == joypad_interrupt(*old(gb), data),
{
    let prev_cont_data = gb.controller_data;
    gb.controller_data = data;
    if prev_cont_data & !data != 0 {
        raise_interrupt(gb, INT_HILO);
        true
    } else {
        false
    }
}

} // verus!
