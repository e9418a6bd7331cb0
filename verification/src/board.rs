//! Board indicator state: the mapping from a logical LED state to the
//! electrical pin level. Pin ownership and the actual drive are the
//! hardware shell's; the polarity decision is made and checked here.

use vstd::prelude::*;

verus! {

/// Logical on/off state of a board indicator LED.
#[derive(Clone, Copy, Debug, PartialEq, Eq, Structural)]
pub enum LedState {
    On,
    Off,
}

/// Electrical level driven onto an output pin.
#[derive(Clone, Copy, Debug, PartialEq, Eq, Structural)]
pub enum PinLevel {
    Low,
    High,
}

/// The board's indicator LEDs are wired active-low: driving the pin low
/// lights the LED.
pub open spec fn spec_led_pin_level(state: LedState) -> PinLevel {
    match state {
        LedState::On => PinLevel::Low,
        LedState::Off => PinLevel::High,
    }
}

/// The pin level that realizes `state` on the active-low indicator LEDs.
pub fn led_pin_level(state: LedState) -> (level: PinLevel)
    ensures
        level == spec_led_pin_level(state),
{
    match state {
        LedState::On => PinLevel::Low,
        LedState::Off => PinLevel::High,
    }
}

} // verus!
