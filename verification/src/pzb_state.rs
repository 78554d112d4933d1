//! The five-state train-protection supervision switch and its indicator
//! panel encoding.

use vstd::prelude::*;

use crate::led_state::LedState;
use crate::led_state::PzbLedState;
use crate::pzb::PzbCategory;

verus! {

/// Supervision state of the train-protection system.
#[derive(Copy, Clone, Debug, PartialEq, Eq, Structural)]
pub enum PzbState {
    /// Static category number.
    Free,
    /// Blinking category number and static 1000 Hz lamp.
    Restricted1000hz,
    /// Blinking category number and static 500 Hz lamp.
    Restricted500hz,
    /// Blinking 70 and 85 lamps.
    Supervised,
    ForcedStop,
}

impl PzbState {
    /// The indicator panel shown for this state in the given category.
    pub open spec fn spec_enabled(self, state: PzbCategory) -> PzbLedState {
        let led = PzbLedState::spec_off();
        match self {
            PzbState::Free => state.spec_set_led(led, false),
            PzbState::Restricted1000hz => (PzbLedState {
                hz1000: LedState::Static,
                ..state.spec_set_led(led, true)
            }),
            PzbState::Restricted500hz => (PzbLedState {
                hz500: LedState::Static,
                ..state.spec_set_led(led, true)
            }),
            PzbState::Supervised => (PzbLedState {
                b85: LedState::Blinking,
                b70: LedState::Blinking,
                ..led
            }),
            PzbState::ForcedStop => (PzbLedState {
                hz1000: LedState::Blinking,
                hz500: LedState::Blinking,
                ..led
            }),
        }
    }

    pub fn enabled(self, state: PzbCategory) -> (r: PzbLedState)
        ensures
            r == self.spec_enabled(state),
    {
        let led = PzbLedState::off();
        match self {
            PzbState::Free => state.set_led(led, false),
            PzbState::Restricted1000hz => state.set_led(led, true).hz1000(),
            PzbState::Restricted500hz => state.set_led(led, true).hz500(),
            PzbState::Supervised => led.b85_blink().b70_blink(),
            PzbState::ForcedStop => led.hz1000_blink().hz500_blink(),
        }
    }

    /// The successor in the fixed five-state cycle.
    pub open spec fn spec_next(self) -> Self {
        match self {
            PzbState::Free => PzbState::Restricted1000hz,
            PzbState::Restricted1000hz => PzbState::Restricted500hz,
            PzbState::Restricted500hz => PzbState::Supervised,
            PzbState::Supervised => PzbState::ForcedStop,
            PzbState::ForcedStop => PzbState::Free,
        }
    }

    pub fn next(self) -> (r: Self)
        ensures
            r == self.spec_next(),
    {
        match self {
            PzbState::Free => PzbState::Restricted1000hz,
            PzbState::Restricted1000hz => PzbState::Restricted500hz,
            PzbState::Restricted500hz => PzbState::Supervised,
            PzbState::Supervised => PzbState::ForcedStop,
            PzbState::ForcedStop => PzbState::Free,
        }
    }
}

} // verus!
