//! Train-protection categories and the speed constraints each one imposes.

use vstd::prelude::*;

use crate::led_state::LedState;
use crate::led_state::PzbLedState;

verus! {

/// Speed at which the train can travel when restricted, in km/h.
pub const RESTRICTED_SPEED: u16 = 45;

/// Lower restricted travel speed, in km/h.
pub const LOWER_RESTRICTED_SPEED: u16 = 10;

/// Train-protection category: O (upper, 85 km/h lamp), M (middle, 70 km/h
/// lamp), U (lower, 55 km/h lamp).
#[derive(Copy, Clone, Debug, PartialEq, Eq, Structural)]
pub enum PzbCategory {
    O,
    M,
    U,
}

/// The constraints one category imposes.
#[derive(Copy, Clone, Debug, PartialEq, Eq, Structural)]
pub struct PzbConstraints {
    /// km/h
    pub top_speed: u16,
    /// Seconds
    pub deceleration_time: u8,
}

impl PzbCategory {
    /// The fixed constraint table: one row per category.
    pub open spec fn spec_constraints(self) -> PzbConstraints {
        match self {
            PzbCategory::O => PzbConstraints { top_speed: 165, deceleration_time: 23 },
            PzbCategory::M => PzbConstraints { top_speed: 125, deceleration_time: 29 },
            PzbCategory::U => PzbConstraints { top_speed: 105, deceleration_time: 38 },
        }
    }

    pub fn get_constraints(self) -> (r: PzbConstraints)
        ensures
            r == self.spec_constraints(),
    {
        match self {
            PzbCategory::O => PzbConstraints { top_speed: 165, deceleration_time: 23 },
            PzbCategory::M => PzbConstraints { top_speed: 125, deceleration_time: 29 },
            PzbCategory::U => PzbConstraints { top_speed: 105, deceleration_time: 38 },
        }
    }

    /// This category's speed lamp set to the given mode, every other lamp
    /// kept.
    pub open spec fn spec_set_led(self, leds: PzbLedState, blinking: bool) -> PzbLedState {
        let mode = if blinking {
            LedState::Blinking
        } else {
            LedState::Static
        };
        match self {
            PzbCategory::O => (PzbLedState { b85: mode, ..leds }),
            PzbCategory::M => (PzbLedState { b70: mode, ..leds }),
            PzbCategory::U => (PzbLedState { b55: mode, ..leds }),
        }
    }

    pub fn set_led(self, leds: PzbLedState, blinking: bool) -> (r: PzbLedState)
        ensures
            r == self.spec_set_led(leds, blinking),
    {
        if blinking {
            match self {
                PzbCategory::O => leds.b85_blink(),
                PzbCategory::M => leds.b70_blink(),
                PzbCategory::U => leds.b55_blink(),
            }
        } else {
            match self {
                PzbCategory::O => leds.b85(),
                PzbCategory::M => leds.b70(),
                PzbCategory::U => leds.b55(),
            }
        }
    }
}

} // verus!
