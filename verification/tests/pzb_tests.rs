use tachometer::led_state::LedState;
use tachometer::led_state::PzbLedState;
use tachometer::pzb::PzbCategory;
use tachometer::pzb_state::PzbState;

#[test]
fn led_state_to_bool() {
    assert!(!LedState::Off.to_bool(false));
    assert!(!LedState::Off.to_bool(true));
    assert!(LedState::Static.to_bool(false));
    assert!(LedState::Static.to_bool(true));
    assert!(!LedState::Blinking.to_bool(false));
    assert!(LedState::Blinking.to_bool(true));
}

#[test]
fn off_panel_is_all_off() {
    let panel = PzbLedState::off();
    let levels = panel.set_leds(true);
    assert!(!levels.b85);
    assert!(!levels.b70);
    assert!(!levels.b55);
    assert!(!levels.hz1000);
    assert!(!levels.hz500);
    assert!(!levels.command);
}

#[test]
fn builders_set_single_lamps() {
    let panel = PzbLedState::off().b85().hz500_blink();
    assert_eq!(panel.b85, LedState::Static);
    assert_eq!(panel.hz500, LedState::Blinking);
    assert_eq!(panel.b70, LedState::Off);
    assert_eq!(panel.command, LedState::Off);

    let panel = PzbLedState::off().command_blink().b55().b70_blink().hz1000();
    assert_eq!(panel.command, LedState::Blinking);
    assert_eq!(panel.b55, LedState::Static);
    assert_eq!(panel.b70, LedState::Blinking);
    assert_eq!(panel.hz1000, LedState::Static);
}

#[test]
fn constraints_table() {
    let o = PzbCategory::O.get_constraints();
    assert_eq!(o.top_speed, 165);
    assert_eq!(o.deceleration_time, 23);
    let m = PzbCategory::M.get_constraints();
    assert_eq!(m.top_speed, 125);
    assert_eq!(m.deceleration_time, 29);
    let u = PzbCategory::U.get_constraints();
    assert_eq!(u.top_speed, 105);
    assert_eq!(u.deceleration_time, 38);
}

#[test]
fn set_led_picks_category_lamp() {
    let off = PzbLedState::off();
    assert_eq!(PzbCategory::O.set_led(off, false).b85, LedState::Static);
    assert_eq!(PzbCategory::O.set_led(off, true).b85, LedState::Blinking);
    assert_eq!(PzbCategory::M.set_led(off, false).b70, LedState::Static);
    assert_eq!(PzbCategory::M.set_led(off, true).b70, LedState::Blinking);
    assert_eq!(PzbCategory::U.set_led(off, false).b55, LedState::Static);
    assert_eq!(PzbCategory::U.set_led(off, true).b55, LedState::Blinking);
    // The other lamps stay as they were.
    let panel = PzbCategory::O.set_led(off.hz1000(), true);
    assert_eq!(panel.hz1000, LedState::Static);
    assert_eq!(panel.b70, LedState::Off);
}

#[test]
fn enabled_panels_per_state() {
    let free = PzbState::Free.enabled(PzbCategory::M);
    assert_eq!(free.b70, LedState::Static);
    assert_eq!(free.hz1000, LedState::Off);

    let r1000 = PzbState::Restricted1000hz.enabled(PzbCategory::O);
    assert_eq!(r1000.b85, LedState::Blinking);
    assert_eq!(r1000.hz1000, LedState::Static);

    let r500 = PzbState::Restricted500hz.enabled(PzbCategory::U);
    assert_eq!(r500.b55, LedState::Blinking);
    assert_eq!(r500.hz500, LedState::Static);

    let supervised = PzbState::Supervised.enabled(PzbCategory::U);
    assert_eq!(supervised.b85, LedState::Blinking);
    assert_eq!(supervised.b70, LedState::Blinking);
    assert_eq!(supervised.b55, LedState::Off);

    let stop = PzbState::ForcedStop.enabled(PzbCategory::O);
    assert_eq!(stop.hz1000, LedState::Blinking);
    assert_eq!(stop.hz500, LedState::Blinking);
    assert_eq!(stop.b85, LedState::Off);
}

#[test]
fn next_cycles_through_all_states() {
    let start = PzbState::Free;
    let s1 = start.next();
    assert_eq!(s1, PzbState::Restricted1000hz);
    let s2 = s1.next();
    assert_eq!(s2, PzbState::Restricted500hz);
    let s3 = s2.next();
    assert_eq!(s3, PzbState::Supervised);
    let s4 = s3.next();
    assert_eq!(s4, PzbState::ForcedStop);
    assert_eq!(s4.next(), PzbState::Free);
}
