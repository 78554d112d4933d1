use tachometer::units::length::Length;
use tachometer::units::speed::Speed;
use tachometer::units::time::Time;
use tachometer::TireDimensions;

#[test]
fn length_conversions() {
    let l = Length::from_centimeters(250);
    assert_eq!(l.as_micrometers(), 2_500_000);
    assert_eq!(l.as_meter(), 2);
    assert_eq!(Length::from_centimeters(300_000).as_kilometer(), 3);
    assert_eq!(Length::from_micrometers(42).as_micrometers(), 42);
}

#[test]
fn length_scale_and_div() {
    let l = Length::from_micrometers(700);
    assert_eq!(l.scale(6).as_micrometers(), 4200);
    assert_eq!(l.div(4).as_micrometers(), 175);
    // Truncating division.
    assert_eq!(Length::from_micrometers(7).div(2).as_micrometers(), 3);
}

#[test]
fn length_operations_return_new_values() {
    let l = Length::from_micrometers(700);
    let scaled = l.scale(6);
    assert_eq!(l.as_micrometers(), 700);
    assert_eq!(scaled.as_micrometers(), 4200);
}

#[test]
fn time_conversions() {
    assert_eq!(Time::seconds(3).as_milliseconds(), 3000);
    assert_eq!(Time::milliseconds(4500).as_seconds(), 4);
    assert_eq!(Time::milliseconds(4500).as_milliseconds(), 4500);
}

#[test]
fn speed_conversions() {
    let s = Speed::from_meter_per_second(5);
    assert_eq!(s.as_micrometers_per_second(), 5_000_000);
    assert_eq!(s.as_meter_per_second(), 5);
    assert_eq!(s.as_kilometers_per_hour(), 18);
}

#[test]
fn length_over_time_gives_speed() {
    // Five meters in two seconds: 2.5 m/s, which is 9 km/h.
    let l = Length::from_centimeters(500);
    let speed = l.to_speed(Time::milliseconds(2000));
    assert_eq!(speed.as_meter_per_second(), 2);
    assert_eq!(speed.as_kilometers_per_hour(), 9);
}

#[test]
fn circumference_from_diameter() {
    let c = TireDimensions::Diameter(Length::from_centimeters(70)).circumference();
    assert_eq!(c.as_micrometers(), 2_199_114);
}

#[test]
fn circumference_from_radius() {
    let c = TireDimensions::Radius(Length::from_centimeters(35)).circumference();
    assert_eq!(c.as_micrometers(), 2_199_114);
}

#[test]
fn circumference_passes_through() {
    let c = TireDimensions::Circumference(Length::from_micrometers(1234)).circumference();
    assert_eq!(c.as_micrometers(), 1234);
}
