use bme280::HumidityExt;
use bme280::PressureExt;
use bme280::TemperatureExt;

#[test]
fn percent() {
    assert_eq!(47445.percent(), (46, 333));
}

#[test]
fn pascals() {
    assert_eq!(24674867.Pa(), (96386, 19));
}

#[test]
fn hectopascals() {
    assert_eq!(24674867.hPa(), (963, 861));
}

#[test]
fn millimetre_mercury() {
    assert_eq!(24674867.mmHg(), (722, 9));
}

#[test]
fn celsius() {
    assert_eq!(5123.c(), (51, 23));
    assert_eq!((-5123).c(), (-51, 23));
}

#[test]
fn fahrenheit() {
    assert_eq!(5123.f(), (124, 21));
    assert_eq!((-5123).f(), (-60, 21));
}

#[test]
fn celsius_round_trip_on_samples() {
    for t in [0i32, 1, 99, 100, 2508, 5123, -100, -101, -5123, 12799, -12799, -12899] {
        let (integer, fractional) = t.c();
        let back = if integer < 0 {
            integer as i32 * 100 - fractional as i32
        } else {
            integer as i32 * 100 + fractional as i32
        };
        assert_eq!(back, t);
    }
}

#[test]
fn celsius_just_below_zero_loses_the_sign() {
    assert_eq!((-50).c(), (0, 50));
}

#[test]
fn celsius_whole_degrees_wrap_to_eight_bits() {
    assert_eq!(20000.c(), (-56, 0));
}

#[test]
fn fahrenheit_at_freezing_and_below() {
    assert_eq!(0.f(), (32, 0));
    assert_eq!((-1778).f(), (0, 0));
    assert_eq!((-4000).f(), (-40, 0));
}

#[test]
fn pressure_splits_of_zero() {
    assert_eq!(0.Pa(), (0, 0));
    assert_eq!(0.hPa(), (0, 0));
    assert_eq!(0.mmHg(), (0, 0));
}

#[test]
fn pressure_splits_of_datasheet_value() {
    assert_eq!(25767233.Pa(), (100653, 25));
    assert_eq!(25767233.hPa(), (1006, 532));
    assert_eq!(25767233.mmHg(), (754, 9));
}

#[test]
fn percent_at_full_scale() {
    assert_eq!(102400.percent(), (100, 0));
    assert_eq!(1023.percent(), (0, 999));
}
