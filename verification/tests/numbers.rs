use terralib::binary32::{Binary32, INFINITY_BITS, ONE_BITS, SIGN_BIT};
use terralib::client::DEFAULT_DURATION_BITS;
use terralib::config::{DEFAULT_LIGHT_INTENSITY_BITS, HUMIDITY_SETPOINT_LIMIT_BITS};
use terralib::effects::BASELINE_BRIGHTNESS_BITS;
use terralib::influxdb::MISSING_READING_BITS;
use terralib::reset::{BREATHE_MAX_BITS, BREATHE_MIN_BITS};
use terralib::terrarium::{FAKE_HUMIDITY_BITS, FAKE_TEMPERATURE_BITS};

fn number(value: f32) -> Binary32 {
    Binary32::from_bits(value.to_bits())
}

fn samples() -> Vec<f32> {
    let mut all = vec![
        0.0,
        -0.0,
        1.0,
        -1.0,
        0.5,
        0.7,
        0.8,
        0.81,
        0.95,
        0.949_999_9,
        1.000_000_1,
        0.999_999_94,
        2.0,
        10.0,
        60.0,
        1000.0,
        1.5,
        2.9,
        -2.9,
        8_388_608.0,
        16_777_216.0,
        16_777_215.0,
        33_554_432.0,
        4_294_967_040.0,
        4_294_967_296.0,
        1.0e20,
        -1.0e20,
        f32::MIN_POSITIVE,
        f32::MAX,
        f32::MIN,
        f32::EPSILON,
        f32::INFINITY,
        f32::NEG_INFINITY,
        f32::NAN,
        -f32::NAN,
        f32::from_bits(1),
        f32::from_bits(0x8000_0001),
        f32::from_bits(0x7FFF_FFFF),
        f32::from_bits(0xFFFF_FFFF),
    ];
    let mut bits: u32 = 0x0123_4567;
    for _ in 0..2000 {
        bits = bits.wrapping_mul(1_664_525).wrapping_add(1_013_904_223);
        all.push(f32::from_bits(bits));
    }
    all
}

#[test]
fn constants_are_the_patterns_of_their_numbers() {
    assert_eq!(ONE_BITS, 1.0f32.to_bits());
    assert_eq!(INFINITY_BITS, f32::INFINITY.to_bits());
    assert_eq!(SIGN_BIT, (-0.0f32).to_bits());
    assert_eq!(HUMIDITY_SETPOINT_LIMIT_BITS, 0.95f32.to_bits());
    assert_eq!(DEFAULT_LIGHT_INTENSITY_BITS, 0.6f32.to_bits());
    assert_eq!(DEFAULT_DURATION_BITS, 60.0f32.to_bits());
    assert_eq!(BASELINE_BRIGHTNESS_BITS, 0.15f32.to_bits());
    assert_eq!(MISSING_READING_BITS, (-1.0f32).to_bits());
    assert_eq!(BREATHE_MIN_BITS, 0.05f32.to_bits());
    assert_eq!(BREATHE_MAX_BITS, 0.5f32.to_bits());
    assert_eq!(FAKE_TEMPERATURE_BITS, 22.0f32.to_bits());
    assert_eq!(FAKE_HUMIDITY_BITS, 0.8f32.to_bits());
}

#[test]
fn patterns_round_trip() {
    for x in samples() {
        assert_eq!(number(x).to_bits(), x.to_bits());
    }
    assert_eq!(Binary32::zero().to_bits(), 0.0f32.to_bits());
}

#[test]
fn nan_is_told_apart() {
    for x in samples() {
        assert_eq!(number(x).nan(), x.is_nan(), "{x:?}");
    }
}

#[test]
fn order_is_that_of_the_numbers() {
    let all = samples();
    for (i, a) in all.iter().enumerate() {
        for b in all.iter().skip(i % 7).step_by(7) {
            assert_eq!(number(*a).lt(&number(*b)), a < b, "{a:?} < {b:?}");
            assert_eq!(number(*a).same_number(&number(*b)), a == b, "{a:?} == {b:?}");
        }
    }
    assert!(number(0.5).lt(&number(0.8)));
    assert!(!number(0.81).lt(&number(0.8)));
    assert!(number(0.0).same_number(&number(-0.0)));
    assert!(!number(f32::NAN).same_number(&number(f32::NAN)));
}

#[test]
fn ranges_are_those_of_the_numbers() {
    for x in samples() {
        assert_eq!(number(x).in_unit_interval(), (0.0..=1.0).contains(&x), "{x:?}");
        assert_eq!(
            number(x).in_fraction_below(HUMIDITY_SETPOINT_LIMIT_BITS),
            (0.0..0.95).contains(&x),
            "{x:?}"
        );
        assert_eq!(number(x).positive(), x > 0.0, "{x:?}");
    }
    assert!(number(1.0).in_unit_interval());
    assert!(number(-0.0).in_unit_interval());
    assert!(!number(1.000_000_1).in_unit_interval());
    assert!(!number(0.95).in_fraction_below(HUMIDITY_SETPOINT_LIMIT_BITS));
    assert!(number(0.949_999_9).in_fraction_below(HUMIDITY_SETPOINT_LIMIT_BITS));
}

#[test]
fn truncation_is_that_of_the_numbers() {
    for x in samples() {
        assert_eq!(number(x).to_u32(), x as u32, "{x:?}");
    }
    assert_eq!(number(10.0).to_u32(), 10);
    assert_eq!(number(2.9).to_u32(), 2);
    assert_eq!(number(0.5).to_u32(), 0);
    assert_eq!(number(-3.0).to_u32(), 0);
    assert_eq!(number(f32::NAN).to_u32(), 0);
    assert_eq!(number(f32::INFINITY).to_u32(), u32::MAX);
    assert_eq!(number(4_294_967_040.0).to_u32(), 4_294_967_040);
    assert_eq!(number(4_294_967_296.0).to_u32(), u32::MAX);
}
