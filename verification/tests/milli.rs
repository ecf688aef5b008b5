use tpower::milli::{Dyadic, Milli};

fn nearest(v: f32) -> i64 {
    ((f64::from(v) * 1000.0).round() as i64).max(-i64::MAX)
}

#[test]
fn float_words_round_to_the_nearest_thousandth() {
    let samples: [f32; 14] = [
        0.0, -0.0, 1.0, -1.0, 1.5, 5.0, 3.0, 0.1, 0.7, -0.3, 12.3456, 1.0e-10, 123456.79, -98765.43,
    ];
    for v in samples {
        assert_eq!(Milli::from_f32_bits(v.to_bits()), Some(Milli { raw: nearest(v) }), "{v}");
    }
}

#[test]
fn float_words_that_are_no_number_have_no_value() {
    assert_eq!(Milli::from_f32_bits(f32::NAN.to_bits()), None);
    assert_eq!(Milli::from_f32_bits(f32::INFINITY.to_bits()), None);
    assert_eq!(Milli::from_f32_bits(f32::NEG_INFINITY.to_bits()), None);
}

#[test]
fn float_words_beyond_the_range_are_cut_off() {
    assert_eq!(Milli::from_f32_bits(f32::MAX.to_bits()), Some(Milli { raw: i64::MAX }));
    assert_eq!(Milli::from_f32_bits(f32::MIN.to_bits()), Some(Milli { raw: -i64::MAX }));
    assert_eq!(Milli::from_f32_bits(f32::MIN_POSITIVE.to_bits()), Some(Milli { raw: 0 }));
    assert_eq!(Milli::from_f32_bits(1), Some(Milli { raw: 0 }));
}

#[test]
fn float_words_agree_with_the_machine_on_a_sweep() {
    let mut bits: u32 = 0x3000_0000;
    while bits < 0x5e00_0000 {
        let v = f32::from_bits(bits);
        assert_eq!(Milli::from_f32_bits(bits), Some(Milli { raw: nearest(v) }), "{bits:#x}");
        let n = bits | 0x8000_0000;
        assert_eq!(Milli::from_f32_bits(n), Some(Milli { raw: nearest(-v) }), "{n:#x}");
        bits += 0x0001_2345;
    }
}

#[test]
fn dyadic_numbers_round_half_away_from_zero() {
    assert_eq!(Milli::from_dyadic(false, 1, -1).raw, 500);
    assert_eq!(Milli::from_dyadic(false, 1, -4).raw, 63);
    assert_eq!(Milli::from_dyadic(true, 1, -4).raw, -63);
    assert_eq!(Milli::from_dyadic(false, 1, -11).raw, 0);
    assert_eq!(Milli::from_dyadic(false, 1, -10).raw, 1);
    assert_eq!(Milli::from_dyadic(true, 256, -8).raw, -1000);
    assert_eq!(Milli::from_dyadic(false, 3, 2).raw, 12_000);
    assert_eq!(Milli::from_dyadic(false, 1, 62).raw, i64::MAX);
}

#[test]
fn arithmetic_is_cut_off_at_the_range() {
    let top = Milli { raw: i64::MAX };
    assert_eq!(top.plus(Milli { raw: 1 }).raw, i64::MAX);
    assert_eq!(Milli { raw: -i64::MAX }.minus(Milli { raw: 5 }).raw, -i64::MAX);
    assert_eq!(Milli { raw: 2500 }.plus(Milli { raw: -500 }).raw, 2000);
    assert_eq!(Milli { raw: 2500 }.minus(Milli { raw: 4000 }).raw, -1500);
    assert_eq!(Milli { raw: 7 }.times(-3).raw, -21);
    assert_eq!(Milli::from_units(12).raw, 12_000);
    assert_eq!(Milli::from_units(i64::MAX).raw, i64::MAX);
}

#[test]
fn division_rounds_toward_zero() {
    assert_eq!(Milli { raw: 7 }.div(2).raw, 3);
    assert_eq!(Milli { raw: -7 }.div(2).raw, -3);
    assert_eq!(Milli::from_ratio(1, 3).raw, 333);
    assert_eq!(Milli::from_ratio(-1, 3).raw, -333);
    assert_eq!(Milli::from_ratio(1, -3).raw, -333);
    assert_eq!(Milli::from_ratio(5, 0).raw, 0);
    assert_eq!(Milli { raw: -1999 }.abs_floor(), 1);
    assert_eq!(Milli { raw: 2000 }.abs_floor(), 2);
}

#[test]
fn a_float_is_held_without_rounding() {
    let mut bits: u32 = 1;
    while bits < 0x7f80_0000 {
        let float = f32::from_bits(bits);
        let held = Dyadic::from_f32_bits(bits).unwrap();
        assert!(!held.negative);
        assert_eq!((f64::from(held.mantissa) * 2f64.powi(held.exponent)) as f32, float, "{bits:#x}");
        assert_eq!(Some(held.to_milli()), Milli::from_f32_bits(bits));
        assert_eq!(Dyadic::from_f32_bits(bits | 0x8000_0000), Some(Dyadic { negative: true, ..held }));
        bits += 0x0012_3457;
    }
    assert_eq!(Dyadic::from_f32_bits(0), Some(Dyadic { negative: false, mantissa: 0, exponent: -149 }));
    assert_eq!(Dyadic::from_f32_bits(0).unwrap().to_milli(), Dyadic::zero().to_milli());
    assert_eq!(Dyadic::from_f32_bits(0x7f80_0000), None);
    assert_eq!(Dyadic::from_f32_bits(0xffc0_0000), None);
    assert_eq!(Dyadic::default(), Dyadic::zero());
    assert_eq!(Dyadic::from_unsigned(7).to_milli(), Milli { raw: 7000 });
}
