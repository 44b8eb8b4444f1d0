use turtle_script::number::Number;

fn number(value: f32) -> Number {
    Number::from_bits(value.to_bits()).expect("a finite value")
}

fn truncated(value: f32) -> i32 {
    number(value).truncated()
}

#[test]
fn zero_has_pattern_zero() {
    assert_eq!(Number::zero().to_bits(), 0);
    assert_eq!(Number::zero(), number(0.0));
    assert_ne!(Number::zero(), number(-0.0));
}

#[test]
fn finite_patterns_are_numbers() {
    let values =
        [0.0f32, -0.0, 1.0, -1.0, 100.0, 0.1, f32::MAX, f32::MIN, f32::MIN_POSITIVE, 1e-45];
    for value in values {
        let n = Number::from_bits(value.to_bits());
        assert!(n.is_some());
        assert_eq!(n.unwrap().to_bits(), value.to_bits());
    }
}

#[test]
fn infinities_and_nan_are_no_numbers() {
    assert!(Number::from_bits(f32::INFINITY.to_bits()).is_none());
    assert!(Number::from_bits(f32::NEG_INFINITY.to_bits()).is_none());
    assert!(Number::from_bits(f32::NAN.to_bits()).is_none());
    assert!(Number::from_bits(0x7f80_0001).is_none());
    assert!(Number::from_bits(0xffff_ffff).is_none());
    assert!(Number::from_bits(0x7f7f_ffff).is_some());
    assert!(Number::from_bits(0xff7f_ffff).is_some());
}

#[test]
fn from_bits_agrees_with_is_finite_on_every_exponent() {
    let mut bits: u32 = 0;
    loop {
        let expected = f32::from_bits(bits).is_finite();
        assert_eq!(Number::from_bits(bits).is_some(), expected, "pattern {bits:#x}");
        match bits.checked_add(0x0003_ffff) {
            Some(next) => bits = next,
            None => break,
        }
    }
}

#[test]
fn truncation_of_chosen_values() {
    assert_eq!(truncated(0.0), 0);
    assert_eq!(truncated(-0.0), 0);
    assert_eq!(truncated(0.999), 0);
    assert_eq!(truncated(-0.999), 0);
    assert_eq!(truncated(1.0), 1);
    assert_eq!(truncated(-1.0), -1);
    assert_eq!(truncated(1.5), 1);
    assert_eq!(truncated(-1.5), -1);
    assert_eq!(truncated(99.99), 99);
    assert_eq!(truncated(100.0), 100);
    assert_eq!(truncated(-100.75), -100);
    assert_eq!(truncated(8388607.5), 8388607);
    assert_eq!(truncated(8388608.0), 8388608);
    assert_eq!(truncated(16777216.0), 16777216);
    assert_eq!(truncated(2147483520.0), 2147483520);
    assert_eq!(truncated(1e-45), 0);
    assert_eq!(truncated(f32::MIN_POSITIVE), 0);
}

#[test]
fn truncation_stays_in_range() {
    assert_eq!(truncated(2147483648.0), i32::MAX);
    assert_eq!(truncated(-2147483648.0), i32::MIN);
    assert_eq!(truncated(3e9), i32::MAX);
    assert_eq!(truncated(-3e9), i32::MIN);
    assert_eq!(truncated(f32::MAX), i32::MAX);
    assert_eq!(truncated(f32::MIN), i32::MIN);
}

#[test]
fn truncation_agrees_with_the_cast() {
    let mut bits: u32 = 0;
    let mut seen: u32 = 0;
    loop {
        let value = f32::from_bits(bits);
        if let Some(n) = Number::from_bits(bits) {
            assert_eq!(n.truncated(), value as i32, "pattern {bits:#x}");
            seen += 1;
        }
        match bits.checked_add(4099) {
            Some(next) => bits = next,
            None => break,
        }
    }
    assert!(seen > 1_000_000);
}

#[test]
fn truncation_agrees_with_the_cast_near_whole_numbers() {
    for whole in -3000i32..3000 {
        let value = whole as f32;
        for candidate in [
            value,
            f32::from_bits(value.to_bits().wrapping_add(1)),
            f32::from_bits(value.to_bits().wrapping_sub(1)),
            value + 0.5,
            value - 0.5,
        ] {
            if candidate.is_finite() {
                assert_eq!(truncated(candidate), candidate as i32, "value {candidate}");
            }
        }
    }
}

#[test]
fn negation_flips_the_sign() {
    for value in [0.0f32, -0.0, 1.0, -1.0, 100.0, -37.25, f32::MAX, f32::MIN, 1e-45] {
        let n = number(value);
        assert_eq!(n.negated().to_bits(), (-value).to_bits());
        assert_eq!(n.negated().negated(), n);
        assert_ne!(n.negated(), n);
    }
}

#[test]
fn negation_agrees_with_the_operator() {
    let mut bits: u32 = 0;
    loop {
        if let Some(n) = Number::from_bits(bits) {
            assert_eq!(n.negated().to_bits(), (-f32::from_bits(bits)).to_bits());
        }
        match bits.checked_add(65_521) {
            Some(next) => bits = next,
            None => break,
        }
    }
}

#[test]
fn half_of_small_numbers_is_exact() {
    assert_eq!(Number::half_of(0), number(0.0));
    assert_eq!(Number::half_of(1), number(0.5));
    assert_eq!(Number::half_of(2), number(1.0));
    assert_eq!(Number::half_of(3), number(1.5));
    assert_eq!(Number::half_of(200), number(100.0));
    assert_eq!(Number::half_of(201), number(100.5));
    assert_eq!(Number::half_of(16_777_215), number(8_388_607.5));
    assert_eq!(Number::half_of(16_777_216), number(8_388_608.0));
}

#[test]
fn half_of_large_numbers_is_rounded_to_the_even_neighbour() {
    assert_eq!(Number::half_of(16_777_217), number(8_388_608.0));
    assert_eq!(Number::half_of(16_777_218), number(8_388_609.0));
    assert_eq!(Number::half_of(16_777_219), number(8_388_610.0));
    assert_eq!(Number::half_of(u32::MAX), number(2_147_483_648.0));
    assert_eq!(Number::half_of(0x8000_0000), number(1_073_741_824.0));
}

#[test]
fn half_of_agrees_with_the_division() {
    let expected = |n: u32| (n as f32 / 2.0).to_bits();
    for n in 0u32..70_000 {
        assert_eq!(Number::half_of(n).to_bits(), expected(n), "number {n}");
    }
    for shift in 0..32 {
        let power = 1u32 << shift;
        for offset in 0u32..600 {
            for n in [power.wrapping_add(offset), power.wrapping_sub(offset)] {
                assert_eq!(Number::half_of(n).to_bits(), expected(n), "number {n}");
            }
        }
    }
    let mut n: u32 = 0;
    loop {
        assert_eq!(Number::half_of(n).to_bits(), expected(n), "number {n}");
        match n.checked_add(7919) {
            Some(next) => n = next,
            None => break,
        }
    }
    for back in 0u32..100_000 {
        let n = u32::MAX - back;
        assert_eq!(Number::half_of(n).to_bits(), expected(n), "number {n}");
    }
}
