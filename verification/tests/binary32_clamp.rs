use gray_scott_reaction_diffusion::binary32::{
    are_valid_bounds, checked_clamp, clamp, clamp_concentration, is_not_a_number, key_of,
    INFINITY, MINUS_ONE, ONE, SIGN_BIT, ZERO,
};

fn clamp_numbers(v: f32, low: f32, high: f32) -> f32 {
    f32::from_bits(clamp(v.to_bits(), low.to_bits(), high.to_bits()))
}

fn samples() -> Vec<f32> {
    let mut values = vec![
        0.0,
        -0.0,
        1.0,
        -1.0,
        0.5,
        -0.5,
        8.56,
        100.0,
        -100.0,
        1.0000001,
        -1.0000001,
        0.99999994,
        f32::MIN_POSITIVE,
        -f32::MIN_POSITIVE,
        1.0e-45,
        -1.0e-45,
        f32::MAX,
        f32::MIN,
        f32::INFINITY,
        f32::NEG_INFINITY,
        0.1,
        10.0,
        2.0,
        7.0,
        5.0,
    ];
    let mut x = -3.0f32;
    while x < 3.0 {
        values.push(x);
        x += 0.0173;
    }
    values
}

#[test]
fn constants_are_the_patterns_of_their_numbers() {
    assert_eq!(ONE, 1.0f32.to_bits());
    assert_eq!(MINUS_ONE, (-1.0f32).to_bits());
    assert_eq!(ZERO, 0.0f32.to_bits());
    assert_eq!(INFINITY, f32::INFINITY.to_bits());
    assert_eq!(SIGN_BIT, (-0.0f32).to_bits());
}

#[test]
fn clamp_of_the_end_to_end_values() {
    assert_eq!(clamp_numbers(-100.0, 0.0, 10.0), 0.0);
    assert_eq!(clamp_numbers(100.0, 0.0, 10.0), 10.0);
    assert_eq!(clamp_numbers(8.56, 0.0, 10.0), 8.56);
}

#[test]
fn clamp_rejects_bounds_in_the_wrong_order() {
    assert!(!are_valid_bounds(7.0f32.to_bits(), 2.0f32.to_bits()));
    assert_eq!(
        checked_clamp(5.0f32.to_bits(), 7.0f32.to_bits(), 2.0f32.to_bits()),
        None
    );
    assert_eq!(
        checked_clamp(5.0f32.to_bits(), f32::NAN.to_bits(), 2.0f32.to_bits()),
        None
    );
    assert_eq!(
        checked_clamp(5.0f32.to_bits(), 2.0f32.to_bits(), f32::NAN.to_bits()),
        None
    );
    assert_eq!(
        checked_clamp(5.0f32.to_bits(), 2.0f32.to_bits(), 7.0f32.to_bits()),
        Some(5.0f32.to_bits())
    );
    assert_eq!(
        checked_clamp(5.0f32.to_bits(), 5.0f32.to_bits(), 5.0f32.to_bits()),
        Some(5.0f32.to_bits())
    );
}

#[test]
fn clamp_agrees_with_the_machine_on_numbers() {
    let values = samples();
    let bounds = [
        (-1.0f32, 1.0f32),
        (0.0, 1.0),
        (0.0, 0.1),
        (0.0, 10.0),
        (-0.0, 0.0),
        (-5.0, -2.0),
        (2.0, 2.0),
        (f32::NEG_INFINITY, f32::INFINITY),
        (-1.0e-45, 1.0e-45),
    ];
    for &(low, high) in bounds.iter() {
        for &v in values.iter() {
            let expected = v.clamp(low, high);
            let found = clamp_numbers(v, low, high);
            assert_eq!(found.to_bits(), expected.to_bits());
        }
    }
}

#[test]
fn key_orders_patterns_as_numbers_are_ordered() {
    let values = samples();
    for &a in values.iter() {
        for &b in values.iter() {
            assert_eq!(key_of(a.to_bits()) < key_of(b.to_bits()), a < b);
            assert_eq!(key_of(a.to_bits()) == key_of(b.to_bits()), a == b);
        }
    }
}

#[test]
fn what_is_not_a_number_becomes_the_lower_bound() {
    assert!(is_not_a_number(f32::NAN.to_bits()));
    assert!(is_not_a_number(0x7f80_0001));
    assert!(is_not_a_number(0xffff_ffff));
    assert!(!is_not_a_number(f32::INFINITY.to_bits()));
    assert!(!is_not_a_number(f32::NEG_INFINITY.to_bits()));
    assert!(!is_not_a_number(0));
    assert_eq!(clamp(f32::NAN.to_bits(), MINUS_ONE, ONE), MINUS_ONE);
    assert_eq!(clamp(0xffc0_0000, ZERO, ONE), ZERO);
    assert_eq!(clamp_concentration(f32::NAN.to_bits()), MINUS_ONE);
}

#[test]
fn clamp_is_idempotent() {
    let values = samples();
    for &v in values.iter() {
        let once = clamp(v.to_bits(), 0.0f32.to_bits(), 10.0f32.to_bits());
        let twice = clamp(once, 0.0f32.to_bits(), 10.0f32.to_bits());
        assert_eq!(once, twice);
    }
    let once = clamp(f32::NAN.to_bits(), MINUS_ONE, ONE);
    assert_eq!(clamp(once, MINUS_ONE, ONE), once);
}

#[test]
fn concentrations_are_clamped_to_the_signed_unit() {
    assert_eq!(clamp_concentration(2.5f32.to_bits()), ONE);
    assert_eq!(clamp_concentration((-2.5f32).to_bits()), MINUS_ONE);
    assert_eq!(clamp_concentration(0.25f32.to_bits()), 0.25f32.to_bits());
    assert_eq!(clamp_concentration(f32::INFINITY.to_bits()), ONE);
    assert_eq!(clamp_concentration(f32::NEG_INFINITY.to_bits()), MINUS_ONE);
    assert_eq!(clamp_concentration((-0.0f32).to_bits()), (-0.0f32).to_bits());
}
