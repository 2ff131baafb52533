use tween_scene::easing::EaseFunction;

#[test]
fn every_easing_fixes_zero_and_one() {
    let curves = [
        EaseFunction::Linear,
        EaseFunction::QuadraticInOut,
        EaseFunction::ExponentialInOut,
    ];
    for e in curves {
        assert_eq!(e.apply(0), 0);
        assert_eq!(e.apply(1_000_000), 1_000_000);
    }
}

#[test]
fn linear_is_identity() {
    assert_eq!(EaseFunction::Linear.apply(1), 1);
    assert_eq!(EaseFunction::Linear.apply(250_000), 250_000);
    assert_eq!(EaseFunction::Linear.apply(999_999), 999_999);
}

#[test]
fn quadratic_in_out_values() {
    let e = EaseFunction::QuadraticInOut;
    // Rising half: 2 r^2, so a quarter eases to an eighth.
    assert_eq!(e.apply(250_000), 125_000);
    assert_eq!(e.apply(500_000), 500_000);
    // Falling half mirrors the rising half.
    assert_eq!(e.apply(750_000), 875_000);
}

#[test]
fn exponential_in_out_values() {
    let e = EaseFunction::ExponentialInOut;
    // The half-curve nodes carry the truncated scaled powers of two.
    assert_eq!(e.apply(50_000), 976);
    assert_eq!(e.apply(100_000), 1_953);
    assert_eq!(e.apply(250_000), 15_625);
    assert_eq!(e.apply(500_000), 500_000);
    // The upper half mirrors the lower half.
    assert_eq!(e.apply(900_000), 1_000_000 - 1_953);
    assert_eq!(e.apply(950_000), 1_000_000 - 976);
    // Between two nodes the curve is linear: halfway from the node at
    // 250_000 toward the node at 300_000 (value 31_250).
    assert_eq!(e.apply(275_000), 15_625 + (31_250 - 15_625) / 2);
}

#[test]
fn exponential_jumps_only_at_the_ends() {
    let e = EaseFunction::ExponentialInOut;
    // Just inside the ends the curve sits at the first node, not at zero.
    assert_eq!(e.apply(1), 488);
    assert_eq!(e.apply(999_999), 1_000_000 - 488);
}
