use pathtracer::scalar::{is_positive, lt, nan, rank_of, INFINITY, ONE, SIGN, ZERO};

fn scalar_samples() -> Vec<f32> {
    vec![
        0.0,
        -0.0,
        1.0,
        -1.0,
        0.001,
        -0.001,
        0.5,
        0.8,
        0.95,
        255.99,
        1.0e-40,
        -1.0e-40,
        f32::MIN_POSITIVE,
        f32::MAX,
        f32::MIN,
        f32::INFINITY,
        f32::NEG_INFINITY,
        f32::NAN,
        -f32::NAN,
        f32::EPSILON,
        3.5,
        -3.5,
        1000.0,
    ]
}

#[test]
fn constants_are_the_patterns_of_their_numbers() {
    assert_eq!(ZERO, 0.0f32.to_bits());
    assert_eq!(ONE, 1.0f32.to_bits());
    assert_eq!(SIGN, (-0.0f32).to_bits());
    assert_eq!(INFINITY, f32::INFINITY.to_bits());
}

#[test]
fn lt_agrees_with_the_machine_on_every_pair() {
    for a in scalar_samples() {
        for b in scalar_samples() {
            assert_eq!(lt(a.to_bits(), b.to_bits()), a < b, "{a} < {b}");
        }
    }
}

#[test]
fn nan_agrees_with_the_machine() {
    for a in scalar_samples() {
        assert_eq!(nan(a.to_bits()), a.is_nan(), "{a}");
    }
    assert!(nan(0x7f80_0001));
    assert!(nan(0xffff_ffff));
    assert!(!nan(0x7f80_0000));
    assert!(!nan(0xff80_0000));
}

#[test]
fn is_positive_agrees_with_the_machine() {
    for a in scalar_samples() {
        assert_eq!(is_positive(a.to_bits()), a > 0.0, "{a}");
    }
}

#[test]
fn rank_of_exact_values() {
    assert_eq!(rank_of(0), 0);
    assert_eq!(rank_of(0x8000_0000), 0);
    assert_eq!(rank_of(1), 1);
    assert_eq!(rank_of(0x8000_0001), -1);
    assert_eq!(rank_of(0x3f80_0000), 0x3f80_0000);
    assert_eq!(rank_of(0xbf80_0000), -0x3f80_0000);
    assert_eq!(rank_of(0xffff_ffff), -0x7fff_ffff);
}

#[test]
fn less_is_transitive_on_a_chain() {
    let chain = [-2.0f32, -0.5, 0.0, 0.25, 7.0];
    for i in 0..chain.len() {
        assert!(!lt(chain[i].to_bits(), chain[i].to_bits()));
        for j in (i + 1)..chain.len() {
            assert!(lt(chain[i].to_bits(), chain[j].to_bits()));
            assert!(!lt(chain[j].to_bits(), chain[i].to_bits()));
        }
    }
}
