use detcore::probability::{push_roll, Probability};
use detcore::text::{push_decimal, push_padded_decimal, same_text, text_contains};
use rand::{Rng, RngCore, SeedableRng};
use rand_pcg::Pcg64Mcg;

fn samples() -> Vec<f64> {
    let mut all = vec![
        0.0,
        -0.0,
        1.0,
        -1.0,
        0.5,
        0.25,
        0.1,
        0.3,
        1.0 / 3.0,
        1.0 - f64::EPSILON / 2.0,
        1.0 + f64::EPSILON,
        f64::MIN_POSITIVE,
        f64::MIN_POSITIVE / 2.0,
        5e-324,
        -5e-324,
        f64::MAX,
        f64::MIN,
        f64::INFINITY,
        f64::NEG_INFINITY,
        f64::NAN,
        -f64::NAN,
        2.0,
        1e-16,
        1.1102230246251565e-16,
        1e-17,
    ];
    let mut rng = Pcg64Mcg::seed_from_u64(2024);
    for _ in 0..500 {
        all.push(rng.gen());
        all.push(f64::from_bits(rng.next_u64()));
    }
    all
}

#[test]
fn bits_are_kept() {
    for p in samples() {
        assert_eq!(Probability::from_bits(p.to_bits()).to_bits(), p.to_bits());
    }
    assert_eq!(Probability::zero().to_bits(), 0.0f64.to_bits());
}

#[test]
fn positive_as_floats_are() {
    for p in samples() {
        assert_eq!(Probability::from_bits(p.to_bits()).is_positive(), p > 0.0);
    }
}

#[test]
fn clamped_as_floats_are() {
    for p in samples() {
        let expected = p.clamp(0.0, 1.0);
        assert_eq!(Probability::from_bits(p.to_bits()).clamp_to_unit().to_bits(), expected.to_bits());
    }
}

#[test]
fn compared_as_rolls_are() {
    let mut words = vec![0, 1, 2047, 2048, u64::MAX, 1 << 63, (1 << 63) - 1, 1 << 11, 3 << 11];
    let mut rng = Pcg64Mcg::seed_from_u64(5);
    for _ in 0..100 {
        words.push(rng.next_u64());
        words.push(rng.next_u64() >> 40);
    }
    for p in samples() {
        for word in &words {
            let roll = (*word >> 11) as f64 * (1.0 / (1u64 << 53) as f64);
            assert_eq!(Probability::from_bits(p.to_bits()).exceeds_roll(*word), roll < p);
        }
    }
}

#[test]
fn a_word_stands_for_the_float_that_the_generator_makes_of_it() {
    let mut floats = Pcg64Mcg::seed_from_u64(77);
    let mut words = Pcg64Mcg::seed_from_u64(77);
    for _ in 0..1000 {
        let roll: f64 = floats.gen();
        let word = words.next_u64();
        assert_eq!(roll, (word >> 11) as f64 / (1u64 << 53) as f64);
        let mut text = String::new();
        push_roll(&mut text, word);
        assert_eq!(text, format!("{:.4}", roll));
    }
}

#[test]
fn four_digits_as_floats_are_printed() {
    let mut all: Vec<f64> = samples().into_iter().filter(|p| *p >= 0.0 && *p <= 1.0).collect();
    for j in 0..=32 {
        all.push(j as f64 / 32.0);
    }
    for j in 0..=10000 {
        all.push(j as f64 / 10000.0);
        all.push((j as f64 + 0.5) / 10001.0);
    }
    for p in all {
        if p.to_bits() <= 1.0f64.to_bits() {
            let mut text = "<".to_string();
            Probability::from_bits(p.to_bits()).push_four_digits(&mut text);
            assert_eq!(text, format!("<{:.4}", p));
        }
    }
}

#[test]
fn four_digits_exactly() {
    let show = |p: f64| {
        let mut text = String::new();
        Probability::from_bits(p.to_bits()).push_four_digits(&mut text);
        text
    };
    assert_eq!(show(0.5), "0.5000");
    assert_eq!(show(1.0), "1.0000");
    assert_eq!(show(0.03125), "0.0312");
    assert_eq!(show(0.09375), "0.0938");
    assert_eq!(show(0.99999), "1.0000");
    assert_eq!(show(0.0), "0.0000");
}

#[test]
fn decimals() {
    for n in [0, 7, 10, 99, 100, 1234567890, u64::MAX] {
        let mut text = "n=".to_string();
        push_decimal(&mut text, n);
        assert_eq!(text, format!("n={}", n));
    }
    let mut text = String::new();
    push_padded_decimal(&mut text, 42, 4);
    assert_eq!(text, "0042");
    push_padded_decimal(&mut text, 12345, 3);
    assert_eq!(text, "0042345");
}

#[test]
fn substrings() {
    for (hay, pin) in [
        ("", ""),
        ("abc", ""),
        ("abc", "abc"),
        ("abc", "abcd"),
        ("abcabd", "abd"),
        ("aaab", "aab"),
        ("abc", "ac"),
        ("grüße", "üß"),
        ("grüße", "u"),
        ("", "a"),
    ] {
        assert_eq!(text_contains(hay, pin), hay.contains(pin));
    }
    assert!(same_text("abc", "abc"));
    assert!(!same_text("abc", "abd"));
    assert!(!same_text("abc", "ab"));
}
