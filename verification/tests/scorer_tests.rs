//! Tests for the pure scoring functions. Scores are fixed-point fractions of
//! `SCALE` (1_000_000), so 500_000 stands for 0.5.

use berri_recall::scorer::Scorer;
use berri_recall::scorer::SCALE;

#[test]
fn test_calculate_suggestion_score() {
    let score = Scorer::calculate_suggestion_score(800_000, 900_000, 700_000, 600_000, 500_000);

    assert!(score > 0);
    assert!(score <= SCALE);
    assert!(score > 500_000); // With these high values, score should be decent
    assert_eq!(score, 725_000); // 0.25*0.8 + 0.2*0.9 + 0.25*0.7 + 0.2*0.6 + 0.1*0.5
}

#[test]
fn test_frequency_weight() {
    assert_eq!(Scorer::calculate_frequency_weight(5, 10), 500_000);
    assert_eq!(Scorer::calculate_frequency_weight(10, 10), 1_000_000);
    assert_eq!(Scorer::calculate_frequency_weight(0, 10), 0);
}

#[test]
fn test_recency_weight() {
    // Recently used (1 day ago) should have high score
    let recent = Scorer::calculate_recency_weight(1);
    assert!(recent > 800_000);

    // Long time ago (30 days) should have low score
    let old = Scorer::calculate_recency_weight(30);
    assert!(old < 300_000);

    // Today (0 days) should be 1.0
    let today = Scorer::calculate_recency_weight(0);
    assert_eq!(today, 1_000_000);
}

#[test]
fn test_context_match() {
    assert_eq!(Scorer::calculate_context_match(3, 5), 600_000);
    assert_eq!(Scorer::calculate_context_match(5, 5), 1_000_000);
    assert_eq!(Scorer::calculate_context_match(0, 5), 0);
}

#[test]
fn frequency_weight_is_clamped_and_guards_zero() {
    // more usage than the maximum clamps to 1.0
    assert_eq!(Scorer::calculate_frequency_weight(7, 3), SCALE);
    // an empty data set weighs 0 instead of dividing by zero
    assert_eq!(Scorer::calculate_frequency_weight(4, 0), 0);
    assert_eq!(Scorer::calculate_frequency_weight(0, 0), 0);
    // a negative ratio clamps to 0
    assert_eq!(Scorer::calculate_frequency_weight(-3, 10), 0);
}

#[test]
fn recency_weight_halves_each_week_and_decreases() {
    assert_eq!(Scorer::calculate_recency_weight(7), 500_000);
    assert_eq!(Scorer::calculate_recency_weight(14), 250_000);
    let mut prev = Scorer::calculate_recency_weight(0);
    for d in 1..60u64 {
        let w = Scorer::calculate_recency_weight(d);
        assert!(w < prev, "weight must fall strictly from day {} to {}", d - 1, d);
        prev = w;
    }
}

#[test]
fn suggestion_score_is_exact_at_the_corners() {
    assert_eq!(Scorer::calculate_suggestion_score(SCALE, SCALE, SCALE, SCALE, SCALE), SCALE);
    assert_eq!(Scorer::calculate_suggestion_score(0, 0, 0, 0, 0), 0);
}
