use paddleball::score::score_label;
use paddleball::Score;

#[test]
fn a_new_score_is_zero() {
    let score = Score::default();
    assert_eq!(score.value(), 0);
    assert_eq!(score.text(), "Score: 0");
}

#[test]
fn labels_of_single_digits() {
    assert_eq!(score_label(0), "Score: 0");
    assert_eq!(score_label(1), "Score: 1");
    assert_eq!(score_label(9), "Score: 9");
}

#[test]
fn labels_of_longer_numbers() {
    assert_eq!(score_label(10), "Score: 10");
    assert_eq!(score_label(42), "Score: 42");
    assert_eq!(score_label(100), "Score: 100");
    assert_eq!(score_label(1_234_567_890), "Score: 1234567890");
    assert_eq!(score_label(9_007_199_254_740_993), "Score: 9007199254740993");
}

#[test]
fn label_of_the_greatest_score() {
    assert_eq!(score_label(u64::MAX), "Score: 18446744073709551615");
}

#[test]
fn labels_agree_with_the_standard_formatting() {
    for points in [0u64, 7, 10, 99, 100, 101, 65_535, 65_536, 999_999, 1_000_000] {
        assert_eq!(score_label(points), format!("Score: {}", points));
    }
}
