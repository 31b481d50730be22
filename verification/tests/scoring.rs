use rustris::score::{classify, score_delta, LineClears};

#[test]
fn classify_maps_counts_to_clears() {
    assert_eq!(classify(0), LineClears::NoClear);
    assert_eq!(classify(1), LineClears::Single);
    assert_eq!(classify(2), LineClears::Double);
    assert_eq!(classify(3), LineClears::Triple);
    assert_eq!(classify(4), LineClears::Tetris);
}

#[test]
fn score_delta_exact_values() {
    assert_eq!(score_delta(LineClears::NoClear), 0);
    assert_eq!(score_delta(LineClears::Single), 1000);
    assert_eq!(score_delta(LineClears::Double), 4000);
    assert_eq!(score_delta(LineClears::Triple), 6000);
    assert_eq!(score_delta(LineClears::Tetris), 12000);
}

#[test]
fn four_row_clear_is_worth_twelve_thousand() {
    assert_eq!(score_delta(classify(4)), 12000);
}
