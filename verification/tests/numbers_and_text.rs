use corpusflow::config::F32Bits;
use corpusflow::matching::{select_best_candidate, GreedySelection};
use corpusflow::text::{is_blank, trim};

fn bits(value: f32) -> F32Bits {
    F32Bits { bits: value.to_bits() }
}

#[test]
fn f32_order_on_bits_agrees_with_f32_comparison() {
    let values = [
        f32::NEG_INFINITY,
        -3.5,
        -1.0e-40,
        -0.0,
        0.0,
        1.0e-40,
        0.25,
        1.0,
        f32::MAX,
        f32::INFINITY,
        f32::NAN,
        -f32::NAN,
    ];
    for &a in &values {
        for &b in &values {
            assert_eq!(bits(a).lt(&bits(b)), a < b, "{a} < {b}");
        }
        assert_eq!(bits(a).is_nan(), a.is_nan());
        assert_eq!(bits(a).is_finite(), a.is_finite());
    }
}

#[test]
fn cheapest_candidate_is_the_first_of_least_cost() {
    let costs = [bits(3.0), bits(1.0), bits(2.0), bits(1.0)];
    assert_eq!(select_best_candidate(&costs), 1);

    let costs = [bits(0.0), bits(-0.0)];
    assert_eq!(select_best_candidate(&costs), 0);

    let costs = [bits(2.0), bits(f32::NAN), bits(-1.0)];
    assert_eq!(select_best_candidate(&costs), 2);

    let costs = [bits(f32::NAN), bits(-1.0)];
    assert_eq!(select_best_candidate(&costs), 0);

    let costs = [bits(5.0)];
    assert_eq!(select_best_candidate(&costs), 0);
}

#[test]
fn trimming_removes_unicode_white_space() {
    assert_eq!(trim("  a b \t\n"), "a b");
    assert_eq!(trim("\u{3000}path\u{a0}"), "path");
    assert_eq!(trim("x"), "x");
    assert_eq!(trim(""), "");
    assert!(is_blank(" \t\r\n\u{2003}"));
    assert!(is_blank(""));
    assert!(!is_blank(" . "));
}

#[test]
fn greedy_selection_keeps_previous_choice_as_context() {
    let mut selection = GreedySelection::new();
    assert_eq!(selection.previous(), None);
    assert_eq!(selection.select_next(&[bits(0.25), bits(64.0)]), 0);
    assert_eq!(selection.previous(), Some(0));
    assert_eq!(selection.select_next(&[bits(64.0), bits(72.25), bits(12.25)]), 2);
    assert_eq!(selection.previous(), Some(2));
    assert_eq!(selection.selected, vec![0, 2]);
}
