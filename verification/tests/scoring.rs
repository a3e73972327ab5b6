//! The closeness score and the weight/ratio evaluator, on concrete values.
//! Percentages and scores are centi-scaled: 5000 is 50.00.
use balance_goals::balance::{pct_to_score, BalanceCounter};
use balance_goals::ball::BallKind;
use balance_goals::goals::Mix;

#[test]
fn test_pct_to_score() {
    let target = 5000;

    assert_eq!(5000, pct_to_score(target, 5000));
    assert_eq!(4138, pct_to_score(target, 4500));
    assert_eq!(4138, pct_to_score(target, 5500));
    assert_eq!(3310, pct_to_score(target, 4000));
    assert_eq!(331, pct_to_score(target, 2200));
    assert_eq!(182, pct_to_score(target, 2110));
    assert_eq!(0, pct_to_score(target, 2000));
}

#[test]
fn score_boundaries() {
    // exactly 1 point of deviation leaves the flat cap: (29/29)*48 = 48.00
    assert_eq!(4800, pct_to_score(5000, 4900));
    assert_eq!(4800, pct_to_score(5000, 5100));
    // just under 1 point still scores the cap
    assert_eq!(5000, pct_to_score(5000, 4901));
    // exactly 30 points of deviation scores zero via the linear branch
    assert_eq!(0, pct_to_score(5000, 8000));
    // beyond 30 points: hard cutoff
    assert_eq!(0, pct_to_score(5000, 8001));
    assert_eq!(0, pct_to_score(5000, 10000));
}

#[test]
fn score_symmetric_and_monotone_samples() {
    // symmetric in |target - actual|
    for d in [0u64, 50, 100, 777, 1500, 2900, 3000, 3100] {
        assert_eq!(pct_to_score(5000, 5000 - d), pct_to_score(5000, 5000 + d));
    }
    // non-increasing as the deviation grows
    let mut last = pct_to_score(5000, 5000);
    for d in 0u64..3200 {
        let s = pct_to_score(5000, 5000 + d);
        assert!(s <= last);
        last = s;
    }
}

#[test]
fn percentage_of_counts() {
    let counter = BalanceCounter { red: 1, blue: 2 };
    // 2/3 of the balls are blue: 66.67 rounded to nearest centi-percent
    assert_eq!(6667, counter.category_percentage(BallKind::Blue));
    assert_eq!(3333, counter.category_percentage(BallKind::Red));
    let even = BalanceCounter { red: 5, blue: 5 };
    assert_eq!(5000, even.category_percentage(BallKind::Red));
    // empty ledger: the documented sentinel is 0
    let empty = BalanceCounter::new();
    assert_eq!(0, empty.category_percentage(BallKind::Blue));
}

#[test]
fn even_split_full_marks() {
    // EvenSplit target with counts {5, 5}: both categories at 50.00,
    // deviation 0, 50.00 each, combined 100.00
    let counter = BalanceCounter { red: 5, blue: 5 };
    let (a, b, score) = counter.ratios_and_score(&Mix::FiftyFifty);
    assert_eq!(10000, score);
    assert_eq!("Blue. Goal 50.00, Actual 50.00", a);
    assert_eq!("Red. Goal 50.00, Actual 50.00", b);
}

#[test]
fn asymmetric_split_score() {
    let counter = BalanceCounter { red: 3, blue: 1 };
    let mix = Mix::AB {
        a_pct: 25,
        a_kind: BallKind::Blue,
        b_kind: BallKind::Red,
    };
    let (a, b, score) = counter.ratios_and_score(&mix);
    assert_eq!("Blue. Goal 25.00, Actual 25.00", a);
    assert_eq!("Red. Goal 75.00, Actual 75.00", b);
    assert_eq!(10000, score);
}

#[test]
fn evaluator_on_empty_ledger_does_not_crash() {
    let counter = BalanceCounter::new();
    let (a, b, score) = counter.ratios_and_score(&Mix::FiftyFifty);
    // both actual percentages take the 0 sentinel: deviation 50, score 0
    assert_eq!("Blue. Goal 50.00, Actual 0.00", a);
    assert_eq!("Red. Goal 50.00, Actual 0.00", b);
    assert_eq!(0, score);
}

#[test]
fn total_weight_is_count_times_unit() {
    let mut counter = BalanceCounter::new();
    assert_eq!(0, counter.total_weight());
    counter.incr(BallKind::Red);
    counter.incr(BallKind::Blue);
    counter.incr(BallKind::Blue);
    // three balls of 0.80 units: 2.40
    assert_eq!(240, counter.total_weight());
    assert_eq!("2.40", counter.weight_display());
}

#[test]
fn ratio_is_blue_over_red() {
    let counter = BalanceCounter { red: 4, blue: 7 };
    assert_eq!((7, 4), counter.calculate_ratio());
}
