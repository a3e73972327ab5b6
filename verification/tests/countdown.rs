//! The countdown state machine, end to end: arming at the weight
//! threshold, the one-way ratchet, and the one-shot result calculation.
use balance_goals::balance::BalanceCounter;
use balance_goals::ball::BallKind;
use balance_goals::goals::{Countdown, LevelCriteria, LevelStopwatch, Mix, WatchOutcome};
use balance_goals::score::TotalScore;

fn criteria() -> LevelCriteria {
    LevelCriteria {
        min_weight_centi: 200, // 2.00 units
        target_mix: Mix::FiftyFifty,
        countdown_time_secs: 7,
    }
}

#[test]
fn countdown_arms_only_above_minimum_weight() {
    let crit = criteria();
    let mut stopwatch = LevelStopwatch::new();
    let mut countdown = Countdown::Inactive;
    let mut counter = BalanceCounter::new();
    let mut total = TotalScore::new();
    stopwatch.update_system(3000);

    // two balls of 0.80 each: total 1.60, below the 2.00 minimum
    counter.incr(BallKind::Blue);
    counter.incr(BallKind::Red);
    let outcome = crit.watch_system(&mut stopwatch, &mut countdown, &counter, &mut total);
    assert!(matches!(outcome, WatchOutcome::Nothing));
    assert!(matches!(countdown, Countdown::Inactive));

    // a third ball: total 2.40 exceeds the minimum; deadline is now + duration
    counter.incr(BallKind::Blue);
    let outcome = crit.watch_system(&mut stopwatch, &mut countdown, &counter, &mut total);
    assert!(matches!(outcome, WatchOutcome::CountdownStarted));
    assert!(matches!(
        countdown,
        Countdown::Active {
            end_ms: 10000,
            end_calculated: false
        }
    ));
    // arming alone records no score
    assert_eq!(0, total.scores.len());
}

#[test]
fn countdown_never_reverts_when_weight_drops() {
    let crit = criteria();
    let mut stopwatch = LevelStopwatch::new();
    let mut countdown = Countdown::Inactive;
    let mut counter = BalanceCounter::new();
    let mut total = TotalScore::new();
    for _ in 0..3 {
        counter.incr(BallKind::Blue);
    }
    crit.watch_system(&mut stopwatch, &mut countdown, &counter, &mut total);
    assert!(matches!(countdown, Countdown::Active { .. }));

    // all balls leave the sensor: weight 0, far below the minimum
    for _ in 0..3 {
        counter.decr(BallKind::Blue);
    }
    let outcome = crit.watch_system(&mut stopwatch, &mut countdown, &counter, &mut total);
    assert!(matches!(outcome, WatchOutcome::Nothing));
    assert!(matches!(
        countdown,
        Countdown::Active {
            end_calculated: false,
            ..
        }
    ));
}

#[test]
fn result_finalizes_exactly_once() {
    let crit = criteria();
    let mut stopwatch = LevelStopwatch::new();
    let mut countdown = Countdown::Inactive;
    let mut counter = BalanceCounter::new();
    let mut total = TotalScore::new();
    counter.incr(BallKind::Blue);
    counter.incr(BallKind::Red);
    counter.incr(BallKind::Blue);
    counter.incr(BallKind::Red);
    crit.watch_system(&mut stopwatch, &mut countdown, &counter, &mut total);
    assert!(matches!(countdown, Countdown::Active { .. }));

    // run the clock past the deadline (0 + 7s): first expired tick fires
    stopwatch.update_system(7001);
    let outcome = crit.watch_system(&mut stopwatch, &mut countdown, &counter, &mut total);
    match outcome {
        WatchOutcome::ResultFinalized {
            a_summary,
            b_summary,
            score_centi,
        } => {
            assert_eq!("Blue. Goal 50.00, Actual 50.00", a_summary);
            assert_eq!("Red. Goal 50.00, Actual 50.00", b_summary);
            assert_eq!(10000, score_centi);
        }
        other => panic!("expected a finalized result, got {:?}", other),
    }
    assert!(matches!(
        countdown,
        Countdown::Active {
            end_calculated: true,
            ..
        }
    ));
    assert_eq!(vec![10000], total.scores);
    // the round clock is permanently stopped
    assert!(stopwatch.stopped);
    assert!(stopwatch.paused());

    // however many ticks follow, nothing fires again and no score is added
    for _ in 0..10 {
        let outcome = crit.watch_system(&mut stopwatch, &mut countdown, &counter, &mut total);
        assert!(matches!(outcome, WatchOutcome::Nothing));
    }
    assert_eq!(vec![10000], total.scores);
    assert!(matches!(
        countdown,
        Countdown::Active {
            end_calculated: true,
            ..
        }
    ));
}

#[test]
fn expiry_needs_the_deadline_strictly_passed() {
    let crit = criteria();
    let mut stopwatch = LevelStopwatch::new();
    let mut countdown = Countdown::Active {
        end_ms: 7000,
        end_calculated: false,
    };
    let counter = BalanceCounter { red: 1, blue: 1 };
    let mut total = TotalScore::new();
    stopwatch.update_system(7000);
    // elapsed == deadline: not yet expired
    let outcome = crit.watch_system(&mut stopwatch, &mut countdown, &counter, &mut total);
    assert!(matches!(outcome, WatchOutcome::Nothing));
    stopwatch.update_system(1);
    let outcome = crit.watch_system(&mut stopwatch, &mut countdown, &counter, &mut total);
    assert!(matches!(outcome, WatchOutcome::ResultFinalized { .. }));
}

#[test]
fn reset_returns_to_inactive() {
    let mut countdown = Countdown::Active {
        end_ms: 123,
        end_calculated: true,
    };
    countdown.reset();
    assert!(matches!(countdown, Countdown::Inactive));
}
