//! The display strings the core hands to the UI: fixed-point rendering,
//! the clock line, goal and result overlays, and the running score line.
use balance_goals::goals::{final_result_texts, Countdown, LevelCriteria, Mix};
use balance_goals::ball::BallKind;
use balance_goals::score::TotalScore;
use balance_goals::text::{centi_string, dec_string};
use balance_goals::ui::TimerDisplay;

#[test]
fn fixed_point_rendering() {
    assert_eq!("41.38", centi_string(4138));
    assert_eq!("0.00", centi_string(0));
    assert_eq!("0.07", centi_string(7));
    assert_eq!("0.80", centi_string(80));
    assert_eq!("100.00", centi_string(10000));
    assert_eq!("12345.06", centi_string(1234506));
    assert_eq!("0", dec_string(0));
    assert_eq!("10", dec_string(10));
    assert_eq!("907", dec_string(907));
}

#[test]
fn mix_descriptions() {
    assert_eq!("50/50", Mix::FiftyFifty.to_string_hum());
    let mix = Mix::AB {
        a_pct: 25,
        a_kind: BallKind::Blue,
        b_kind: BallKind::Red,
    };
    assert_eq!("25pct Blue to 75pct Red", mix.to_string_hum());
    let mix = Mix::AB {
        a_pct: 66,
        a_kind: BallKind::Red,
        b_kind: BallKind::Blue,
    };
    assert_eq!("66pct Red to 34pct Blue", mix.to_string_hum());
}

#[test]
fn goal_lines() {
    let crit = LevelCriteria {
        min_weight_centi: 342,
        target_mix: Mix::FiftyFifty,
        countdown_time_secs: 9,
    };
    let lines = crit.to_strings();
    assert_eq!(vec!["Min Weight: 3.42", "Target Mix: 50/50"], lines);

    let overlay = crit.initial_goal_texts();
    assert_eq!(
        vec![
            "Goals",
            "-",
            "Make a mix of 50/50",
            "Minimum weight of: 3.42",
            "You get 9s once you hit this weight to get it right",
            "(Enter to dismiss)",
        ],
        overlay
    );
}

#[test]
fn result_lines() {
    let lines = final_result_texts(
        String::from("Blue. Goal 50.00, Actual 40.00"),
        String::from("Red. Goal 50.00, Actual 60.00"),
        6620,
    );
    assert_eq!(
        vec![
            "Result",
            "",
            "Blue. Goal 50.00, Actual 40.00",
            "Red. Goal 50.00, Actual 60.00",
            "Score: 66.20",
        ],
        lines
    );
}

#[test]
fn clock_line_rendering() {
    assert_eq!("Elapsed: 00:00", TimerDisplay::display_text(0, 0, false));
    assert_eq!("Elapsed: 01:05", TimerDisplay::display_text(1, 5, false));
    assert_eq!("Remaining: 00:59", TimerDisplay::display_text(0, 59, true));
    assert_eq!("Remaining: 112:07", TimerDisplay::display_text(112, 7, true));
}

#[test]
fn clock_updates_once_per_second() {
    let mut display = TimerDisplay::new();
    // still within the zeroth second: nothing to redraw
    assert!(display.update_system(&Countdown::Inactive, 900).is_none());
    let (text, tick) = display.update_system(&Countdown::Inactive, 65400).unwrap();
    assert_eq!("Elapsed: 01:05", text);
    assert!(!tick);
    // the same second again: no redraw
    assert!(display.update_system(&Countdown::Inactive, 65900).is_none());
}

#[test]
fn countdown_clock_ticks_in_final_five_seconds() {
    let cd = Countdown::Active {
        end_ms: 10000,
        end_calculated: false,
    };
    let mut display = TimerDisplay::new();
    let (text, tick) = display.update_system(&cd, 3000).unwrap();
    assert_eq!("Remaining: 00:07", text);
    assert!(!tick);
    let (text, tick) = display.update_system(&cd, 5000).unwrap();
    assert_eq!("Remaining: 00:05", text);
    assert!(tick);
    let (text, tick) = display.update_system(&cd, 9000).unwrap();
    assert_eq!("Remaining: 00:01", text);
    assert!(tick);
    // past the deadline the readout floors at zero and the cue stops
    let (text, tick) = display.update_system(&cd, 12000).unwrap();
    assert_eq!("Remaining: 00:00", text);
    assert!(!tick);
}

#[test]
fn running_score_line() {
    let mut total = TotalScore::new();
    assert_eq!("Total: 0.00 (0 Mixes. 0.00 Avg)", total.to_display_string());
    total.add_score(10000);
    total.add_score(4138);
    assert_eq!(14138, total.total());
    assert_eq!(7069, total.mix_average());
    assert_eq!(
        "Total: 141.38 (2 Mixes. 70.69 Avg)",
        total.to_display_string()
    );
    total.reset();
    assert_eq!(0, total.total());
    assert_eq!(0, total.mix_average());
}
