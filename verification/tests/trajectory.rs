use resonance::trajectory::{compute_state_vector, InputData, PerformanceBand, TrajectoryState};

fn input(
    att_present: u32,
    att_late: u32,
    att_total: u32,
    avg_score: Option<u32>,
    score_trend: Option<i32>,
    missing_assignments: u32,
    days_since_submit: Option<u32>,
) -> InputData {
    InputData {
        att_present,
        att_late,
        att_total,
        avg_score,
        score_trend,
        missing_assignments,
        days_since_submit,
    }
}

fn assert_state(
    state: &TrajectoryState,
    e: u32,
    m: u32,
    s: u32,
    w: u32,
    risk: u32,
    band: PerformanceBand,
) {
    assert_eq!(state.E, e);
    assert_eq!(state.M, m);
    assert_eq!(state.S, s);
    assert_eq!(state.P, 50);
    assert_eq!(state.L, 50);
    assert_eq!(state.W, w);
    assert_eq!(state.risk, risk);
    assert_eq!(state.performance_band, band);
}

#[test]
fn high_performer_state_vector() {
    // 9 of 10 present, 90% average, flat trend, nothing missing, submitted
    // two days ago: att_rate = 0.90, recency = 0.866878, E = 0.92 after
    // rounding to two decimals; M = 0.70*0.9 + 0.30*0.9 = 0.90, band A.
    let state = compute_state_vector(&input(9, 0, 10, Some(9000), Some(0), 0, Some(2)));
    assert_state(&state, 92, 90, 100, 30, 10, PerformanceBand::A);
}

#[test]
fn no_attendance_uses_neutral_rate() {
    // No attendance data at all: the neutral 0.5 rate applies instead of a
    // division by zero, and every other field falls back to its default.
    let state = compute_state_vector(&input(0, 0, 0, None, None, 0, None));
    assert_state(&state, 55, 60, 100, 70, 38, PerformanceBand::D);
}

#[test]
fn struggling_student_state_vector() {
    // Poor attendance (3 present, 2 late of 10), 40% average falling by 15
    // points, 12 missing assignments, 20 days since the last submission.
    let state = compute_state_vector(&input(3, 2, 10, Some(4000), Some(-1500), 12, Some(20)));
    assert_state(&state, 27, 36, 76, 70, 60, PerformanceBand::F);
}

#[test]
fn defaults_when_no_assessments() {
    // Attendance only: average defaults to 60%, trend to 0, days to 30.
    let state = compute_state_vector(&input(5, 1, 6, None, None, 3, None));
    assert_state(&state, 70, 60, 100, 30, 27, PerformanceBand::D);
}

#[test]
fn late_counts_as_half_credit() {
    // 0 present and 10 late of 10 gives exactly the neutral 0.5 rate.
    let all_late = compute_state_vector(&input(0, 10, 10, Some(9000), Some(0), 0, Some(0)));
    let half_present = compute_state_vector(&input(5, 0, 10, Some(9000), Some(0), 0, Some(0)));
    assert_eq!(all_late, half_present);
}

#[test]
fn missing_assignments_saturate_at_ten() {
    let ten = compute_state_vector(&input(10, 0, 10, None, None, 10, Some(0)));
    let many = compute_state_vector(&input(10, 0, 10, None, None, 25, Some(0)));
    assert_eq!(ten, many);
    assert_eq!(many.E, 75);
    assert_eq!(many.risk, 25);
}

#[test]
fn dimensions_stay_in_range_even_for_odd_counts() {
    // More presents than total events: the engagement composite exceeds
    // one before clamping, yet every reported dimension stays in [0, 100].
    let state = compute_state_vector(&input(20, 0, 10, None, None, 0, Some(0)));
    assert_state(&state, 100, 60, 100, 30, 17, PerformanceBand::D);
    let states = [
        state,
        compute_state_vector(&input(0, 0, 0, None, Some(i32::MIN), u32::MAX, Some(u32::MAX))),
        compute_state_vector(&input(u32::MAX, u32::MAX, 1, Some(u32::MAX), Some(i32::MAX), 0, None)),
    ];
    for s in states.iter() {
        assert!(s.E <= 100 && s.M <= 100 && s.S <= 100);
        assert!(s.P <= 100 && s.L <= 100 && s.W <= 100);
        assert!(s.risk <= 100);
    }
}

#[test]
fn mastery_clamps_at_one() {
    // A perfect average plus a strongly positive trend is capped at 1.
    let state = compute_state_vector(&input(10, 0, 10, Some(10000), Some(5000), 0, Some(0)));
    assert_state(&state, 100, 100, 80, 30, 9, PerformanceBand::A);
}

#[test]
fn mastery_clamps_at_zero() {
    // A zero average with a crashing trend bottoms out at 0, band F.
    let state = compute_state_vector(&input(10, 0, 10, Some(0), Some(-9000), 0, Some(0)));
    assert_state(&state, 100, 0, 64, 70, 48, PerformanceBand::F);
}

#[test]
fn attendance_volatility_penalizes_stability() {
    // More than five events and a rate below 0.8: the flat volatility
    // penalty applies together with the score volatility.
    let state = compute_state_vector(&input(6, 0, 10, Some(8000), Some(-500), 0, Some(1)));
    assert_state(&state, 77, 79, 80, 30, 23, PerformanceBand::B);
}

#[test]
fn warning_fires_on_falling_trend() {
    // The warning limit is strict: a trend of exactly -10 points stays low,
    // anything below fires it.
    let at_limit = compute_state_vector(&input(9, 0, 10, Some(8000), Some(-1000), 0, Some(0)));
    let below = compute_state_vector(&input(9, 0, 10, Some(8000), Some(-1001), 0, Some(0)));
    assert_eq!(at_limit.W, 30);
    assert_eq!(below.W, 70);
}

#[test]
fn band_bounds_are_inclusive() {
    let bands = [
        (Some(8500), PerformanceBand::A),
        (Some(8499), PerformanceBand::B),
        (Some(7500), PerformanceBand::B),
        (Some(7499), PerformanceBand::C),
        (Some(6500), PerformanceBand::C),
        (Some(6499), PerformanceBand::D),
        (Some(5000), PerformanceBand::D),
        (Some(4999), PerformanceBand::F),
    ];
    for (avg, band) in bands.iter() {
        let state = compute_state_vector(&input(10, 0, 10, *avg, Some(0), 0, Some(0)));
        assert_eq!(state.performance_band, *band);
    }
}

#[test]
fn recency_decays_to_zero() {
    // After half a year without a submission the recency signal is gone;
    // only the recency share of engagement is lost.
    let recent = compute_state_vector(&input(10, 0, 10, None, None, 0, Some(0)));
    let stale = compute_state_vector(&input(10, 0, 10, None, None, 0, Some(200)));
    let very_stale = compute_state_vector(&input(10, 0, 10, None, None, 0, Some(u32::MAX)));
    assert_eq!(recent.E, 100);
    assert_eq!(stale.E, 80);
    assert_eq!(stale, very_stale);
}

#[test]
fn identical_inputs_give_identical_states() {
    let i = input(7, 1, 12, Some(6342), Some(-250), 4, Some(9));
    let first = compute_state_vector(&i);
    let second = compute_state_vector(&i);
    assert_eq!(first, second);
}

#[test]
fn lower_average_never_raises_mastery_or_lowers_risk() {
    let mut prev: Option<TrajectoryState> = None;
    for avg in [0u32, 1500, 3000, 4500, 6000, 7500, 9000, 10000] {
        let state = compute_state_vector(&input(8, 1, 12, Some(avg), Some(-300), 2, Some(4)));
        if let Some(p) = prev {
            assert!(p.M <= state.M);
            assert!(p.risk >= state.risk);
        }
        prev = Some(state);
    }
}
