//! The state-vector half of the scoring engine: a deterministic, total map
//! from raw behavioural signals to a normalized six-dimensional state
//! vector, a bounded risk score and a performance band.
//!
//! Fractional quantities are fixed-point integers in millionths of a unit
//! (`SCALE`). Percentage-style inputs (`avg_score`, `score_trend`) arrive in
//! hundredths of a percentage point, so `9055` means `90.55%`. The reported
//! dimensions are rounded to hundredths of a unit (two decimal places), each
//! clamped into `[0, 100]`; the risk score is an integer in `[0, 100]`.

use vstd::arithmetic::div_mod::{
    lemma_div_is_ordered, lemma_div_nonincreasing, lemma_div_pos_is_pos,
};
use vstd::prelude::*;

use crate::recommend::{get_minimal_lever, is_levers_for, InterventionRecommendation};

verus! {

/// One unit (`1.0`) in fixed-point millionths.
pub const SCALE: i64 = 1_000_000;

/// Credit granted to a "late" attendance event: half of a "present" one.
pub const LATE_CREDIT: i64 = 500_000;

/// Neutral attendance rate assumed when no attendance was recorded at all.
pub const NEUTRAL_ATT_RATE: i64 = 500_000;

/// Penalty per missing assignment; ten or more saturate the miss rate at one.
pub const MISS_RATE_STEP: i64 = 100_000;

/// Days since the last submission assumed when none was ever recorded.
pub const DEFAULT_DAYS_SINCE_SUBMIT: u32 = 30;

/// Daily decay factor of the submission-recency signal, in millionths:
/// the floor of `SCALE * e^(-1/14)`, an exponential decay with a 14-day
/// scale. Day zero scores a full `SCALE`; each day multiplies by this
/// factor, rounding down, so the signal reaches zero after ~164 days.
pub const DAY_DECAY: i64 = 931_063;

/// Average score assumed when no assessment data exists: 60%.
pub const DEFAULT_AVG_SCORE: i64 = 600_000;

/// Weights are whole percentages; weighted sums are divided by this.
pub const WEIGHT_DENOM: i64 = 100;

/// Added before dividing by `WEIGHT_DENOM` to round half up.
pub const WEIGHT_HALF: i64 = 50;

/// Millionths per hundredth of a unit (one reported decimal step).
pub const CENTI: i64 = 10_000;

/// Added before dividing by `CENTI` to round half up.
pub const CENTI_HALF: i64 = 5_000;

/// Converts a score in hundredths of a percent to a fraction in millionths.
pub const CENTI_PCT_TO_MICRO: i64 = 100;

/// Engagement weights: attendance rate, completed work, recency.
pub const ENGAGEMENT_ATT_WEIGHT: i64 = 55;
pub const ENGAGEMENT_MISS_WEIGHT: i64 = 25;
pub const ENGAGEMENT_RECENCY_WEIGHT: i64 = 20;

/// Mastery weights: average score, and average shifted by the trend.
pub const MASTERY_BASE_WEIGHT: i64 = 70;
pub const MASTERY_TREND_WEIGHT: i64 = 30;

/// Attendance volatility applies once more than this many events exist...
pub const VOLATILITY_MIN_TOTAL: u32 = 5;

/// ...and the attendance rate is below this limit.
pub const VOLATILITY_RATE_LIMIT: i64 = 800_000;

/// Flat attendance-volatility penalty.
pub const ATT_VOLATILITY: i64 = 300_000;

/// Stability weights: attendance volatility, score volatility.
pub const STABILITY_ATT_WEIGHT: i64 = 60;
pub const STABILITY_SCORE_WEIGHT: i64 = 40;

/// Support dimension: a fixed placeholder until a real signal source is
/// wired in. Intentionally inert.
pub const SUPPORT_LEVEL: i64 = 500_000;

/// Load dimension: a fixed placeholder until a real signal source is
/// wired in. Intentionally inert.
pub const LOAD_LEVEL: i64 = 500_000;

/// The phase warning fires when the attendance rate is below this limit...
pub const WARNING_RATE_LIMIT: i64 = 600_000;

/// ...or the score trend is below this (negative) limit.
pub const WARNING_TREND_LIMIT: i64 = -100_000;

/// Phase-warning level when it fires, and when it does not.
pub const WARNING_HIGH: i64 = 700_000;
pub const WARNING_LOW: i64 = 300_000;

/// Load only contributes to risk above this floor.
pub const LOAD_PENALTY_FLOOR: i64 = 700_000;

/// Risk weights over the deficits of the dimensions.
pub const RISK_ENGAGEMENT_WEIGHT: i64 = 35;
pub const RISK_MASTERY_WEIGHT: i64 = 30;
pub const RISK_STABILITY_WEIGHT: i64 = 20;
pub const RISK_WARNING_WEIGHT: i64 = 15;
pub const RISK_LOAD_WEIGHT: i64 = 10;

/// Inclusive lower bounds of the performance bands, on mastery.
pub const BAND_A_MIN: i64 = 850_000;
pub const BAND_B_MIN: i64 = 750_000;
pub const BAND_C_MIN: i64 = 650_000;
pub const BAND_D_MIN: i64 = 500_000;

/// Raw behavioural signals for one student, one instance per scoring
/// request. Absent optional fields fall back to documented defaults inside
/// the calculator; no field is an error condition.
///
/// `avg_score` and `score_trend` are in hundredths of a percentage point
/// (`9000` is `90%`); `days_since_submit` is in whole days.
#[derive(Clone, Copy, Debug, PartialEq, Eq)]
pub struct InputData {
    pub att_present: u32,
    pub att_late: u32,
    pub att_total: u32,
    pub avg_score: Option<u32>,
    pub score_trend: Option<i32>,
    pub missing_assignments: u32,
    pub days_since_submit: Option<u32>,
}

/// Letter-grade classification derived solely from mastery.
#[derive(Clone, Copy, Debug, PartialEq, Eq)]
pub enum PerformanceBand {
    A,
    B,
    C,
    D,
    F,
}

/// The normalized state vector. Each dimension is reported in hundredths
/// of a unit (`92` is `0.92`) and lies in `[0, 100]`; `risk` is an integer
/// in `[0, 100]`.
#[allow(non_snake_case)]
#[derive(Clone, Copy, Debug, PartialEq, Eq)]
pub struct TrajectoryState {
    /// Engagement: attendance, completion and recency of work.
    pub E: u32,
    /// Mastery: average performance and recent trend.
    pub M: u32,
    /// Stability: inverse of behavioural/academic volatility.
    pub S: u32,
    /// Support: fixed placeholder.
    pub P: u32,
    /// Load: fixed placeholder.
    pub L: u32,
    /// Phase warning: a binary flag expressed as a continuous weight.
    pub W: u32,
    pub risk: u32,
    pub performance_band: PerformanceBand,
}

/// Clamps a millionths value into `[0, SCALE]`.
pub open spec fn clamp_unit(x: int) -> int {
    if x < 0 {
        0
    } else if x > SCALE as int {
        SCALE as int
    } else {
        x
    }
}

/// Rounds a clamped millionths value to hundredths of a unit, half up.
pub open spec fn to_centi(x: int) -> int {
    (x + CENTI_HALF as int) / (CENTI as int)
}

/// Attendance rate in millionths: presents count in full, lates for half,
/// rounded to the nearest millionth; neutral when nothing was recorded.
pub open spec fn spec_att_rate(i: InputData) -> int {
    if i.att_total > 0 {
        ((i.att_present as int) * (SCALE as int) + (i.att_late as int) * (LATE_CREDIT as int)
            + (i.att_total as int) / 2) / (i.att_total as int)
    } else {
        NEUTRAL_ATT_RATE as int
    }
}

/// Miss rate in millionths, saturating at one.
pub open spec fn spec_miss_rate(i: InputData) -> int {
    if (i.missing_assignments as int) * (MISS_RATE_STEP as int) > SCALE as int {
        SCALE as int
    } else {
        (i.missing_assignments as int) * (MISS_RATE_STEP as int)
    }
}

/// Days since the last submission, after defaulting.
pub open spec fn spec_days(i: InputData) -> nat {
    match i.days_since_submit {
        Some(d) => d as nat,
        None => DEFAULT_DAYS_SINCE_SUBMIT as nat,
    }
}

/// Submission-recency signal: `SCALE` at day zero, decaying by
/// `DAY_DECAY / SCALE` per day, rounding down.
pub open spec fn spec_recency(days: nat) -> int
    decreases days,
{
    if days == 0 {
        SCALE as int
    } else {
        spec_recency((days - 1) as nat) * (DAY_DECAY as int) / (SCALE as int)
    }
}

/// Average score as a fraction in millionths, after defaulting.
pub open spec fn spec_avg_micro(i: InputData) -> int {
    match i.avg_score {
        Some(a) => (a as int) * (CENTI_PCT_TO_MICRO as int),
        None => DEFAULT_AVG_SCORE as int,
    }
}

/// Score trend as a fraction in millionths, after defaulting.
pub open spec fn spec_trend_micro(i: InputData) -> int {
    match i.score_trend {
        Some(t) => (t as int) * (CENTI_PCT_TO_MICRO as int),
        None => 0,
    }
}

/// Engagement in millionths: a weighted sum of attendance rate, completed
/// work and recency, rounded half up at the percent division and clamped.
pub open spec fn spec_engagement(i: InputData) -> int {
    clamp_unit(
        ((ENGAGEMENT_ATT_WEIGHT as int) * spec_att_rate(i) + (ENGAGEMENT_MISS_WEIGHT as int) * (
        SCALE as int - spec_miss_rate(i)) + (ENGAGEMENT_RECENCY_WEIGHT as int) * spec_recency(
            spec_days(i),
        ) + WEIGHT_HALF as int) / (WEIGHT_DENOM as int),
    )
}

/// Mastery in millionths: the average weighted against the trend-shifted
/// average, clamped into `[0, SCALE]`. The division is exact because both
/// terms are multiples of `WEIGHT_DENOM`.
pub open spec fn spec_mastery(i: InputData) -> int {
    let num = (MASTERY_BASE_WEIGHT as int) * spec_avg_micro(i) + (MASTERY_TREND_WEIGHT as int) * (
    spec_avg_micro(i) + spec_trend_micro(i));
    if num <= 0 {
        0
    } else {
        clamp_unit(num / (WEIGHT_DENOM as int))
    }
}

/// Flat attendance-volatility penalty, in millionths.
pub open spec fn spec_att_volatility(i: InputData) -> int {
    if i.att_total > VOLATILITY_MIN_TOTAL && spec_att_rate(i) < VOLATILITY_RATE_LIMIT as int {
        ATT_VOLATILITY as int
    } else {
        0
    }
}

/// Score volatility: the magnitude of the trend, in millionths.
pub open spec fn spec_score_volatility(i: InputData) -> int {
    let t = spec_trend_micro(i);
    if t < 0 {
        -t
    } else {
        t
    }
}

/// Stability in millionths: one minus the weighted volatilities, clamped.
pub open spec fn spec_stability(i: InputData) -> int {
    clamp_unit(
        SCALE as int - ((STABILITY_ATT_WEIGHT as int) * spec_att_volatility(i) + (
        STABILITY_SCORE_WEIGHT as int) * spec_score_volatility(i) + WEIGHT_HALF as int) / (
        WEIGHT_DENOM as int),
    )
}

/// Phase warning in millionths: high on poor attendance or a falling trend.
pub open spec fn spec_warning(i: InputData) -> int {
    if spec_att_rate(i) < WARNING_RATE_LIMIT as int || spec_trend_micro(i)
        < WARNING_TREND_LIMIT as int {
        WARNING_HIGH as int
    } else {
        WARNING_LOW as int
    }
}

/// The load deficit that feeds the risk formula; zero while load sits at
/// its placeholder level below the penalty floor.
pub open spec fn spec_load_penalty() -> int {
    if LOAD_LEVEL > LOAD_PENALTY_FLOOR {
        (LOAD_LEVEL - LOAD_PENALTY_FLOOR) as int
    } else {
        0
    }
}

/// Risk in millionths from the clamped dimensions: a weighted sum of the
/// deficits of engagement, mastery and stability, the warning level and
/// the load penalty, rounded half up at the percent division and clamped.
pub open spec fn spec_risk_micro(e: int, m: int, s: int, w: int) -> int {
    clamp_unit(
        ((RISK_ENGAGEMENT_WEIGHT as int) * (SCALE as int - e) + (RISK_MASTERY_WEIGHT as int) * (
        SCALE as int - m) + (RISK_STABILITY_WEIGHT as int) * (SCALE as int - s) + (
        RISK_WARNING_WEIGHT as int) * w + (RISK_LOAD_WEIGHT as int) * spec_load_penalty()
            + WEIGHT_HALF as int) / (WEIGHT_DENOM as int),
    )
}

/// The reported risk score, an integer in `[0, 100]`.
pub open spec fn spec_risk(i: InputData) -> int {
    to_centi(
        spec_risk_micro(spec_engagement(i), spec_mastery(i), spec_stability(i), spec_warning(i)),
    )
}

/// Performance band from mastery in millionths, by inclusive lower bounds.
pub open spec fn spec_band(m: int) -> PerformanceBand {
    if m >= BAND_A_MIN as int {
        PerformanceBand::A
    } else if m >= BAND_B_MIN as int {
        PerformanceBand::B
    } else if m >= BAND_C_MIN as int {
        PerformanceBand::C
    } else if m >= BAND_D_MIN as int {
        PerformanceBand::D
    } else {
        PerformanceBand::F
    }
}

/// The full input/output relation of the state-vector calculator: every
/// field of the state is pinned to a function of the input alone.
pub open spec fn is_state_for(i: InputData, s: TrajectoryState) -> bool {
    &&& s.E as int == to_centi(spec_engagement(i))
    &&& s.M as int == to_centi(spec_mastery(i))
    &&& s.S as int == to_centi(spec_stability(i))
    &&& s.P as int == to_centi(SUPPORT_LEVEL as int)
    &&& s.L as int == to_centi(LOAD_LEVEL as int)
    &&& s.W as int == to_centi(spec_warning(i))
    &&& s.risk as int == spec_risk(i)
    &&& s.performance_band == spec_band(spec_mastery(i))
}

/// Range invariant of a reported state: every dimension lies in `[0, 1]`
/// (in hundredths, `[0, 100]`) and risk lies in `[0, 100]`.
pub open spec fn wf_state(s: TrajectoryState) -> bool {
    &&& s.E <= 100
    &&& s.M <= 100
    &&& s.S <= 100
    &&& s.P <= 100
    &&& s.L <= 100
    &&& s.W <= 100
    &&& s.risk <= 100
}

proof fn lemma_recency_in_range(days: nat)
    ensures
        0 <= spec_recency(days) <= SCALE as int,
    decreases days,
{
    if days > 0 {
        lemma_recency_in_range((days - 1) as nat);
        let prev = spec_recency((days - 1) as nat);
        assert(0 <= prev * (DAY_DECAY as int) <= (SCALE as int) * (DAY_DECAY as int));
        lemma_div_pos_is_pos(prev * (DAY_DECAY as int), SCALE as int);
        lemma_div_is_ordered(
            prev * (DAY_DECAY as int),
            (SCALE as int) * (DAY_DECAY as int),
            SCALE as int,
        );
    }
}

/// Once the recency signal has decayed to zero it stays at zero.
proof fn lemma_recency_zero_stable(d1: nat, d2: nat)
    requires
        spec_recency(d1) == 0,
        d1 <= d2,
    ensures
        spec_recency(d2) == 0,
    decreases d2,
{
    if d2 > d1 {
        lemma_recency_zero_stable(d1, (d2 - 1) as nat);
    }
}

/// The recency signal for a given day count, in millionths.
fn recency_micro(days: u32) -> (r: i64)
    ensures
        r as int == spec_recency(days as nat),
        0 <= r <= SCALE,
{
    let mut r: i64 = SCALE;
    let mut i: u32 = 0;
    while i < days && r > 0
        invariant
            0 <= i <= days,
            0 <= r <= SCALE,
            r as int == spec_recency(i as nat),
        decreases days - i,
    {
        proof {
            lemma_div_pos_is_pos(r as int * (DAY_DECAY as int), SCALE as int);
            lemma_div_is_ordered(
                r as int * (DAY_DECAY as int),
                (SCALE as int) * (DAY_DECAY as int),
                SCALE as int,
            );
        }
        r = r * DAY_DECAY / SCALE;
        i = i + 1;
    }
    proof {
        if i < days {
            lemma_recency_zero_stable(i as nat, days as nat);
        }
    }
    r
}

/// Clamps a millionths value into `[0, SCALE]`.
fn clamp_unit_i64(x: i64) -> (r: i64)
    ensures
        r as int == clamp_unit(x as int),
{
    if x < 0 {
        0
    } else if x > SCALE {
        SCALE
    } else {
        x
    }
}

/// Rounds a clamped millionths value to hundredths of a unit.
fn to_centi_u32(x: i64) -> (r: u32)
    requires
        0 <= x <= SCALE,
    ensures
        r as int == to_centi(x as int),
        r <= 100,
{
    ((x + CENTI_HALF) / CENTI) as u32
}

/// Maps a fixed-shape input record to the normalized state vector, the
/// derived risk score and the performance band. Pure and total: absent
/// data degrades to defaults, never to an error, and every reported value
/// is clamped into its documented range.
#[verifier::rlimit(50)]
pub fn compute_state_vector(input: &InputData) -> (state: TrajectoryState)
    ensures
        is_state_for(*input, state),
        wf_state(state),
{
    let att_rate: i64 = if input.att_total > 0 {
        let num: i64 = (input.att_present as i64) * SCALE + (input.att_late as i64) * LATE_CREDIT
            + ((input.att_total / 2) as i64);
        proof {
            lemma_div_pos_is_pos(num as int, input.att_total as int);
            lemma_div_nonincreasing(num as int, input.att_total as int);
        }
        num / (input.att_total as i64)
    } else {
        NEUTRAL_ATT_RATE
    };
    assert(att_rate == spec_att_rate(*input));

    let miss_step: i64 = (input.missing_assignments as i64) * MISS_RATE_STEP;
    let miss_rate: i64 = if miss_step > SCALE {
        SCALE
    } else {
        miss_step
    };
    assert(miss_rate == spec_miss_rate(*input));

    let days: u32 = match input.days_since_submit {
        Some(d) => d,
        None => DEFAULT_DAYS_SINCE_SUBMIT,
    };
    assert(days as nat == spec_days(*input));
    let recency: i64 = recency_micro(days);

    let e = clamp_unit_i64(
        (ENGAGEMENT_ATT_WEIGHT * att_rate + ENGAGEMENT_MISS_WEIGHT * (SCALE - miss_rate)
            + ENGAGEMENT_RECENCY_WEIGHT * recency + WEIGHT_HALF) / WEIGHT_DENOM,
    );
    assert(e as int == spec_engagement(*input));

    let avg: i64 = match input.avg_score {
        Some(a) => (a as i64) * CENTI_PCT_TO_MICRO,
        None => DEFAULT_AVG_SCORE,
    };
    let trend: i64 = match input.score_trend {
        Some(t) => (t as i64) * CENTI_PCT_TO_MICRO,
        None => 0,
    };
    let m_num: i64 = MASTERY_BASE_WEIGHT * avg + MASTERY_TREND_WEIGHT * (avg + trend);
    let m: i64 = if m_num <= 0 {
        0
    } else {
        clamp_unit_i64(m_num / WEIGHT_DENOM)
    };
    assert(m == spec_mastery(*input));

    let att_volatility: i64 = if input.att_total > VOLATILITY_MIN_TOTAL && att_rate
        < VOLATILITY_RATE_LIMIT {
        ATT_VOLATILITY
    } else {
        0
    };
    let score_volatility: i64 = if trend < 0 {
        -trend
    } else {
        trend
    };
    let s = clamp_unit_i64(
        SCALE - (STABILITY_ATT_WEIGHT * att_volatility + STABILITY_SCORE_WEIGHT * score_volatility
            + WEIGHT_HALF) / WEIGHT_DENOM,
    );
    assert(s as int == spec_stability(*input));

    let w: i64 = if att_rate < WARNING_RATE_LIMIT || trend < WARNING_TREND_LIMIT {
        WARNING_HIGH
    } else {
        WARNING_LOW
    };
    assert(w == spec_warning(*input));

    let load_penalty: i64 = if LOAD_LEVEL > LOAD_PENALTY_FLOOR {
        LOAD_LEVEL - LOAD_PENALTY_FLOOR
    } else {
        0
    };
    let risk_micro = clamp_unit_i64(
        (RISK_ENGAGEMENT_WEIGHT * (SCALE - e) + RISK_MASTERY_WEIGHT * (SCALE - m)
            + RISK_STABILITY_WEIGHT * (SCALE - s) + RISK_WARNING_WEIGHT * w + RISK_LOAD_WEIGHT
            * load_penalty + WEIGHT_HALF) / WEIGHT_DENOM,
    );
    assert(risk_micro as int == spec_risk_micro(e as int, m as int, s as int, w as int));
    let risk = to_centi_u32(risk_micro);

    let performance_band = if m >= BAND_A_MIN {
        PerformanceBand::A
    } else if m >= BAND_B_MIN {
        PerformanceBand::B
    } else if m >= BAND_C_MIN {
        PerformanceBand::C
    } else if m >= BAND_D_MIN {
        PerformanceBand::D
    } else {
        PerformanceBand::F
    };

    TrajectoryState {
        E: to_centi_u32(e),
        M: to_centi_u32(m),
        S: to_centi_u32(s),
        P: to_centi_u32(SUPPORT_LEVEL),
        L: to_centi_u32(LOAD_LEVEL),
        W: to_centi_u32(w),
        risk,
        performance_band,
    }
}

/// Law: the calculator is deterministic. Any two states that stand in the
/// input/output relation for the same input are equal.
pub proof fn lemma_state_vector_deterministic(
    i: InputData,
    s1: TrajectoryState,
    s2: TrajectoryState,
)
    requires
        is_state_for(i, s1),
        is_state_for(i, s2),
    ensures
        s1 == s2,
{
}

/// Law: holding every other input fixed, a lower average score cannot
/// yield a higher mastery, and the risk score cannot come out lower.
pub proof fn lemma_mastery_monotone(i1: InputData, i2: InputData)
    requires
        i1.att_present == i2.att_present,
        i1.att_late == i2.att_late,
        i1.att_total == i2.att_total,
        i1.score_trend == i2.score_trend,
        i1.missing_assignments == i2.missing_assignments,
        i1.days_since_submit == i2.days_since_submit,
        i1.avg_score is Some,
        i2.avg_score is Some,
        i1.avg_score->0 <= i2.avg_score->0,
    ensures
        spec_mastery(i1) <= spec_mastery(i2),
        to_centi(spec_mastery(i1)) <= to_centi(spec_mastery(i2)),
        spec_risk(i1) >= spec_risk(i2),
{
    let n1 = (MASTERY_BASE_WEIGHT as int) * spec_avg_micro(i1) + (MASTERY_TREND_WEIGHT as int) * (
    spec_avg_micro(i1) + spec_trend_micro(i1));
    let n2 = (MASTERY_BASE_WEIGHT as int) * spec_avg_micro(i2) + (MASTERY_TREND_WEIGHT as int) * (
    spec_avg_micro(i2) + spec_trend_micro(i2));
    assert(n1 <= n2);
    if 0 < n1 {
        lemma_div_is_ordered(n1, n2, WEIGHT_DENOM as int);
    } else if 0 < n2 {
        lemma_div_pos_is_pos(n2, WEIGHT_DENOM as int);
    }
    assert(spec_mastery(i1) <= spec_mastery(i2));
    lemma_div_is_ordered(
        spec_mastery(i1) + CENTI_HALF as int,
        spec_mastery(i2) + CENTI_HALF as int,
        CENTI as int,
    );
    lemma_risk_antitone_in_mastery(
        spec_engagement(i1),
        spec_mastery(i1),
        spec_mastery(i2),
        spec_stability(i1),
        spec_warning(i1),
    );
    assert(spec_engagement(i2) == spec_engagement(i1));
    assert(spec_stability(i2) == spec_stability(i1));
    assert(spec_warning(i2) == spec_warning(i1));
}

/// Law: the risk score is non-increasing in mastery — with the other
/// dimensions fixed, a lower mastery value never yields a lower risk.
pub proof fn lemma_risk_antitone_in_mastery(e: int, m1: int, m2: int, s: int, w: int)
    requires
        m1 <= m2,
    ensures
        spec_risk_micro(e, m2, s, w) <= spec_risk_micro(e, m1, s, w),
        to_centi(spec_risk_micro(e, m2, s, w)) <= to_centi(spec_risk_micro(e, m1, s, w)),
{
    let base = (RISK_ENGAGEMENT_WEIGHT as int) * (SCALE as int - e) + (RISK_STABILITY_WEIGHT
        as int) * (SCALE as int - s) + (RISK_WARNING_WEIGHT as int) * w + (RISK_LOAD_WEIGHT as int)
        * spec_load_penalty() + WEIGHT_HALF as int;
    let n1 = base + (RISK_MASTERY_WEIGHT as int) * (SCALE as int - m1);
    let n2 = base + (RISK_MASTERY_WEIGHT as int) * (SCALE as int - m2);
    assert(n2 <= n1);
    lemma_div_is_ordered(n2, n1, WEIGHT_DENOM as int);
    lemma_div_is_ordered(
        spec_risk_micro(e, m2, s, w) + CENTI_HALF as int,
        spec_risk_micro(e, m1, s, w) + CENTI_HALF as int,
        CENTI as int,
    );
}

/// The bundled result of one scoring request.
#[derive(Clone, Debug)]
pub struct TrajectoryResult {
    pub state: TrajectoryState,
    pub recommendations: Vec<InterventionRecommendation>,
}

/// Runs the full pipeline on one input record: the state vector, then the
/// ranked recommendations for it.
pub fn compute_trajectory(input: &InputData) -> (result: TrajectoryResult)
    ensures
        is_state_for(*input, result.state),
        wf_state(result.state),
        is_levers_for(result.state, result.recommendations@),
        result.recommendations@.len() >= 1,
{
    let state = compute_state_vector(input);
    let recommendations = get_minimal_lever(&state);
    TrajectoryResult { state, recommendations }
}

} // verus!


