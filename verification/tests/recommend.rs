use resonance::recommend::{get_minimal_lever, InterventionRecommendation};
use resonance::trajectory::{compute_trajectory, InputData, PerformanceBand, TrajectoryState};

fn state(e: u32, m: u32, s: u32, w: u32, risk: u32, band: PerformanceBand) -> TrajectoryState {
    TrajectoryState { E: e, M: m, S: s, P: 50, L: 50, W: w, risk, performance_band: band }
}

fn keys(recs: &[InterventionRecommendation]) -> Vec<&str> {
    recs.iter().map(|r| r.action_key.as_str()).collect()
}

fn efficiency(r: &InterventionRecommendation) -> f64 {
    if r.cost > 0 {
        r.predicted_risk_drop as f64 / r.cost as f64
    } else {
        0.0
    }
}

#[test]
fn all_rules_fire_ordered_by_efficiency() {
    // E = 0.5, M = 0.5, risk = 70 trips all three threshold rules; the
    // ranking is efficiency-descending: check-in 5/1, parent call 10/3,
    // tutoring 15/5.
    let recs = get_minimal_lever(&state(50, 50, 90, 30, 70, PerformanceBand::F));
    assert_eq!(keys(&recs), vec!["QuickCheckIn", "ParentCall", "Tutoring"]);
    assert_eq!(recs[0].name, "Quick Check-in");
    assert_eq!(recs[1].name, "Parent Call");
    assert_eq!(recs[2].name, "Tutoring Session");
    assert_eq!((recs[0].cost, recs[0].predicted_risk_drop), (1, 5));
    assert_eq!((recs[1].cost, recs[1].predicted_risk_drop), (3, 10));
    assert_eq!((recs[2].cost, recs[2].predicted_risk_drop), (5, 15));
    for pair in recs.windows(2) {
        assert!(efficiency(&pair[0]) >= efficiency(&pair[1]));
    }
}

#[test]
fn perfect_state_gets_monitor_only() {
    // A perfect state trips no rule and yields exactly the free fallback.
    let recs = get_minimal_lever(&state(100, 100, 100, 30, 0, PerformanceBand::A));
    assert_eq!(recs.len(), 1);
    assert_eq!(recs[0].action_key, "Monitor");
    assert_eq!(recs[0].name, "Continue Monitoring");
    assert_eq!(recs[0].cost, 0);
    assert_eq!(recs[0].predicted_risk_drop, 0);
    assert_eq!(recs[0].rationale, "Student is stable. No immediate action required.");
}

#[test]
fn engagement_rule_alone() {
    let recs = get_minimal_lever(&state(59, 90, 100, 30, 10, PerformanceBand::A));
    assert_eq!(keys(&recs), vec!["QuickCheckIn"]);
    assert_eq!(recs[0].rationale, "Engagement is critical. A quick check-in can boost connection.");
}

#[test]
fn mastery_rule_alone() {
    let recs = get_minimal_lever(&state(90, 59, 100, 30, 30, PerformanceBand::F));
    assert_eq!(keys(&recs), vec!["Tutoring"]);
    assert_eq!(recs[0].rationale, "Mastery is low. Direct academic support is recommended.");
}

#[test]
fn risk_rule_alone() {
    let recs = get_minimal_lever(&state(90, 90, 100, 70, 66, PerformanceBand::A));
    assert_eq!(keys(&recs), vec!["ParentCall"]);
    assert_eq!(recs[0].rationale, "High risk requires escalation to guardians.");
}

#[test]
fn thresholds_are_strict() {
    // E and M exactly at 0.60 and risk exactly at 65 fire nothing.
    let recs = get_minimal_lever(&state(60, 60, 100, 30, 65, PerformanceBand::D));
    assert_eq!(keys(&recs), vec!["Monitor"]);
}

#[test]
fn engagement_and_mastery_pair() {
    let recs = get_minimal_lever(&state(10, 10, 100, 70, 65, PerformanceBand::F));
    assert_eq!(keys(&recs), vec!["QuickCheckIn", "Tutoring"]);
}

#[test]
fn list_is_never_empty() {
    for e in [0u32, 59, 60, 100] {
        for m in [0u32, 59, 60, 100] {
            for risk in [0u32, 65, 66, 100] {
                let recs = get_minimal_lever(&state(e, m, 100, 30, risk, PerformanceBand::C));
                assert!(!recs.is_empty());
            }
        }
    }
}

#[test]
fn pipeline_bundles_state_and_recommendations() {
    // The struggling profile lands at E=27, M=36, risk=60: both low-score
    // rules fire, but the escalation rule does not.
    let input = InputData {
        att_present: 3,
        att_late: 2,
        att_total: 10,
        avg_score: Some(4000),
        score_trend: Some(-1500),
        missing_assignments: 12,
        days_since_submit: Some(20),
    };
    let result = compute_trajectory(&input);
    assert_eq!(result.state.E, 27);
    assert_eq!(result.state.M, 36);
    assert_eq!(result.state.risk, 60);
    assert_eq!(keys(&result.recommendations), vec!["QuickCheckIn", "Tutoring"]);
}
