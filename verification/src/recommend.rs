//! The recommendation half of the scoring engine: threshold rules over a
//! state vector, producing an ordered, never-empty list of intervention
//! recommendations ranked by cost-efficiency.

use vstd::prelude::*;

use crate::trajectory::TrajectoryState;

verus! {

/// The engagement rule fires below this many hundredths (`0.60`).
pub const ENGAGEMENT_THRESHOLD: u32 = 60;

/// The mastery rule fires below this many hundredths (`0.60`).
pub const MASTERY_THRESHOLD: u32 = 60;

/// The escalation rule fires above this risk score.
pub const RISK_THRESHOLD: u32 = 65;

/// A suggested corrective action with an effort cost and a predicted
/// risk-point reduction, used to prioritize staff response.
#[derive(Clone, Debug)]
pub struct InterventionRecommendation {
    pub action_key: String,
    pub name: String,
    pub cost: i32,
    pub predicted_risk_drop: i32,
    pub rationale: String,
}

/// The engagement rule: `E < 0.6`.
pub open spec fn fires_engagement(s: TrajectoryState) -> bool {
    s.E < ENGAGEMENT_THRESHOLD
}

/// The mastery rule: `M < 0.6`.
pub open spec fn fires_mastery(s: TrajectoryState) -> bool {
    s.M < MASTERY_THRESHOLD
}

/// The escalation rule: `risk > 65`.
pub open spec fn fires_risk(s: TrajectoryState) -> bool {
    s.risk > RISK_THRESHOLD
}

pub open spec fn is_quick_check_in(r: InterventionRecommendation) -> bool {
    &&& r.action_key@ == "QuickCheckIn"@
    &&& r.name@ == "Quick Check-in"@
    &&& r.cost == 1
    &&& r.predicted_risk_drop == 5
    &&& r.rationale@ == "Engagement is critical. A quick check-in can boost connection."@
}

pub open spec fn is_tutoring(r: InterventionRecommendation) -> bool {
    &&& r.action_key@ == "Tutoring"@
    &&& r.name@ == "Tutoring Session"@
    &&& r.cost == 5
    &&& r.predicted_risk_drop == 15
    &&& r.rationale@ == "Mastery is low. Direct academic support is recommended."@
}

pub open spec fn is_parent_call(r: InterventionRecommendation) -> bool {
    &&& r.action_key@ == "ParentCall"@
    &&& r.name@ == "Parent Call"@
    &&& r.cost == 3
    &&& r.predicted_risk_drop == 10
    &&& r.rationale@ == "High risk requires escalation to guardians."@
}

pub open spec fn is_monitor(r: InterventionRecommendation) -> bool {
    &&& r.action_key@ == "Monitor"@
    &&& r.name@ == "Continue Monitoring"@
    &&& r.cost == 0
    &&& r.predicted_risk_drop == 0
    &&& r.rationale@ == "Student is stable. No immediate action required."@
}

/// The full input/output relation of the recommendation engine. When no
/// rule fires, the single fallback is returned; otherwise exactly the
/// fired rules' recommendations, in descending cost-efficiency order
/// (check-in 5/1, parent call 10/3, tutoring 15/5).
pub open spec fn is_levers_for(s: TrajectoryState, recs: Seq<InterventionRecommendation>) -> bool {
    if !fires_engagement(s) && !fires_mastery(s) && !fires_risk(s) {
        recs.len() == 1 && is_monitor(recs[0])
    } else {
        let n = (if fires_engagement(s) {
            1 as int
        } else {
            0
        }) + (if fires_risk(s) {
            1 as int
        } else {
            0
        }) + (if fires_mastery(s) {
            1 as int
        } else {
            0
        });
        &&& recs.len() == n
        &&& (fires_engagement(s) ==> is_quick_check_in(recs[0]))
        &&& (fires_risk(s) ==> is_parent_call(
            recs[if fires_engagement(s) {
                1 as int
            } else {
                0
            }],
        ))
        &&& (fires_mastery(s) ==> is_tutoring(recs[n - 1]))
    }
}

/// Efficiency of a recommendation as a fraction: risk drop per unit cost,
/// with zero-cost entries pinned to zero so a free fallback never outranks
/// an active recommendation.
pub open spec fn efficiency_num(r: InterventionRecommendation) -> int {
    if r.cost > 0 {
        r.predicted_risk_drop as int
    } else {
        0
    }
}

pub open spec fn efficiency_den(r: InterventionRecommendation) -> int {
    if r.cost > 0 {
        r.cost as int
    } else {
        1
    }
}

fn quick_check_in() -> (r: InterventionRecommendation)
    ensures
        is_quick_check_in(r),
{
    InterventionRecommendation {
        action_key: "QuickCheckIn".to_owned(),
        name: "Quick Check-in".to_owned(),
        cost: 1,
        predicted_risk_drop: 5,
        rationale: "Engagement is critical. A quick check-in can boost connection.".to_owned(),
    }
}

fn tutoring() -> (r: InterventionRecommendation)
    ensures
        is_tutoring(r),
{
    InterventionRecommendation {
        action_key: "Tutoring".to_owned(),
        name: "Tutoring Session".to_owned(),
        cost: 5,
        predicted_risk_drop: 15,
        rationale: "Mastery is low. Direct academic support is recommended.".to_owned(),
    }
}

fn parent_call() -> (r: InterventionRecommendation)
    ensures
        is_parent_call(r),
{
    InterventionRecommendation {
        action_key: "ParentCall".to_owned(),
        name: "Parent Call".to_owned(),
        cost: 3,
        predicted_risk_drop: 10,
        rationale: "High risk requires escalation to guardians.".to_owned(),
    }
}

fn monitor() -> (r: InterventionRecommendation)
    ensures
        is_monitor(r),
{
    InterventionRecommendation {
        action_key: "Monitor".to_owned(),
        name: "Continue Monitoring".to_owned(),
        cost: 0,
        predicted_risk_drop: 0,
        rationale: "Student is stable. No immediate action required.".to_owned(),
    }
}

/// Evaluates every threshold rule against the state and returns the fired
/// recommendations ranked by descending cost-efficiency; when none fires,
/// the single zero-cost fallback. Never empty.
///
/// The three active rules have fixed efficiencies 5/1 > 10/3 > 15/5, so
/// emitting them in that order realizes the ranking; equal-efficiency ties
/// cannot arise among distinct rules.
pub fn get_minimal_lever(state: &TrajectoryState) -> (recs: Vec<InterventionRecommendation>)
    ensures
        is_levers_for(*state, recs@),
        recs@.len() >= 1,
{
    let mut recs: Vec<InterventionRecommendation> = Vec::new();
    if state.E < ENGAGEMENT_THRESHOLD {
        recs.push(quick_check_in());
    }
    if state.risk > RISK_THRESHOLD {
        recs.push(parent_call());
    }
    if state.M < MASTERY_THRESHOLD {
        recs.push(tutoring());
    }
    if recs.len() == 0 {
        recs.push(monitor());
    }
    recs
}

/// Law: the recommendation list is never empty, and it is ordered by
/// descending cost-efficiency — for any two positions, the earlier entry's
/// drop-per-cost fraction is at least the later one's (compared by cross
/// multiplication).
pub proof fn lemma_levers_ranked(s: TrajectoryState, recs: Seq<InterventionRecommendation>)
    requires
        is_levers_for(s, recs),
    ensures
        recs.len() >= 1,
        forall|j: int, k: int|
            0 <= j < k < recs.len() ==> efficiency_num(recs[j]) * efficiency_den(recs[k])
                >= efficiency_num(recs[k]) * efficiency_den(recs[j]),
{
    let fe = fires_engagement(s);
    let fm = fires_mastery(s);
    let fr = fires_risk(s);
    assert forall|j: int, k: int| 0 <= j < k < recs.len() implies efficiency_num(recs[j])
        * efficiency_den(recs[k]) >= efficiency_num(recs[k]) * efficiency_den(recs[j]) by {
        if fe || fm || fr {
            let i1: int = if fe {
                1
            } else {
                0
            };
            let i2: int = i1 + (if fr {
                1 as int
            } else {
                0
            });
            if fe {
                assert(is_quick_check_in(recs[0]));
                assert(efficiency_num(recs[0]) == 5 && efficiency_den(recs[0]) == 1);
            }
            if fr {
                assert(is_parent_call(recs[i1]));
                assert(efficiency_num(recs[i1]) == 10 && efficiency_den(recs[i1]) == 3);
            }
            if fm {
                assert(is_tutoring(recs[i2]));
                assert(efficiency_num(recs[i2]) == 15 && efficiency_den(recs[i2]) == 5);
            }
        }
    }
}

} // verus!
