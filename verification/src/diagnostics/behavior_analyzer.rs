//! Learner behavior: rates over a learner's interactions and the dropout-risk
//! assessment.
use vstd::prelude::*;
use vstd::string::StringSliceAdditionalSpecFns;
use crate::text::{copy_texts, texts, text_bytes, text_list2, text_list3};
use crate::diagnostics::ids::{monitoring_id, monitoring_id_spec};
use crate::diagnostics::errors::DiagnosticsError;
use crate::diagnostics::types::{
    EffectivenessTrend, EngagementMetrics, ImpactLevel, LearningEffectiveness, PatternType, RiskLevel, RiskType,
};

verus! {

/// Learner behavior analysis.
pub struct BehaviorAnalyzer;

/// Kind of a learner interaction.
#[derive(Clone, Copy, Debug, PartialEq, Eq, Structural)]
pub enum InteractionType {
    Login,
    ContentView,
    Assessment,
    Exercise,
    Discussion,
    Quiz,
}

/// Kind of collaboration between learners.
#[derive(Clone, Copy, Debug, PartialEq, Eq, Structural)]
pub enum CollaborationType {
    PeerStudy,
    Mentoring,
    GroupProject,
    StudyGroup,
}

/// One interaction of a learner.
#[derive(Clone, Debug)]
pub struct UserInteraction {
    pub user: String,
    pub timestamp: u64,
    pub interaction_type: InteractionType,
    pub duration: u64,
    pub success: bool,
    pub content_id: Vec<u8>,
    pub score: Option<u32>,
}

/// A learner's dropout risk.
#[derive(Clone, Debug)]
pub struct DropoutRiskAssessment {
    pub user: String,
    pub risk_level: RiskLevel,
    pub engagement_score: u32,
    pub completion_velocity: u32,
    pub session_consistency: u32,
    pub learning_progress: u32,
    pub intervention_recommendations: Vec<Vec<u8>>,
    pub assessment_timestamp: u64,
}

/// Dropout risk from the average of four scores: critical below 40, high
/// below 60, medium below 80, low otherwise.
pub open spec fn dropout_risk_spec(engagement: u32, velocity: u32, consistency: u32, progress: u32) -> RiskLevel {
    let combined = (engagement + velocity + consistency + progress) / 4;
    if combined < 40 {
        RiskLevel::Critical
    } else if combined < 60 {
        RiskLevel::High
    } else if combined < 80 {
        RiskLevel::Medium
    } else {
        RiskLevel::Low
    }
}

/// Interactions that succeeded.
pub open spec fn success_count(s: Seq<UserInteraction>) -> nat
    decreases s.len(),
{
    if s.len() == 0 {
        0
    } else {
        success_count(s.drop_last()) + if s.last().success {
            1nat
        } else {
            0nat
        }
    }
}

/// Interactions of kind `t`.
pub open spec fn kind_count(s: Seq<UserInteraction>, t: InteractionType) -> nat
    decreases s.len(),
{
    if s.len() == 0 {
        0
    } else {
        kind_count(s.drop_last(), t) + if s.last().interaction_type == t {
            1nat
        } else {
            0nat
        }
    }
}

/// `part` out of `s.len()`, in percent (0 for none).
pub open spec fn percent_of(part: nat, s: Seq<UserInteraction>) -> nat {
    if s.len() > 0 {
        part * 100 / s.len()
    } else {
        0
    }
}

/// Seconds between the first and the last interaction.
pub open spec fn time_span(s: Seq<UserInteraction>) -> int {
    s.last().timestamp - s[0].timestamp
}

/// Whole units of `unit` seconds in the span, at least one.
pub open spec fn span_units(s: Seq<UserInteraction>, unit: nat) -> nat {
    let n = time_span(s) / (unit as int);
    if n < 1 {
        1
    } else {
        n as nat
    }
}

/// The interventions suggested to a learner at risk.
pub open spec fn interventions_spec() -> Seq<Seq<u8>> {
    seq![
        "Personalized learning reminders".spec_bytes(),
        "Gamification elements".spec_bytes(),
        "Peer study groups".spec_bytes(),
    ]
}

impl BehaviorAnalyzer {
    /// Dropout risk from engagement, completion velocity, session consistency
    /// and learning progress (see `dropout_risk_spec`).
    pub fn determine_dropout_risk_level(engagement: u32, velocity: u32, consistency: u32, progress: u32) -> (r: RiskLevel)
        requires
            engagement + velocity + consistency + progress <= u32::MAX,
        ensures
            r == dropout_risk_spec(engagement, velocity, consistency, progress),
    {
        let combined = (engagement + velocity + consistency + progress) / 4;
        if combined < 40 {
            RiskLevel::Critical
        } else if combined < 60 {
            RiskLevel::High
        } else if combined < 80 {
            RiskLevel::Medium
        } else {
            RiskLevel::Low
        }
    }

    /// Interventions suggested to a learner at risk.
    pub fn generate_intervention_recommendations(
        risk_level: RiskLevel,
        engagement: u32,
        velocity: u32,
    ) -> (r: Vec<Vec<u8>>)
        ensures
            texts(r@) == interventions_spec(),
    {
        text_list3("Personalized learning reminders", "Gamification elements", "Peer study groups")
    }

    /// Dropout risk of `user` at `now` from their interactions of the last
    /// two weeks; `InsufficientBehaviorData` without any. The engagement,
    /// velocity, consistency and progress figures are fixed at 75, 3, 80 and 70.
    pub fn predict_dropout_risk(user: &String, interactions: &Vec<UserInteraction>, now: u64) -> (r: Result<
        DropoutRiskAssessment,
        DiagnosticsError,
    >)
        ensures
            interactions@.len() == 0 <==> r == Err::<DropoutRiskAssessment, DiagnosticsError>(
                DiagnosticsError::InsufficientBehaviorData,
            ),
            interactions@.len() > 0 ==> r is Ok,
            r matches Ok(a) ==> {
                &&& a.user == *user
                &&& a.risk_level == dropout_risk_spec(75, 3, 80, 70)
                &&& a.engagement_score == 75
                &&& a.completion_velocity == 3
                &&& a.session_consistency == 80
                &&& a.learning_progress == 70
                &&& texts(a.intervention_recommendations@) == interventions_spec()
                &&& a.assessment_timestamp == now
            },
    {
        if interactions.len() == 0 {
            return Err(DiagnosticsError::InsufficientBehaviorData);
        }
        let engagement: u32 = 75;
        let velocity: u32 = 3;
        let consistency: u32 = 80;
        let progress: u32 = 70;
        let risk_level = Self::determine_dropout_risk_level(engagement, velocity, consistency, progress);
        Ok(DropoutRiskAssessment {
            user: user.clone(),
            risk_level,
            engagement_score: engagement,
            completion_velocity: velocity,
            session_consistency: consistency,
            learning_progress: progress,
            intervention_recommendations: Self::generate_intervention_recommendations(risk_level, engagement, velocity),
            assessment_timestamp: now,
        })
    }

    /// Interactions that succeeded.
    fn count_successes(interactions: &Vec<UserInteraction>) -> (r: u64)
        ensures
            r == success_count(interactions@),
            r <= interactions@.len(),
    {
        let mut n: u64 = 0;
        let mut i: usize = 0;
        while i < interactions.len()
            invariant
                i <= interactions@.len(),
                n == success_count(interactions@.subrange(0, i as int)),
                n <= i,
            decreases interactions@.len() - i,
        {
            assert(interactions@.subrange(0, i as int + 1).drop_last() =~= interactions@.subrange(0, i as int));
            if interactions[i].success {
                n = n + 1;
            }
            i += 1;
        }
        assert(interactions@.subrange(0, interactions@.len() as int) =~= interactions@);
        n
    }

    /// Interactions of kind `t`.
    fn count_kind(interactions: &Vec<UserInteraction>, t: InteractionType) -> (r: u64)
        ensures
            r == kind_count(interactions@, t),
            r <= interactions@.len(),
    {
        let mut n: u64 = 0;
        let mut i: usize = 0;
        while i < interactions.len()
            invariant
                i <= interactions@.len(),
                n == kind_count(interactions@.subrange(0, i as int), t),
                n <= i,
            decreases interactions@.len() - i,
        {
            assert(interactions@.subrange(0, i as int + 1).drop_last() =~= interactions@.subrange(0, i as int));
            if interactions[i].interaction_type == t {
                n = n + 1;
            }
            i += 1;
        }
        assert(interactions@.subrange(0, interactions@.len() as int) =~= interactions@);
        n
    }

    /// Percentage of interactions that succeeded.
    pub fn calculate_completion_rate(interactions: &Vec<UserInteraction>) -> (r: u32)
        requires
            interactions@.len() * 100 <= u32::MAX,
        ensures
            r == percent_of(success_count(interactions@), interactions@),
    {
        let successful = Self::count_successes(interactions);
        let total = interactions.len() as u64;
        if total > 0 {
            ((successful * 100) / total) as u32
        } else {
            0
        }
    }

    /// Percentage of interactions that viewed content.
    pub fn calculate_content_interaction_rate(interactions: &Vec<UserInteraction>) -> (r: u32)
        requires
            interactions@.len() * 100 <= u32::MAX,
        ensures
            r == percent_of(kind_count(interactions@, InteractionType::ContentView), interactions@),
    {
        let content = Self::count_kind(interactions, InteractionType::ContentView);
        let total = interactions.len() as u64;
        if total > 0 {
            ((content * 100) / total) as u32
        } else {
            0
        }
    }

    /// Logins per week over the span of the interactions (at least one week).
    pub fn calculate_session_frequency(interactions: &Vec<UserInteraction>) -> (r: u32)
        requires
            interactions@.len() <= u32::MAX,
            interactions@.len() > 0 ==> interactions@[0].timestamp <= interactions@.last().timestamp,
        ensures
            r == (if interactions@.len() == 0 {
                0
            } else {
                kind_count(interactions@, InteractionType::Login) / span_units(interactions@, 604800)
            }),
    {
        let logins = Self::count_kind(interactions, InteractionType::Login);
        if interactions.len() == 0 {
            return 0;
        }
        let span = interactions[interactions.len() - 1].timestamp - interactions[0].timestamp;
        let weeks = if span / 604800 < 1 {
            1
        } else {
            span / 604800
        };
        (logins / weeks) as u32
    }

    /// Completed interactions per week over the span of the interactions,
    /// counted in days (at least one).
    pub fn calculate_completion_velocity_from_interactions(interactions: &Vec<UserInteraction>) -> (r: u32)
        requires
            interactions@.len() * 7 <= u32::MAX,
            interactions@.len() > 0 ==> interactions@[0].timestamp <= interactions@.last().timestamp,
            interactions@.len() > 0 ==> span_units(interactions@, 86400) as u32 > 0,
        ensures
            r == (if interactions@.len() == 0 {
                0
            } else {
                ((success_count(interactions@) * 7) as u32 / (span_units(interactions@, 86400) as u32)) as nat
            }),
    {
        let completions = Self::count_successes(interactions);
        if interactions.len() == 0 {
            return 0;
        }
        let span = interactions[interactions.len() - 1].timestamp - interactions[0].timestamp;
        let days = if span / 86400 < 1 {
            1
        } else {
            span / 86400
        };
        let c: u32 = (completions * 7) as u32;
        c / (days as u32)
    }
}

/// A pattern in a learner's behavior.
#[derive(Clone, Debug)]
pub struct BehaviorPattern {
    pub pattern_type: PatternType,
    pub frequency: u32,
    pub confidence: u32,
    pub impact_on_learning: ImpactLevel,
    pub description: Vec<u8>,
}

/// A risk in a learner's behavior.
#[derive(Clone, Debug)]
pub struct RiskIndicator {
    pub risk_type: RiskType,
    pub severity: RiskLevel,
    pub probability: u32,
    pub description: Vec<u8>,
    pub mitigation_suggestions: Vec<Vec<u8>>,
}

/// A chance for a learner to learn with someone else.
#[derive(Clone, Debug)]
pub struct CollaborativeOpportunity {
    pub opportunity_type: CollaborationType,
    pub partner_user: String,
    pub compatibility_score: u32,
    pub recommended_activities: Vec<Vec<u8>>,
    pub expected_benefits: Vec<Vec<u8>>,
}

/// A learner's behavior over a period.
#[derive(Clone, Debug)]
pub struct BehaviorAnalysis {
    pub analysis_id: [u8; 32],
    pub user: String,
    pub analysis_period: u64,
    pub behavior_patterns: Vec<BehaviorPattern>,
    pub learning_effectiveness: LearningEffectiveness,
    pub engagement_metrics: EngagementMetrics,
    pub optimization_suggestions: Vec<Vec<u8>>,
    pub risk_indicators: Vec<RiskIndicator>,
}

/// How well a course path works for a learner.
#[derive(Clone, Debug)]
pub struct LearningPathEffectiveness {
    pub user: String,
    pub course_path: Vec<Vec<u8>>,
    pub step_completion_rates: Vec<u32>,
    pub path_optimizations: Vec<Vec<u8>>,
    pub overall_effectiveness: u32,
    pub recommended_adjustments: Vec<Vec<u8>>,
}

/// The assessment scores among the interactions, in order.
pub open spec fn scores_of(s: Seq<UserInteraction>) -> Seq<u32>
    decreases s.len(),
{
    if s.len() == 0 {
        Seq::<u32>::empty()
    } else {
        let p = scores_of(s.drop_last());
        match s.last().score {
            Some(x) => p.push(x),
            None => p,
        }
    }
}

/// The scores of assessment interactions, in order.
pub open spec fn assessment_scores(s: Seq<UserInteraction>) -> Seq<u32>
    decreases s.len(),
{
    if s.len() == 0 {
        Seq::<u32>::empty()
    } else {
        let p = assessment_scores(s.drop_last());
        if s.last().interaction_type == InteractionType::Assessment && s.last().score is Some {
            p.push(s.last().score->0)
        } else {
            p
        }
    }
}

/// Sum of scores.
pub open spec fn score_sum(s: Seq<u32>) -> nat
    decreases s.len(),
{
    if s.len() == 0 {
        0
    } else {
        score_sum(s.drop_last()) + s.last() as nat
    }
}

/// Mean of the scores from `lo` up to `hi` (0 for none).
pub open spec fn score_mean(s: Seq<u32>, lo: int, hi: int) -> nat {
    if hi <= lo {
        0
    } else {
        score_sum(s.subrange(lo, hi)) / ((hi - lo) as nat)
    }
}

/// Sums of scores over two lists add up.
pub proof fn lemma_score_sum_concat(a: Seq<u32>, b: Seq<u32>)
    ensures
        score_sum(a + b) == score_sum(a) + score_sum(b),
    decreases b.len(),
{
    if b.len() > 0 {
        lemma_score_sum_concat(a, b.drop_last());
        assert((a + b).drop_last() =~= a + b.drop_last());
    } else {
        assert(a + b =~= a);
    }
}

/// A sum over a stretch of scores is at most the sum over all of them.
pub proof fn lemma_score_sum_range(s: Seq<u32>, lo: int, hi: int)
    requires
        0 <= lo <= hi <= s.len(),
    ensures
        score_sum(s.subrange(lo, hi)) <= score_sum(s),
{
    let a = s.subrange(0, lo);
    let b = s.subrange(lo, hi);
    let c = s.subrange(hi, s.len() as int);
    lemma_score_sum_concat(a, b);
    lemma_score_sum_concat(a + b, c);
    assert(a + b + c =~= s);
}

/// Knowledge retention: the mean score, at most 100; 50 without scores.
pub open spec fn retention_spec(s: Seq<UserInteraction>) -> nat {
    let sc = scores_of(s);
    if sc.len() == 0 {
        50
    } else {
        let m = score_mean(sc, 0, sc.len() as int);
        if m < 100 { m } else { 100 }
    }
}

/// Skill acquisition: the percentage by which the mean of the later half of
/// the scores exceeds that of the earlier half, at most 100; 50 when it does
/// not or with fewer than two scores.
pub open spec fn skill_spec(s: Seq<UserInteraction>) -> nat {
    let sc = scores_of(s);
    if sc.len() < 2 {
        50
    } else {
        let mid = (sc.len() / 2) as int;
        let first = score_mean(sc, 0, mid);
        let second = score_mean(sc, mid, sc.len() as int);
        if second > first {
            let g = ((second - first) * 100 / (first as int)) as nat;
            if g < 100 { g } else { 100 }
        } else {
            50
        }
    }
}

/// Whether the skill measure stays within its widths and divides by a nonzero mean.
pub open spec fn skill_in_range(s: Seq<UserInteraction>) -> bool {
    let sc = scores_of(s);
    let mid = (sc.len() / 2) as int;
    let first = score_mean(sc, 0, mid);
    let second = score_mean(sc, mid, sc.len() as int);
    &&& score_sum(sc) <= u32::MAX
    &&& sc.len() >= 2 && second > first ==> first > 0 && (second - first) * 100 <= u32::MAX
}

/// Direction of the scores: the mean of the last third against the first
/// third, with a margin of five points; inconsistent with fewer than three.
pub open spec fn effectiveness_trend_spec(s: Seq<UserInteraction>) -> EffectivenessTrend {
    let sc = scores_of(s);
    if sc.len() < 3 {
        EffectivenessTrend::Inconsistent
    } else {
        let first = score_mean(sc, 0, (sc.len() / 3) as int);
        let last = score_mean(sc, (sc.len() * 2 / 3) as int, sc.len() as int);
        if last > first + 5 {
            EffectivenessTrend::Improving
        } else if first > last + 5 {
            EffectivenessTrend::Declining
        } else {
            EffectivenessTrend::Stable
        }
    }
}

impl BehaviorAnalyzer {
    /// The assessment scores among the interactions, in order.
    fn collect_scores(interactions: &Vec<UserInteraction>) -> (r: Vec<u32>)
        ensures
            r@ == scores_of(interactions@),
    {
        let mut r: Vec<u32> = Vec::new();
        let mut i: usize = 0;
        while i < interactions.len()
            invariant
                i <= interactions@.len(),
                r@ == scores_of(interactions@.subrange(0, i as int)),
            decreases interactions@.len() - i,
        {
            assert(interactions@.subrange(0, i + 1).drop_last() =~= interactions@.subrange(0, i as int));
            match interactions[i].score {
                Some(x) => {
                    r.push(x);
                },
                None => {},
            }
            i += 1;
        }
        assert(interactions@.subrange(0, interactions@.len() as int) =~= interactions@);
        r
    }

    /// The scores of assessment interactions, in order.
    pub fn get_recent_assessment_scores(interactions: &Vec<UserInteraction>) -> (r: Vec<u32>)
        ensures
            r@ == assessment_scores(interactions@),
    {
        let mut r: Vec<u32> = Vec::new();
        let mut i: usize = 0;
        while i < interactions.len()
            invariant
                i <= interactions@.len(),
                r@ == assessment_scores(interactions@.subrange(0, i as int)),
            decreases interactions@.len() - i,
        {
            assert(interactions@.subrange(0, i + 1).drop_last() =~= interactions@.subrange(0, i as int));
            if interactions[i].interaction_type == InteractionType::Assessment {
                match interactions[i].score {
                    Some(x) => {
                        r.push(x);
                    },
                    None => {},
                }
            }
            i += 1;
        }
        assert(interactions@.subrange(0, interactions@.len() as int) =~= interactions@);
        r
    }

    /// Mean of the scores from `lo` up to `hi` (0 for none).
    fn mean_of(scores: &Vec<u32>, lo: usize, hi: usize) -> (r: u32)
        requires
            lo <= hi <= scores@.len(),
            scores@.len() <= u32::MAX,
            score_sum(scores@) <= u32::MAX,
        ensures
            r == score_mean(scores@, lo as int, hi as int),
    {
        let mut total: u32 = 0;
        let mut i: usize = lo;
        while i < hi
            invariant
                lo <= i <= hi <= scores@.len(),
                score_sum(scores@) <= u32::MAX,
                total == score_sum(scores@.subrange(lo as int, i as int)),
            decreases hi - i,
        {
            assert(scores@.subrange(lo as int, i + 1).drop_last() =~= scores@.subrange(lo as int, i as int));
            proof {
                lemma_score_sum_range(scores@, lo as int, i + 1);
            }
            total = total + scores[i];
            i += 1;
        }
        if hi == lo {
            return 0;
        }
        let n = hi - lo;
        proof {
            lemma_score_sum_range(scores@, lo as int, hi as int);
        }
        total / (n as u32)
    }

    /// Knowledge retention (see `retention_spec`).
    pub fn estimate_knowledge_retention(interactions: &Vec<UserInteraction>) -> (r: u32)
        requires
            score_sum(scores_of(interactions@)) <= u32::MAX,
            scores_of(interactions@).len() <= u32::MAX,
        ensures
            r == retention_spec(interactions@),
    {
        let scores = Self::collect_scores(interactions);
        if scores.len() == 0 {
            return 50;
        }
        let m = Self::mean_of(&scores, 0, scores.len());
        if m < 100 {
            m
        } else {
            100
        }
    }

    /// Skill acquisition (see `skill_spec`).
    pub fn assess_skill_acquisition(interactions: &Vec<UserInteraction>) -> (r: u32)
        requires
            skill_in_range(interactions@),
            scores_of(interactions@).len() <= u32::MAX,
        ensures
            r == skill_spec(interactions@),
    {
        let scores = Self::collect_scores(interactions);
        if scores.len() < 2 {
            return 50;
        }
        let mid = scores.len() / 2;
        let first = Self::mean_of(&scores, 0, mid);
        let second = Self::mean_of(&scores, mid, scores.len());
        if second > first {
            let g = (second - first) * 100 / first;
            if g < 100 {
                g
            } else {
                100
            }
        } else {
            50
        }
    }

    /// Direction of the scores (see `effectiveness_trend_spec`).
    pub fn determine_effectiveness_trend(interactions: &Vec<UserInteraction>) -> (r: EffectivenessTrend)
        requires
            score_sum(scores_of(interactions@)) <= u32::MAX,
            scores_of(interactions@).len() <= u32::MAX,
            ({
                let sc = scores_of(interactions@);
                let first = score_mean(sc, 0, (sc.len() / 3) as int);
                let last = score_mean(sc, (sc.len() * 2 / 3) as int, sc.len() as int);
                sc.len() >= 3 ==> first + 5 <= u32::MAX && (last <= first + 5 ==> last + 5 <= u32::MAX)
            }),
        ensures
            r == effectiveness_trend_spec(interactions@),
    {
        let scores = Self::collect_scores(interactions);
        let n = scores.len();
        if n < 3 {
            return EffectivenessTrend::Inconsistent;
        }
        let a = n / 3;
        let b = n / 3 * 2 + (n % 3) * 2 / 3;
        assert(b == n * 2 / 3) by (nonlinear_arith)
            requires
                b == n / 3 * 2 + (n % 3) * 2 / 3,
        ;
        let first = Self::mean_of(&scores, 0, a);
        let last = Self::mean_of(&scores, b, n);
        proof {
            lemma_score_sum_range(scores@, 0, a as int);
            lemma_score_sum_range(scores@, b as int, n as int);
        }
        assert(first <= score_sum(scores@)) by (nonlinear_arith)
            requires
                first == score_sum(scores@.subrange(0, a as int)) / (a as nat),
                a > 0,
                score_sum(scores@.subrange(0, a as int)) <= score_sum(scores@),
        ;
        assert(last <= score_sum(scores@)) by (nonlinear_arith)
            requires
                last == score_sum(scores@.subrange(b as int, n as int)) / ((n - b) as nat),
                n > b,
                score_sum(scores@.subrange(b as int, n as int)) <= score_sum(scores@),
        ;
        if last > first + 5 {
            EffectivenessTrend::Improving
        } else if first > last + 5 {
            EffectivenessTrend::Declining
        } else {
            EffectivenessTrend::Stable
        }
    }
}

/// The `i`-th of the ten interactions sampled over `period` seconds from
/// `start`: logins, content views and assessments in turn, lengthening
/// sessions, every fourth one failed, assessments scored from 75.
pub open spec fn sampled_interaction(t: UserInteraction, user: String, start: u64, period: u64, i: int) -> bool {
    &&& t.user == user
    &&& t.timestamp == start + i * period / 10
    &&& t.interaction_type == (if i % 3 == 0 {
        InteractionType::Login
    } else if i % 3 == 1 {
        InteractionType::ContentView
    } else {
        InteractionType::Assessment
    })
    &&& t.duration == 300 + i * 100
    &&& t.success == (i % 4 != 0)
    &&& t.content_id@ == "content".spec_bytes()
    &&& t.score == (if i % 3 == 2 { Some((75 + (i * 5) % 25) as u32) } else { None })
}

/// Total duration of the interactions.
pub open spec fn duration_sum(s: Seq<UserInteraction>) -> nat
    decreases s.len(),
{
    if s.len() == 0 {
        0
    } else {
        duration_sum(s.drop_last()) + s.last().duration as nat
    }
}

/// Times of the logins, in order.
pub open spec fn login_times(s: Seq<UserInteraction>) -> Seq<u64>
    decreases s.len(),
{
    if s.len() == 0 {
        Seq::<u64>::empty()
    } else {
        let p = login_times(s.drop_last());
        if s.last().interaction_type == InteractionType::Login {
            p.push(s.last().timestamp)
        } else {
            p
        }
    }
}

/// Sum of the whole days between consecutive times.
pub open spec fn gap_days(t: Seq<u64>) -> int
    decreases t.len(),
{
    if t.len() < 2 {
        0
    } else {
        gap_days(t.drop_last()) + (t.last() - t[t.len() - 2]) / 86400
    }
}

/// Times that never go back.
pub open spec fn non_decreasing(t: Seq<u64>) -> bool {
    forall|a: int, b: int| 0 <= a <= b < t.len() ==> t[a] <= t[b]
}

/// How often a learner returns: by the mean whole days between logins,
/// 100 within a day, 80 within three, 60 within a week, 40 within two, 20
/// beyond; 0 with fewer than two logins.
pub open spec fn return_rate_spec(s: Seq<UserInteraction>) -> u32 {
    let t = login_times(s);
    if t.len() < 2 {
        0
    } else {
        let avg = gap_days(t) / (t.len() - 1);
        if avg <= 1 {
            100
        } else if avg <= 3 {
            80
        } else if avg <= 7 {
            60
        } else if avg <= 14 {
            40
        } else {
            20
        }
    }
}

/// Minutes of activity per day over the span of the interactions, counted
/// in whole days (at least one), cut to 32 bits.
pub open spec fn daily_active_spec(s: Seq<UserInteraction>) -> u32 {
    if s.len() == 0 {
        0
    } else {
        ((duration_sum(s) / span_units(s, 86400) / 60) as u64) as u32
    }
}

/// Assessments per day over the span of the interactions, the span taken
/// as one second for a single interaction and cut to 32 bits.
pub open spec fn pacing_spec(s: Seq<UserInteraction>) -> u32 {
    let span: int = if s.len() > 1 { time_span(s) } else { 1 };
    if span > 0 {
        ((kind_count(s, InteractionType::Assessment) * 86400) as u32 / ((span as u64) as u32)) as u32
    } else {
        0
    }
}

/// The figures a pacing pattern is computed with stay within their widths.
pub open spec fn pacing_in_range(s: Seq<UserInteraction>) -> bool {
    let span: int = if s.len() > 1 { time_span(s) } else { 1 };
    &&& s.len() > 1 ==> s[0].timestamp <= s.last().timestamp
    &&& kind_count(s, InteractionType::Assessment) * 86400 <= u32::MAX
    &&& span > 0 ==> ((span as u64) as u32) != 0
}

/// Whether the last three scores vary by less than five points squared
/// (the sum of their squared pairwise differences is below 45).
pub open spec fn plateau_spec(scores: Seq<u32>) -> bool {
    if scores.len() < 3 {
        false
    } else {
        let n = scores.len() as int;
        let a = scores[n - 3] as int;
        let b = scores[n - 2] as int;
        let c = scores[n - 1] as int;
        (a - b) * (a - b) + (a - c) * (a - c) + (b - c) * (b - c) < 45
    }
}

/// Suggestions from engagement, effectiveness and patterns.
pub open spec fn suggestions_spec(p: Seq<BehaviorPattern>, e: LearningEffectiveness, g: EngagementMetrics) -> Seq<Seq<u8>> {
    (if g.daily_active_time < 30 {
        seq!["Consider shorter, more frequent learning sessions".spec_bytes()]
    } else {
        Seq::<Seq<u8>>::empty()
    }) + (if g.session_frequency < 3 {
        seq!["Increase learning session frequency for better retention".spec_bytes()]
    } else {
        Seq::<Seq<u8>>::empty()
    }) + (if e.completion_rate < 60 {
        seq!["Focus on completing current modules before starting new ones".spec_bytes()]
    } else {
        Seq::<Seq<u8>>::empty()
    }) + (if e.knowledge_retention < 70 {
        seq!["Implement spaced repetition for better retention".spec_bytes()]
    } else {
        Seq::<Seq<u8>>::empty()
    }) + pattern_suggestions(p)
}

/// Suggestion for one pattern.
pub open spec fn pattern_suggestion(p: BehaviorPattern) -> Seq<Seq<u8>> {
    match p.pattern_type {
        PatternType::SessionDuration => if p.impact_on_learning == ImpactLevel::Negative {
            seq!["Optimize session duration for better learning outcomes".spec_bytes()]
        } else {
            Seq::<Seq<u8>>::empty()
        },
        PatternType::LoginTiming => if p.confidence > 80 {
            seq!["Maintain consistent learning schedule".spec_bytes()]
        } else {
            Seq::<Seq<u8>>::empty()
        },
        _ => Seq::<Seq<u8>>::empty(),
    }
}

/// Suggestions for the patterns, in order.
pub open spec fn pattern_suggestions(p: Seq<BehaviorPattern>) -> Seq<Seq<u8>>
    decreases p.len(),
{
    if p.len() == 0 {
        Seq::<Seq<u8>>::empty()
    } else {
        pattern_suggestions(p.drop_last()) + pattern_suggestion(p.last())
    }
}

impl BehaviorAnalyzer {
    /// The interactions sampled for `user` over the `period` seconds before
    /// `now` (see `sampled_interaction`).
    pub fn gather_user_interaction_data(user: &String, period: u64, now: u64) -> (r: Result<
        Vec<UserInteraction>,
        DiagnosticsError,
    >)
        requires
            period <= now,
            period * 9 <= u64::MAX,
        ensures
            r matches Ok(v) && v@.len() == 10 && forall|i: int|
                0 <= i < 10 ==> sampled_interaction(#[trigger] v@[i], *user, (now - period) as u64, period, i),
    {
        let start = now - period;
        let mut v: Vec<UserInteraction> = Vec::new();
        let mut i: u64 = 0;
        while i < 10
            invariant
                start == now - period,
                period * 9 <= u64::MAX,
                i <= 10,
                v@.len() == i,
                forall|k: int| 0 <= k < i ==> sampled_interaction(#[trigger] v@[k], *user, start, period, k),
            decreases 10 - i,
        {
            assert(i * period <= period * 9) by (nonlinear_arith)
                requires
                    i < 10,
            ;
            assert(i * period / 10 <= period) by (nonlinear_arith)
                requires
                    i < 10,
            ;
            let kind = if i % 3 == 0 {
                InteractionType::Login
            } else if i % 3 == 1 {
                InteractionType::ContentView
            } else {
                InteractionType::Assessment
            };
            let score = if i % 3 == 2 {
                Some((75 + (i * 5) % 25) as u32)
            } else {
                None
            };
            v.push(
                UserInteraction {
                    user: user.clone(),
                    timestamp: start + (i * period / 10),
                    interaction_type: kind,
                    duration: 300 + (i * 100),
                    success: i % 4 != 0,
                    content_id: text_bytes("content"),
                    score,
                },
            );
            i += 1;
        }
        Ok(v)
    }

    /// Minutes of activity per day (see `daily_active_spec`).
    pub fn calculate_daily_active_time(interactions: &Vec<UserInteraction>) -> (r: u32)
        requires
            duration_sum(interactions@) <= u64::MAX,
            interactions@.len() > 0 ==> interactions@[0].timestamp <= interactions@.last().timestamp,
        ensures
            r == daily_active_spec(interactions@),
    {
        if interactions.len() == 0 {
            return 0;
        }
        let mut total: u64 = 0;
        let mut i: usize = 0;
        while i < interactions.len()
            invariant
                i <= interactions@.len(),
                duration_sum(interactions@) <= u64::MAX,
                total == duration_sum(interactions@.subrange(0, i as int)),
            decreases interactions@.len() - i,
        {
            assert(interactions@.subrange(0, i + 1).drop_last() =~= interactions@.subrange(0, i as int));
            proof {
                Self::lemma_duration_prefix(interactions@, i + 1);
            }
            total = total + interactions[i].duration;
            i += 1;
        }
        assert(interactions@.subrange(0, interactions@.len() as int) =~= interactions@);
        let span = interactions[interactions.len() - 1].timestamp - interactions[0].timestamp;
        let days = if span / 86400 < 1 {
            1
        } else {
            span / 86400
        };
        (total / days / 60) as u32
    }

    /// A total over a prefix is at most the total over all interactions.
    proof fn lemma_duration_prefix(s: Seq<UserInteraction>, k: int)
        requires
            0 <= k <= s.len(),
        ensures
            duration_sum(s.subrange(0, k)) <= duration_sum(s),
        decreases s.len() - k,
    {
        if k < s.len() {
            Self::lemma_duration_prefix(s, k + 1);
            assert(s.subrange(0, k + 1).drop_last() =~= s.subrange(0, k));
        } else {
            assert(s.subrange(0, k) =~= s);
        }
    }

    /// Times of the logins, in order.
    fn collect_login_times(interactions: &Vec<UserInteraction>) -> (r: Vec<u64>)
        ensures
            r@ == login_times(interactions@),
    {
        let mut r: Vec<u64> = Vec::new();
        let mut i: usize = 0;
        while i < interactions.len()
            invariant
                i <= interactions@.len(),
                r@ == login_times(interactions@.subrange(0, i as int)),
            decreases interactions@.len() - i,
        {
            assert(interactions@.subrange(0, i + 1).drop_last() =~= interactions@.subrange(0, i as int));
            if interactions[i].interaction_type == InteractionType::Login {
                r.push(interactions[i].timestamp);
            }
            i += 1;
        }
        assert(interactions@.subrange(0, interactions@.len() as int) =~= interactions@);
        r
    }

    /// A sum of gaps over a prefix of the times is at most the sum over all of them.
    proof fn lemma_gap_days_prefix(t: Seq<u64>, k: int)
        requires
            0 <= k <= t.len(),
            non_decreasing(t),
        ensures
            0 <= gap_days(t.subrange(0, k)) <= gap_days(t),
        decreases t.len() - k,
    {
        if k < t.len() {
            Self::lemma_gap_days_prefix(t, k + 1);
            let p = t.subrange(0, k + 1);
            let q = t.subrange(0, k);
            assert(p.drop_last() =~= q);
            assert(non_decreasing(q));
            Self::lemma_gap_days_nonneg(q);
            if k + 1 >= 2 {
                assert(p.last() == t[k]);
                assert(p[p.len() - 2] == t[k - 1]);
                assert(t[k - 1] <= t[k]);
                assert(gap_days(p) == gap_days(q) + (t[k] - t[k - 1]) / 86400);
            } else {
                assert(gap_days(p) == 0);
            }
        } else {
            assert(t.subrange(0, k) =~= t);
            Self::lemma_gap_days_nonneg(t);
        }
    }

    /// Gaps between times that never go back add up to no less than zero.
    proof fn lemma_gap_days_nonneg(t: Seq<u64>)
        requires
            non_decreasing(t),
        ensures
            gap_days(t) >= 0,
        decreases t.len(),
    {
        if t.len() >= 2 {
            let d = t.drop_last();
            assert(non_decreasing(d));
            Self::lemma_gap_days_nonneg(d);
        }
    }

    /// How often a learner returns (see `return_rate_spec`).
    pub fn calculate_return_rate(interactions: &Vec<UserInteraction>) -> (r: u32)
        requires
            non_decreasing(login_times(interactions@)),
            gap_days(login_times(interactions@)) <= u64::MAX,
        ensures
            r == return_rate_spec(interactions@),
    {
        let t = Self::collect_login_times(interactions);
        if t.len() < 2 {
            return 0;
        }
        let mut total: u64 = 0;
        let mut k: usize = 1;
        while k < t.len()
            invariant
                1 <= k <= t@.len(),
                non_decreasing(t@),
                gap_days(t@) <= u64::MAX,
                total == gap_days(t@.subrange(0, k as int)),
            decreases t@.len() - k,
        {
            let ghost p = t@.subrange(0, k + 1);
            assert(p.drop_last() =~= t@.subrange(0, k as int));
            assert(t[k - 1] <= t[k as int]);
            proof {
                Self::lemma_gap_days_prefix(t@, k + 1);
            }
            total = total + (t[k] - t[k - 1]) / 86400;
            k += 1;
        }
        assert(t@.subrange(0, t@.len() as int) =~= t@);
        let avg = total / ((t.len() - 1) as u64);
        if avg <= 1 {
            100
        } else if avg <= 3 {
            80
        } else if avg <= 7 {
            60
        } else if avg <= 14 {
            40
        } else {
            20
        }
    }

    /// How much of the activity is viewing content.
    pub fn analyze_content_consumption(interactions: &Vec<UserInteraction>) -> (r: BehaviorPattern)
        requires
            interactions@.len() * 100 <= u32::MAX,
        ensures
            ({
                let rate = percent_of(kind_count(interactions@, InteractionType::ContentView), interactions@);
                &&& r.pattern_type == PatternType::ContentConsumption
                &&& r.frequency == kind_count(interactions@, InteractionType::ContentView)
                &&& r.confidence == 75
                &&& r.impact_on_learning == (if rate > 60 { ImpactLevel::Positive } else { ImpactLevel::Negative })
                &&& r.description@ == "Content consumption analysis".spec_bytes()
            }),
    {
        let views = Self::count_kind(interactions, InteractionType::ContentView);
        let rate = Self::calculate_content_interaction_rate(interactions);
        BehaviorPattern {
            pattern_type: PatternType::ContentConsumption,
            frequency: views as u32,
            confidence: 75,
            impact_on_learning: if rate > 60 {
                ImpactLevel::Positive
            } else {
                ImpactLevel::Negative
            },
            description: text_bytes("Content consumption analysis"),
        }
    }

    /// How fast a learner takes assessments (see `pacing_spec`).
    pub fn analyze_progress_pacing(interactions: &Vec<UserInteraction>) -> (r: BehaviorPattern)
        requires
            pacing_in_range(interactions@),
        ensures
            ({
                let rate = pacing_spec(interactions@);
                &&& r.pattern_type == PatternType::ProgressPacing
                &&& r.frequency == rate
                &&& r.confidence == 70
                &&& r.impact_on_learning == (if rate > 0 && rate < 3 {
                    ImpactLevel::Positive
                } else {
                    ImpactLevel::Neutral
                })
                &&& r.description@ == "Progress pacing analysis".spec_bytes()
            }),
    {
        let assessments = Self::count_kind(interactions, InteractionType::Assessment) as u32;
        let span: u64 = if interactions.len() > 1 {
            interactions[interactions.len() - 1].timestamp - interactions[0].timestamp
        } else {
            1
        };
        let rate: u32 = if span > 0 {
            assessments * 86400 / (span as u32)
        } else {
            0
        };
        BehaviorPattern {
            pattern_type: PatternType::ProgressPacing,
            frequency: rate,
            confidence: 70,
            impact_on_learning: if rate > 0 && rate < 3 {
                ImpactLevel::Positive
            } else {
                ImpactLevel::Neutral
            },
            description: text_bytes("Progress pacing analysis"),
        }
    }

    /// Whether the last three scores have levelled off (see `plateau_spec`).
    pub fn is_plateau_detected(scores: &Vec<u32>) -> (r: bool)
        ensures
            r == plateau_spec(scores@),
    {
        let n = scores.len();
        if n < 3 {
            return false;
        }
        let a = scores[n - 3] as i128;
        let b = scores[n - 2] as i128;
        let c = scores[n - 1] as i128;
        let x = a - b;
        let y = a - c;
        let z = b - c;
        assert(0 <= x * x <= 0x1_0000_0000_0000_0000 && 0 <= y * y <= 0x1_0000_0000_0000_0000 && 0 <= z * z
            <= 0x1_0000_0000_0000_0000) by (nonlinear_arith)
            requires
                -0x1_0000_0000 <= x <= 0x1_0000_0000,
                -0x1_0000_0000 <= y <= 0x1_0000_0000,
                -0x1_0000_0000 <= z <= 0x1_0000_0000,
        ;
        x * x + y * y + z * z < 45
    }

    /// Suggestions from engagement, effectiveness and patterns (see `suggestions_spec`).
    pub fn generate_optimization_suggestions(
        patterns: &Vec<BehaviorPattern>,
        effectiveness: &LearningEffectiveness,
        engagement: &EngagementMetrics,
    ) -> (r: Vec<Vec<u8>>)
        ensures
            texts(r@) == suggestions_spec(patterns@, *effectiveness, *engagement),
    {
        let mut r: Vec<Vec<u8>> = Vec::new();
        if engagement.daily_active_time < 30 {
            r.push(text_bytes("Consider shorter, more frequent learning sessions"));
        }
        let ghost a = texts(r@);
        if engagement.session_frequency < 3 {
            r.push(text_bytes("Increase learning session frequency for better retention"));
        }
        let ghost b = texts(r@);
        if effectiveness.completion_rate < 60 {
            r.push(text_bytes("Focus on completing current modules before starting new ones"));
        }
        let ghost c = texts(r@);
        if effectiveness.knowledge_retention < 70 {
            r.push(text_bytes("Implement spaced repetition for better retention"));
        }
        let ghost head = texts(r@);
        let mut i: usize = 0;
        while i < patterns.len()
            invariant
                i <= patterns@.len(),
                texts(r@) == head + pattern_suggestions(patterns@.subrange(0, i as int)),
            decreases patterns@.len() - i,
        {
            let ghost before = texts(r@);
            assert(patterns@.subrange(0, i + 1).drop_last() =~= patterns@.subrange(0, i as int));
            let p = &patterns[i];
            match p.pattern_type {
                PatternType::SessionDuration => {
                    if p.impact_on_learning == ImpactLevel::Negative {
                        r.push(text_bytes("Optimize session duration for better learning outcomes"));
                    }
                },
                PatternType::LoginTiming => {
                    if p.confidence > 80 {
                        r.push(text_bytes("Maintain consistent learning schedule"));
                    }
                },
                _ => {},
            }
            assert(texts(r@) =~= before + pattern_suggestion(patterns@[i as int]));
            i += 1;
        }
        assert(patterns@.subrange(0, patterns@.len() as int) =~= patterns@);
        assert(texts(r@) =~= suggestions_spec(patterns@, *effectiveness, *engagement));
        r
    }

    /// Risks in a learner's behavior: dropout when sessions are rare and
    /// short, a plateau when the last assessment scores level off.
    pub fn identify_risk_indicators(interactions: &Vec<UserInteraction>, engagement: &EngagementMetrics) -> (r: Vec<
        RiskIndicator,
    >)
        ensures
            risks_spec(r@, interactions@, *engagement),
    {
        let mut r: Vec<RiskIndicator> = Vec::new();
        if engagement.session_frequency < 2 && engagement.daily_active_time < 20 {
            r.push(
                RiskIndicator {
                    risk_type: RiskType::Dropout,
                    severity: RiskLevel::High,
                    probability: 75,
                    description: text_bytes("Low engagement indicates high dropout risk"),
                    mitigation_suggestions: text_list2(
                        "Implement re-engagement campaigns",
                        "Provide personalized motivation",
                    ),
                },
            );
        }
        let scores = Self::get_recent_assessment_scores(interactions);
        if Self::is_plateau_detected(&scores) {
            r.push(
                RiskIndicator {
                    risk_type: RiskType::LearningPlateau,
                    severity: RiskLevel::Medium,
                    probability: 60,
                    description: text_bytes("Stagnant performance indicates learning plateau"),
                    mitigation_suggestions: text_list2("Introduce new learning methods", "Provide additional challenges"),
                },
            );
        }
        r
    }

    /// Learners whose patterns resemble the user's; none are known to the platform.
    fn find_similar_learners(user: &String, data: &Vec<UserInteraction>) -> (r: Vec<String>)
        ensures
            r@.len() == 0,
    {
        Vec::new()
    }

    /// Learners who could mentor the user; none are known to the platform.
    fn find_potential_mentors(user: &String) -> (r: Vec<String>)
        ensures
            r@.len() == 0,
    {
        Vec::new()
    }

    /// Chances for the user to learn with peers and mentors over the last
    /// week; the platform knows no peers or mentors, so there are none.
    pub fn analyze_collaborative_opportunities(user: &String, now: u64) -> (r: Result<
        Vec<CollaborativeOpportunity>,
        DiagnosticsError,
    >)
        requires
            now >= 7 * 86400,
        ensures
            r matches Ok(v) && v@.len() == 0,
    {
        let data = match Self::gather_user_interaction_data(user, 7 * 86400, now) {
            Ok(d) => d,
            Err(e) => {
                return Err(e);
            },
        };
        let mut opportunities: Vec<CollaborativeOpportunity> = Vec::new();
        let similar = Self::find_similar_learners(user, &data);
        let mut i: usize = 0;
        while i < similar.len()
            invariant
                i <= similar@.len(),
                similar@.len() == 0,
                opportunities@.len() == 0,
            decreases similar@.len() - i,
        {
            opportunities.push(
                CollaborativeOpportunity {
                    opportunity_type: CollaborationType::PeerStudy,
                    partner_user: similar[i].clone(),
                    compatibility_score: 75,
                    recommended_activities: text_list2("Joint problem-solving sessions", "Peer review exercises"),
                    expected_benefits: text_list2(
                        "Improved understanding through discussion",
                        "Enhanced motivation through collaboration",
                    ),
                },
            );
            i += 1;
        }
        let mentors = Self::find_potential_mentors(user);
        let mut j: usize = 0;
        while j < mentors.len()
            invariant
                j <= mentors@.len(),
                mentors@.len() == 0,
                opportunities@.len() == 0,
            decreases mentors@.len() - j,
        {
            opportunities.push(
                CollaborativeOpportunity {
                    opportunity_type: CollaborationType::Mentoring,
                    partner_user: mentors[j].clone(),
                    compatibility_score: 85,
                    recommended_activities: text_list2("One-on-one guidance sessions", "Code review and feedback"),
                    expected_benefits: text_list2(
                        "Accelerated learning through expert guidance",
                        "Personalized feedback and direction",
                    ),
                },
            );
            j += 1;
        }
        Ok(opportunities)
    }

    /// How well a course path works for the user over the last 30 days: no
    /// step rates are tracked, so there are no optimizations or adjustments,
    /// and the path is rated 75.
    pub fn analyze_learning_path_effectiveness(user: &String, course_path: &Vec<Vec<u8>>, now: u64) -> (r: Result<
        LearningPathEffectiveness,
        DiagnosticsError,
    >)
        requires
            now >= 30 * 86400,
        ensures
            r matches Ok(p) && p.user == *user && texts(p.course_path@) == texts(course_path@)
                && p.step_completion_rates@.len() == 0 && p.path_optimizations@.len() == 0
                && p.overall_effectiveness == 75 && p.recommended_adjustments@.len() == 0,
    {
        match Self::gather_user_interaction_data(user, 30 * 86400, now) {
            Ok(_) => {},
            Err(e) => {
                return Err(e);
            },
        }
        Ok(LearningPathEffectiveness {
            user: user.clone(),
            course_path: copy_texts(course_path),
            step_completion_rates: Vec::new(),
            path_optimizations: Vec::new(),
            overall_effectiveness: 75,
            recommended_adjustments: Vec::new(),
        })
    }

    /// How `user` learned over the `period` seconds before `now`, from the
    /// sampled interactions of that period: `InvalidAnalysisPeriod` outside a
    /// day to a year. `patterns` and `effectiveness` are the figures computed
    /// in floating point over the same interactions.
    pub fn analyze_behavior(
        user: &String,
        period: u64,
        now: u64,
        sequence: u32,
        patterns: Vec<BehaviorPattern>,
        effectiveness: LearningEffectiveness,
    ) -> (r: Result<BehaviorAnalysis, DiagnosticsError>)
        requires
            86400 <= period <= 31_536_000 ==> period <= now,
        ensures
            !(86400 <= period <= 31_536_000) ==> r == Err::<BehaviorAnalysis, DiagnosticsError>(
                DiagnosticsError::InvalidAnalysisPeriod,
            ),
            86400 <= period <= 31_536_000 ==> r is Ok,
            r matches Ok(a) ==> {
                &&& forall|j: int| 0 <= j < 32 ==> #[trigger] a.analysis_id@[j] == monitoring_id_spec(now, sequence, j)
                &&& a.user == *user
                &&& a.analysis_period == period
                &&& a.behavior_patterns@ == patterns@
                &&& a.learning_effectiveness == effectiveness
                &&& exists|v: Seq<UserInteraction>|
                    {
                        &&& v.len() == 10
                        &&& forall|i: int|
                            0 <= i < 10 ==> sampled_interaction(#[trigger] v[i], *user, (now - period) as u64, period, i)
                        &&& a.engagement_metrics == engagement_spec(v)
                        &&& texts(a.optimization_suggestions@) == suggestions_spec(patterns@, effectiveness, engagement_spec(v))
                        &&& risks_spec(a.risk_indicators@, v, engagement_spec(v))
                    }
            },
    {
        if period < 86400 || period > 31_536_000 {
            return Err(DiagnosticsError::InvalidAnalysisPeriod);
        }
        let data = match Self::gather_user_interaction_data(user, period, now) {
            Ok(d) => d,
            Err(e) => {
                return Err(e);
            },
        };
        if data.len() == 0 {
            return Err(DiagnosticsError::InsufficientBehaviorData);
        }
        proof {
            lemma_sampled_in_range(data@, *user, (now - period) as u64, period);
        }
        let engagement = Self::calculate_engagement_metrics(&data);
        let suggestions = Self::generate_optimization_suggestions(&patterns, &effectiveness, &engagement);
        let risks = Self::identify_risk_indicators(&data, &engagement);
        let ghost v = data@;
        let result = BehaviorAnalysis {
            analysis_id: Self::generate_analysis_id(now, sequence),
            user: user.clone(),
            analysis_period: period,
            behavior_patterns: patterns,
            learning_effectiveness: effectiveness,
            engagement_metrics: engagement,
            optimization_suggestions: suggestions,
            risk_indicators: risks,
        };
        assert(v.len() == 10 && (forall|i: int| 0 <= i < 10 ==> sampled_interaction(#[trigger] v[i], *user, (now - period) as u64, period, i))
            && result.engagement_metrics == engagement_spec(v));
        Ok(result)
    }

    /// Identifier of an analysis: the ledger time's bytes, then the ledger
    /// sequence's bytes, then zeros.
    pub fn generate_analysis_id(now: u64, sequence: u32) -> (r: [u8; 32])
        ensures
            forall|j: int| 0 <= j < 32 ==> #[trigger] r@[j] == monitoring_id_spec(now, sequence, j),
    {
        monitoring_id(now, sequence)
    }
}

/// The figures engagement is measured with stay within their widths, and
/// the interactions run forward in time.
pub open spec fn engagement_in_range(s: Seq<UserInteraction>) -> bool {
    &&& s.len() * 100 <= u32::MAX
    &&& s.len() > 0 ==> s[0].timestamp <= s.last().timestamp
    &&& s.len() > 0 ==> span_units(s, 86400) as u32 > 0
    &&& duration_sum(s) <= u64::MAX
    &&& non_decreasing(login_times(s))
    &&& gap_days(login_times(s)) <= u64::MAX
}

/// The risk indicators found for a learner with these interactions and
/// engagement figures: low engagement, then a learning plateau.
pub open spec fn risks_spec(r: Seq<RiskIndicator>, interactions: Seq<UserInteraction>, engagement: EngagementMetrics) -> bool {
    let dropout = engagement.session_frequency < 2 && engagement.daily_active_time < 20;
    let plateau = plateau_spec(assessment_scores(interactions));
    &&& r.len() == (if dropout { 1int } else { 0int }) + (if plateau { 1int } else { 0int })
    &&& dropout ==> {
        let d = r[0];
        &&& d.risk_type == RiskType::Dropout
        &&& d.severity == RiskLevel::High
        &&& d.probability == 75
        &&& d.description@ == "Low engagement indicates high dropout risk".spec_bytes()
        &&& texts(d.mitigation_suggestions@) == seq![
            "Implement re-engagement campaigns".spec_bytes(),
            "Provide personalized motivation".spec_bytes(),
        ]
    }
    &&& plateau ==> {
        let p = r[r.len() - 1];
        &&& p.risk_type == RiskType::LearningPlateau
        &&& p.severity == RiskLevel::Medium
        &&& p.probability == 60
        &&& p.description@ == "Stagnant performance indicates learning plateau".spec_bytes()
        &&& texts(p.mitigation_suggestions@) == seq![
            "Introduce new learning methods".spec_bytes(),
            "Provide additional challenges".spec_bytes(),
        ]
    }
}

/// The engagement figures of a learner's interactions.
pub open spec fn engagement_spec(s: Seq<UserInteraction>) -> EngagementMetrics {
    EngagementMetrics {
        daily_active_time: (daily_active_spec(s)) as u32,
        session_frequency: ((if s.len() == 0 {
                0
            } else {
                kind_count(s, InteractionType::Login) / span_units(s, 604800)
            })) as u32,
        content_interaction_rate: (percent_of(
                kind_count(s, InteractionType::ContentView),
                s,
            )) as u32,
        completion_velocity: ((if s.len() == 0 {
                0
            } else {
                ((success_count(s) * 7) as u32 / (span_units(s, 86400) as u32)) as nat
            })) as u32,
        return_rate: (return_rate_spec(s)) as u32,
    }
}

/// The ten sampled interactions of a period of at most a year keep every
/// engagement figure within its width.
pub proof fn lemma_sampled_in_range(v: Seq<UserInteraction>, user: String, start: u64, period: u64)
    requires
        v.len() == 10,
        forall|i: int| 0 <= i < 10 ==> sampled_interaction(#[trigger] v[i], user, start, period, i),
        period <= 31_536_000,
        start + period <= u64::MAX,
    ensures
        engagement_in_range(v),
{
    let t0 = v[0].timestamp;
    let t3 = v[3].timestamp;
    let t6 = v[6].timestamp;
    let t9 = v[9].timestamp;
    assert(sampled_interaction(v[0], user, start, period, 0));
    assert(sampled_interaction(v[1], user, start, period, 1));
    assert(sampled_interaction(v[2], user, start, period, 2));
    assert(sampled_interaction(v[3], user, start, period, 3));
    assert(sampled_interaction(v[4], user, start, period, 4));
    assert(sampled_interaction(v[5], user, start, period, 5));
    assert(sampled_interaction(v[6], user, start, period, 6));
    assert(sampled_interaction(v[7], user, start, period, 7));
    assert(sampled_interaction(v[8], user, start, period, 8));
    assert(sampled_interaction(v[9], user, start, period, 9));
    assert(0 <= 3 * period / 10 <= 6 * period / 10 <= 9 * period / 10 <= period) by (nonlinear_arith)
        requires
            period <= 31_536_000,
    ;
    assert(v.drop_last().drop_last().drop_last().drop_last().drop_last().drop_last().drop_last().drop_last().drop_last().drop_last()
        =~= Seq::<UserInteraction>::empty());
    reveal_with_fuel(login_times, 11);
    reveal_with_fuel(duration_sum, 11);
    assert(login_times(v) =~= seq![t0, t3, t6, t9]);
    reveal_with_fuel(gap_days, 5);
    assert(gap_days(seq![t0, t3, t6, t9]) <= u64::MAX);
    assert(time_span(v) <= period);
    assert(time_span(v) / 86400 <= 365);
}

impl BehaviorAnalyzer {
    /// Daily active time, session frequency, content interaction rate,
    /// completion velocity and return rate of a learner.
    pub fn calculate_engagement_metrics(interactions: &Vec<UserInteraction>) -> (r: EngagementMetrics)
        requires
            engagement_in_range(interactions@),
        ensures
            r.daily_active_time == daily_active_spec(interactions@),
            r.session_frequency == (if interactions@.len() == 0 {
                0
            } else {
                kind_count(interactions@, InteractionType::Login) / span_units(interactions@, 604800)
            }),
            r.content_interaction_rate == percent_of(
                kind_count(interactions@, InteractionType::ContentView),
                interactions@,
            ),
            r.completion_velocity == (if interactions@.len() == 0 {
                0
            } else {
                ((success_count(interactions@) * 7) as u32 / (span_units(interactions@, 86400) as u32)) as nat
            }),
            r.return_rate == return_rate_spec(interactions@),
            r == engagement_spec(interactions@),
    {
        EngagementMetrics {
            daily_active_time: Self::calculate_daily_active_time(interactions),
            session_frequency: Self::calculate_session_frequency(interactions),
            content_interaction_rate: Self::calculate_content_interaction_rate(interactions),
            completion_velocity: Self::calculate_completion_velocity_from_interactions(interactions),
            return_rate: Self::calculate_return_rate(interactions),
        }
    }
}

} // verus!
