//! Improvement plans and cost analysis: picking recommendations until a
//! target improvement is reached, their combined impact, savings and phases,
//! and the cost structure of a contract's latest sample.
use vstd::prelude::*;
use vstd::string::StringSliceAdditionalSpecFns;
use crate::text::{copy_bytes, copy_texts, texts, text_bytes, text_list1, text_list3};
use crate::diagnostics::errors::DiagnosticsError;
use crate::diagnostics::optimization_engine::{all_recommendations_spec, savings_in_range, OptimizationEngine, ROIAnalysis};
use crate::diagnostics::resource_optimizer::{CostComponent, OptimizationOpportunity};
use crate::diagnostics::storage::{DiagnosticsStorage, latest_sample, latest_search_in_range};
use crate::diagnostics::types::{
    Complexity, ImpactEstimate, OptimizationRecommendation, PerformanceMetrics, Priority, SavingsEstimate,
};

verus! {

/// A plan of recommendations to reach a target improvement.
#[derive(Clone, Debug)]
pub struct ImprovementPlan {
    pub contract_address: String,
    pub target_improvement: u32,
    pub selected_recommendations: Vec<OptimizationRecommendation>,
    pub estimated_total_impact: ImpactEstimate,
    pub implementation_timeline: u64,
    pub estimated_cost_savings: SavingsEstimate,
    pub implementation_phases: Vec<ImplementationPhase>,
}

/// One phase of an improvement plan.
#[derive(Clone, Debug)]
pub struct ImplementationPhase {
    pub phase_number: u32,
    pub phase_name: Vec<u8>,
    pub recommendations: Vec<OptimizationRecommendation>,
    pub estimated_duration: u64,
    pub dependencies: Vec<Vec<u8>>,
}

/// Costs of a contract and how to lower them.
#[derive(Clone, Debug)]
pub struct CostOptimizationAnalysis {
    pub contract_address: String,
    pub current_daily_cost: u64,
    pub current_cost_breakdown: Vec<CostComponent>,
    pub optimization_opportunities: Vec<OptimizationOpportunity>,
    pub potential_daily_savings: u64,
    pub roi_analysis: ROIAnalysis,
    pub implementation_priority: Vec<Vec<u8>>,
}

/// What a contract's sample costs per day, by component.
#[derive(Clone, Debug)]
pub struct CurrentCostStructure {
    pub total_daily_cost: u64,
    pub cost_breakdown: Vec<CostComponent>,
}

/// Two recommendations with the same contents.
pub open spec fn same_recommendation(a: OptimizationRecommendation, b: OptimizationRecommendation) -> bool {
    &&& a.recommendation_id == b.recommendation_id
    &&& a.category == b.category
    &&& a.priority == b.priority
    &&& a.description@ == b.description@
    &&& a.expected_impact == b.expected_impact
    &&& a.implementation_complexity == b.implementation_complexity
    &&& a.estimated_savings == b.estimated_savings
    &&& texts(a.implementation_steps@) == texts(b.implementation_steps@)
    &&& a.contract_address == b.contract_address
    &&& a.optimization_type == b.optimization_type
    &&& a.title@ == b.title@
    &&& a.expected_improvement == b.expected_improvement
    &&& a.estimated_effort == b.estimated_effort
    &&& a.cost_savings == b.cost_savings
    &&& a.automated_fix_available == b.automated_fix_available
    &&& texts(a.monitoring_metrics@) == texts(b.monitoring_metrics@)
}

/// How many recommendations are taken, and the improvement they add up to:
/// each is taken while the improvement so far is below `target`.
pub open spec fn selection(s: Seq<OptimizationRecommendation>, target: u32) -> (nat, nat)
    decreases s.len(),
{
    if s.len() == 0 {
        (0, 0)
    } else {
        let (count, total) = selection(s.drop_last(), target);
        if total < target {
            (count + 1, total + s.last().expected_impact.performance_improvement as nat)
        } else {
            (count, total)
        }
    }
}

/// One measure of a recommendation's impact, by position: performance, cost,
/// user experience and reliability.
pub open spec fn impact_of(r: OptimizationRecommendation, k: nat) -> nat {
    if k == 0 {
        r.expected_impact.performance_improvement as nat
    } else if k == 1 {
        r.expected_impact.cost_reduction as nat
    } else if k == 2 {
        r.expected_impact.user_experience_improvement as nat
    } else {
        r.expected_impact.reliability_improvement as nat
    }
}

/// One measure of a recommendation's savings, by position: daily, monthly,
/// annual and performance gains.
pub open spec fn savings_of(r: OptimizationRecommendation, k: nat) -> nat {
    if k == 0 {
        r.estimated_savings.daily_cost_savings as nat
    } else if k == 1 {
        r.estimated_savings.monthly_cost_savings as nat
    } else if k == 2 {
        r.estimated_savings.annual_cost_savings as nat
    } else {
        r.estimated_savings.performance_gains as nat
    }
}

/// Sum of one impact measure over recommendations.
pub open spec fn impact_total(s: Seq<OptimizationRecommendation>, k: nat) -> nat
    decreases s.len(),
{
    if s.len() == 0 {
        0
    } else {
        impact_total(s.drop_last(), k) + impact_of(s.last(), k)
    }
}

/// Sum of one savings measure over recommendations.
pub open spec fn savings_total(s: Seq<OptimizationRecommendation>, k: nat) -> nat
    decreases s.len(),
{
    if s.len() == 0 {
        0
    } else {
        savings_total(s.drop_last(), k) + savings_of(s.last(), k)
    }
}

/// Days to implement a recommendation of a complexity.
pub open spec fn timeline_of(c: Complexity) -> u64 {
    match c {
        Complexity::Low => 3,
        Complexity::Simple => 7,
        Complexity::Medium => 14,
        Complexity::Moderate => 21,
        Complexity::High => 35,
        Complexity::Complex => 42,
        Complexity::VeryComplex => 84,
    }
}

/// The longest time any of the recommendations takes (0 for none).
pub open spec fn longest_timeline(s: Seq<OptimizationRecommendation>) -> u64
    decreases s.len(),
{
    if s.len() == 0 {
        0
    } else {
        let m = longest_timeline(s.drop_last());
        let t = timeline_of(s.last().implementation_complexity);
        if t > m { t } else { m }
    }
}

/// `x`, at most `cap`.
pub open spec fn capped(x: nat, cap: nat) -> nat {
    if x < cap { x } else { cap }
}

/// The sums of impacts and savings stay within their widths.
pub open spec fn plan_sums_fit(s: Seq<OptimizationRecommendation>) -> bool {
    &&& forall|k: nat| k < 4 ==> #[trigger] impact_total(s, k) <= u32::MAX
    &&& forall|k: nat| k < 3 ==> #[trigger] savings_total(s, k) <= u64::MAX
    &&& savings_total(s, 3) <= u32::MAX
}

/// The recommendations of a priority band, in order: critical and high,
/// medium, or low.
pub open spec fn in_band(p: Priority, band: nat) -> bool {
    match p {
        Priority::Critical | Priority::High => band == 0,
        Priority::Medium => band == 1,
        Priority::Low => band == 2,
    }
}

/// Positions of the recommendations in a band, in order.
pub open spec fn band_positions(s: Seq<OptimizationRecommendation>, band: nat) -> Seq<int>
    decreases s.len(),
{
    if s.len() == 0 {
        Seq::<int>::empty()
    } else {
        let p = band_positions(s.drop_last(), band);
        if in_band(s.last().priority, band) {
            p.push(s.len() - 1)
        } else {
            p
        }
    }
}

/// A phase holding the recommendations of a band.
pub open spec fn phase_of(ph: ImplementationPhase, s: Seq<OptimizationRecommendation>, band: nat) -> bool {
    let pos = band_positions(s, band);
    &&& ph.phase_number == band + 1
    &&& ph.phase_name@ == (if band == 0 {
        "Critical and High Priority Optimizations".spec_bytes()
    } else if band == 1 {
        "Medium Priority Optimizations".spec_bytes()
    } else {
        "Low Priority Optimizations".spec_bytes()
    })
    &&& ph.estimated_duration == (if band == 0 { 42u64 } else if band == 1 { 21u64 } else { 14u64 })
    &&& texts(ph.dependencies@) == (if band == 0 {
        Seq::<Seq<u8>>::empty()
    } else if band == 1 {
        seq!["Phase 1 completion".spec_bytes()]
    } else {
        seq!["Phase 2 completion".spec_bytes()]
    })
    &&& ph.recommendations@.len() == pos.len()
    &&& forall|j: int| 0 <= j < pos.len() ==> same_recommendation(#[trigger] ph.recommendations@[j], s[pos[j]])
}

/// The bands that hold recommendations, in order.
pub open spec fn filled_bands(s: Seq<OptimizationRecommendation>) -> Seq<nat> {
    (if band_positions(s, 0).len() > 0 { seq![0nat] } else { Seq::<nat>::empty() }) + (if band_positions(s, 1).len()
        > 0 {
        seq![1nat]
    } else {
        Seq::<nat>::empty()
    }) + (if band_positions(s, 2).len() > 0 { seq![2nat] } else { Seq::<nat>::empty() })
}

/// Every position of a band lies within the recommendations.
pub proof fn lemma_band_positions_within(s: Seq<OptimizationRecommendation>, band: nat)
    ensures
        forall|j: int| 0 <= j < band_positions(s, band).len() ==> 0 <= #[trigger] band_positions(s, band)[j] < s.len(),
    decreases s.len(),
{
    if s.len() > 0 {
        let d = s.drop_last();
        lemma_band_positions_within(d, band);
        let p = band_positions(d, band);
        assert forall|j: int| 0 <= j < band_positions(s, band).len() implies 0 <= #[trigger] band_positions(
            s,
            band,
        )[j] < s.len() by {
            if j < p.len() {
                assert(band_positions(s, band)[j] == p[j]);
            }
        }
    }
}

/// The improvement a selection adds up to only grows as recommendations are added.
pub proof fn lemma_selection_grows(s: Seq<OptimizationRecommendation>, i: int, target: u32)
    requires
        0 <= i <= s.len(),
    ensures
        selection(s.subrange(0, i), target).1 <= selection(s, target).1,
    decreases s.len() - i,
{
    if i < s.len() {
        lemma_selection_grows(s, i + 1, target);
        assert(s.subrange(0, i + 1).drop_last() =~= s.subrange(0, i));
    } else {
        assert(s.subrange(0, i) =~= s);
    }
}

/// A sum over a prefix of the recommendations is at most the sum over all of them.
pub proof fn lemma_totals_prefix(s: Seq<OptimizationRecommendation>, i: int, k: nat)
    requires
        0 <= i <= s.len(),
    ensures
        impact_total(s.subrange(0, i), k) <= impact_total(s, k),
        savings_total(s.subrange(0, i), k) <= savings_total(s, k),
    decreases s.len() - i,
{
    if i < s.len() {
        lemma_totals_prefix(s, i + 1, k);
        assert(s.subrange(0, i + 1).drop_last() =~= s.subrange(0, i));
    } else {
        assert(s.subrange(0, i) =~= s);
    }
}

/// Costs of a sample: gas at one per 10000 units, five per storage operation,
/// one per 100 units of execution time and two per unit of latency.
pub open spec fn cost_parts(m: PerformanceMetrics) -> Seq<nat> {
    seq![
        (m.gas_used / 10000) as nat,
        ((m.storage_reads + m.storage_writes) * 5) as nat,
        (m.execution_time / 100) as nat,
        (m.network_latency * 2) as nat,
    ]
}

/// The total of a sample's costs.
pub open spec fn cost_total(m: PerformanceMetrics) -> nat {
    let p = cost_parts(m);
    p[0] + p[1] + p[2] + p[3]
}

/// The cost figures of a sample stay within their widths.
pub open spec fn costs_in_range(m: PerformanceMetrics) -> bool {
    &&& m.storage_reads + m.storage_writes <= u32::MAX
    &&& cost_total(m) <= u64::MAX
    &&& forall|i: int| 0 <= i < 4 ==> #[trigger] cost_parts(m)[i] * 100 <= u64::MAX
}

/// The cost structure of a sample: each component with its share of the total.
pub open spec fn cost_structure_of(c: CurrentCostStructure, m: PerformanceMetrics) -> bool {
    let parts = cost_parts(m);
    let total = cost_total(m);
    let names = seq!["Gas".spec_bytes(), "Storage".spec_bytes(), "Compute".spec_bytes(), "Network".spec_bytes()];
    &&& c.total_daily_cost == total
    &&& c.cost_breakdown@.len() == 4
    &&& forall|i: int|
        0 <= i < 4 ==> {
            &&& (#[trigger] c.cost_breakdown@[i]).component_name@ == names[i]
            &&& c.cost_breakdown@[i].cost == parts[i]
            &&& c.cost_breakdown@[i].percentage_of_total == ((parts[i] * 100 / (if total > 1 {
                total
            } else {
                1
            })) as u64) as u32
        }
}

impl OptimizationRecommendation {
    /// A copy of the recommendation.
    pub fn copied(&self) -> (r: OptimizationRecommendation)
        ensures
            same_recommendation(r, *self),
    {
        OptimizationRecommendation {
            recommendation_id: self.recommendation_id,
            category: self.category,
            priority: self.priority,
            description: copy_bytes(&self.description),
            expected_impact: self.expected_impact,
            implementation_complexity: self.implementation_complexity,
            estimated_savings: self.estimated_savings,
            implementation_steps: copy_texts(&self.implementation_steps),
            contract_address: self.contract_address.clone(),
            optimization_type: self.optimization_type,
            title: copy_bytes(&self.title),
            expected_improvement: self.expected_improvement,
            estimated_effort: self.estimated_effort,
            cost_savings: self.cost_savings,
            automated_fix_available: self.automated_fix_available,
            monitoring_metrics: copy_texts(&self.monitoring_metrics),
        }
    }
}

impl OptimizationEngine {
    /// Takes recommendations in order while the improvement so far is below
    /// `target` (see `selection`).
    pub fn select_recommendations_for_target(recommendations: &Vec<OptimizationRecommendation>, target: u32) -> (r: Vec<
        OptimizationRecommendation,
    >)
        requires
            selection(recommendations@, target).1 <= u32::MAX,
        ensures
            r@.len() == selection(recommendations@, target).0,
            r@.len() <= recommendations@.len(),
            forall|j: int| 0 <= j < r@.len() ==> same_recommendation(#[trigger] r@[j], recommendations@[j]),
    {
        let mut selected: Vec<OptimizationRecommendation> = Vec::new();
        let mut total: u32 = 0;
        let mut i: usize = 0;
        while i < recommendations.len()
            invariant
                i <= recommendations@.len(),
                selection(recommendations@, target).1 <= u32::MAX,
                selected@.len() == selection(recommendations@.subrange(0, i as int), target).0,
                total == selection(recommendations@.subrange(0, i as int), target).1,
                selected@.len() == i || total >= target,
                selected@.len() <= i,
                forall|j: int| 0 <= j < selected@.len() ==> same_recommendation(#[trigger] selected@[j], recommendations@[j]),
            decreases recommendations@.len() - i,
        {
            assert(recommendations@.subrange(0, i + 1).drop_last() =~= recommendations@.subrange(0, i as int));
            proof {
                lemma_selection_grows(recommendations@, i + 1, target);
            }
            if total < target {
                selected.push(recommendations[i].copied());
                total = total + recommendations[i].expected_impact.performance_improvement;
            }
            i += 1;
        }
        assert(recommendations@.subrange(0, recommendations@.len() as int) =~= recommendations@);
        selected
    }

    /// Combined impact of recommendations, capped at 90, 80, 85 and 95 percent,
    /// and the longest time any of them takes.
    pub fn calculate_plan_impact(recommendations: &Vec<OptimizationRecommendation>) -> (r: (ImpactEstimate, u64))
        requires
            forall|k: nat| k < 4 ==> #[trigger] impact_total(recommendations@, k) <= u32::MAX,
        ensures
            r.0.performance_improvement == capped(impact_total(recommendations@, 0), 90),
            r.0.cost_reduction == capped(impact_total(recommendations@, 1), 80),
            r.0.user_experience_improvement == capped(impact_total(recommendations@, 2), 85),
            r.0.reliability_improvement == capped(impact_total(recommendations@, 3), 95),
            r.1 == longest_timeline(recommendations@),
    {
        let mut t: [u32; 4] = [0u32; 4];
        let mut longest: u64 = 0;
        let mut i: usize = 0;
        let ghost s = recommendations@;
        while i < recommendations.len()
            invariant
                s == recommendations@,
                i <= s.len(),
                forall|k: nat| k < 4 ==> #[trigger] impact_total(s, k) <= u32::MAX,
                forall|k: int| 0 <= k < 4 ==> #[trigger] t@[k] == impact_total(s.subrange(0, i as int), k as nat),
                longest == longest_timeline(s.subrange(0, i as int)),
            decreases s.len() - i,
        {
            let r = &recommendations[i];
            let ghost before = t@;
            assert(s.subrange(0, i + 1).drop_last() =~= s.subrange(0, i as int));
            proof {
                lemma_totals_prefix(s, i + 1, 0);
                lemma_totals_prefix(s, i + 1, 1);
                lemma_totals_prefix(s, i + 1, 2);
                lemma_totals_prefix(s, i + 1, 3);
                assert(impact_total(s, 0) <= u32::MAX);
                assert(impact_total(s, 1) <= u32::MAX);
                assert(impact_total(s, 2) <= u32::MAX);
                assert(impact_total(s, 3) <= u32::MAX);
            }
            t[0] = t[0] + r.expected_impact.performance_improvement;
            t[1] = t[1] + r.expected_impact.cost_reduction;
            t[2] = t[2] + r.expected_impact.user_experience_improvement;
            t[3] = t[3] + r.expected_impact.reliability_improvement;
            assert forall|k: int| 0 <= k < 4 implies #[trigger] t@[k] == impact_total(s.subrange(0, i + 1), k as nat) by {
                assert(t@[k] == before[k] + impact_of(s[i as int], k as nat));
            }
            let days: u64 = match r.implementation_complexity {
                Complexity::Low => 3,
                Complexity::Simple => 7,
                Complexity::Medium => 14,
                Complexity::Moderate => 21,
                Complexity::High => 35,
                Complexity::Complex => 42,
                Complexity::VeryComplex => 84,
            };
            if days > longest {
                longest = days;
            }
            i += 1;
        }
        assert(s.subrange(0, s.len() as int) =~= s);
        let impact = ImpactEstimate {
            performance_improvement: if t[0] < 90 { t[0] } else { 90 },
            cost_reduction: if t[1] < 80 { t[1] } else { 80 },
            user_experience_improvement: if t[2] < 85 { t[2] } else { 85 },
            reliability_improvement: if t[3] < 95 { t[3] } else { 95 },
        };
        (impact, longest)
    }

    /// Combined savings of recommendations, performance gains capped at 100.
    pub fn calculate_total_savings(recommendations: &Vec<OptimizationRecommendation>) -> (r: SavingsEstimate)
        requires
            forall|k: nat| k < 3 ==> #[trigger] savings_total(recommendations@, k) <= u64::MAX,
            savings_total(recommendations@, 3) <= u32::MAX,
        ensures
            r.daily_cost_savings == savings_total(recommendations@, 0),
            r.monthly_cost_savings == savings_total(recommendations@, 1),
            r.annual_cost_savings == savings_total(recommendations@, 2),
            r.performance_gains == capped(savings_total(recommendations@, 3), 100),
    {
        let mut daily: u64 = 0;
        let mut monthly: u64 = 0;
        let mut annual: u64 = 0;
        let mut gains: u32 = 0;
        let mut i: usize = 0;
        let ghost s = recommendations@;
        while i < recommendations.len()
            invariant
                s == recommendations@,
                i <= s.len(),
                forall|k: nat| k < 3 ==> #[trigger] savings_total(s, k) <= u64::MAX,
                savings_total(s, 3) <= u32::MAX,
                daily == savings_total(s.subrange(0, i as int), 0),
                monthly == savings_total(s.subrange(0, i as int), 1),
                annual == savings_total(s.subrange(0, i as int), 2),
                gains == savings_total(s.subrange(0, i as int), 3),
            decreases s.len() - i,
        {
            let r = &recommendations[i];
            assert(s.subrange(0, i + 1).drop_last() =~= s.subrange(0, i as int));
            proof {
                lemma_totals_prefix(s, i + 1, 0);
                lemma_totals_prefix(s, i + 1, 1);
                lemma_totals_prefix(s, i + 1, 2);
                lemma_totals_prefix(s, i + 1, 3);
                assert(savings_total(s, 0) <= u64::MAX);
                assert(savings_total(s, 1) <= u64::MAX);
                assert(savings_total(s, 2) <= u64::MAX);
            }
            daily = daily + r.estimated_savings.daily_cost_savings;
            monthly = monthly + r.estimated_savings.monthly_cost_savings;
            annual = annual + r.estimated_savings.annual_cost_savings;
            gains = gains + r.estimated_savings.performance_gains;
            i += 1;
        }
        assert(s.subrange(0, s.len() as int) =~= s);
        SavingsEstimate {
            daily_cost_savings: daily,
            monthly_cost_savings: monthly,
            annual_cost_savings: annual,
            performance_gains: if gains < 100 { gains } else { 100 },
        }
    }

    /// Copies of the recommendations of a band, in order.
    fn band_of(recommendations: &Vec<OptimizationRecommendation>, band: u64) -> (r: Vec<OptimizationRecommendation>)
        ensures
            r@.len() == band_positions(recommendations@, band as nat).len(),
            forall|j: int|
                0 <= j < r@.len() ==> same_recommendation(
                    #[trigger] r@[j],
                    recommendations@[band_positions(recommendations@, band as nat)[j]],
                ),
    {
        let ghost s = recommendations@;
        let mut r: Vec<OptimizationRecommendation> = Vec::new();
        let mut i: usize = 0;
        while i < recommendations.len()
            invariant
                s == recommendations@,
                i <= s.len(),
                r@.len() == band_positions(s.subrange(0, i as int), band as nat).len(),
                forall|j: int|
                    0 <= j < r@.len() ==> same_recommendation(
                        #[trigger] r@[j],
                        s[band_positions(s.subrange(0, i as int), band as nat)[j]],
                    ),
            decreases s.len() - i,
        {
            let ghost pre = s.subrange(0, i as int);
            let ghost next = s.subrange(0, i + 1);
            assert(next.drop_last() =~= pre);
            proof {
                lemma_band_positions_within(pre, band as nat);
            }
            let p = recommendations[i].priority;
            let take = match p {
                Priority::Critical | Priority::High => band == 0,
                Priority::Medium => band == 1,
                Priority::Low => band == 2,
            };
            if take {
                r.push(recommendations[i].copied());
            }
            assert forall|j: int| 0 <= j < r@.len() implies same_recommendation(
                #[trigger] r@[j],
                s[band_positions(next, band as nat)[j]],
            ) by {
                if j < band_positions(pre, band as nat).len() {
                    assert(band_positions(next, band as nat)[j] == band_positions(pre, band as nat)[j]);
                }
            }
            i += 1;
        }
        assert(s.subrange(0, s.len() as int) =~= s);
        r
    }

    /// Phases of a plan: critical and high priority first, then medium, then
    /// low, each band that holds recommendations (see `phase_of`).
    pub fn create_implementation_phases(recommendations: &Vec<OptimizationRecommendation>) -> (r: Vec<
        ImplementationPhase,
    >)
        ensures
            r@.len() == filled_bands(recommendations@).len(),
            forall|j: int|
                0 <= j < r@.len() ==> phase_of(#[trigger] r@[j], recommendations@, filled_bands(recommendations@)[j]),
    {
        let high = Self::band_of(recommendations, 0);
        let medium = Self::band_of(recommendations, 1);
        let low = Self::band_of(recommendations, 2);
        let mut phases: Vec<ImplementationPhase> = Vec::new();
        if high.len() > 0 {
            let deps: Vec<Vec<u8>> = Vec::new();
            assert(texts(deps@) =~= Seq::<Seq<u8>>::empty());
            phases.push(
                ImplementationPhase {
                    phase_number: 1,
                    phase_name: text_bytes("Critical and High Priority Optimizations"),
                    recommendations: high,
                    estimated_duration: 42,
                    dependencies: deps,
                },
            );
        }
        let ghost a = phases@;
        if medium.len() > 0 {
            phases.push(
                ImplementationPhase {
                    phase_number: 2,
                    phase_name: text_bytes("Medium Priority Optimizations"),
                    recommendations: medium,
                    estimated_duration: 21,
                    dependencies: text_list1("Phase 1 completion"),
                },
            );
        }
        let ghost b = phases@;
        if low.len() > 0 {
            phases.push(
                ImplementationPhase {
                    phase_number: 3,
                    phase_name: text_bytes("Low Priority Optimizations"),
                    recommendations: low,
                    estimated_duration: 14,
                    dependencies: text_list1("Phase 2 completion"),
                },
            );
        }
        let ghost f = filled_bands(recommendations@);
        assert(phases@.len() == f.len());
        assert forall|j: int| 0 <= j < phases@.len() implies phase_of(#[trigger] phases@[j], recommendations@, f[j]) by {
            if j < a.len() {
                assert(phases@[j] == a[j]);
            } else if j < b.len() {
                assert(phases@[j] == b[j]);
            }
        }
        phases
    }

    /// A plan of recommendations for `contract` to reach `target` percent
    /// improvement: recommendations taken in the order they are generated
    /// until the target is met, their impact, timeline, savings and phases;
    /// `MetricsNotFound` without a recent sample.
    pub fn generate_improvement_plan(
        st: &DiagnosticsStorage,
        contract: &String,
        target: u32,
        now: u64,
    ) -> (r: Result<ImprovementPlan, DiagnosticsError>)
        requires
            st.wf(),
            latest_search_in_range(st.metrics@, contract@, now),
            latest_sample(st.metrics@, contract@, now) matches Some(m) ==> {
                &&& savings_in_range(m)
                &&& forall|v: Seq<OptimizationRecommendation>|
                    #[trigger] all_recommendations_spec(contract@, m, v) ==> {
                        &&& selection(v, target).1 <= u32::MAX
                        &&& plan_sums_fit(v.subrange(0, selection(v, target).0 as int))
                    }
            },
        ensures
            latest_sample(st.metrics@, contract@, now) is None <==> r == Err::<ImprovementPlan, DiagnosticsError>(
                DiagnosticsError::MetricsNotFound,
            ),
            latest_sample(st.metrics@, contract@, now) is Some ==> r is Ok,
            r matches Ok(p) ==> {
                let chosen = p.selected_recommendations@;
                &&& p.contract_address == *contract
                &&& p.target_improvement == target
                &&& p.estimated_total_impact.performance_improvement == capped(impact_total(chosen, 0), 90)
                &&& p.estimated_total_impact.cost_reduction == capped(impact_total(chosen, 1), 80)
                &&& p.estimated_total_impact.user_experience_improvement == capped(impact_total(chosen, 2), 85)
                &&& p.estimated_total_impact.reliability_improvement == capped(impact_total(chosen, 3), 95)
                &&& p.implementation_timeline == longest_timeline(chosen)
                &&& p.estimated_cost_savings.daily_cost_savings == savings_total(chosen, 0)
                &&& p.estimated_cost_savings.monthly_cost_savings == savings_total(chosen, 1)
                &&& p.estimated_cost_savings.annual_cost_savings == savings_total(chosen, 2)
                &&& p.estimated_cost_savings.performance_gains == capped(savings_total(chosen, 3), 100)
                &&& p.implementation_phases@.len() == filled_bands(chosen).len()
                &&& forall|j: int|
                    0 <= j < p.implementation_phases@.len() ==> phase_of(
                        #[trigger] p.implementation_phases@[j],
                        chosen,
                        filled_bands(chosen)[j],
                    )
                &&& exists|v: Seq<OptimizationRecommendation>|
                    #[trigger] all_recommendations_spec(contract@, latest_sample(st.metrics@, contract@, now)->0, v)
                        && chosen.len() == selection(v, target).0 && forall|j: int|
                        0 <= j < chosen.len() ==> same_recommendation(#[trigger] chosen[j], v[j])
            },
    {
        let all = match Self::generate_recommendations(st, contract, now) {
            Ok(v) => v,
            Err(e) => {
                return Err(e);
            },
        };
        let chosen = Self::select_recommendations_for_target(&all, target);
        proof {
            let v = all@;
            let k = selection(v, target).0 as int;
            assert forall|j: int| 0 <= j < k implies same_recommendation(chosen@[j], v.subrange(0, k)[j]) by {}
            Self::lemma_same_totals(chosen@, v.subrange(0, k));
        }
        let (impact, timeline) = Self::calculate_plan_impact(&chosen);
        let savings = Self::calculate_total_savings(&chosen);
        let phases = Self::create_implementation_phases(&chosen);
        Ok(ImprovementPlan {
            contract_address: contract.clone(),
            target_improvement: target,
            selected_recommendations: chosen,
            estimated_total_impact: impact,
            implementation_timeline: timeline,
            estimated_cost_savings: savings,
            implementation_phases: phases,
        })
    }

    /// Lists of recommendations with the same contents have the same totals.
    proof fn lemma_same_totals(a: Seq<OptimizationRecommendation>, b: Seq<OptimizationRecommendation>)
        requires
            a.len() == b.len(),
            forall|j: int| 0 <= j < a.len() ==> same_recommendation(a[j], b[j]),
        ensures
            forall|k: nat| #[trigger] impact_total(a, k) == impact_total(b, k),
            forall|k: nat| #[trigger] savings_total(a, k) == savings_total(b, k),
        decreases a.len(),
    {
        if a.len() > 0 {
            Self::lemma_same_totals(a.drop_last(), b.drop_last());
            assert(same_recommendation(a.last(), b.last()));
            assert forall|k: nat| #[trigger] impact_total(a, k) == impact_total(b, k) by {
                assert(impact_total(a.drop_last(), k) == impact_total(b.drop_last(), k));
            }
            assert forall|k: nat| #[trigger] savings_total(a, k) == savings_total(b, k) by {
                assert(savings_total(a.drop_last(), k) == savings_total(b.drop_last(), k));
            }
        }
    }

    /// The cost structure of a sample (see `cost_structure_of`).
    pub fn analyze_current_costs(metrics: &PerformanceMetrics) -> (r: CurrentCostStructure)
        requires
            costs_in_range(*metrics),
        ensures
            cost_structure_of(r, *metrics),
    {
        let gas = metrics.gas_used / 10000;
        let storage = (metrics.storage_reads + metrics.storage_writes) as u64 * 5;
        let compute = metrics.execution_time / 100;
        let network = metrics.network_latency as u64 * 2;
        let ghost parts = cost_parts(*metrics);
        assert(parts[0] == gas && parts[1] == storage && parts[2] == compute && parts[3] == network);
        let total = gas + storage + compute + network;
        let divisor = if total > 1 { total } else { 1 };
        let mut breakdown: Vec<CostComponent> = Vec::new();
        breakdown.push(
            CostComponent {
                component_name: text_bytes("Gas"),
                cost: gas,
                percentage_of_total: ((gas * 100) / divisor) as u32,
            },
        );
        breakdown.push(
            CostComponent {
                component_name: text_bytes("Storage"),
                cost: storage,
                percentage_of_total: ((storage * 100) / divisor) as u32,
            },
        );
        breakdown.push(
            CostComponent {
                component_name: text_bytes("Compute"),
                cost: compute,
                percentage_of_total: ((compute * 100) / divisor) as u32,
            },
        );
        breakdown.push(
            CostComponent {
                component_name: text_bytes("Network"),
                cost: network,
                percentage_of_total: ((network * 100) / divisor) as u32,
            },
        );
        let r = CurrentCostStructure { total_daily_cost: total, cost_breakdown: breakdown };
        assert forall|i: int| 0 <= i < 4 implies {
            &&& (#[trigger] r.cost_breakdown@[i]).component_name@ == seq![
                "Gas".spec_bytes(),
                "Storage".spec_bytes(),
                "Compute".spec_bytes(),
                "Network".spec_bytes(),
            ][i]
            &&& r.cost_breakdown@[i].cost == parts[i]
            &&& r.cost_breakdown@[i].percentage_of_total == ((parts[i] * 100 / (if cost_total(*metrics) > 1 {
                cost_total(*metrics)
            } else {
                1
            })) as u64) as u32
        } by {}
        r
    }

    /// The order in which to work on cost optimizations.
    pub fn prioritize_cost_optimizations(opportunities: &Vec<OptimizationOpportunity>) -> (r: Vec<Vec<u8>>)
        ensures
            texts(r@) == seq![
                "Gas optimization".spec_bytes(),
                "Storage efficiency".spec_bytes(),
                "Algorithm optimization".spec_bytes(),
            ],
    {
        text_list3("Gas optimization", "Storage efficiency", "Algorithm optimization")
    }

    /// Cost optimizations found for a sample; none are known to the platform.
    fn identify_cost_opportunities(metrics: &PerformanceMetrics) -> (r: Vec<OptimizationOpportunity>)
        ensures
            r@.len() == 0,
    {
        Vec::new()
    }

    /// The costs of `contract` from its latest sample and how to lower them:
    /// its cost structure, no known opportunities, a potential saving of 1000
    /// a day, the fixed return estimate and the order of work;
    /// `MetricsNotFound` without a recent sample.
    pub fn analyze_cost_optimization(st: &DiagnosticsStorage, contract: &String, now: u64) -> (r: Result<
        CostOptimizationAnalysis,
        DiagnosticsError,
    >)
        requires
            st.wf(),
            latest_search_in_range(st.metrics@, contract@, now),
            latest_sample(st.metrics@, contract@, now) matches Some(m) ==> costs_in_range(m),
        ensures
            latest_sample(st.metrics@, contract@, now) is None <==> r == Err::<
                CostOptimizationAnalysis,
                DiagnosticsError,
            >(DiagnosticsError::MetricsNotFound),
            latest_sample(st.metrics@, contract@, now) is Some ==> r is Ok,
            r matches Ok(a) ==> {
                let m = latest_sample(st.metrics@, contract@, now)->0;
                &&& a.contract_address == *contract
                &&& cost_structure_of(
                    CurrentCostStructure {
                        total_daily_cost: a.current_daily_cost,
                        cost_breakdown: a.current_cost_breakdown,
                    },
                    m,
                )
                &&& a.optimization_opportunities@.len() == 0
                &&& a.potential_daily_savings == 1000
                &&& a.roi_analysis == (ROIAnalysis {
                    implementation_cost: 5000,
                    monthly_savings: 1000,
                    payback_period_months: 5,
                    annual_roi_percentage: 240,
                })
                &&& texts(a.implementation_priority@) == seq![
                    "Gas optimization".spec_bytes(),
                    "Storage efficiency".spec_bytes(),
                    "Algorithm optimization".spec_bytes(),
                ]
            },
    {
        let m = match st.get_latest_performance_metrics(contract, now) {
            Some(m) => m,
            None => {
                return Err(DiagnosticsError::MetricsNotFound);
            },
        };
        let costs = Self::analyze_current_costs(&m);
        let opportunities = Self::identify_cost_opportunities(&m);
        let priorities = Self::prioritize_cost_optimizations(&opportunities);
        Ok(CostOptimizationAnalysis {
            contract_address: contract.clone(),
            current_daily_cost: costs.total_daily_cost,
            current_cost_breakdown: costs.cost_breakdown,
            optimization_opportunities: opportunities,
            potential_daily_savings: 1000,
            roi_analysis: Self::calculate_roi_analysis(),
            implementation_priority: priorities,
        })
    }
}

} // verus!
