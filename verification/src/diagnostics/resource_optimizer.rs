//! Resource optimization: recommendations from a resource-utilization
//! analysis, savings estimates, and the integer summaries of samples that the
//! analysis uses. Estimates the platform computes in floating point (gas
//! savings as a share of the cost per operation, storage savings as 30 percent
//! of it) are supplied by the caller.
use vstd::prelude::*;
use vstd::string::StringSliceAdditionalSpecFns;
use crate::text::{copy_texts, texts, text_bytes, text_list2, text_list3};
use crate::diagnostics::ids::{recommendation_id, recommendation_id_spec, resource_id, resource_id_spec};
use crate::diagnostics::anomaly_detector::{AnomalyDetector, hourly_samples};
use crate::diagnostics::errors::DiagnosticsError;
use crate::diagnostics::performance_monitor::{SampleField, sum_by};
use crate::diagnostics::storage::DiagnosticsStorage;
use crate::diagnostics::types::{
    BusinessImpact, Complexity, CostTrend, ImpactEstimate, UtilizationTrend, ImplementationEffort, OptimizationCategory,
    OptimizationRecommendation, OptimizationType, PerformanceMetrics, Priority, ResourceMetrics,
    RiskLevel, SavingsEstimate, risk_rank,
};

verus! {

/// Resource utilization optimization and cost analysis.
pub struct ResourceOptimizer;

/// Usage figures of every resource of a contract.
#[derive(Clone, Debug)]
pub struct ResourceUtilization {
    pub analysis_id: [u8; 32],
    pub resource_id: [u8; 32],
    pub contract_address: String,
    pub analysis_period: u64,
    pub timestamp: u64,
    pub cpu_utilization: ResourceMetrics,
    pub memory_utilization: ResourceMetrics,
    pub storage_utilization: ResourceMetrics,
    pub network_utilization: ResourceMetrics,
    pub cost_analysis: CostAnalysis,
    pub optimization_opportunities: Vec<OptimizationOpportunity>,
    pub overall_efficiency_score: u64,
    pub gas_utilization: ResourceMetrics,
    pub optimization_priority: Priority,
}

/// Costs of a contract's operations.
#[derive(Clone, Debug)]
pub struct CostAnalysis {
    pub total_cost: u64,
    pub cost_per_transaction: u64,
    pub cost_breakdown: Vec<CostComponent>,
    pub cost_efficiency: u32,
    pub cost_trend: CostTrend,
    pub total_cost_per_transaction: u64,
    pub gas_cost_percentage: u64,
    pub storage_cost_percentage: u64,
    pub optimization_potential_savings: u64,
    pub cost_efficiency_score: u64,
}

/// One part of the costs.
#[derive(Clone, Debug)]
pub struct CostComponent {
    pub component_name: Vec<u8>,
    pub cost: u64,
    pub percentage_of_total: u32,
}

/// A way to save costs.
#[derive(Clone, Debug)]
pub struct OptimizationOpportunity {
    pub opportunity_type: OptimizationCategory,
    pub potential_savings: u64,
    pub implementation_effort: Complexity,
    pub description: Vec<u8>,
}

/// Figures the platform computes in floating point over the samples of an
/// analysis, each truncated to an integer as the analysis stores it.
#[derive(Clone, Debug)]
pub struct UtilizationEstimates {
    pub gas_efficiency: u32,
    pub gas_optimization_potential: u64,
    pub memory_efficiency: u32,
    pub storage_efficiency: u32,
    pub storage_optimizations: Vec<Vec<u8>>,
    pub cpu_efficiency: u32,
    pub overall_efficiency: u64,
    pub cost_efficiency: u32,
    pub cost_efficiency_score: u64,
    pub cost_trend: CostTrend,
}

/// `r` has the given fields (all but its identifier).
pub open spec fn recommendation_fields(
    r: OptimizationRecommendation,
    contract: Seq<char>,
    category: OptimizationCategory,
    optimization_type: OptimizationType,
    priority: Priority,
    title: Seq<u8>,
    description: Seq<u8>,
    steps: Seq<Seq<u8>>,
    expected_improvement: u64,
    impact: ImpactEstimate,
    effort: ImplementationEffort,
    savings: SavingsEstimate,
    cost_savings: u64,
    complexity: Complexity,
    automated: bool,
    monitoring: Seq<Seq<u8>>,
) -> bool {
    &&& r.contract_address@ == contract
    &&& r.category == category
    &&& r.optimization_type == optimization_type
    &&& r.priority == priority
    &&& r.title@ == title
    &&& r.description@ == description
    &&& texts(r.implementation_steps@) == steps
    &&& r.expected_improvement == expected_improvement
    &&& r.expected_impact == impact
    &&& r.estimated_effort == effort
    &&& r.estimated_savings == savings
    &&& r.cost_savings == cost_savings
    &&& r.implementation_complexity == complexity
    &&& r.automated_fix_available == automated
    &&& texts(r.monitoring_metrics@) == monitoring
}

/// `r` is a recommendation made at `now` with the given fields.
pub open spec fn recommendation_is(
    r: OptimizationRecommendation,
    now: u64,
    contract: Seq<char>,
    category: OptimizationCategory,
    optimization_type: OptimizationType,
    priority: Priority,
    title: Seq<u8>,
    description: Seq<u8>,
    steps: Seq<Seq<u8>>,
    expected_improvement: u64,
    impact: ImpactEstimate,
    effort: ImplementationEffort,
    savings: SavingsEstimate,
    cost_savings: u64,
    complexity: Complexity,
    automated: bool,
    monitoring: Seq<Seq<u8>>,
) -> bool {
    &&& forall|j: int| 0 <= j < 32 ==> #[trigger] r.recommendation_id@[j] == recommendation_id_spec(now, j)
    &&& recommendation_fields(
        r,
        contract,
        category,
        optimization_type,
        priority,
        title,
        description,
        steps,
        expected_improvement,
        impact,
        effort,
        savings,
        cost_savings,
        complexity,
        automated,
        monitoring,
    )
}

/// Steps of a gas optimization.
pub open spec fn gas_steps_spec(potential: u64) -> Seq<Seq<u8>> {
    let audit: Seq<Seq<u8>> = if potential > 30 {
        seq![
            "Conduct comprehensive gas usage audit".spec_bytes(),
            "Optimize storage operations and data structures".spec_bytes(),
            "Review and optimize contract logic".spec_bytes(),
        ]
    } else {
        seq![]
    };
    audit + seq!["Implement gas usage monitoring".spec_bytes(), "Set gas usage budgets and alerts".spec_bytes()]
}

/// Effort of a gas optimization.
pub open spec fn gas_effort_spec(potential: u64) -> ImplementationEffort {
    if potential > 50 {
        ImplementationEffort::High
    } else if potential > 25 {
        ImplementationEffort::Medium
    } else {
        ImplementationEffort::Low
    }
}

/// Daily savings of closing a resource's efficiency gap: average usage times
/// the gap to 100, per thousand.
pub open spec fn gap_savings_spec(m: ResourceMetrics) -> nat {
    (m.average_usage * (100 - m.efficiency_score) / 1000) as nat
}

/// Daily, monthly (30 days) and yearly (365 days) savings from daily ones.
pub open spec fn savings_from_daily(daily: u64, gains: u32) -> SavingsEstimate {
    SavingsEstimate {
        daily_cost_savings: daily,
        monthly_cost_savings: (daily * 30) as u64,
        annual_cost_savings: (daily * 365) as u64,
        performance_gains: gains,
    }
}

/// Whether the gas section applies.
pub open spec fn gas_section(u: ResourceUtilization) -> bool {
    u.gas_utilization.gas_optimization_potential > 20
}

/// Whether the memory section applies: a leak risk above medium.
pub open spec fn memory_section(u: ResourceUtilization) -> bool {
    risk_rank(u.memory_utilization.memory_leak_risk) > risk_rank(RiskLevel::Medium)
}

/// Whether the storage section applies.
pub open spec fn storage_section(u: ResourceUtilization) -> bool {
    u.storage_utilization.storage_efficiency_score < 70
}

/// Whether the CPU section applies.
pub open spec fn cpu_section(u: ResourceUtilization) -> bool {
    u.cpu_utilization.cpu_efficiency_score < 80
}

/// One when `b` holds, else zero.
pub open spec fn one_if(b: bool) -> int {
    if b {
        1
    } else {
        0
    }
}

/// The figures the recommendations are computed from stay within 64 bits.
pub open spec fn recommendations_in_range(u: ResourceUtilization, gas_savings: u64) -> bool {
    &&& gas_section(u) ==> gas_savings * 365 <= u64::MAX
    &&& memory_section(u) ==> u.memory_utilization.efficiency_score <= 100 && gap_savings_spec(u.memory_utilization) * 365
        <= u64::MAX
    &&& cpu_section(u) ==> u.cpu_utilization.efficiency_score <= 100 && gap_savings_spec(u.cpu_utilization) * 365 <= u64::MAX
}

/// The network recommendation every analysis ends with.
pub open spec fn network_recommendation(r: OptimizationRecommendation, now: u64, contract: Seq<char>) -> bool {
    recommendation_is(
        r,
        now,
        contract,
        OptimizationCategory::Network,
        OptimizationType::Network,
        Priority::Medium,
        "Network Communication Optimization".spec_bytes(),
        "Optimize network requests and response handling".spec_bytes(),
        seq![
            "Implement request batching".spec_bytes(),
            "Add connection pooling".spec_bytes(),
            "Optimize serialization/deserialization".spec_bytes(),
        ],
        15,
        ImpactEstimate {
            performance_improvement: 15,
            cost_reduction: 20,
            user_experience_improvement: 15,
            reliability_improvement: 10,
        },
        ImplementationEffort::Medium,
        SavingsEstimate {
            daily_cost_savings: 10,
            monthly_cost_savings: 300,
            annual_cost_savings: 3650,
            performance_gains: 15,
        },
        500,
        Complexity::Medium,
        false,
        seq!["network_latency".spec_bytes(), "request_throughput".spec_bytes()],
    )
}

/// The recommendations for analysis `u` of `contract` at `now`, with the gas
/// savings and the storage savings per day, month and year supplied.
pub open spec fn recommendations_spec(
    u: ResourceUtilization,
    contract: Seq<char>,
    now: u64,
    gas_savings: u64,
    storage_daily: u64,
    storage_monthly: u64,
    storage_annual: u64,
    v: Seq<OptimizationRecommendation>,
) -> bool {
    let storage_savings = SavingsEstimate {
        daily_cost_savings: storage_daily,
        monthly_cost_savings: storage_monthly,
        annual_cost_savings: storage_annual,
        performance_gains: 20,
    };
    let g = one_if(gas_section(u));
    let m = one_if(memory_section(u));
    let s = one_if(storage_section(u));
    let c = one_if(cpu_section(u));
    let gas = u.gas_utilization;
    let mem = u.memory_utilization;
    let sto = u.storage_utilization;
    let cpu = u.cpu_utilization;
    &&& v.len() == g + m + s + c + 1
    &&& gas_section(u) ==> recommendation_is(
        v[0],
        now,
        contract,
        OptimizationCategory::Gas,
        OptimizationType::Gas,
        if gas.gas_optimization_potential > 50 { Priority::High } else { Priority::Medium },
        "Gas Usage Optimization".spec_bytes(),
        "Gas usage can be optimized significantly".spec_bytes(),
        gas_steps_spec(gas.gas_optimization_potential),
        gas.gas_optimization_potential,
        ImpactEstimate {
            performance_improvement: 20,
            cost_reduction: 30,
            user_experience_improvement: 15,
            reliability_improvement: 10,
        },
        gas_effort_spec(gas.gas_optimization_potential),
        savings_from_daily(gas_savings, 20),
        gas_savings,
        if gas.gas_optimization_potential > 40 { Complexity::High } else { Complexity::Medium },
        false,
        seq![
            "gas_used_per_transaction".spec_bytes(),
            "gas_efficiency_score".spec_bytes(),
            "gas_cost_per_operation".spec_bytes(),
        ],
    )
    &&& memory_section(u) ==> recommendation_is(
        v[g],
        now,
        contract,
        OptimizationCategory::Memory,
        OptimizationType::Memory,
        if mem.memory_leak_risk == RiskLevel::Critical { Priority::Critical } else { Priority::High },
        "Memory Usage Optimization".spec_bytes(),
        "Memory usage patterns indicate potential for optimization".spec_bytes(),
        texts(mem.memory_opt_recommendations@),
        25,
        ImpactEstimate {
            performance_improvement: 25,
            cost_reduction: 15,
            user_experience_improvement: 20,
            reliability_improvement: 20,
        },
        ImplementationEffort::High,
        savings_from_daily(gap_savings_spec(mem) as u64, 25),
        gap_savings_spec(mem) as u64,
        Complexity::High,
        false,
        seq![
            "memory_usage_trend".spec_bytes(),
            "peak_memory_usage".spec_bytes(),
            "memory_efficiency_score".spec_bytes(),
        ],
    )
    &&& storage_section(u) ==> recommendation_is(
        v[g + m],
        now,
        contract,
        OptimizationCategory::Storage,
        OptimizationType::Storage,
        Priority::Medium,
        "Storage Access Optimization".spec_bytes(),
        "Storage efficiency can be improved".spec_bytes(),
        texts(sto.storage_opt_suggestions@),
        (100 - sto.storage_efficiency_score) as u64,
        ImpactEstimate {
            performance_improvement: 20,
            cost_reduction: 25,
            user_experience_improvement: 15,
            reliability_improvement: 10,
        },
        ImplementationEffort::Medium,
        storage_savings,
        storage_savings.daily_cost_savings,
        Complexity::Medium,
        true,
        seq![
            "storage_operations_per_transaction".spec_bytes(),
            "storage_efficiency_score".spec_bytes(),
            "storage_cost_per_operation".spec_bytes(),
        ],
    )
    &&& cpu_section(u) ==> recommendation_is(
        v[g + m + s],
        now,
        contract,
        OptimizationCategory::Algorithm,
        OptimizationType::Compute,
        Priority::Medium,
        "Computational Efficiency Optimization".spec_bytes(),
        "CPU utilization patterns show optimization opportunities".spec_bytes(),
        texts(cpu.optimization_opportunities@),
        (100 - cpu.cpu_efficiency_score) as u64,
        ImpactEstimate {
            performance_improvement: 30,
            cost_reduction: 20,
            user_experience_improvement: 25,
            reliability_improvement: 15,
        },
        ImplementationEffort::Medium,
        savings_from_daily(gap_savings_spec(cpu) as u64, 30),
        gap_savings_spec(cpu) as u64,
        Complexity::Medium,
        false,
        seq![
            "cpu_instructions_per_transaction".spec_bytes(),
            "cpu_efficiency_score".spec_bytes(),
            "computational_complexity".spec_bytes(),
        ],
    )
    &&& network_recommendation(v[g + m + s + c], now, contract)
}


/// Largest gas use among the samples (0 for none).
pub open spec fn peak_gas(s: Seq<PerformanceMetrics>) -> u64
    decreases s.len(),
{
    if s.len() == 0 {
        0
    } else if s.last().gas_used > peak_gas(s.drop_last()) {
        s.last().gas_used
    } else {
        peak_gas(s.drop_last())
    }
}

/// Largest memory use among the samples (0 for none).
pub open spec fn peak_memory(s: Seq<PerformanceMetrics>) -> u32
    decreases s.len(),
{
    if s.len() == 0 {
        0
    } else if s.last().memory_usage > peak_memory(s.drop_last()) {
        s.last().memory_usage
    } else {
        peak_memory(s.drop_last())
    }
}

/// Total memory use of the samples.
pub open spec fn memory_total(s: Seq<PerformanceMetrics>) -> nat
    decreases s.len(),
{
    if s.len() == 0 {
        0
    } else {
        memory_total(s.drop_last()) + s.last().memory_usage as nat
    }
}

/// Gas cost units of the samples: gas divided by 10 000, summed.
pub open spec fn gas_cost_units(s: Seq<PerformanceMetrics>) -> nat
    decreases s.len(),
{
    if s.len() == 0 {
        0
    } else {
        gas_cost_units(s.drop_last()) + (s.last().gas_used / 10000) as nat
    }
}

/// Storage cost units of the samples: reads plus ten per write, summed.
pub open spec fn storage_cost_units(s: Seq<PerformanceMetrics>) -> nat
    decreases s.len(),
{
    if s.len() == 0 {
        0
    } else {
        storage_cost_units(s.drop_last()) + s.last().storage_reads as nat + 10 * s.last().storage_writes as nat
    }
}

/// Number of consecutive memory increases at the end of the samples.
pub open spec fn trailing_increases(s: Seq<PerformanceMetrics>) -> nat
    decreases s.len(),
{
    if s.len() < 2 {
        0
    } else if s.last().memory_usage > s[s.len() - 2].memory_usage {
        trailing_increases(s.drop_last()) + 1
    } else {
        0
    }
}

/// Memory-leak risk from the run of increases at the end: critical from 5,
/// high from 3, medium from 2; low with fewer than 3 samples.
pub open spec fn leak_risk_spec(s: Seq<PerformanceMetrics>) -> RiskLevel {
    let n = trailing_increases(s);
    if s.len() < 3 {
        RiskLevel::Low
    } else if n >= 5 {
        RiskLevel::Critical
    } else if n >= 3 {
        RiskLevel::High
    } else if n >= 2 {
        RiskLevel::Medium
    } else {
        RiskLevel::Low
    }
}

/// CPU findings of one sample.
pub open spec fn cpu_findings(m: PerformanceMetrics) -> Seq<Seq<u8>> {
    let a: Seq<Seq<u8>> = if m.cpu_instructions > 20_000_000 {
        seq!["High computational complexity detected".spec_bytes()]
    } else {
        seq![]
    };
    let b: Seq<Seq<u8>> = if m.execution_time > 1000 && m.cpu_instructions > 10_000_000 {
        seq!["CPU-bound operations causing delays".spec_bytes()]
    } else {
        seq![]
    };
    a + b
}

/// CPU findings of all samples, in order.
pub open spec fn all_cpu_findings(s: Seq<PerformanceMetrics>) -> Seq<Seq<u8>>
    decreases s.len(),
{
    if s.len() == 0 {
        Seq::empty()
    } else {
        all_cpu_findings(s.drop_last()) + cpu_findings(s.last())
    }
}

/// Memory advice from the samples.
pub open spec fn memory_advice(s: Seq<PerformanceMetrics>) -> Seq<Seq<u8>> {
    let peak = peak_memory(s);
    let avg: nat = if s.len() == 0 { 0 } else { memory_total(s) / s.len() };
    let a: Seq<Seq<u8>> = if peak > avg * 2 {
        seq!["Implement memory pooling to reduce peak usage".spec_bytes()]
    } else {
        seq![]
    };
    let b: Seq<Seq<u8>> = if peak > 100_000_000 {
        seq!["Review data structures for memory efficiency".spec_bytes()]
    } else {
        seq![]
    };
    let c: Seq<Seq<u8>> = if risk_rank(leak_risk_spec(s)) > risk_rank(RiskLevel::Medium) {
        seq!["Implement proper memory cleanup and lifecycle management".spec_bytes()]
    } else {
        seq![]
    };
    a + b + c + seq!["Consider lazy loading for large data structures".spec_bytes()]
}

/// Next steps after an optimization, from the current analysis.
pub open spec fn next_steps_spec(u: ResourceUtilization) -> Seq<Seq<u8>> {
    let a: Seq<Seq<u8>> = if u.overall_efficiency_score < 90 {
        seq![
            "Continue monitoring resource utilization patterns".spec_bytes(),
            "Identify additional optimization opportunities".spec_bytes(),
        ]
    } else {
        seq![]
    };
    let b: Seq<Seq<u8>> = if u.gas_utilization.gas_optimization_potential > 10 {
        seq!["Focus on remaining gas optimization opportunities".spec_bytes()]
    } else {
        seq![]
    };
    a + b + seq!["Implement continuous performance monitoring".spec_bytes()]
}


/// `m` holds the given figures, with no minimum, a stable trend, a low leak
/// risk, no memory or storage advice and a storage efficiency score of 80.
pub open spec fn resource_metrics_is(
    m: ResourceMetrics,
    average: u32,
    peak: u32,
    efficiency: u32,
    storage_cost: u64,
    cpu_score: u64,
    opportunities: Seq<Seq<u8>>,
    potential: u64,
) -> bool {
    &&& m.average_usage == average
    &&& m.peak_usage == peak
    &&& m.minimum_usage == 0
    &&& m.utilization_trend == UtilizationTrend::Stable
    &&& m.efficiency_score == efficiency
    &&& m.storage_cost_per_operation == storage_cost
    &&& m.cpu_efficiency_score == cpu_score
    &&& texts(m.optimization_opportunities@) == opportunities
    &&& m.gas_optimization_potential == potential
    &&& m.memory_leak_risk == RiskLevel::Low
    &&& m.memory_opt_recommendations@.len() == 0
    &&& m.storage_efficiency_score == 80
    &&& m.storage_opt_suggestions@.len() == 0
}

/// The CPU optimizations every analysis lists.
pub open spec fn cpu_optimizations_spec() -> Seq<Seq<u8>> {
    seq![
        "Review algorithm complexity and optimization opportunities".spec_bytes(),
        "Consider computational result caching".spec_bytes(),
        "Implement lazy evaluation where appropriate".spec_bytes(),
        "Profile critical code paths for optimization".spec_bytes(),
    ]
}

/// `c` is the cost analysis of samples `s`: mean gas and storage cost units
/// per sample, their shares, the cost per transaction and a quarter of the
/// total as potential savings, with the floating-point figures `est`.
pub open spec fn cost_analysis_is(c: CostAnalysis, s: Seq<PerformanceMetrics>, est: UtilizationEstimates) -> bool {
    let n = s.len();
    let g = gas_cost_units(s) / n;
    let st = storage_cost_units(s) / n;
    &&& c.total_cost == g + st
    &&& c.cost_per_transaction == (g + st) / sum_by(s, SampleField::Transactions)
    &&& c.cost_breakdown@.len() == 0
    &&& c.cost_efficiency == est.cost_efficiency
    &&& c.cost_trend == est.cost_trend
    &&& c.total_cost_per_transaction == g + st
    &&& c.gas_cost_percentage == (if g + st > 0 { g * 100 / (g + st) } else { 0 })
    &&& c.storage_cost_percentage == (if g + st > 0 { st * 100 / (g + st) } else { 0 })
    &&& c.optimization_potential_savings == (g + st) / 4
    &&& c.cost_efficiency_score == est.cost_efficiency_score
}

/// `u` is the resource analysis of `contract` at `now` over samples `s`, with
/// the floating-point figures `est`.
pub open spec fn utilization_is(
    u: ResourceUtilization,
    contract: Seq<char>,
    now: u64,
    s: Seq<PerformanceMetrics>,
    est: UtilizationEstimates,
) -> bool {
    let n = s.len();
    let g = gas_cost_units(s) / n;
    let st = storage_cost_units(s) / n;
    let c = u.cost_analysis;
    &&& forall|j: int| 0 <= j < 32 ==> #[trigger] u.analysis_id@[j] == resource_id_spec(now, j)
    &&& u.resource_id == u.analysis_id
    &&& u.contract_address@ == contract
    &&& u.analysis_period == 3600
    &&& u.timestamp == now
    &&& resource_metrics_is(
        u.gas_utilization,
        (sum_by(s, SampleField::Gas) / n) as u32,
        peak_gas(s) as u32,
        est.gas_efficiency,
        0,
        0,
        seq![],
        est.gas_optimization_potential,
    )
    &&& resource_metrics_is(
        u.memory_utilization,
        (memory_total(s) / n) as u32,
        peak_memory(s),
        est.memory_efficiency,
        0,
        0,
        memory_advice(s),
        0,
    )
    &&& resource_metrics_is(u.storage_utilization, 0, 0, est.storage_efficiency, st as u64, 0, texts(est.storage_optimizations@), 0)
    &&& resource_metrics_is(u.cpu_utilization, 0, 0, est.cpu_efficiency, 0, est.cpu_efficiency as u64, cpu_optimizations_spec(), 0)
    &&& resource_metrics_is(u.network_utilization, 0, 0, 0, 0, 0, seq![], 0)
    &&& cost_analysis_is(c, s, est)
    &&& u.optimization_opportunities@.len() == 0
    &&& u.overall_efficiency_score == est.overall_efficiency
    &&& u.optimization_priority == Priority::Medium
}

/// The sums an analysis computes over samples `s` stay within their widths,
/// and the samples record some transactions.
pub open spec fn utilization_in_range(s: Seq<PerformanceMetrics>) -> bool {
    &&& s.len() <= u32::MAX
    &&& sum_by(s, SampleField::Gas) <= u64::MAX
    &&& memory_total(s) <= u64::MAX
    &&& (if s.len() == 0 { 0 } else { memory_total(s) / s.len() }) * 2 <= u32::MAX
    &&& gas_cost_units(s) <= u64::MAX
    &&& storage_cost_units(s) <= u64::MAX
    &&& s.len() > 0 ==> (gas_cost_units(s) / s.len() + storage_cost_units(s) / s.len()) * 100 <= u64::MAX
    &&& sum_by(s, SampleField::Transactions) <= u32::MAX
    &&& sum_by(s, SampleField::Transactions) > 0
}

/// Builds a recommendation made at `now`.
fn make_recommendation(
    now: u64,
    contract: String,
    category: OptimizationCategory,
    optimization_type: OptimizationType,
    priority: Priority,
    title: Vec<u8>,
    description: Vec<u8>,
    steps: Vec<Vec<u8>>,
    expected_improvement: u64,
    impact: ImpactEstimate,
    effort: ImplementationEffort,
    savings: SavingsEstimate,
    cost_savings: u64,
    complexity: Complexity,
    automated: bool,
    monitoring: Vec<Vec<u8>>,
) -> (r: OptimizationRecommendation)
    ensures
        recommendation_is(
            r,
            now,
            contract@,
            category,
            optimization_type,
            priority,
            title@,
            description@,
            texts(steps@),
            expected_improvement,
            impact,
            effort,
            savings,
            cost_savings,
            complexity,
            automated,
            texts(monitoring@),
        ),
{
    OptimizationRecommendation {
        recommendation_id: recommendation_id(now),
        category,
        priority,
        description,
        expected_impact: impact,
        implementation_complexity: complexity,
        estimated_savings: savings,
        implementation_steps: steps,
        contract_address: contract,
        optimization_type,
        title,
        expected_improvement,
        estimated_effort: effort,
        cost_savings,
        automated_fix_available: automated,
        monitoring_metrics: monitoring,
    }
}

impl ResourceOptimizer {
    /// Recommendations from a resource analysis of `contract`, made at `now`:
    /// gas, memory, storage and CPU sections where their thresholds are
    /// crossed, then the network recommendation. `gas_cost_savings` and the
    /// storage savings per day, month and year are the caller's estimates.
    pub fn generate_optimization_recommendations(
        contract: &String,
        resource_data: &ResourceUtilization,
        now: u64,
        gas_cost_savings: u64,
        storage_daily: u64,
        storage_monthly: u64,
        storage_annual: u64,
    ) -> (r: Result<Vec<OptimizationRecommendation>, crate::diagnostics::errors::DiagnosticsError>)
        requires
            recommendations_in_range(*resource_data, gas_cost_savings),
        ensures
            r matches Ok(v) && recommendations_spec(
                *resource_data,
                contract@,
                now,
                gas_cost_savings,
                storage_daily,
                storage_monthly,
                storage_annual,
                v@,
            ),
    {
        let ghost u = *resource_data;
        let mut v: Vec<OptimizationRecommendation> = Vec::new();
        let gas = &resource_data.gas_utilization;
        if gas.gas_optimization_potential > 20 {
            let savings = SavingsEstimate {
                daily_cost_savings: gas_cost_savings,
                monthly_cost_savings: gas_cost_savings * 30,
                annual_cost_savings: gas_cost_savings * 365,
                performance_gains: 20,
            };
            v.push(
                make_recommendation(
                    now,
                    contract.clone(),
                    OptimizationCategory::Gas,
                    OptimizationType::Gas,
                    if gas.gas_optimization_potential > 50 {
                        Priority::High
                    } else {
                        Priority::Medium
                    },
                    text_bytes("Gas Usage Optimization"),
                    text_bytes("Gas usage can be optimized significantly"),
                    Self::generate_gas_optimization_steps(gas),
                    gas.gas_optimization_potential,
                    ImpactEstimate {
                        performance_improvement: 20,
                        cost_reduction: 30,
                        user_experience_improvement: 15,
                        reliability_improvement: 10,
                    },
                    Self::estimate_gas_optimization_effort(gas),
                    savings,
                    gas_cost_savings,
                    if gas.gas_optimization_potential > 40 {
                        Complexity::High
                    } else {
                        Complexity::Medium
                    },
                    false,
                    Self::generate_gas_monitoring_metrics(),
                ),
            );
        }
        let ghost after_gas = v@;
        let mem = &resource_data.memory_utilization;
        if mem.memory_leak_risk.rank() > RiskLevel::Medium.rank() {
            let daily = Self::calculate_memory_cost_savings(mem);
            let savings = SavingsEstimate {
                daily_cost_savings: daily,
                monthly_cost_savings: daily * 30,
                annual_cost_savings: daily * 365,
                performance_gains: 25,
            };
            v.push(
                make_recommendation(
                    now,
                    contract.clone(),
                    OptimizationCategory::Memory,
                    OptimizationType::Memory,
                    match mem.memory_leak_risk {
                        RiskLevel::Critical => Priority::Critical,
                        RiskLevel::High => Priority::High,
                        _ => Priority::Medium,
                    },
                    text_bytes("Memory Usage Optimization"),
                    text_bytes("Memory usage patterns indicate potential for optimization"),
                    copy_texts(&mem.memory_opt_recommendations),
                    25,
                    ImpactEstimate {
                        performance_improvement: 25,
                        cost_reduction: 15,
                        user_experience_improvement: 20,
                        reliability_improvement: 20,
                    },
                    ImplementationEffort::High,
                    savings,
                    daily,
                    Complexity::High,
                    false,
                    Self::generate_memory_monitoring_metrics(),
                ),
            );
        }
        let ghost after_mem = v@;
        let sto = &resource_data.storage_utilization;
        if sto.storage_efficiency_score < 70 {
            v.push(
                make_recommendation(
                    now,
                    contract.clone(),
                    OptimizationCategory::Storage,
                    OptimizationType::Storage,
                    Priority::Medium,
                    text_bytes("Storage Access Optimization"),
                    text_bytes("Storage efficiency can be improved"),
                    copy_texts(&sto.storage_opt_suggestions),
                    (100 - sto.storage_efficiency_score) as u64,
                    ImpactEstimate {
                        performance_improvement: 20,
                        cost_reduction: 25,
                        user_experience_improvement: 15,
                        reliability_improvement: 10,
                    },
                    ImplementationEffort::Medium,
                    SavingsEstimate {
                        daily_cost_savings: storage_daily,
                        monthly_cost_savings: storage_monthly,
                        annual_cost_savings: storage_annual,
                        performance_gains: 20,
                    },
                    storage_daily,
                    Complexity::Medium,
                    true,
                    Self::generate_storage_monitoring_metrics(),
                ),
            );
        }
        let ghost after_sto = v@;
        let cpu = &resource_data.cpu_utilization;
        if cpu.cpu_efficiency_score < 80 {
            let daily = Self::calculate_cpu_cost_savings(cpu);
            let savings = SavingsEstimate {
                daily_cost_savings: daily,
                monthly_cost_savings: daily * 30,
                annual_cost_savings: daily * 365,
                performance_gains: 30,
            };
            v.push(
                make_recommendation(
                    now,
                    contract.clone(),
                    OptimizationCategory::Algorithm,
                    OptimizationType::Compute,
                    Priority::Medium,
                    text_bytes("Computational Efficiency Optimization"),
                    text_bytes("CPU utilization patterns show optimization opportunities"),
                    copy_texts(&cpu.optimization_opportunities),
                    100 - cpu.cpu_efficiency_score,
                    ImpactEstimate {
                        performance_improvement: 30,
                        cost_reduction: 20,
                        user_experience_improvement: 25,
                        reliability_improvement: 15,
                    },
                    ImplementationEffort::Medium,
                    savings,
                    daily,
                    Complexity::Medium,
                    false,
                    Self::generate_cpu_monitoring_metrics(),
                ),
            );
        }
        let ghost after_cpu = v@;
        let net = Self::generate_network_optimizations(contract, now);
        v.push(net);
        proof {
            let g = one_if(gas_section(u));
            let m = one_if(memory_section(u));
            let s = one_if(storage_section(u));
            let c = one_if(cpu_section(u));
            assert(after_gas.len() == g);
            assert(after_mem.len() == g + m);
            assert(after_sto.len() == g + m + s);
            assert(after_cpu.len() == g + m + s + c);
            assert(v@[g + m + s + c] == net);
            if gas_section(u) {
                assert(v@[0] == after_gas[0]);
            }
            if memory_section(u) {
                assert(v@[g] == after_mem[g]);
            }
            if storage_section(u) {
                assert(v@[g + m] == after_sto[g + m]);
            }
            if cpu_section(u) {
                assert(v@[g + m + s] == after_cpu[g + m + s]);
            }
        }
        Ok(v)
    }

    /// Steps of a gas optimization: an audit above 30 percent potential, then
    /// monitoring and budgets.
    pub fn generate_gas_optimization_steps(gas: &ResourceMetrics) -> (r: Vec<Vec<u8>>)
        ensures
            texts(r@) == gas_steps_spec(gas.gas_optimization_potential),
    {
        let mut r: Vec<Vec<u8>> = Vec::new();
        if gas.gas_optimization_potential > 30 {
            r.push(text_bytes("Conduct comprehensive gas usage audit"));
            r.push(text_bytes("Optimize storage operations and data structures"));
            r.push(text_bytes("Review and optimize contract logic"));
        }
        r.push(text_bytes("Implement gas usage monitoring"));
        r.push(text_bytes("Set gas usage budgets and alerts"));
        assert(texts(r@) =~= gas_steps_spec(gas.gas_optimization_potential));
        r
    }

    /// Effort of a gas optimization: high above 50 percent potential, medium
    /// above 25, low otherwise.
    pub fn estimate_gas_optimization_effort(gas: &ResourceMetrics) -> (r: ImplementationEffort)
        ensures
            r == gas_effort_spec(gas.gas_optimization_potential),
    {
        if gas.gas_optimization_potential > 50 {
            ImplementationEffort::High
        } else if gas.gas_optimization_potential > 25 {
            ImplementationEffort::Medium
        } else {
            ImplementationEffort::Low
        }
    }

    /// Daily savings of closing the memory efficiency gap.
    pub fn calculate_memory_cost_savings(memory: &ResourceMetrics) -> (r: u64)
        requires
            memory.efficiency_score <= 100,
        ensures
            r == gap_savings_spec(*memory),
    {
        let gap = 100 - memory.efficiency_score;
        let usage = memory.average_usage as u64;
        assert(usage * (gap as u64) <= u64::MAX) by (nonlinear_arith)
            requires
                usage <= u32::MAX,
                gap <= 100,
        ;
        (usage * gap as u64) / 1000
    }

    /// Daily savings of closing the CPU efficiency gap.
    pub fn calculate_cpu_cost_savings(cpu: &ResourceMetrics) -> (r: u64)
        requires
            cpu.efficiency_score <= 100,
        ensures
            r == gap_savings_spec(*cpu),
    {
        let gap = 100 - cpu.efficiency_score;
        let usage = cpu.average_usage as u64;
        assert(usage * (gap as u64) <= u64::MAX) by (nonlinear_arith)
            requires
                usage <= u32::MAX,
                gap <= 100,
        ;
        (usage * gap as u64) / 1000
    }

    /// The network recommendation for `contract`, made at `now`.
    pub fn generate_network_optimizations(contract: &String, now: u64) -> (r: OptimizationRecommendation)
        ensures
            network_recommendation(r, now, contract@),
    {
        make_recommendation(
            now,
            contract.clone(),
            OptimizationCategory::Network,
            OptimizationType::Network,
            Priority::Medium,
            text_bytes("Network Communication Optimization"),
            text_bytes("Optimize network requests and response handling"),
            text_list3("Implement request batching", "Add connection pooling", "Optimize serialization/deserialization"),
            15,
            ImpactEstimate {
                performance_improvement: 15,
                cost_reduction: 20,
                user_experience_improvement: 15,
                reliability_improvement: 10,
            },
            ImplementationEffort::Medium,
            SavingsEstimate {
                daily_cost_savings: 10,
                monthly_cost_savings: 300,
                annual_cost_savings: 3650,
                performance_gains: 15,
            },
            500,
            Complexity::Medium,
            false,
            text_list2("network_latency", "request_throughput"),
        )
    }

    /// Metrics to watch after a gas optimization.
    pub fn generate_gas_monitoring_metrics() -> (r: Vec<Vec<u8>>)
        ensures
            texts(r@) == seq![
                "gas_used_per_transaction".spec_bytes(),
                "gas_efficiency_score".spec_bytes(),
                "gas_cost_per_operation".spec_bytes(),
            ],
    {
        text_list3("gas_used_per_transaction", "gas_efficiency_score", "gas_cost_per_operation")
    }

    /// Metrics to watch after a memory optimization.
    pub fn generate_memory_monitoring_metrics() -> (r: Vec<Vec<u8>>)
        ensures
            texts(r@) == seq![
                "memory_usage_trend".spec_bytes(),
                "peak_memory_usage".spec_bytes(),
                "memory_efficiency_score".spec_bytes(),
            ],
    {
        text_list3("memory_usage_trend", "peak_memory_usage", "memory_efficiency_score")
    }

    /// Metrics to watch after a storage optimization.
    pub fn generate_storage_monitoring_metrics() -> (r: Vec<Vec<u8>>)
        ensures
            texts(r@) == seq![
                "storage_operations_per_transaction".spec_bytes(),
                "storage_efficiency_score".spec_bytes(),
                "storage_cost_per_operation".spec_bytes(),
            ],
    {
        text_list3("storage_operations_per_transaction", "storage_efficiency_score", "storage_cost_per_operation")
    }

    /// Metrics to watch after a CPU optimization.
    pub fn generate_cpu_monitoring_metrics() -> (r: Vec<Vec<u8>>)
        ensures
            texts(r@) == seq![
                "cpu_instructions_per_transaction".spec_bytes(),
                "cpu_efficiency_score".spec_bytes(),
                "computational_complexity".spec_bytes(),
            ],
    {
        text_list3("cpu_instructions_per_transaction", "cpu_efficiency_score", "computational_complexity")
    }
}

impl ResourceOptimizer {
    /// Largest gas use among the samples.
    pub fn find_peak_gas_usage(metrics: &Vec<PerformanceMetrics>) -> (r: u64)
        ensures
            r == peak_gas(metrics@),
    {
        let mut peak: u64 = 0;
        let mut i: usize = 0;
        while i < metrics.len()
            invariant
                i <= metrics@.len(),
                peak == peak_gas(metrics@.subrange(0, i as int)),
            decreases metrics@.len() - i,
        {
            assert(metrics@.subrange(0, i as int + 1).drop_last() =~= metrics@.subrange(0, i as int));
            if metrics[i].gas_used > peak {
                peak = metrics[i].gas_used;
            }
            i += 1;
        }
        assert(metrics@.subrange(0, metrics@.len() as int) =~= metrics@);
        peak
    }

    /// Largest memory use among the samples.
    pub fn find_peak_memory_usage(metrics: &Vec<PerformanceMetrics>) -> (r: u32)
        ensures
            r == peak_memory(metrics@),
    {
        let mut peak: u32 = 0;
        let mut i: usize = 0;
        while i < metrics.len()
            invariant
                i <= metrics@.len(),
                peak == peak_memory(metrics@.subrange(0, i as int)),
            decreases metrics@.len() - i,
        {
            assert(metrics@.subrange(0, i as int + 1).drop_last() =~= metrics@.subrange(0, i as int));
            if metrics[i].memory_usage > peak {
                peak = metrics[i].memory_usage;
            }
            i += 1;
        }
        assert(metrics@.subrange(0, metrics@.len() as int) =~= metrics@);
        peak
    }

    /// Average gas cost units per sample (0 for none).
    pub fn analyze_gas_costs(metrics: &Vec<PerformanceMetrics>) -> (r: u64)
        requires
            gas_cost_units(metrics@) <= u64::MAX,
        ensures
            r == (if metrics@.len() == 0 { 0 } else { gas_cost_units(metrics@) / metrics@.len() }),
    {
        if metrics.len() == 0 {
            return 0;
        }
        let mut total: u64 = 0;
        let mut i: usize = 0;
        while i < metrics.len()
            invariant
                i <= metrics@.len(),
                gas_cost_units(metrics@) <= u64::MAX,
                total == gas_cost_units(metrics@.subrange(0, i as int)),
            decreases metrics@.len() - i,
        {
            proof {
                Self::lemma_gas_units_prefix(metrics@, i as int + 1);
            }
            assert(metrics@.subrange(0, i as int + 1).drop_last() =~= metrics@.subrange(0, i as int));
            total = total + metrics[i].gas_used / 10000;
            i += 1;
        }
        assert(metrics@.subrange(0, metrics@.len() as int) =~= metrics@);
        total / (metrics.len() as u64)
    }

    /// Gas cost units of a prefix are at most those of all samples.
    proof fn lemma_gas_units_prefix(s: Seq<PerformanceMetrics>, k: int)
        requires
            0 <= k <= s.len(),
        ensures
            gas_cost_units(s.subrange(0, k)) <= gas_cost_units(s),
        decreases s.len(),
    {
        if k < s.len() {
            assert(s.drop_last().subrange(0, k) =~= s.subrange(0, k));
            Self::lemma_gas_units_prefix(s.drop_last(), k);
        } else {
            assert(s.subrange(0, k) =~= s);
        }
    }

    /// Average storage cost units per sample (0 for none).
    pub fn calculate_storage_costs(metrics: &Vec<PerformanceMetrics>) -> (r: u64)
        requires
            storage_cost_units(metrics@) <= u64::MAX,
        ensures
            r == (if metrics@.len() == 0 { 0 } else { storage_cost_units(metrics@) / metrics@.len() }),
    {
        if metrics.len() == 0 {
            return 0;
        }
        let mut total: u64 = 0;
        let mut i: usize = 0;
        while i < metrics.len()
            invariant
                i <= metrics@.len(),
                storage_cost_units(metrics@) <= u64::MAX,
                total == storage_cost_units(metrics@.subrange(0, i as int)),
            decreases metrics@.len() - i,
        {
            proof {
                Self::lemma_storage_units_prefix(metrics@, i as int + 1);
            }
            assert(metrics@.subrange(0, i as int + 1).drop_last() =~= metrics@.subrange(0, i as int));
            total = total + (metrics[i].storage_reads as u64) + (metrics[i].storage_writes as u64 * 10);
            i += 1;
        }
        assert(metrics@.subrange(0, metrics@.len() as int) =~= metrics@);
        total / (metrics.len() as u64)
    }

    /// Storage cost units of a prefix are at most those of all samples.
    proof fn lemma_storage_units_prefix(s: Seq<PerformanceMetrics>, k: int)
        requires
            0 <= k <= s.len(),
        ensures
            storage_cost_units(s.subrange(0, k)) <= storage_cost_units(s),
        decreases s.len(),
    {
        if k < s.len() {
            assert(s.drop_last().subrange(0, k) =~= s.subrange(0, k));
            Self::lemma_storage_units_prefix(s.drop_last(), k);
        } else {
            assert(s.subrange(0, k) =~= s);
        }
    }

    /// Memory-leak risk of the samples (see `leak_risk_spec`).
    pub fn assess_memory_leak_risk(metrics: &Vec<PerformanceMetrics>) -> (r: RiskLevel)
        requires
            metrics@.len() <= u32::MAX,
        ensures
            r == leak_risk_spec(metrics@),
    {
        if metrics.len() < 3 {
            return RiskLevel::Low;
        }
        let mut consecutive: u32 = 0;
        let mut i: usize = 1;
        while i < metrics.len()
            invariant
                1 <= i <= metrics@.len() <= u32::MAX,
                consecutive == trailing_increases(metrics@.subrange(0, i as int)),
                consecutive < i,
            decreases metrics@.len() - i,
        {
            let ghost next = metrics@.subrange(0, i as int + 1);
            assert(next.drop_last() =~= metrics@.subrange(0, i as int));
            assert(next[next.len() - 2] == metrics@[i - 1]);
            if metrics[i].memory_usage > metrics[i - 1].memory_usage {
                consecutive = consecutive + 1;
            } else {
                consecutive = 0;
            }
            i += 1;
        }
        assert(metrics@.subrange(0, metrics@.len() as int) =~= metrics@);
        if consecutive >= 5 {
            RiskLevel::Critical
        } else if consecutive >= 3 {
            RiskLevel::High
        } else if consecutive >= 2 {
            RiskLevel::Medium
        } else {
            RiskLevel::Low
        }
    }

    /// Memory advice from the samples (see `memory_advice`).
    pub fn generate_memory_optimizations(metrics: &Vec<PerformanceMetrics>) -> (r: Vec<Vec<u8>>)
        requires
            metrics@.len() <= u32::MAX,
            memory_total(metrics@) <= u64::MAX,
            (if metrics@.len() == 0 { 0 } else { memory_total(metrics@) / metrics@.len() }) * 2 <= u32::MAX,
        ensures
            texts(r@) == memory_advice(metrics@),
    {
        let peak = Self::find_peak_memory_usage(metrics);
        let avg: u32 = if metrics.len() > 0 {
            let mut total: u64 = 0;
            let mut i: usize = 0;
            while i < metrics.len()
                invariant
                    i <= metrics@.len(),
                    memory_total(metrics@) <= u64::MAX,
                    total == memory_total(metrics@.subrange(0, i as int)),
                decreases metrics@.len() - i,
            {
                proof {
                    Self::lemma_memory_prefix(metrics@, i as int + 1);
                }
                assert(metrics@.subrange(0, i as int + 1).drop_last() =~= metrics@.subrange(0, i as int));
                total = total + metrics[i].memory_usage as u64;
                i += 1;
            }
            assert(metrics@.subrange(0, metrics@.len() as int) =~= metrics@);
            (total / (metrics.len() as u64)) as u32
        } else {
            0
        };
        let mut r: Vec<Vec<u8>> = Vec::new();
        if peak > avg * 2 {
            r.push(text_bytes("Implement memory pooling to reduce peak usage"));
        }
        let ghost r1 = texts(r@);
        if peak > 100_000_000 {
            r.push(text_bytes("Review data structures for memory efficiency"));
        }
        let ghost r2 = texts(r@);
        if Self::assess_memory_leak_risk(metrics).rank() > RiskLevel::Medium.rank() {
            r.push(text_bytes("Implement proper memory cleanup and lifecycle management"));
        }
        let ghost r3 = texts(r@);
        r.push(text_bytes("Consider lazy loading for large data structures"));
        assert(texts(r@) =~= memory_advice(metrics@));
        r
    }

    /// Memory use of a prefix is at most that of all samples.
    proof fn lemma_memory_prefix(s: Seq<PerformanceMetrics>, k: int)
        requires
            0 <= k <= s.len(),
        ensures
            memory_total(s.subrange(0, k)) <= memory_total(s),
        decreases s.len(),
    {
        if k < s.len() {
            assert(s.drop_last().subrange(0, k) =~= s.subrange(0, k));
            Self::lemma_memory_prefix(s.drop_last(), k);
        } else {
            assert(s.subrange(0, k) =~= s);
        }
    }

    /// CPU findings of every sample, or a note that there are none.
    pub fn identify_cpu_bottlenecks(metrics: &Vec<PerformanceMetrics>) -> (r: Vec<Vec<u8>>)
        ensures
            texts(r@) == (if all_cpu_findings(metrics@).len() == 0 {
                seq!["No significant CPU bottlenecks identified".spec_bytes()]
            } else {
                all_cpu_findings(metrics@)
            }),
    {
        let mut r: Vec<Vec<u8>> = Vec::new();
        let mut i: usize = 0;
        while i < metrics.len()
            invariant
                i <= metrics@.len(),
                texts(r@) == all_cpu_findings(metrics@.subrange(0, i as int)),
            decreases metrics@.len() - i,
        {
            assert(metrics@.subrange(0, i as int + 1).drop_last() =~= metrics@.subrange(0, i as int));
            let ghost before = texts(r@);
            let m = &metrics[i];
            if m.cpu_instructions > 20_000_000 {
                r.push(text_bytes("High computational complexity detected"));
            }
            let ghost mid = texts(r@);
            if m.execution_time > 1000 && m.cpu_instructions > 10_000_000 {
                r.push(text_bytes("CPU-bound operations causing delays"));
            }
            assert(texts(r@) =~= before + cpu_findings(*m));
            i += 1;
        }
        assert(metrics@.subrange(0, metrics@.len() as int) =~= metrics@);
        if r.len() == 0 {
            r.push(text_bytes("No significant CPU bottlenecks identified"));
            assert(texts(r@) =~= seq!["No significant CPU bottlenecks identified".spec_bytes()]);
        }
        r
    }

    /// General CPU optimizations.
    pub fn identify_cpu_optimizations() -> (r: Vec<Vec<u8>>)
        ensures
            texts(r@) == seq![
                "Review algorithm complexity and optimization opportunities".spec_bytes(),
                "Consider computational result caching".spec_bytes(),
                "Implement lazy evaluation where appropriate".spec_bytes(),
                "Profile critical code paths for optimization".spec_bytes(),
            ],
    {
        let mut r: Vec<Vec<u8>> = Vec::new();
        r.push(text_bytes("Review algorithm complexity and optimization opportunities"));
        r.push(text_bytes("Consider computational result caching"));
        r.push(text_bytes("Implement lazy evaluation where appropriate"));
        r.push(text_bytes("Profile critical code paths for optimization"));
        assert(texts(r@) =~= seq![
            "Review algorithm complexity and optimization opportunities".spec_bytes(),
            "Consider computational result caching".spec_bytes(),
            "Implement lazy evaluation where appropriate".spec_bytes(),
            "Profile critical code paths for optimization".spec_bytes(),
        ]);
        r
    }

    /// Monitoring advice after an optimization.
    pub fn generate_monitoring_recommendations() -> (r: Vec<Vec<u8>>)
        ensures
            texts(r@) == seq![
                "Set up automated performance alerts".spec_bytes(),
                "Implement resource usage dashboards".spec_bytes(),
                "Schedule regular optimization reviews".spec_bytes(),
            ],
    {
        text_list3(
            "Set up automated performance alerts",
            "Implement resource usage dashboards",
            "Schedule regular optimization reviews",
        )
    }

    /// Next steps after an optimization (see `next_steps_spec`).
    pub fn generate_next_optimization_steps(current: &ResourceUtilization) -> (r: Vec<Vec<u8>>)
        ensures
            texts(r@) == next_steps_spec(*current),
    {
        let mut r: Vec<Vec<u8>> = Vec::new();
        if current.overall_efficiency_score < 90 {
            r.push(text_bytes("Continue monitoring resource utilization patterns"));
            r.push(text_bytes("Identify additional optimization opportunities"));
        }
        let ghost r1 = texts(r@);
        if current.gas_utilization.gas_optimization_potential > 10 {
            r.push(text_bytes("Focus on remaining gas optimization opportunities"));
        }
        let ghost r2 = texts(r@);
        r.push(text_bytes("Implement continuous performance monitoring"));
        assert(texts(r@) =~= next_steps_spec(*current));
        r
    }

    /// Name of a risk level.
    pub fn risk_level_to_string(risk: RiskLevel) -> (r: Vec<u8>)
        ensures
            r@ == (match risk {
                RiskLevel::Critical => "Critical".spec_bytes(),
                RiskLevel::High => "High".spec_bytes(),
                RiskLevel::Medium => "Medium".spec_bytes(),
                RiskLevel::Low => "Low".spec_bytes(),
            }),
    {
        match risk {
            RiskLevel::Critical => text_bytes("Critical"),
            RiskLevel::High => text_bytes("High"),
            RiskLevel::Medium => text_bytes("Medium"),
            RiskLevel::Low => text_bytes("Low"),
        }
    }

    /// Name of a business impact.
    pub fn business_impact_to_string(impact: BusinessImpact) -> (r: Vec<u8>)
        ensures
            r@ == (match impact {
                BusinessImpact::High => "High".spec_bytes(),
                BusinessImpact::Medium => "Medium".spec_bytes(),
                BusinessImpact::Low => "Low".spec_bytes(),
            }),
    {
        match impact {
            BusinessImpact::High => text_bytes("High"),
            BusinessImpact::Medium => text_bytes("Medium"),
            BusinessImpact::Low => text_bytes("Low"),
        }
    }

    /// Risk of implementing a recommendation, from its complexity.
    pub fn assess_implementation_risk(recommendation: &OptimizationRecommendation) -> (r: RiskLevel)
        ensures
            r == (match recommendation.implementation_complexity {
                Complexity::Low | Complexity::Simple => RiskLevel::Low,
                Complexity::Medium | Complexity::Moderate => RiskLevel::Medium,
                Complexity::High | Complexity::Complex | Complexity::VeryComplex => RiskLevel::High,
            }),
    {
        match recommendation.implementation_complexity {
            Complexity::Low | Complexity::Simple => RiskLevel::Low,
            Complexity::Medium | Complexity::Moderate => RiskLevel::Medium,
            Complexity::High | Complexity::Complex | Complexity::VeryComplex => RiskLevel::High,
        }
    }

    /// Business impact of a recommendation: high above 50 percent expected
    /// improvement, medium above 25, low otherwise.
    pub fn assess_business_impact(recommendation: &OptimizationRecommendation) -> (r: BusinessImpact)
        ensures
            r == (if recommendation.expected_improvement > 50 {
                BusinessImpact::High
            } else if recommendation.expected_improvement > 25 {
                BusinessImpact::Medium
            } else {
                BusinessImpact::Low
            }),
    {
        if recommendation.expected_improvement > 50 {
            BusinessImpact::High
        } else if recommendation.expected_improvement > 25 {
            BusinessImpact::Medium
        } else {
            BusinessImpact::Low
        }
    }
}

/// Builds the figures of one resource.
fn resource_metrics(
    average: u32,
    peak: u32,
    efficiency: u32,
    storage_cost: u64,
    cpu_score: u64,
    opportunities: Vec<Vec<u8>>,
    potential: u64,
) -> (r: ResourceMetrics)
    ensures
        resource_metrics_is(r, average, peak, efficiency, storage_cost, cpu_score, texts(opportunities@), potential),
{
    ResourceMetrics {
        average_usage: average,
        peak_usage: peak,
        minimum_usage: 0,
        utilization_trend: UtilizationTrend::Stable,
        efficiency_score: efficiency,
        storage_cost_per_operation: storage_cost,
        cpu_efficiency_score: cpu_score,
        optimization_opportunities: opportunities,
        gas_optimization_potential: potential,
        memory_leak_risk: RiskLevel::Low,
        memory_opt_recommendations: Vec::new(),
        storage_efficiency_score: 80,
        storage_opt_suggestions: Vec::new(),
    }
}

impl ResourceOptimizer {
    /// Average memory use of the samples (0 for none).
    pub fn memory_average(metrics: &Vec<PerformanceMetrics>) -> (r: u64)
        requires
            memory_total(metrics@) <= u64::MAX,
        ensures
            r == (if metrics@.len() == 0 { 0 } else { memory_total(metrics@) / metrics@.len() }),
    {
        if metrics.len() == 0 {
            return 0;
        }
        let mut total: u64 = 0;
        let mut i: usize = 0;
        while i < metrics.len()
            invariant
                i <= metrics@.len(),
                memory_total(metrics@) <= u64::MAX,
                total == memory_total(metrics@.subrange(0, i as int)),
            decreases metrics@.len() - i,
        {
            proof {
                Self::lemma_memory_prefix(metrics@, i as int + 1);
            }
            assert(metrics@.subrange(0, i as int + 1).drop_last() =~= metrics@.subrange(0, i as int));
            total = total + metrics[i].memory_usage as u64;
            i += 1;
        }
        assert(metrics@.subrange(0, metrics@.len() as int) =~= metrics@);
        total / (metrics.len() as u64)
    }

    /// Total transactions of the samples.
    fn transaction_total(metrics: &Vec<PerformanceMetrics>) -> (r: u64)
        requires
            sum_by(metrics@, SampleField::Transactions) <= u32::MAX,
        ensures
            r == sum_by(metrics@, SampleField::Transactions),
    {
        let avg = AnomalyDetector::calculate_historical_throughput(metrics);
        let mut total: u64 = 0;
        let mut i: usize = 0;
        while i < metrics.len()
            invariant
                i <= metrics@.len(),
                sum_by(metrics@, SampleField::Transactions) <= u32::MAX,
                total == sum_by(metrics@.subrange(0, i as int), SampleField::Transactions),
            decreases metrics@.len() - i,
        {
            proof {
                crate::diagnostics::anomaly_detector::lemma_sum_prefix(metrics@, i as int + 1, SampleField::Transactions);
            }
            assert(metrics@.subrange(0, i as int + 1).drop_last() =~= metrics@.subrange(0, i as int));
            total = total + metrics[i].transaction_count as u64;
            i += 1;
        }
        assert(metrics@.subrange(0, metrics@.len() as int) =~= metrics@);
        total
    }

    /// The cost analysis of `samples` (see `cost_analysis_is`).
    pub fn perform_cost_analysis(samples: &Vec<PerformanceMetrics>, est: &UtilizationEstimates) -> (r: CostAnalysis)
        requires
            samples@.len() > 0,
            utilization_in_range(samples@),
        ensures
            cost_analysis_is(r, samples@, *est),
    {
        let gas_costs = Self::analyze_gas_costs(samples);
        let storage_costs = Self::calculate_storage_costs(samples);
        let operations = Self::transaction_total(samples);
        let total = gas_costs + storage_costs;
        CostAnalysis {
            total_cost: total,
            cost_per_transaction: total / operations,
            cost_breakdown: Vec::new(),
            cost_efficiency: est.cost_efficiency,
            cost_trend: est.cost_trend,
            total_cost_per_transaction: total,
            gas_cost_percentage: if total > 0 {
                gas_costs * 100 / total
            } else {
                0
            },
            storage_cost_percentage: if total > 0 {
                storage_costs * 100 / total
            } else {
                0
            },
            optimization_potential_savings: total / 4,
            cost_efficiency_score: est.cost_efficiency_score,
        }
    }

    /// Builds the analysis of `contract` at `now` over `samples`.
    fn build_utilization(
        contract: &String,
        now: u64,
        samples: &Vec<PerformanceMetrics>,
        est: &UtilizationEstimates,
    ) -> (r: ResourceUtilization)
        requires
            samples@.len() > 0,
            utilization_in_range(samples@),
        ensures
            utilization_is(r, contract@, now, samples@, *est),
    {
        let n = samples.len() as u64;
        let avg_gas = AnomalyDetector::calculate_average_gas_usage(samples);
        let avg_mem = Self::memory_average(samples);
        let gas_costs = Self::analyze_gas_costs(samples);
        let storage_costs = Self::calculate_storage_costs(samples);
        let operations = Self::transaction_total(samples);
        let total = gas_costs + storage_costs;
        let id = resource_id(now);
        let no_gas_advice: Vec<Vec<u8>> = Vec::new();
        let no_network_advice: Vec<Vec<u8>> = Vec::new();
        assert(texts(no_gas_advice@) =~= Seq::<Seq<u8>>::empty());
        assert(texts(no_network_advice@) =~= Seq::<Seq<u8>>::empty());
        let cost_analysis = Self::perform_cost_analysis(samples, est);
        ResourceUtilization {
            analysis_id: id,
            resource_id: id,
            contract_address: contract.clone(),
            analysis_period: 3600,
            timestamp: now,
            cpu_utilization: resource_metrics(
                0,
                0,
                est.cpu_efficiency,
                0,
                est.cpu_efficiency as u64,
                Self::identify_cpu_optimizations(),
                0,
            ),
            memory_utilization: resource_metrics(
                avg_mem as u32,
                Self::find_peak_memory_usage(samples),
                est.memory_efficiency,
                0,
                0,
                Self::generate_memory_optimizations(samples),
                0,
            ),
            storage_utilization: resource_metrics(
                0,
                0,
                est.storage_efficiency,
                storage_costs,
                0,
                copy_texts(&est.storage_optimizations),
                0,
            ),
            network_utilization: resource_metrics(0, 0, 0, 0, 0, no_network_advice, 0),
            cost_analysis,
            optimization_opportunities: Vec::new(),
            overall_efficiency_score: est.overall_efficiency,
            gas_utilization: resource_metrics(
                avg_gas as u32,
                Self::find_peak_gas_usage(samples) as u32,
                est.gas_efficiency,
                0,
                0,
                no_gas_advice,
                est.gas_optimization_potential,
            ),
            optimization_priority: Priority::Medium,
        }
    }

    /// Analyses the resources of `contract` over the hourly samples of the
    /// `analysis_period` seconds before `now`, stores the analysis under the
    /// contract and returns it. `est` holds the figures computed in floating
    /// point over the same samples.
    pub fn analyze_resource_utilization(
        st: &mut DiagnosticsStorage,
        contract: &String,
        analysis_period: u64,
        now: u64,
        est: &UtilizationEstimates,
    ) -> (r: Result<ResourceUtilization, DiagnosticsError>)
        requires
            old(st).wf(),
            analysis_period > 0 && hourly_samples(old(st).metrics@, contract@, analysis_period, now).len() > 0
                ==> utilization_in_range(hourly_samples(old(st).metrics@, contract@, analysis_period, now)),
        ensures
            final(st).wf(),
            analysis_period == 0 ==> r == Err::<ResourceUtilization, DiagnosticsError>(DiagnosticsError::InvalidDetectionPeriod),
            analysis_period > 0 && hourly_samples(old(st).metrics@, contract@, analysis_period, now).len() == 0 ==> r
                == Err::<ResourceUtilization, DiagnosticsError>(DiagnosticsError::InsufficientDataForPrediction),
            r is Err ==> *final(st) == *old(st),
            analysis_period > 0 && hourly_samples(old(st).metrics@, contract@, analysis_period, now).len() > 0
                ==> r is Ok,
            r matches Ok(u) ==> {
                let s = hourly_samples(old(st).metrics@, contract@, analysis_period, now);
                &&& utilization_is(u, contract@, now, s, *est)
                &&& final(st).resource_utilizations@.dom() == old(st).resource_utilizations@.dom().insert(contract@)
                &&& forall|k: Seq<char>| k != contract@ && old(st).resource_utilizations@.contains_key(k)
                    ==> final(st).resource_utilizations@[k] == old(st).resource_utilizations@[k]
                &&& utilization_is(final(st).resource_utilizations@[contract@], contract@, now, s, *est)
                &&& *final(st) == (DiagnosticsStorage { resource_utilizations: final(st).resource_utilizations, ..*old(st) })
            },
    {
        if analysis_period == 0 {
            return Err(DiagnosticsError::InvalidDetectionPeriod);
        }
        let samples = AnomalyDetector::collect_samples(st, contract, analysis_period, now);
        if samples.len() == 0 {
            return Err(DiagnosticsError::InsufficientDataForPrediction);
        }
        let stored = Self::build_utilization(contract, now, &samples, est);
        let result = Self::build_utilization(contract, now, &samples, est);
        st.store_resource_utilization(contract.clone(), stored);
        Ok(result)
    }
}

} // verus!
