//! Optimization recommendations and real-time alerts from a contract's
//! latest sample, one analysis per resource.
use vstd::prelude::*;
use vstd::string::{StringExecFns, StringSliceAdditionalSpecFns};
use crate::text::{texts, text_bytes, text_list2};
use crate::diagnostics::errors::DiagnosticsError;
use crate::diagnostics::ids::{be_byte, put_u64_be};
use crate::diagnostics::resource_optimizer::recommendation_fields;
use crate::diagnostics::storage::{DiagnosticsStorage, latest_sample, latest_search_in_range};
use crate::diagnostics::types::{
    Complexity, ImpactEstimate, ImplementationEffort, OptimizationCategory, OptimizationRecommendation,
    OptimizationType, PerformanceMetrics, Priority, RiskLevel, SavingsEstimate,
};

verus! {

/// Automated optimization recommendations.
pub struct OptimizationEngine;

/// Kind of real-time optimization alert.
#[derive(Clone, Copy, Debug, PartialEq, Eq, Structural)]
pub enum AlertType {
    GasUsageHigh,
    MemoryUsageHigh,
    ExecutionTimeSlow,
    StorageInefficient,
    NetworkLatencyHigh,
    ErrorRateHigh,
}

/// A real-time optimization alert.
#[derive(Clone, Debug)]
pub struct OptimizationAlert {
    pub alert_type: AlertType,
    pub severity: RiskLevel,
    pub description: Vec<u8>,
    pub immediate_actions: Vec<Vec<u8>>,
    pub expected_savings: u64,
}

/// Return on an optimization investment.
#[derive(Clone, Copy, Debug, PartialEq, Eq, Structural)]
pub struct ROIAnalysis {
    pub implementation_cost: u64,
    pub monthly_savings: u64,
    pub payback_period_months: u32,
    pub annual_roi_percentage: u32,
}

/// The fixed time stamped into recommendation identifiers.
pub const RECOMMENDATION_EPOCH: u64 = 1708524000u64;

/// Identifier of a recommendation: up to 16 bytes of its prefix, then the
/// fixed time's bytes at 16..24, zeros elsewhere.
pub open spec fn prefixed_id_spec(prefix: Seq<u8>, j: int) -> u8 {
    if j < 16 && j < prefix.len() {
        prefix[j]
    } else if 16 <= j < 24 {
        be_byte(RECOMMENDATION_EPOCH, j - 16)
    } else {
        0
    }
}

/// `r` is a recommendation with identifier prefix `prefix`, daily savings
/// `daily` (monthly 30 and yearly 365 times that) and no monitoring metrics.
pub open spec fn engine_recommendation(
    r: OptimizationRecommendation,
    prefix: Seq<u8>,
    contract: Seq<char>,
    category: OptimizationCategory,
    optimization_type: OptimizationType,
    priority: Priority,
    description: Seq<u8>,
    title: Seq<u8>,
    impact: ImpactEstimate,
    complexity: Complexity,
    daily: u64,
    gains: u32,
    steps: Seq<Seq<u8>>,
    improvement: u64,
    effort: ImplementationEffort,
) -> bool {
    &&& forall|j: int| 0 <= j < 32 ==> #[trigger] r.recommendation_id@[j] == prefixed_id_spec(prefix, j)
    &&& recommendation_fields(
        r,
        contract,
        category,
        optimization_type,
        priority,
        title,
        description,
        steps,
        improvement,
        impact,
        effort,
        SavingsEstimate {
            daily_cost_savings: daily,
            monthly_cost_savings: (daily * 30) as u64,
            annual_cost_savings: (daily * 365) as u64,
            performance_gains: gains,
        },
        daily,
        complexity,
        false,
        seq![],
    )
}

/// The gas recommendations for sample `m` of `contract`.
pub open spec fn gas_recommendations_spec(contract: Seq<char>, m: PerformanceMetrics, v: Seq<OptimizationRecommendation>) -> bool {
    let a = one(m.gas_used > 500_000);
    &&& v.len() == a + one(m.storage_writes > 10)
    &&& m.gas_used > 500_000 ==> engine_recommendation(
        v[0],
        "gas_opt_1".spec_bytes(),
        contract,
        OptimizationCategory::Gas,
        OptimizationType::GasEfficiency,
        if m.gas_used > 2_000_000 { Priority::High } else { Priority::Medium },
        "Optimize gas usage through efficient algorithms and data structures".spec_bytes(),
        "Gas Optimization".spec_bytes(),
        ImpactEstimate { performance_improvement: 20, cost_reduction: 25, user_experience_improvement: 15, reliability_improvement: 10 },
        Complexity::Moderate,
        m.gas_used / 4,
        20,
        seq![
            "Analyze gas-intensive functions".spec_bytes(),
            "Implement gas optimization patterns".spec_bytes(),
            "Use efficient data types".spec_bytes(),
            "Batch operations where possible".spec_bytes(),
        ],
        20,
        ImplementationEffort::Medium,
    )
    &&& m.storage_writes > 10 ==> engine_recommendation(
        v[a],
        "gas_storage_1".spec_bytes(),
        contract,
        OptimizationCategory::Gas,
        OptimizationType::StorageEfficiency,
        Priority::Medium,
        "Optimize storage operations to reduce gas costs".spec_bytes(),
        "Storage Optimization".spec_bytes(),
        ImpactEstimate { performance_improvement: 15, cost_reduction: 30, user_experience_improvement: 10, reliability_improvement: 5 },
        Complexity::Simple,
        (m.storage_writes * 100) as u64,
        15,
        seq![
            "Batch storage operations".spec_bytes(),
            "Use packed storage structures".spec_bytes(),
            "Minimize storage writes".spec_bytes(),
        ],
        15,
        ImplementationEffort::Simple,
    )
}

/// Reads per write (all reads when nothing is written).
pub open spec fn read_write_ratio(m: PerformanceMetrics) -> u32 {
    if m.storage_writes > 0 {
        m.storage_reads / m.storage_writes
    } else {
        m.storage_reads
    }
}

/// The storage recommendations for sample `m` of `contract`.
pub open spec fn storage_recommendations_spec(contract: Seq<char>, m: PerformanceMetrics, v: Seq<OptimizationRecommendation>) -> bool {
    let fires = read_write_ratio(m) < 5 && m.storage_writes > 5;
    &&& v.len() == one(fires)
    &&& fires ==> engine_recommendation(
        v[0],
        "storage_opt_1".spec_bytes(),
        contract,
        OptimizationCategory::Storage,
        OptimizationType::StorageEfficiency,
        Priority::Medium,
        "Implement storage caching to improve read efficiency".spec_bytes(),
        "Storage Caching".spec_bytes(),
        ImpactEstimate { performance_improvement: 25, cost_reduction: 20, user_experience_improvement: 20, reliability_improvement: 15 },
        Complexity::Moderate,
        (m.storage_reads * 10) as u64,
        25,
        seq![
            "Implement storage caching layer".spec_bytes(),
            "Use efficient data structures".spec_bytes(),
            "Minimize redundant reads".spec_bytes(),
            "Implement lazy loading".spec_bytes(),
        ],
        25,
        ImplementationEffort::Medium,
    )
}

/// The memory recommendations for sample `m`.
pub open spec fn memory_recommendations_spec(contract: Seq<char>, m: PerformanceMetrics, v: Seq<OptimizationRecommendation>) -> bool {
    &&& v.len() == one(m.memory_usage > 50_000_000)
    &&& m.memory_usage > 50_000_000 ==> engine_recommendation(
        v[0],
        "memory_opt_1".spec_bytes(),
        contract,
        OptimizationCategory::Memory,
        OptimizationType::MemoryEfficiency,
        if m.memory_usage > 200_000_000 { Priority::High } else { Priority::Medium },
        "Optimize memory usage through efficient data structures and memory management".spec_bytes(),
        "Memory Optimization".spec_bytes(),
        ImpactEstimate { performance_improvement: 30, cost_reduction: 15, user_experience_improvement: 25, reliability_improvement: 20 },
        Complexity::Complex,
        ((m.memory_usage / 1_000_000) * 5) as u64,
        30,
        seq![
            "Profile memory usage patterns".spec_bytes(),
            "Implement memory pooling".spec_bytes(),
            "Optimize data structures".spec_bytes(),
            "Use efficient serialization".spec_bytes(),
        ],
        30,
        ImplementationEffort::Complex,
    )
}

/// The network recommendations for sample `m`.
pub open spec fn network_recommendations_spec(contract: Seq<char>, m: PerformanceMetrics, v: Seq<OptimizationRecommendation>) -> bool {
    &&& v.len() == one(m.network_latency > 100)
    &&& m.network_latency > 100 ==> engine_recommendation(
        v[0],
        "network_opt_1".spec_bytes(),
        contract,
        OptimizationCategory::Network,
        OptimizationType::NetworkEfficiency,
        if m.network_latency > 500 { Priority::High } else { Priority::Medium },
        "Optimize network operations to reduce latency".spec_bytes(),
        "Network Optimization".spec_bytes(),
        ImpactEstimate { performance_improvement: 35, cost_reduction: 10, user_experience_improvement: 40, reliability_improvement: 15 },
        Complexity::Moderate,
        (m.network_latency * 2) as u64,
        35,
        seq![
            "Implement request batching".spec_bytes(),
            "Use connection pooling".spec_bytes(),
            "Optimize payload sizes".spec_bytes(),
            "Implement caching strategies".spec_bytes(),
        ],
        35,
        ImplementationEffort::Medium,
    )
}

/// The algorithm recommendations for sample `m`.
pub open spec fn algorithm_recommendations_spec(contract: Seq<char>, m: PerformanceMetrics, v: Seq<OptimizationRecommendation>) -> bool {
    &&& v.len() == one(m.average_execution_time > 500)
    &&& m.average_execution_time > 500 ==> engine_recommendation(
        v[0],
        "algo_opt_1".spec_bytes(),
        contract,
        OptimizationCategory::Algorithm,
        OptimizationType::AlgorithmEfficiency,
        if m.average_execution_time > 2000 { Priority::Critical } else { Priority::High },
        "Optimize algorithms for better time complexity".spec_bytes(),
        "Algorithm Optimization".spec_bytes(),
        ImpactEstimate { performance_improvement: 50, cost_reduction: 20, user_experience_improvement: 45, reliability_improvement: 25 },
        Complexity::Complex,
        m.average_execution_time / 10,
        50,
        seq![
            "Profile algorithm performance".spec_bytes(),
            "Analyze time complexity".spec_bytes(),
            "Implement efficient algorithms".spec_bytes(),
            "Use appropriate data structures".spec_bytes(),
        ],
        50,
        ImplementationEffort::Complex,
    )
}

/// The architecture recommendations for sample `m`.
pub open spec fn architecture_recommendations_spec(contract: Seq<char>, m: PerformanceMetrics, v: Seq<OptimizationRecommendation>) -> bool {
    &&& v.len() == one(m.error_rate > 5)
    &&& m.error_rate > 5 ==> engine_recommendation(
        v[0],
        "arch_opt_1".spec_bytes(),
        contract,
        OptimizationCategory::Architecture,
        OptimizationType::ArchitectureImprovement,
        if m.error_rate > 15 { Priority::Critical } else { Priority::High },
        "Improve architecture resilience and error handling".spec_bytes(),
        "Architecture Optimization".spec_bytes(),
        ImpactEstimate { performance_improvement: 15, cost_reduction: 10, user_experience_improvement: 30, reliability_improvement: 60 },
        Complexity::VeryComplex,
        (m.error_rate * 50) as u64,
        15,
        seq![
            "Implement robust error handling".spec_bytes(),
            "Add circuit breaker patterns".spec_bytes(),
            "Implement retry mechanisms".spec_bytes(),
            "Add comprehensive logging".spec_bytes(),
        ],
        15,
        ImplementationEffort::VeryComplex,
    )
}

/// One when `b` holds, else zero.
pub open spec fn one(b: bool) -> int {
    if b {
        1
    } else {
        0
    }
}

/// The savings of sample `m` stay within 64 bits.
pub open spec fn savings_in_range(m: PerformanceMetrics) -> bool {
    &&& (m.gas_used / 4) * 365 <= u64::MAX
    &&& (m.average_execution_time / 10) * 365 <= u64::MAX
}

/// All recommendations for sample `m` of `contract`, in analysis order.
pub open spec fn all_recommendations_spec(contract: Seq<char>, m: PerformanceMetrics, v: Seq<OptimizationRecommendation>) -> bool {
    exists|
        d1: Seq<OptimizationRecommendation>,
        d2: Seq<OptimizationRecommendation>,
        d3: Seq<OptimizationRecommendation>,
        d4: Seq<OptimizationRecommendation>,
        d5: Seq<OptimizationRecommendation>,
        d6: Seq<OptimizationRecommendation>,
    |
        #![trigger gas_recommendations_spec(contract, m, d1), storage_recommendations_spec(contract, m, d2), memory_recommendations_spec(contract, m, d3), network_recommendations_spec(contract, m, d4), algorithm_recommendations_spec(contract, m, d5), architecture_recommendations_spec(contract, m, d6)]
        gas_recommendations_spec(contract, m, d1) && storage_recommendations_spec(contract, m, d2)
            && memory_recommendations_spec(contract, m, d3) && network_recommendations_spec(contract, m, d4)
            && algorithm_recommendations_spec(contract, m, d5) && architecture_recommendations_spec(contract, m, d6) && v == d1 + d2
            + d3 + d4 + d5 + d6
}

/// `a` is an alert with the given fields.
pub open spec fn alert_is(
    a: OptimizationAlert,
    alert_type: AlertType,
    severity: RiskLevel,
    description: Seq<u8>,
    actions: Seq<Seq<u8>>,
    savings: u64,
) -> bool {
    &&& a.alert_type == alert_type
    &&& a.severity == severity
    &&& a.description@ == description
    &&& texts(a.immediate_actions@) == actions
    &&& a.expected_savings == savings
}

/// The real-time alerts for sample `m`: gas, memory, execution time and
/// storage, each when its threshold is crossed, in that order.
pub open spec fn alerts_spec(m: PerformanceMetrics, v: Seq<OptimizationAlert>) -> bool {
    let g = one(m.gas_used > 1_000_000);
    let me = one(m.memory_usage > 100_000_000);
    let e = one(m.execution_time > 1000);
    let st = one(m.storage_writes > m.storage_reads * 2);
    &&& v.len() == g + me + e + st
    &&& m.gas_used > 1_000_000 ==> alert_is(
        v[0],
        AlertType::GasUsageHigh,
        if m.gas_used > 5_000_000 { RiskLevel::Critical } else { RiskLevel::High },
        "Gas usage is high, consider optimization".spec_bytes(),
        seq!["Review gas-intensive operations".spec_bytes(), "Implement gas optimization patterns".spec_bytes()],
        m.gas_used / 10,
    )
    &&& m.memory_usage > 100_000_000 ==> alert_is(
        v[g],
        AlertType::MemoryUsageHigh,
        if m.memory_usage > 500_000_000 { RiskLevel::Critical } else { RiskLevel::High },
        "Memory usage is high, optimization needed".spec_bytes(),
        seq!["Optimize data structures".spec_bytes(), "Implement memory pooling".spec_bytes()],
        (m.memory_usage / 20) as u64,
    )
    &&& m.execution_time > 1000 ==> alert_is(
        v[g + me],
        AlertType::ExecutionTimeSlow,
        if m.execution_time > 5000 { RiskLevel::High } else { RiskLevel::Medium },
        "Execution time is slow, performance optimization needed".spec_bytes(),
        seq!["Profile slow operations".spec_bytes(), "Optimize algorithms".spec_bytes()],
        m.execution_time / 4,
    )
    &&& m.storage_writes > m.storage_reads * 2 ==> alert_is(
        v[g + me + e],
        AlertType::StorageInefficient,
        RiskLevel::Medium,
        "High write-to-read ratio indicates storage inefficiency".spec_bytes(),
        seq!["Implement storage batching".spec_bytes(), "Optimize storage access patterns".spec_bytes()],
        (m.storage_writes * 50) as u64,
    )
}

/// Builds a recommendation with daily savings `daily`.
fn engine_rec(
    prefix: &str,
    contract: String,
    category: OptimizationCategory,
    optimization_type: OptimizationType,
    priority: Priority,
    description: &str,
    title: &str,
    impact: ImpactEstimate,
    complexity: Complexity,
    daily: u64,
    gains: u32,
    steps: Vec<Vec<u8>>,
    improvement: u64,
    effort: ImplementationEffort,
) -> (r: OptimizationRecommendation)
    requires
        daily * 365 <= u64::MAX,
    ensures
        engine_recommendation(
            r,
            prefix.spec_bytes(),
            contract@,
            category,
            optimization_type,
            priority,
            description.spec_bytes(),
            title.spec_bytes(),
            impact,
            complexity,
            daily,
            gains,
            texts(steps@),
            improvement,
            effort,
        ),
{
    let empty: Vec<Vec<u8>> = Vec::new();
    assert(texts(empty@) =~= Seq::<Seq<u8>>::empty());
    OptimizationRecommendation {
        recommendation_id: OptimizationEngine::generate_recommendation_id(prefix),
        category,
        priority,
        description: text_bytes(description),
        expected_impact: impact,
        implementation_complexity: complexity,
        estimated_savings: SavingsEstimate {
            daily_cost_savings: daily,
            monthly_cost_savings: daily * 30,
            annual_cost_savings: daily * 365,
            performance_gains: gains,
        },
        implementation_steps: steps,
        contract_address: contract,
        optimization_type,
        title: text_bytes(title),
        expected_improvement: improvement,
        estimated_effort: effort,
        cost_savings: daily,
        automated_fix_available: false,
        monitoring_metrics: empty,
    }
}

/// A list of four texts.
fn four_texts(a: &str, b: &str, c: &str, d: &str) -> (r: Vec<Vec<u8>>)
    ensures
        texts(r@) == seq![a.spec_bytes(), b.spec_bytes(), c.spec_bytes(), d.spec_bytes()],
{
    let mut r: Vec<Vec<u8>> = Vec::new();
    r.push(text_bytes(a));
    r.push(text_bytes(b));
    r.push(text_bytes(c));
    r.push(text_bytes(d));
    assert(texts(r@) =~= seq![a.spec_bytes(), b.spec_bytes(), c.spec_bytes(), d.spec_bytes()]);
    r
}

/// A list of three texts.
fn three_texts(a: &str, b: &str, c: &str) -> (r: Vec<Vec<u8>>)
    ensures
        texts(r@) == seq![a.spec_bytes(), b.spec_bytes(), c.spec_bytes()],
{
    let mut r: Vec<Vec<u8>> = Vec::new();
    r.push(text_bytes(a));
    r.push(text_bytes(b));
    r.push(text_bytes(c));
    assert(texts(r@) =~= seq![a.spec_bytes(), b.spec_bytes(), c.spec_bytes()]);
    r
}

impl OptimizationEngine {
    /// Identifier from a prefix (up to 16 bytes) and the fixed time.
    pub fn generate_recommendation_id(prefix: &str) -> (r: [u8; 32])
        ensures
            forall|j: int| 0 <= j < 32 ==> #[trigger] r@[j] == prefixed_id_spec(prefix.spec_bytes(), j),
    {
        let mut data: [u8; 32] = [0u8; 32];
        let bytes = prefix.as_bytes();
        let n: usize = if bytes.len() < 16 {
            bytes.len()
        } else {
            16
        };
        let mut i: usize = 0;
        while i < n
            invariant
                i <= n <= 16,
                n <= bytes@.len(),
                bytes@ == prefix.spec_bytes(),
                forall|j: int| 0 <= j < 32 ==> #[trigger] data@[j] == (if j < i { bytes@[j] } else { 0u8 }),
            decreases n - i,
        {
            data[i] = bytes[i];
            i += 1;
        }
        put_u64_be(&mut data, 16, RECOMMENDATION_EPOCH);
        data
    }

    /// Gas recommendations for sample `metrics` of `contract`.
    pub fn analyze_gas_optimization(contract: &String, metrics: &PerformanceMetrics) -> (r: Vec<OptimizationRecommendation>)
        requires
            savings_in_range(*metrics),
        ensures
            gas_recommendations_spec(contract@, *metrics, r@),
    {
        let mut r: Vec<OptimizationRecommendation> = Vec::new();
        if metrics.gas_used > 500_000 {
            r.push(
                engine_rec(
                    "gas_opt_1",
                    contract.clone(),
                    OptimizationCategory::Gas,
                    OptimizationType::GasEfficiency,
                    if metrics.gas_used > 2_000_000 {
                        Priority::High
                    } else {
                        Priority::Medium
                    },
                    "Optimize gas usage through efficient algorithms and data structures",
                    "Gas Optimization",
                    ImpactEstimate { performance_improvement: 20, cost_reduction: 25, user_experience_improvement: 15, reliability_improvement: 10 },
                    Complexity::Moderate,
                    metrics.gas_used / 4,
                    20,
                    four_texts(
                        "Analyze gas-intensive functions",
                        "Implement gas optimization patterns",
                        "Use efficient data types",
                        "Batch operations where possible",
                    ),
                    20,
                    ImplementationEffort::Medium,
                ),
            );
        }
        let ghost first = r@;
        if metrics.storage_writes > 10 {
            r.push(
                engine_rec(
                    "gas_storage_1",
                    contract.clone(),
                    OptimizationCategory::Gas,
                    OptimizationType::StorageEfficiency,
                    Priority::Medium,
                    "Optimize storage operations to reduce gas costs",
                    "Storage Optimization",
                    ImpactEstimate { performance_improvement: 15, cost_reduction: 30, user_experience_improvement: 10, reliability_improvement: 5 },
                    Complexity::Simple,
                    metrics.storage_writes as u64 * 100,
                    15,
                    three_texts("Batch storage operations", "Use packed storage structures", "Minimize storage writes"),
                    15,
                    ImplementationEffort::Simple,
                ),
            );
            assert(r@[0] == first[0] || first.len() == 0);
        }
        r
    }

    /// Storage recommendations for sample `metrics` of `contract`.
    pub fn analyze_storage_optimization(contract: &String, metrics: &PerformanceMetrics) -> (r: Vec<OptimizationRecommendation>)
        ensures
            storage_recommendations_spec(contract@, *metrics, r@),
    {
        let mut r: Vec<OptimizationRecommendation> = Vec::new();
        let ratio = if metrics.storage_writes > 0 {
            metrics.storage_reads / metrics.storage_writes
        } else {
            metrics.storage_reads
        };
        if ratio < 5 && metrics.storage_writes > 5 {
            r.push(
                engine_rec(
                    "storage_opt_1",
                    contract.clone(),
                    OptimizationCategory::Storage,
                    OptimizationType::StorageEfficiency,
                    Priority::Medium,
                    "Implement storage caching to improve read efficiency",
                    "Storage Caching",
                    ImpactEstimate { performance_improvement: 25, cost_reduction: 20, user_experience_improvement: 20, reliability_improvement: 15 },
                    Complexity::Moderate,
                    metrics.storage_reads as u64 * 10,
                    25,
                    four_texts(
                        "Implement storage caching layer",
                        "Use efficient data structures",
                        "Minimize redundant reads",
                        "Implement lazy loading",
                    ),
                    25,
                    ImplementationEffort::Medium,
                ),
            );
        }
        r
    }

    /// Memory recommendations for sample `metrics`.
    pub fn analyze_memory_optimization(contract: &String, metrics: &PerformanceMetrics) -> (r: Vec<OptimizationRecommendation>)
        ensures
            memory_recommendations_spec(contract@, *metrics, r@),
    {
        let mut r: Vec<OptimizationRecommendation> = Vec::new();
        if metrics.memory_usage > 50_000_000 {
            r.push(
                engine_rec(
                    "memory_opt_1",
                    contract.clone(),
                    OptimizationCategory::Memory,
                    OptimizationType::MemoryEfficiency,
                    if metrics.memory_usage > 200_000_000 {
                        Priority::High
                    } else {
                        Priority::Medium
                    },
                    "Optimize memory usage through efficient data structures and memory management",
                    "Memory Optimization",
                    ImpactEstimate { performance_improvement: 30, cost_reduction: 15, user_experience_improvement: 25, reliability_improvement: 20 },
                    Complexity::Complex,
                    (metrics.memory_usage / 1_000_000) as u64 * 5,
                    30,
                    four_texts(
                        "Profile memory usage patterns",
                        "Implement memory pooling",
                        "Optimize data structures",
                        "Use efficient serialization",
                    ),
                    30,
                    ImplementationEffort::Complex,
                ),
            );
        }
        r
    }

    /// Network recommendations for sample `metrics`.
    pub fn analyze_network_optimization(contract: &String, metrics: &PerformanceMetrics) -> (r: Vec<OptimizationRecommendation>)
        ensures
            network_recommendations_spec(contract@, *metrics, r@),
    {
        let mut r: Vec<OptimizationRecommendation> = Vec::new();
        if metrics.network_latency > 100 {
            r.push(
                engine_rec(
                    "network_opt_1",
                    contract.clone(),
                    OptimizationCategory::Network,
                    OptimizationType::NetworkEfficiency,
                    if metrics.network_latency > 500 {
                        Priority::High
                    } else {
                        Priority::Medium
                    },
                    "Optimize network operations to reduce latency",
                    "Network Optimization",
                    ImpactEstimate { performance_improvement: 35, cost_reduction: 10, user_experience_improvement: 40, reliability_improvement: 15 },
                    Complexity::Moderate,
                    metrics.network_latency as u64 * 2,
                    35,
                    four_texts(
                        "Implement request batching",
                        "Use connection pooling",
                        "Optimize payload sizes",
                        "Implement caching strategies",
                    ),
                    35,
                    ImplementationEffort::Medium,
                ),
            );
        }
        r
    }

    /// Algorithm recommendations for sample `metrics`.
    pub fn analyze_algorithm_optimization(contract: &String, metrics: &PerformanceMetrics) -> (r: Vec<OptimizationRecommendation>)
        requires
            savings_in_range(*metrics),
        ensures
            algorithm_recommendations_spec(contract@, *metrics, r@),
    {
        let mut r: Vec<OptimizationRecommendation> = Vec::new();
        if metrics.average_execution_time > 500 {
            r.push(
                engine_rec(
                    "algo_opt_1",
                    contract.clone(),
                    OptimizationCategory::Algorithm,
                    OptimizationType::AlgorithmEfficiency,
                    if metrics.average_execution_time > 2000 {
                        Priority::Critical
                    } else {
                        Priority::High
                    },
                    "Optimize algorithms for better time complexity",
                    "Algorithm Optimization",
                    ImpactEstimate { performance_improvement: 50, cost_reduction: 20, user_experience_improvement: 45, reliability_improvement: 25 },
                    Complexity::Complex,
                    metrics.average_execution_time / 10,
                    50,
                    four_texts(
                        "Profile algorithm performance",
                        "Analyze time complexity",
                        "Implement efficient algorithms",
                        "Use appropriate data structures",
                    ),
                    50,
                    ImplementationEffort::Complex,
                ),
            );
        }
        r
    }

    /// Architecture recommendations for sample `metrics`.
    pub fn analyze_architecture_optimization(contract: &String, metrics: &PerformanceMetrics) -> (r: Vec<OptimizationRecommendation>)
        ensures
            architecture_recommendations_spec(contract@, *metrics, r@),
    {
        let mut r: Vec<OptimizationRecommendation> = Vec::new();
        if metrics.error_rate > 5 {
            r.push(
                engine_rec(
                    "arch_opt_1",
                    contract.clone(),
                    OptimizationCategory::Architecture,
                    OptimizationType::ArchitectureImprovement,
                    if metrics.error_rate > 15 {
                        Priority::Critical
                    } else {
                        Priority::High
                    },
                    "Improve architecture resilience and error handling",
                    "Architecture Optimization",
                    ImpactEstimate { performance_improvement: 15, cost_reduction: 10, user_experience_improvement: 30, reliability_improvement: 60 },
                    Complexity::VeryComplex,
                    metrics.error_rate as u64 * 50,
                    15,
                    four_texts(
                        "Implement robust error handling",
                        "Add circuit breaker patterns",
                        "Implement retry mechanisms",
                        "Add comprehensive logging",
                    ),
                    15,
                    ImplementationEffort::VeryComplex,
                ),
            );
        }
        r
    }

    /// All recommendations for `contract` from its latest sample in the hour
    /// up to `now`; `MetricsNotFound` without one.
    pub fn generate_recommendations(st: &DiagnosticsStorage, contract: &String, now: u64) -> (r: Result<
        Vec<OptimizationRecommendation>,
        DiagnosticsError,
    >)
        requires
            st.wf(),
            latest_search_in_range(st.metrics@, contract@, now),
            latest_sample(st.metrics@, contract@, now) matches Some(m) ==> savings_in_range(m),
        ensures
            match latest_sample(st.metrics@, contract@, now) {
                None => r == Err::<Vec<OptimizationRecommendation>, DiagnosticsError>(DiagnosticsError::MetricsNotFound),
                Some(m) => r matches Ok(v) && all_recommendations_spec(contract@, m, v@),
            },
            r matches Ok(v) ==> forall|i: int| 0 <= i < v@.len() ==> (#[trigger] v@[i]).contract_address@
                == contract@,
    {
        let m = match st.get_latest_performance_metrics(contract, now) {
            Some(m) => m,
            None => {
                return Err(DiagnosticsError::MetricsNotFound);
            },
        };
        let mut v: Vec<OptimizationRecommendation> = Vec::new();
        let mut d1 = Self::analyze_gas_optimization(contract, &m);
        let ghost g1 = d1@;
        v.append(&mut d1);
        let mut d2 = Self::analyze_storage_optimization(contract, &m);
        let ghost g2 = d2@;
        v.append(&mut d2);
        let mut d3 = Self::analyze_memory_optimization(contract, &m);
        let ghost g3 = d3@;
        v.append(&mut d3);
        let mut d4 = Self::analyze_network_optimization(contract, &m);
        let ghost g4 = d4@;
        v.append(&mut d4);
        let mut d5 = Self::analyze_algorithm_optimization(contract, &m);
        let ghost g5 = d5@;
        v.append(&mut d5);
        let mut d6 = Self::analyze_architecture_optimization(contract, &m);
        let ghost g6 = d6@;
        v.append(&mut d6);
        proof {
            assert(v@ =~= g1 + g2 + g3 + g4 + g5 + g6);
            assert(gas_recommendations_spec(contract@, m, g1));
            assert(storage_recommendations_spec(contract@, m, g2));
            assert(memory_recommendations_spec(contract@, m, g3));
            assert(network_recommendations_spec(contract@, m, g4));
            assert(algorithm_recommendations_spec(contract@, m, g5));
            assert(architecture_recommendations_spec(contract@, m, g6));
            assert forall|i: int| 0 <= i < v@.len() implies (#[trigger] v@[i]).contract_address@ == contract@ by {
                let k = i - g1.len();
                if i < g1.len() {
                    assert(v@[i] == g1[i]);
                } else if k < g2.len() {
                    assert(v@[i] == g2[k]);
                } else if k - g2.len() < g3.len() {
                    assert(v@[i] == g3[k - g2.len()]);
                } else if k - g2.len() - g3.len() < g4.len() {
                    assert(v@[i] == g4[k - g2.len() - g3.len()]);
                } else if k - g2.len() - g3.len() - g4.len() < g5.len() {
                    assert(v@[i] == g5[k - g2.len() - g3.len() - g4.len()]);
                } else {
                    assert(v@[i] == g6[k - g2.len() - g3.len() - g4.len() - g5.len()]);
                }
            }
        }
        Ok(v)
    }

    /// Real-time alerts for sample `metrics` (see `alerts_spec`).
    pub fn generate_real_time_alerts(metrics: &PerformanceMetrics) -> (r: Result<Vec<OptimizationAlert>, DiagnosticsError>)
        requires
            metrics.storage_reads * 2 <= u32::MAX,
            metrics.storage_writes > metrics.storage_reads * 2 ==> metrics.storage_writes * 50 <= u32::MAX,
        ensures
            r matches Ok(v) && alerts_spec(*metrics, v@),
    {
        let mut v: Vec<OptimizationAlert> = Vec::new();
        if metrics.gas_used > 1_000_000 {
            v.push(OptimizationAlert {
                alert_type: AlertType::GasUsageHigh,
                severity: if metrics.gas_used > 5_000_000 {
                    RiskLevel::Critical
                } else {
                    RiskLevel::High
                },
                description: text_bytes("Gas usage is high, consider optimization"),
                immediate_actions: text_list2("Review gas-intensive operations", "Implement gas optimization patterns"),
                expected_savings: metrics.gas_used / 10,
            });
        }
        let ghost v1 = v@;
        if metrics.memory_usage > 100_000_000 {
            v.push(OptimizationAlert {
                alert_type: AlertType::MemoryUsageHigh,
                severity: if metrics.memory_usage > 500_000_000 {
                    RiskLevel::Critical
                } else {
                    RiskLevel::High
                },
                description: text_bytes("Memory usage is high, optimization needed"),
                immediate_actions: text_list2("Optimize data structures", "Implement memory pooling"),
                expected_savings: (metrics.memory_usage / 20) as u64,
            });
        }
        let ghost v2 = v@;
        if metrics.execution_time > 1000 {
            v.push(OptimizationAlert {
                alert_type: AlertType::ExecutionTimeSlow,
                severity: if metrics.execution_time > 5000 {
                    RiskLevel::High
                } else {
                    RiskLevel::Medium
                },
                description: text_bytes("Execution time is slow, performance optimization needed"),
                immediate_actions: text_list2("Profile slow operations", "Optimize algorithms"),
                expected_savings: metrics.execution_time / 4,
            });
        }
        let ghost v3 = v@;
        if metrics.storage_writes > metrics.storage_reads * 2 {
            v.push(OptimizationAlert {
                alert_type: AlertType::StorageInefficient,
                severity: RiskLevel::Medium,
                description: text_bytes("High write-to-read ratio indicates storage inefficiency"),
                immediate_actions: text_list2("Implement storage batching", "Optimize storage access patterns"),
                expected_savings: (metrics.storage_writes * 50) as u64,
            });
        }
        proof {
            let m = *metrics;
            let g = one(m.gas_used > 1_000_000);
            let me = one(m.memory_usage > 100_000_000);
            let e = one(m.execution_time > 1000);
            assert(v1.len() == g);
            assert(v2.len() == g + me);
            assert(v3.len() == g + me + e);
            if m.gas_used > 1_000_000 {
                assert(v@[0] == v1[0]);
            }
            if m.memory_usage > 100_000_000 {
                assert(v@[g] == v2[g]);
            }
            if m.execution_time > 1000 {
                assert(v@[g + me] == v3[g + me]);
            }
        }
        Ok(v)
    }

    /// Return on investment reported for a cost analysis: 5000 to implement,
    /// 1000 saved a month, paid back in 5 months, 240 percent a year.
    pub fn calculate_roi_analysis() -> (r: ROIAnalysis)
        ensures
            r == (ROIAnalysis {
                implementation_cost: 5000,
                monthly_savings: 1000,
                payback_period_months: 5,
                annual_roi_percentage: 240,
            }),
    {
        ROIAnalysis { implementation_cost: 5000, monthly_savings: 1000, payback_period_months: 5, annual_roi_percentage: 240 }
    }
}

} // verus!
