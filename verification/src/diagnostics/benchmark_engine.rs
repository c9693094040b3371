//! Benchmarks: every scenario's calls are simulated, scored and summarised,
//! and the result is stored under the benchmark's name. Simulated calls take
//! no ledger time; every call fails when the ledger sequence is a multiple of 10.
use vstd::prelude::*;
use vstd::string::StringSliceAdditionalSpecFns;
use crate::text::{text_bytes, copy_bytes, copy_texts, texts};
use crate::diagnostics::errors::DiagnosticsError;
use crate::diagnostics::ids::{benchmark_id, benchmark_id_spec};
use crate::diagnostics::performance_monitor::floor_sub;
use crate::diagnostics::storage::DiagnosticsStorage;
use crate::diagnostics::types::{
    BenchmarkConfig, BenchmarkResult, BottleneckType, FunctionCall, PerformanceBottleneck,
    PerformanceComparison, RiskLevel, ScenarioResult, TestScenario,
};

verus! {

/// Performance benchmarking and comparison.
pub struct BenchmarkEngine;

/// Direction of benchmark results over time.
#[derive(Clone, Copy, Debug, PartialEq, Eq, Structural)]
pub enum PerformanceTrend {
    Improving,
    Stable,
    Degrading,
}

/// A benchmark compared with its history.
#[derive(Clone, Debug)]
pub struct HistoricalComparison {
    pub benchmark_name: String,
    pub comparison_period: u64,
    pub performance_trend: PerformanceTrend,
    pub average_improvement: i32,
    pub best_performance_date: u64,
    pub worst_performance_date: u64,
    pub trend_analysis: Vec<u8>,
}

impl ScenarioResult {
    /// Field by field equal, the name by its bytes.
    pub open spec fn same_as(&self, o: &ScenarioResult) -> bool {
        &&& self.scenario_name@ == o.scenario_name@
        &&& self.success_rate == o.success_rate
        &&& self.average_execution_time == o.average_execution_time
        &&& self.total_gas_used == o.total_gas_used
        &&& self.peak_memory_usage == o.peak_memory_usage
        &&& self.error_count == o.error_count
        &&& self.performance_score == o.performance_score
    }

    /// A copy of this result.
    pub fn copied(&self) -> (r: ScenarioResult)
        ensures
            r.same_as(self),
    {
        ScenarioResult {
            scenario_name: copy_bytes(&self.scenario_name),
            success_rate: self.success_rate,
            average_execution_time: self.average_execution_time,
            total_gas_used: self.total_gas_used,
            peak_memory_usage: self.peak_memory_usage,
            error_count: self.error_count,
            performance_score: self.performance_score,
        }
    }
}

impl PerformanceBottleneck {
    /// Field by field equal, the description by its bytes.
    pub open spec fn same_as(&self, o: &PerformanceBottleneck) -> bool {
        &&& self.span_id == o.span_id
        &&& self.bottleneck_type == o.bottleneck_type
        &&& self.severity == o.severity
        &&& self.duration == o.duration
        &&& self.impact_percentage == o.impact_percentage
        &&& self.description@ == o.description@
    }

    /// A copy of this bottleneck.
    pub fn copied(&self) -> (r: PerformanceBottleneck)
        ensures
            r.same_as(self),
    {
        PerformanceBottleneck {
            span_id: self.span_id,
            bottleneck_type: self.bottleneck_type,
            severity: self.severity,
            duration: self.duration,
            impact_percentage: self.impact_percentage,
            description: copy_bytes(&self.description),
        }
    }
}

impl BenchmarkResult {
    /// Field by field equal, lists item by item, texts by their bytes.
    pub open spec fn same_as(&self, o: &BenchmarkResult) -> bool {
        &&& self.benchmark_id == o.benchmark_id
        &&& self.benchmark_name == o.benchmark_name
        &&& self.execution_time == o.execution_time
        &&& self.scenario_results@.len() == o.scenario_results@.len()
        &&& forall|i: int| 0 <= i < self.scenario_results@.len() ==> (#[trigger] self.scenario_results@[i]).same_as(&o.scenario_results@[i])
        &&& self.has_comparison == o.has_comparison
        &&& self.comparison_baseline_time == o.comparison_baseline_time
        &&& self.comparison_improvement_pct == o.comparison_improvement_pct
        &&& self.bottlenecks@.len() == o.bottlenecks@.len()
        &&& forall|i: int| 0 <= i < self.bottlenecks@.len() ==> (#[trigger] self.bottlenecks@[i]).same_as(&o.bottlenecks@[i])
        &&& texts(self.recommendations@) == texts(o.recommendations@)
        &&& self.overall_score == o.overall_score
        &&& self.performance_comparison@ == o.performance_comparison@
    }

    /// A copy of this result.
    pub fn copied(&self) -> (r: BenchmarkResult)
        ensures
            r.same_as(self),
    {
        let mut scenarios: Vec<ScenarioResult> = Vec::new();
        let mut i: usize = 0;
        while i < self.scenario_results.len()
            invariant
                i <= self.scenario_results@.len(),
                scenarios@.len() == i,
                forall|k: int| 0 <= k < i ==> (#[trigger] scenarios@[k]).same_as(&self.scenario_results@[k]),
            decreases self.scenario_results@.len() - i,
        {
            scenarios.push(self.scenario_results[i].copied());
            i += 1;
        }
        let mut bottlenecks: Vec<PerformanceBottleneck> = Vec::new();
        let mut j: usize = 0;
        while j < self.bottlenecks.len()
            invariant
                j <= self.bottlenecks@.len(),
                bottlenecks@.len() == j,
                forall|k: int| 0 <= k < j ==> (#[trigger] bottlenecks@[k]).same_as(&self.bottlenecks@[k]),
            decreases self.bottlenecks@.len() - j,
        {
            bottlenecks.push(self.bottlenecks[j].copied());
            j += 1;
        }
        BenchmarkResult {
            benchmark_id: self.benchmark_id,
            benchmark_name: self.benchmark_name.clone(),
            execution_time: self.execution_time,
            scenario_results: scenarios,
            has_comparison: self.has_comparison,
            comparison_baseline_time: self.comparison_baseline_time,
            comparison_improvement_pct: self.comparison_improvement_pct,
            bottlenecks,
            recommendations: copy_texts(&self.recommendations),
            overall_score: self.overall_score,
            performance_comparison: copy_bytes(&self.performance_comparison),
        }
    }
}

/// Simulated gas of a list of calls: 1000 per unit of expected duration.
pub open spec fn calls_gas(calls: Seq<FunctionCall>) -> nat
    decreases calls.len(),
{
    if calls.len() == 0 {
        0
    } else {
        (calls_gas(calls.drop_last()) + calls.last().expected_duration * 1000) as nat
    }
}

/// Failed calls of a scenario with `n` calls: all of them when the ledger
/// sequence is a multiple of 10, none otherwise.
pub open spec fn scenario_errors(n: nat, sequence: u32) -> nat {
    if sequence % 10 == 0 {
        n
    } else {
        0
    }
}

/// Percentage of the `n` calls that succeeded.
pub open spec fn success_rate_spec(n: nat, errors: nat) -> nat {
    if n > 0 {
        ((n - errors) * 100 / (n as int)) as nat
    } else {
        100
    }
}

/// Scenario score: the success rate, minus 10 for an execution time above
/// 1000, minus 5 for gas above 1 000 000, at least 0 and at most 100.
pub open spec fn scenario_score_spec(success_rate: u32, execution_time: u64, gas_used: u64) -> int {
    let s = floor_sub(
        floor_sub(success_rate as int, if execution_time > 1000 { 10 } else { 0 }),
        if gas_used > 1_000_000 { 5 } else { 0 },
    );
    if s > 100 {
        100
    } else {
        s
    }
}

/// `r` is what running scenario `sc` gives at ledger sequence `sequence`.
pub open spec fn scenario_outcome(r: ScenarioResult, sc: TestScenario, sequence: u32) -> bool {
    let n = sc.function_calls@.len();
    let errors = scenario_errors(n, sequence);
    let rate = success_rate_spec(n, errors);
    &&& r.scenario_name@ == sc.scenario_name@
    &&& r.success_rate == rate
    &&& r.average_execution_time == 0
    &&& r.total_gas_used == calls_gas(sc.function_calls@)
    &&& r.peak_memory_usage == (if n > 0 { 100_000u32 } else { 0u32 })
    &&& r.error_count == errors
    &&& r.performance_score == scenario_score_spec(rate as u32, 0, calls_gas(sc.function_calls@) as u64)
}

/// A scenario can be simulated: it has calls, its success percentage and its
/// gas stay within their widths.
pub open spec fn scenario_runnable(sc: TestScenario) -> bool {
    &&& sc.function_calls@.len() > 0
    &&& sc.function_calls@.len() * 100 <= u32::MAX
    &&& calls_gas(sc.function_calls@) <= u64::MAX
}

/// Number of calls over all scenarios.
pub open spec fn calls_total(s: Seq<TestScenario>) -> nat
    decreases s.len(),
{
    if s.len() == 0 {
        0
    } else {
        calls_total(s.drop_last()) + s.last().function_calls@.len()
    }
}

/// Sum of the scenarios' scores.
pub open spec fn score_sum(s: Seq<ScenarioResult>) -> nat
    decreases s.len(),
{
    if s.len() == 0 {
        0
    } else {
        (score_sum(s.drop_last()) + s.last().performance_score) as nat
    }
}

/// Sum of the scenarios' failed calls.
pub open spec fn error_sum(s: Seq<ScenarioResult>) -> nat
    decreases s.len(),
{
    if s.len() == 0 {
        0
    } else {
        (error_sum(s.drop_last()) + s.last().error_count) as nat
    }
}

/// Indices of the scenarios slower than 1000 on average, in order.
pub open spec fn slow_indices(s: Seq<ScenarioResult>) -> Seq<int>
    decreases s.len(),
{
    if s.len() == 0 {
        Seq::empty()
    } else if s.last().average_execution_time > 1000 {
        slow_indices(s.drop_last()).push(s.len() - 1)
    } else {
        slow_indices(s.drop_last())
    }
}

/// `b` is the bottleneck reported for scenario `i` with result `r`.
pub open spec fn bottleneck_for(b: PerformanceBottleneck, i: int, r: ScenarioResult) -> bool {
    &&& forall|j: int| 0 <= j < 32 ==> #[trigger] b.span_id@[j] == i as u8
    &&& b.bottleneck_type == BottleneckType::CPU
    &&& b.severity == RiskLevel::Medium
    &&& b.duration == r.average_execution_time
    &&& b.impact_percentage == 30
    &&& b.description@ == "Slow execution in scenario".spec_bytes()
}

/// The recommendations for a set of scenario results.
pub open spec fn recommendations_spec(s: Seq<ScenarioResult>) -> Seq<Seq<u8>> {
    let a: Seq<Seq<u8>> = if score_sum(s) / s.len() < 70 {
        seq!["Consider optimizing critical performance paths".spec_bytes()]
    } else {
        seq![]
    };
    let b: Seq<Seq<u8>> = if error_sum(s) > 0 {
        seq!["Implement better error handling and recovery".spec_bytes()]
    } else {
        seq![]
    };
    a + b
}

/// Average score of the scenarios, 0 for none.
pub open spec fn overall_score_spec(s: Seq<ScenarioResult>) -> nat {
    if s.len() == 0 {
        0
    } else {
        score_sum(s) / s.len()
    }
}

impl BenchmarkEngine {
    /// Runs a benchmark at ledger time `now` and sequence `sequence`, stores
    /// the result under the benchmark's name and returns it.
    pub fn run_benchmark(
        st: &mut DiagnosticsStorage,
        config: BenchmarkConfig,
        now: u64,
        sequence: u32,
    ) -> (r: Result<BenchmarkResult, DiagnosticsError>)
        requires
            old(st).wf(),
            config.target_contracts@.len() > 0 && config.test_scenarios@.len() > 0 ==> {
                &&& forall|i: int| 0 <= i < config.test_scenarios@.len() ==> scenario_runnable(#[trigger] config.test_scenarios@[i])
                &&& config.test_scenarios@.len() * 100 <= u32::MAX
                &&& calls_total(config.test_scenarios@) <= u32::MAX
            },
        ensures
            final(st).wf(),
            config.target_contracts@.len() == 0 ==> r == Err::<BenchmarkResult, DiagnosticsError>(DiagnosticsError::InvalidBenchmarkConfig),
            config.target_contracts@.len() > 0 && config.test_scenarios@.len() == 0 ==> r == Err::<BenchmarkResult, DiagnosticsError>(DiagnosticsError::InvalidTestScenario),
            r is Err ==> *final(st) == *old(st),
            config.target_contracts@.len() > 0 && config.test_scenarios@.len() > 0 ==> r is Ok,
            r matches Ok(res) ==> {
                &&& forall|j: int| 0 <= j < 32 ==> #[trigger] res.benchmark_id@[j] == benchmark_id_spec(now, j)
                &&& res.benchmark_name == config.benchmark_name
                &&& res.execution_time == 0
                &&& res.scenario_results@.len() == config.test_scenarios@.len()
                &&& forall|i: int| 0 <= i < config.test_scenarios@.len() ==> scenario_outcome(
                    #[trigger] res.scenario_results@[i],
                    config.test_scenarios@[i],
                    sequence,
                )
                &&& res.bottlenecks@.len() == 0
                &&& texts(res.recommendations@) == recommendations_spec(res.scenario_results@)
                &&& res.overall_score == overall_score_spec(res.scenario_results@)
                &&& res.has_comparison == config.has_baseline
                &&& res.comparison_baseline_time == (if config.has_baseline { 1000u64 } else { 0u64 })
                &&& res.comparison_improvement_pct == (if config.has_baseline { 15i32 } else { 0i32 })
                &&& res.performance_comparison@ == (if config.has_baseline {
                    "Comparison completed".spec_bytes()
                } else {
                    "No baseline".spec_bytes()
                })
                &&& final(st).benchmark_results@ == old(st).benchmark_results@.insert(
                    config.benchmark_name@,
                    final(st).benchmark_results@[config.benchmark_name@],
                )
                &&& final(st).benchmark_results@[config.benchmark_name@].same_as(&res)
                &&& *final(st) == (DiagnosticsStorage { benchmark_results: final(st).benchmark_results, ..*old(st) })
            },
    {
        Self::validate_config(&config)?;
        let id = benchmark_id(now);
        let mut scenario_results: Vec<ScenarioResult> = Vec::new();
        let mut i: usize = 0;
        while i < config.test_scenarios.len()
            invariant
                i <= config.test_scenarios@.len(),
                scenario_results@.len() == i,
                forall|k: int| 0 <= k < config.test_scenarios@.len() ==> scenario_runnable(#[trigger] config.test_scenarios@[k]),
                forall|k: int| 0 <= k < i ==> scenario_outcome(#[trigger] scenario_results@[k], config.test_scenarios@[k], sequence),
            decreases config.test_scenarios@.len() - i,
        {
            let res = Self::run_test_scenario(&config.test_scenarios[i], sequence);
            scenario_results.push(res);
            i += 1;
        }
        proof {
            Self::lemma_outcome_bounds(scenario_results@, config.test_scenarios@, sequence);
        }
        let bottlenecks = Self::identify_performance_bottlenecks(&scenario_results);
        proof {
            Self::lemma_fast_scenarios(scenario_results@);
        }
        let recommendations = Self::generate_benchmark_recommendations(&scenario_results);
        let overall_score = Self::calculate_overall_score(&scenario_results);
        let result = if config.has_baseline {
            let comp = Self::compare_with_baseline(&config.benchmark_name, &config.baseline_version);
            let comp = match comp {
                Ok(c) => c,
                Err(e) => {
                    return Err(e);
                },
            };
            BenchmarkResult {
                benchmark_id: id,
                benchmark_name: config.benchmark_name.clone(),
                execution_time: 0,
                scenario_results,
                has_comparison: true,
                comparison_baseline_time: comp.baseline_duration,
                comparison_improvement_pct: comp.improvement_percentage,
                bottlenecks,
                recommendations,
                overall_score,
                performance_comparison: text_bytes("Comparison completed"),
            }
        } else {
            BenchmarkResult {
                benchmark_id: id,
                benchmark_name: config.benchmark_name.clone(),
                execution_time: 0,
                scenario_results,
                has_comparison: false,
                comparison_baseline_time: 0,
                comparison_improvement_pct: 0,
                bottlenecks,
                recommendations,
                overall_score,
                performance_comparison: text_bytes("No baseline"),
            }
        };
        st.store_benchmark_results(config.benchmark_name.clone(), result.copied());
        Ok(result)
    }

    /// The results of a run are within the widths the summary is computed in.
    proof fn lemma_outcome_bounds(res: Seq<ScenarioResult>, scs: Seq<TestScenario>, sequence: u32)
        requires
            res.len() == scs.len(),
            forall|k: int| 0 <= k < scs.len() ==> scenario_runnable(#[trigger] scs[k]),
            forall|k: int| 0 <= k < scs.len() ==> scenario_outcome(#[trigger] res[k], scs[k], sequence),
        ensures
            forall|k: int| 0 <= k < res.len() ==> (#[trigger] res[k]).performance_score <= 100,
            forall|k: int| 0 <= k < res.len() ==> (#[trigger] res[k]).average_execution_time == 0,
            error_sum(res) <= calls_total(scs),
        decreases res.len(),
    {
        assert forall|k: int| 0 <= k < res.len() implies (#[trigger] res[k]).performance_score <= 100 by {
            assert(scenario_outcome(res[k], scs[k], sequence));
        }
        if res.len() > 0 {
            let r2 = res.drop_last();
            let s2 = scs.drop_last();
            assert forall|k: int| 0 <= k < s2.len() implies scenario_runnable(#[trigger] s2[k]) by {
                assert(s2[k] == scs[k]);
            }
            assert forall|k: int| 0 <= k < s2.len() implies scenario_outcome(#[trigger] r2[k], s2[k], sequence) by {
                assert(s2[k] == scs[k] && r2[k] == res[k]);
            }
            Self::lemma_outcome_bounds(r2, s2, sequence);
            assert(scenario_outcome(res[res.len() - 1], scs[scs.len() - 1], sequence));
        }
    }

    /// Scenarios of a run take no time, so none of them is a bottleneck.
    proof fn lemma_fast_scenarios(res: Seq<ScenarioResult>)
        requires
            forall|k: int| 0 <= k < res.len() ==> (#[trigger] res[k]).average_execution_time == 0,
        ensures
            slow_indices(res).len() == 0,
        decreases res.len(),
    {
        if res.len() > 0 {
            assert forall|k: int| 0 <= k < res.drop_last().len() implies (#[trigger] res.drop_last()[k]).average_execution_time == 0 by {
                assert(res.drop_last()[k] == res[k]);
            }
            Self::lemma_fast_scenarios(res.drop_last());
        }
    }

    /// The benchmark compared with its history over `time_period` seconds
    /// before `now`: improving by 15 percent, best a day ago, worst a week ago.
    pub fn compare_with_historical(benchmark_name: &String, time_period: u64, now: u64) -> (r: Result<
        HistoricalComparison,
        DiagnosticsError,
    >)
        requires
            now >= 604800,
        ensures
            r matches Ok(h) && {
                &&& h.benchmark_name == *benchmark_name
                &&& h.comparison_period == time_period
                &&& h.performance_trend == PerformanceTrend::Improving
                &&& h.average_improvement == 15
                &&& h.best_performance_date == now - 86400
                &&& h.worst_performance_date == now - 604800
                &&& h.trend_analysis@ == "Performance has improved consistently over the past week".spec_bytes()
            },
    {
        Ok(HistoricalComparison {
            benchmark_name: benchmark_name.clone(),
            comparison_period: time_period,
            performance_trend: PerformanceTrend::Improving,
            average_improvement: 15,
            best_performance_date: now - 86400,
            worst_performance_date: now - 604800,
            trend_analysis: text_bytes("Performance has improved consistently over the past week"),
        })
    }

    /// `InvalidBenchmarkConfig` without target contracts, `InvalidTestScenario`
    /// without scenarios.
    pub fn validate_config(config: &BenchmarkConfig) -> (r: Result<(), DiagnosticsError>)
        ensures
            config.target_contracts@.len() == 0 ==> r == Err::<(), DiagnosticsError>(DiagnosticsError::InvalidBenchmarkConfig),
            config.target_contracts@.len() > 0 && config.test_scenarios@.len() == 0 ==> r == Err::<(), DiagnosticsError>(DiagnosticsError::InvalidTestScenario),
            config.target_contracts@.len() > 0 && config.test_scenarios@.len() > 0 ==> r is Ok,
    {
        if config.target_contracts.len() == 0 {
            return Err(DiagnosticsError::InvalidBenchmarkConfig);
        }
        if config.test_scenarios.len() == 0 {
            return Err(DiagnosticsError::InvalidTestScenario);
        }
        Ok(())
    }

    /// Simulates one scenario at ledger sequence `sequence`.
    pub fn run_test_scenario(scenario: &TestScenario, sequence: u32) -> (r: ScenarioResult)
        requires
            scenario_runnable(*scenario),
        ensures
            scenario_outcome(r, *scenario, sequence),
    {
        let calls = &scenario.function_calls;
        let mut total_gas_used: u64 = 0;
        let mut error_count: u32 = 0;
        let mut peak_memory: u32 = 0;
        let mut i: usize = 0;
        while i < calls.len()
            invariant
                i <= calls@.len(),
                calls@.len() * 100 <= u32::MAX,
                calls_gas(calls@) <= u64::MAX,
                total_gas_used == calls_gas(calls@.subrange(0, i as int)),
                error_count == scenario_errors(i as nat, sequence),
                peak_memory == (if i > 0 { 100_000u32 } else { 0u32 }),
            decreases calls@.len() - i,
        {
            proof {
                Self::lemma_calls_gas_prefix(calls@, i as int + 1);
                assert(calls@.subrange(0, i as int + 1).drop_last() =~= calls@.subrange(0, i as int));
            }
            total_gas_used = total_gas_used + calls[i].expected_duration * 1000;
            peak_memory = 100_000;
            if sequence % 10 == 0 {
                error_count = error_count + 1;
            }
            i += 1;
        }
        assert(calls@.subrange(0, calls@.len() as int) =~= calls@);
        let n: u32 = calls.len() as u32;
        let success_rate: u32 = ((n - error_count) * 100) / n;
        ScenarioResult {
            scenario_name: copy_bytes(&scenario.scenario_name),
            success_rate,
            average_execution_time: 0,
            total_gas_used,
            peak_memory_usage: peak_memory,
            error_count,
            performance_score: Self::calculate_scenario_score(success_rate, 0, total_gas_used),
        }
    }

    /// The gas of a prefix of the calls is at most the gas of all of them.
    proof fn lemma_calls_gas_prefix(calls: Seq<FunctionCall>, k: int)
        requires
            0 <= k <= calls.len(),
        ensures
            calls_gas(calls.subrange(0, k)) <= calls_gas(calls),
        decreases calls.len(),
    {
        if k < calls.len() {
            assert(calls.drop_last().subrange(0, k) =~= calls.subrange(0, k));
            Self::lemma_calls_gas_prefix(calls.drop_last(), k);
        } else {
            assert(calls.subrange(0, k) =~= calls);
        }
    }

    /// One bottleneck for every scenario slower than 1000 on average, in order,
    /// identified by the scenario's index.
    pub fn identify_performance_bottlenecks(results: &Vec<ScenarioResult>) -> (r: Vec<PerformanceBottleneck>)
        ensures
            r@.len() == slow_indices(results@).len(),
            forall|k: int| 0 <= k < r@.len() ==> bottleneck_for(
                #[trigger] r@[k],
                slow_indices(results@)[k],
                results@[slow_indices(results@)[k]],
            ),
    {
        let mut r: Vec<PerformanceBottleneck> = Vec::new();
        let mut i: usize = 0;
        while i < results.len()
            invariant
                i <= results@.len(),
                r@.len() == slow_indices(results@.subrange(0, i as int)).len(),
                forall|k: int| 0 <= k < r@.len() ==> bottleneck_for(
                    #[trigger] r@[k],
                    slow_indices(results@.subrange(0, i as int))[k],
                    results@[slow_indices(results@.subrange(0, i as int))[k]],
                ),
                forall|k: int| 0 <= k < slow_indices(results@.subrange(0, i as int)).len() ==> 0 <= #[trigger] slow_indices(results@.subrange(0, i as int))[k] < i,
            decreases results@.len() - i,
        {
            let ghost before = slow_indices(results@.subrange(0, i as int));
            proof {
                assert(results@.subrange(0, i as int + 1).drop_last() =~= results@.subrange(0, i as int));
            }
            if results[i].average_execution_time > 1000 {
                let b = i as u8;
                r.push(PerformanceBottleneck {
                    span_id: [b; 32],
                    bottleneck_type: BottleneckType::CPU,
                    severity: RiskLevel::Medium,
                    duration: results[i].average_execution_time,
                    impact_percentage: 30,
                    description: text_bytes("Slow execution in scenario"),
                });
            }
            i += 1;
        }
        assert(results@.subrange(0, results@.len() as int) =~= results@);
        r
    }

    /// Advice from the scenario results: optimise when the average score is
    /// below 70, improve error handling when any call failed.
    pub fn generate_benchmark_recommendations(results: &Vec<ScenarioResult>) -> (r: Vec<Vec<u8>>)
        requires
            results@.len() > 0,
            forall|k: int| 0 <= k < results@.len() ==> (#[trigger] results@[k]).performance_score <= 100,
            results@.len() * 100 <= u32::MAX,
            error_sum(results@) <= u32::MAX,
        ensures
            texts(r@) == recommendations_spec(results@),
    {
        let total_score = Self::sum_scores(results);
        let avg_score: u32 = total_score / (results.len() as u32);
        let total_errors = Self::sum_errors(results);
        let mut r: Vec<Vec<u8>> = Vec::new();
        if avg_score < 70 {
            r.push(text_bytes("Consider optimizing critical performance paths"));
        }
        let ghost r1 = texts(r@);
        if total_errors > 0 {
            r.push(text_bytes("Implement better error handling and recovery"));
        }
        assert(texts(r@) =~= recommendations_spec(results@));
        r
    }

    /// Sum of the scenario scores.
    fn sum_scores(results: &Vec<ScenarioResult>) -> (r: u32)
        requires
            forall|k: int| 0 <= k < results@.len() ==> (#[trigger] results@[k]).performance_score <= 100,
            results@.len() * 100 <= u32::MAX,
        ensures
            r == score_sum(results@),
    {
        let mut total: u32 = 0;
        let mut i: usize = 0;
        while i < results.len()
            invariant
                i <= results@.len(),
                results@.len() * 100 <= u32::MAX,
                forall|k: int| 0 <= k < results@.len() ==> (#[trigger] results@[k]).performance_score <= 100,
                total == score_sum(results@.subrange(0, i as int)),
                total <= i * 100,
            decreases results@.len() - i,
        {
            assert(results@.subrange(0, i as int + 1).drop_last() =~= results@.subrange(0, i as int));
            total = total + results[i].performance_score;
            i += 1;
        }
        assert(results@.subrange(0, results@.len() as int) =~= results@);
        total
    }

    /// Sum of the failed calls.
    fn sum_errors(results: &Vec<ScenarioResult>) -> (r: u32)
        requires
            error_sum(results@) <= u32::MAX,
        ensures
            r == error_sum(results@),
    {
        let mut total: u32 = 0;
        let mut i: usize = 0;
        while i < results.len()
            invariant
                i <= results@.len(),
                error_sum(results@) <= u32::MAX,
                total == error_sum(results@.subrange(0, i as int)),
            decreases results@.len() - i,
        {
            proof {
                Self::lemma_error_sum_prefix(results@, i as int + 1);
            }
            assert(results@.subrange(0, i as int + 1).drop_last() =~= results@.subrange(0, i as int));
            total = total + results[i].error_count;
            i += 1;
        }
        assert(results@.subrange(0, results@.len() as int) =~= results@);
        total
    }

    /// The failed calls of a prefix are at most those of all scenarios.
    proof fn lemma_error_sum_prefix(s: Seq<ScenarioResult>, k: int)
        requires
            0 <= k <= s.len(),
        ensures
            error_sum(s.subrange(0, k)) <= error_sum(s),
        decreases s.len(),
    {
        if k < s.len() {
            assert(s.drop_last().subrange(0, k) =~= s.subrange(0, k));
            Self::lemma_error_sum_prefix(s.drop_last(), k);
        } else {
            assert(s.subrange(0, k) =~= s);
        }
    }

    /// Average score of the scenarios, 0 when there are none.
    pub fn calculate_overall_score(results: &Vec<ScenarioResult>) -> (r: u32)
        requires
            forall|k: int| 0 <= k < results@.len() ==> (#[trigger] results@[k]).performance_score <= 100,
            results@.len() * 100 <= u32::MAX,
        ensures
            r == overall_score_spec(results@),
    {
        if results.len() == 0 {
            return 0;
        }
        Self::sum_scores(results) / (results.len() as u32)
    }

    /// Comparison with the baseline version: 15 percent faster, 10 percent
    /// less gas, 5 percent more memory, 20 percent more throughput, no regression.
    pub fn compare_with_baseline(benchmark_name: &String, baseline_version: &Vec<u8>) -> (r: Result<
        PerformanceComparison,
        DiagnosticsError,
    >)
        ensures
            r matches Ok(c) && {
                &&& c.baseline_version@ == baseline_version@
                &&& c.current_version@ == "current".spec_bytes()
                &&& c.performance_delta == 15
                &&& c.gas_delta == -10
                &&& c.memory_delta == 5
                &&& c.throughput_delta == 20
                &&& !c.regression_detected
                &&& c.baseline_duration == 1000
                &&& c.improvement_percentage == 15
            },
    {
        Ok(PerformanceComparison {
            baseline_version: copy_bytes(baseline_version),
            current_version: text_bytes("current"),
            performance_delta: 15,
            gas_delta: -10,
            memory_delta: 5,
            throughput_delta: 20,
            regression_detected: false,
            baseline_duration: 1000,
            improvement_percentage: 15,
        })
    }

    /// Scenario score (see `scenario_score_spec`).
    pub fn calculate_scenario_score(success_rate: u32, execution_time: u64, gas_used: u64) -> (r: u32)
        ensures
            r == scenario_score_spec(success_rate, execution_time, gas_used),
    {
        let mut score = success_rate;
        if execution_time > 1000 {
            score = score.saturating_sub(10);
        }
        if gas_used > 1_000_000 {
            score = score.saturating_sub(5);
        }
        if score > 100 {
            100
        } else {
            score
        }
    }
}

} // verus!
