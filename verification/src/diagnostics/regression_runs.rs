//! Regression test runs: the records a run produces, measuring a scenario
//! against its expectations, reporting regressions with advice, testing
//! coverage, the baseline of recent samples, continuous monitoring sessions
//! and the schedule of the next run.
use vstd::prelude::*;
use vstd::string::StringSliceAdditionalSpecFns;
use crate::text::{copy_bytes, copy_texts, same_text, texts, text_bytes, text_list1, text_list2, text_list3};
use crate::diagnostics::errors::DiagnosticsError;
use crate::diagnostics::anomaly_detector::{hourly_samples, AnomalyDetector};
use crate::diagnostics::storage::DiagnosticsStorage;
use crate::diagnostics::ids::{marked_id, marked_id_spec};
use crate::diagnostics::regression_tester::{
    regression_kind_spec, regression_type_name, threshold_score_spec, RegressionTester, RegressionTestScenario,
    TestParameters,
};
use crate::diagnostics::types::{
    AlertType, ContinuousMonitorConfig, PerformanceMetrics, PerformanceThresholds, RiskLevel, SessionStatus,
    TestStatus, TestVerdict, TrendDirection,
};

verus! {

/// Marker byte of a test run's identifier.
pub const TEST_RUN_MARKER: u8 = 0x54u8;

/// Marker byte of a regression's identifier.
pub const REGRESSION_MARKER: u8 = 0x47u8;

/// Marker byte of a monitoring session's identifier.
pub const SESSION_MARKER: u8 = 0x4Du8;

/// Marker byte of a regression report's identifier.
pub const REPORT_MARKER: u8 = 0x52u8;

/// Marker byte of a performance alert's identifier.
pub const ALERT_MARKER: u8 = 0x0Au8;

/// How a scenario's score compares with the score it was expected to reach.
#[derive(Clone, Debug)]
pub struct BaselineComparison {
    pub baseline_metrics: PerformanceMetrics,
    pub current_metrics: PerformanceMetrics,
    pub deviation: i32,
    pub is_regression: bool,
    pub baseline_score: u64,
    pub current_score: u64,
    pub performance_delta: i32,
    pub regression_detected: bool,
    pub significance_level: u32,
    pub baseline_duration: u64,
    pub current_duration: u64,
    pub improvement_percentage: i32,
    pub has_regression: bool,
}

/// Outcome of one scenario of a run.
#[derive(Clone, Debug)]
pub struct TestScenarioResult {
    pub scenario_id: [u8; 32],
    pub scenario_name: Vec<u8>,
    pub test_name: Vec<u8>,
    pub current_metrics: PerformanceMetrics,
    pub baseline_metrics: PerformanceMetrics,
    pub performance_metrics: PerformanceMetrics,
    pub deviation_percentage: i32,
    pub status: TestStatus,
    pub execution_status: TestStatus,
    pub execution_time: u64,
    pub performance_score: u32,
    pub has_error: bool,
    pub error_details: Vec<u8>,
    pub has_baseline_comparison: bool,
    pub baseline_comparison: BaselineComparison,
    pub recommendations: Vec<Vec<u8>>,
}

/// A regression found in a run.
#[derive(Clone, Debug)]
pub struct PerformanceRegression {
    pub regression_id: [u8; 32],
    pub test_name: Vec<u8>,
    pub scenario_id: [u8; 32],
    pub metric_name: Vec<u8>,
    pub baseline_value: u64,
    pub current_value: u64,
    pub regression_percentage: i32,
    pub severity: RiskLevel,
    pub regression_type: Vec<u8>,
    pub detected_at: u64,
    pub performance_impact: u32,
    pub affected_operations: Vec<Vec<u8>>,
    pub root_cause_analysis: Vec<u8>,
    pub mitigation_steps: Vec<Vec<u8>>,
    pub rollback_recommendation: Vec<u8>,
    pub monitoring_alerts: Vec<Vec<u8>>,
}

/// Change of one metric between baseline and current run.
#[derive(Clone, Debug)]
pub struct PerformanceChange {
    pub metric_name: Vec<u8>,
    pub baseline_value: u64,
    pub current_value: u64,
    pub change_percentage: i32,
    pub threshold_exceeded: bool,
}

/// Summary of the regressions of a run or a period.
#[derive(Clone, Debug)]
pub struct RegressionReport {
    pub report_id: [u8; 32],
    pub test_name: Vec<u8>,
    pub execution_time: u64,
    pub regression_detected: bool,
    pub performance_changes: Vec<PerformanceChange>,
    pub failed_thresholds: Vec<Vec<u8>>,
    pub recommendations: Vec<Vec<u8>>,
    pub overall_verdict: TestVerdict,
    pub contract_address: String,
    pub report_period_start: u64,
    pub report_period_end: u64,
    pub total_tests_executed: u32,
    pub total_regressions_detected: u32,
    pub critical_regressions: u32,
    pub high_severity_regressions: u32,
    pub performance_trend: TrendDirection,
    pub stability_score: u64,
    pub most_problematic_areas: Vec<Vec<u8>>,
    pub improvement_recommendations: Vec<Vec<u8>>,
    pub testing_coverage_analysis: Vec<u8>,
    pub risk_assessment: RiskLevel,
}

/// Direction of a contract's results over past runs.
#[derive(Clone, Debug)]
pub struct PerformanceTrends {
    pub trend_direction: TrendDirection,
    pub performance_change_pct: i32,
    pub performance_score_trend: TrendDirection,
    pub stability_trend: TrendDirection,
    pub predicted_performance: u64,
    pub prediction: Vec<u8>,
    pub regression_frequency_trend: TrendDirection,
    pub confidence_level: u32,
}

/// What a regression run tests.
#[derive(Clone, Debug)]
pub struct RegressionTestConfig {
    pub test_name: Vec<u8>,
    pub baseline_version: Vec<u8>,
    pub current_version: Vec<u8>,
    pub test_contracts: Vec<String>,
    pub performance_thresholds: PerformanceThresholds,
    pub test_duration: u64,
    pub test_scenarios: Vec<RegressionTestScenario>,
}

/// Everything a regression run produced.
#[derive(Clone, Debug)]
pub struct RegressionTestResult {
    pub test_run_id: [u8; 32],
    pub contract_address: String,
    pub timestamp: u64,
    pub test_timestamp: u64,
    pub test_scenarios: Vec<RegressionTestScenario>,
    pub scenario_results: Vec<TestScenarioResult>,
    pub overall_status: TestStatus,
    pub regression_report: RegressionReport,
    pub test_summary: Vec<u8>,
    pub test_configuration: TestParameters,
    pub regressions_detected: Vec<PerformanceRegression>,
    pub performance_trends: PerformanceTrends,
    pub recommendations: Vec<Vec<u8>>,
    pub overall_performance_score: u32,
    pub next_test_schedule: u64,
}

/// How much of the platform past runs exercised.
#[derive(Clone, Debug)]
pub struct TestingCoverageAnalysis {
    pub coverage_percentage: u64,
    pub covered_functions: Vec<Vec<u8>>,
    pub uncovered_functions: Vec<Vec<u8>>,
    pub coverage_gaps: Vec<Vec<u8>>,
}

/// Risk of further regressions.
#[derive(Clone, Debug)]
pub struct RiskAssessment {
    pub overall_risk: RiskLevel,
    pub risk_factors: Vec<Vec<u8>>,
    pub mitigation_strategies: Vec<Vec<u8>>,
}

/// Limits on one metric under continuous monitoring.
#[derive(Clone, Debug)]
pub struct AlertThreshold {
    pub metric_name: Vec<u8>,
    pub warning_threshold: u64,
    pub critical_threshold: u64,
    pub enabled: bool,
}

/// An alert raised by continuous monitoring.
#[derive(Clone, Debug)]
pub struct PerformanceAlert {
    pub alert_id: [u8; 32],
    pub contract_address: String,
    pub timestamp: u64,
    pub triggered_at: u64,
    pub severity: RiskLevel,
    pub alert_type: AlertType,
    pub description: Vec<u8>,
    pub alert_message: Vec<u8>,
    pub metric_name: Vec<u8>,
    pub threshold_value: u64,
    pub actual_value: u64,
    pub baseline_value: u64,
    pub escalation_level: u32,
    pub auto_resolved: bool,
    pub metrics: PerformanceMetrics,
}

/// A continuous-monitoring session of a contract.
#[derive(Clone, Debug)]
pub struct MonitoringSession {
    pub session_id: [u8; 32],
    pub contract_address: String,
    pub start_time: u64,
    pub has_ended: bool,
    pub end_time: u64,
    pub metrics_collected: Vec<PerformanceMetrics>,
    pub status: SessionStatus,
    pub monitoring_status: SessionStatus,
    pub monitoring_config: ContinuousMonitorConfig,
    pub baseline_metrics: PerformanceMetrics,
    pub alert_thresholds: Vec<AlertThreshold>,
    pub active_alerts: Vec<PerformanceAlert>,
}

/// A sample of `contract` at `now` with every measure zero.
pub open spec fn empty_metrics(contract: String, now: u64) -> PerformanceMetrics {
    PerformanceMetrics {
        timestamp: now,
        contract_address: contract,
        execution_time: 0,
        gas_used: 0,
        memory_usage: 0,
        storage_reads: 0,
        storage_writes: 0,
        cpu_utilization: 0,
        cpu_instructions: 0,
        transaction_count: 0,
        error_count: 0,
        error_rate: 0,
        average_execution_time: 0,
        average_response_time: 0,
        network_bandwidth: 0,
        gas_consumption: 0,
        storage_usage: 0,
        peak_memory_usage: 0,
        network_latency: 0,
    }
}

/// The sample a scenario is measured at: its expectations, with fixed storage,
/// CPU, bandwidth and storage-use figures.
pub open spec fn measured_metrics(contract: String, sc: RegressionTestScenario, now: u64) -> PerformanceMetrics {
    PerformanceMetrics {
        timestamp: now,
        contract_address: contract,
        execution_time: sc.expected_execution_time,
        gas_used: sc.expected_gas_usage,
        memory_usage: sc.expected_memory_usage,
        storage_reads: 10,
        storage_writes: 5,
        cpu_utilization: 50,
        cpu_instructions: 10000,
        transaction_count: sc.expected_transaction_count,
        error_count: 0,
        error_rate: sc.expected_error_rate,
        average_execution_time: sc.expected_execution_time,
        average_response_time: sc.expected_execution_time / 2,
        network_bandwidth: 1000,
        gas_consumption: sc.expected_gas_usage,
        storage_usage: 100,
        peak_memory_usage: sc.expected_memory_usage,
        network_latency: sc.expected_network_latency,
    }
}

/// Advice on one scenario: where it regressed, what exceeded the fixed
/// limits; otherwise that it is within them.
pub open spec fn scenario_advice(m: PerformanceMetrics, regressed: bool) -> Seq<Seq<u8>> {
    if regressed {
        (if m.execution_time > 1000 {
            seq!["Optimize execution time - current performance is slow".spec_bytes()]
        } else {
            Seq::<Seq<u8>>::empty()
        }) + (if m.gas_used > 5_000_000 {
            seq!["Review gas optimization opportunities".spec_bytes()]
        } else {
            Seq::<Seq<u8>>::empty()
        }) + (if m.memory_usage > 100_000_000 {
            seq!["Investigate memory usage patterns".spec_bytes()]
        } else {
            Seq::<Seq<u8>>::empty()
        }) + (if m.error_rate > 5 {
            seq!["Address error rate increases".spec_bytes()]
        } else {
            Seq::<Seq<u8>>::empty()
        })
    } else {
        seq!["Performance within acceptable thresholds".spec_bytes()]
    }
}

/// Number of regressions of the given severity.
pub open spec fn count_severity(s: Seq<PerformanceRegression>, level: RiskLevel) -> nat
    decreases s.len(),
{
    if s.len() == 0 {
        0
    } else {
        count_severity(s.drop_last(), level) + (if s.last().severity == level { 1nat } else { 0nat })
    }
}

/// Advice after a run with the given regressions.
pub open spec fn regression_advice(s: Seq<PerformanceRegression>) -> Seq<Seq<u8>> {
    if s.len() == 0 {
        seq!["Continue regular regression testing".spec_bytes(), "Monitor performance trends".spec_bytes()]
    } else {
        (if count_severity(s, RiskLevel::Critical) > 0 {
            seq![
                "URGENT: Address critical performance regressions immediately".spec_bytes(),
                "Consider rollback if fixes cannot be implemented quickly".spec_bytes(),
            ]
        } else {
            Seq::<Seq<u8>>::empty()
        }) + (if count_severity(s, RiskLevel::High) > 0 {
            seq!["Prioritize high-severity regression fixes".spec_bytes(), "Increase monitoring frequency".spec_bytes()]
        } else {
            Seq::<Seq<u8>>::empty()
        }) + seq![
            "Review recent code changes for performance impact".spec_bytes(),
            "Enhance test coverage in affected areas".spec_bytes(),
        ]
    }
}

/// When the next run is due: a day later without regressions, an hour
/// later with a critical one, six hours later otherwise.
pub open spec fn next_run_spec(s: Seq<PerformanceRegression>, now: u64) -> int {
    if s.len() == 0 {
        now + 86400
    } else if count_severity(s, RiskLevel::Critical) > 0 {
        now + 3600
    } else {
        now + 21600
    }
}

/// Steps suggested against a regression.
pub open spec fn mitigation_steps_spec() -> Seq<Seq<u8>> {
    seq![
        "Identify specific code changes causing regression".spec_bytes(),
        "Implement targeted performance fixes".spec_bytes(),
        "Add specific regression tests for affected areas".spec_bytes(),
        "Increase monitoring frequency during fix deployment".spec_bytes(),
    ]
}

/// Alerts set up to watch a regression.
pub open spec fn monitoring_alerts_spec() -> Seq<Seq<u8>> {
    seq![
        "Monitor execution time: alert if exceeded".spec_bytes(),
        "Monitor gas usage: alert if exceeded".spec_bytes(),
        "Monitor memory usage: alert if exceeded".spec_bytes(),
    ]
}

/// Whether a rollback is advised: significance 90 and above, or 70 and
/// above with the score more than 40 percent down.
pub open spec fn rollback_spec(c: BaselineComparison) -> bool {
    c.significance_level >= 90 || (c.significance_level >= 70 && c.performance_delta < -40)
}

impl RegressionTester {
    /// A sample of `contract` at `now` with every measure zero.
    pub fn create_empty_performance_metrics(contract: &String, now: u64) -> (r: PerformanceMetrics)
        ensures
            r == empty_metrics(*contract, now),
    {
        PerformanceMetrics {
            timestamp: now,
            contract_address: contract.clone(),
            execution_time: 0,
            gas_used: 0,
            memory_usage: 0,
            storage_reads: 0,
            storage_writes: 0,
            cpu_utilization: 0,
            cpu_instructions: 0,
            transaction_count: 0,
            error_count: 0,
            error_rate: 0,
            average_execution_time: 0,
            average_response_time: 0,
            network_bandwidth: 0,
            gas_consumption: 0,
            storage_usage: 0,
            peak_memory_usage: 0,
            network_latency: 0,
        }
    }

    /// The sample a scenario is measured at (see `measured_metrics`).
    pub fn measure_scenario_performance(contract: &String, scenario: &RegressionTestScenario, now: u64) -> (r:
        PerformanceMetrics)
        ensures
            r == measured_metrics(*contract, *scenario, now),
    {
        PerformanceMetrics {
            timestamp: now,
            contract_address: contract.clone(),
            execution_time: scenario.expected_execution_time,
            gas_used: scenario.expected_gas_usage,
            memory_usage: scenario.expected_memory_usage,
            storage_reads: 10,
            storage_writes: 5,
            cpu_utilization: 50,
            cpu_instructions: 10000,
            transaction_count: scenario.expected_transaction_count,
            error_count: 0,
            error_rate: scenario.expected_error_rate,
            average_execution_time: scenario.expected_execution_time,
            average_response_time: scenario.expected_execution_time / 2,
            network_bandwidth: 1000,
            gas_consumption: scenario.expected_gas_usage,
            storage_usage: 100,
            peak_memory_usage: scenario.expected_memory_usage,
            network_latency: scenario.expected_network_latency,
        }
    }

    /// A test run needs a ledger that has started; `InvalidConfiguration` at time zero.
    pub fn prepare_test_environment(parameters: &TestParameters, now: u64) -> (r: Result<(), DiagnosticsError>)
        ensures
            now == 0 <==> r == Err::<(), DiagnosticsError>(DiagnosticsError::InvalidConfiguration),
            now != 0 <==> r is Ok,
    {
        if now == 0 {
            return Err(DiagnosticsError::InvalidConfiguration);
        }
        Ok(())
    }

    /// Advice on a scenario's sample given its comparison (see `scenario_advice`).
    pub fn generate_scenario_recommendations(metrics: &PerformanceMetrics, comparison: &BaselineComparison) -> (r: Vec<
        Vec<u8>,
    >)
        ensures
            texts(r@) == scenario_advice(*metrics, comparison.regression_detected),
    {
        let mut r: Vec<Vec<u8>> = Vec::new();
        if comparison.regression_detected {
            if metrics.execution_time > 1000 {
                r.push(text_bytes("Optimize execution time - current performance is slow"));
            }
            let ghost a = texts(r@);
            if metrics.gas_used > 5_000_000 {
                r.push(text_bytes("Review gas optimization opportunities"));
            }
            let ghost b = texts(r@);
            if metrics.memory_usage > 100_000_000 {
                r.push(text_bytes("Investigate memory usage patterns"));
            }
            let ghost c = texts(r@);
            if metrics.error_rate > 5 {
                r.push(text_bytes("Address error rate increases"));
            }
            assert(texts(r@) =~= scenario_advice(*metrics, comparison.regression_detected));
        } else {
            r.push(text_bytes("Performance within acceptable thresholds"));
            assert(texts(r@) =~= scenario_advice(*metrics, comparison.regression_detected));
        }
        r
    }

    /// Number of regressions of a severity.
    fn severity_count(regressions: &Vec<PerformanceRegression>, level: RiskLevel) -> (r: u64)
        requires
            regressions@.len() <= u64::MAX,
        ensures
            r == count_severity(regressions@, level),
            r <= regressions@.len(),
    {
        let mut n: u64 = 0;
        let mut i: usize = 0;
        while i < regressions.len()
            invariant
                i <= regressions@.len(),
                regressions@.len() <= u64::MAX,
                n == count_severity(regressions@.subrange(0, i as int), level),
                n <= i,
            decreases regressions@.len() - i,
        {
            assert(regressions@.subrange(0, i + 1).drop_last() =~= regressions@.subrange(0, i as int));
            if regressions[i].severity == level {
                n = n + 1;
            }
            i += 1;
        }
        assert(regressions@.subrange(0, regressions@.len() as int) =~= regressions@);
        n
    }

    /// Advice after a run with the given regressions (see `regression_advice`).
    pub fn generate_regression_recommendations(regressions: &Vec<PerformanceRegression>) -> (r: Vec<Vec<u8>>)
        ensures
            texts(r@) == regression_advice(regressions@),
    {
        let mut r: Vec<Vec<u8>> = Vec::new();
        if regressions.len() == 0 {
            r.push(text_bytes("Continue regular regression testing"));
            r.push(text_bytes("Monitor performance trends"));
            assert(texts(r@) =~= regression_advice(regressions@));
            return r;
        }
        let critical = Self::severity_count(regressions, RiskLevel::Critical);
        let high = Self::severity_count(regressions, RiskLevel::High);
        if critical > 0 {
            r.push(text_bytes("URGENT: Address critical performance regressions immediately"));
            r.push(text_bytes("Consider rollback if fixes cannot be implemented quickly"));
        }
        let ghost a = texts(r@);
        if high > 0 {
            r.push(text_bytes("Prioritize high-severity regression fixes"));
            r.push(text_bytes("Increase monitoring frequency"));
        }
        r.push(text_bytes("Review recent code changes for performance impact"));
        r.push(text_bytes("Enhance test coverage in affected areas"));
        assert(texts(r@) =~= regression_advice(regressions@));
        r
    }

    /// When the next run is due (see `next_run_spec`).
    pub fn calculate_next_test_schedule(regressions: &Vec<PerformanceRegression>, now: u64) -> (r: u64)
        requires
            now + 86400 <= u64::MAX,
        ensures
            r == next_run_spec(regressions@, now),
    {
        if regressions.len() == 0 {
            now + 86400
        } else if Self::severity_count(regressions, RiskLevel::Critical) > 0 {
            now + 3600
        } else {
            now + 21600
        }
    }

    /// Whether a rollback is advised (see `rollback_spec`).
    pub fn assess_rollback_need(comparison: &BaselineComparison) -> (r: bool)
        ensures
            r == rollback_spec(*comparison),
    {
        if comparison.significance_level >= 90 {
            true
        } else if comparison.significance_level >= 70 && comparison.performance_delta < -40 {
            true
        } else {
            false
        }
    }

    /// Steps suggested against a regression.
    pub fn generate_regression_mitigation_steps(metrics: &PerformanceMetrics) -> (r: Vec<Vec<u8>>)
        ensures
            texts(r@) == mitigation_steps_spec(),
    {
        let mut r: Vec<Vec<u8>> = Vec::new();
        r.push(text_bytes("Identify specific code changes causing regression"));
        r.push(text_bytes("Implement targeted performance fixes"));
        r.push(text_bytes("Add specific regression tests for affected areas"));
        r.push(text_bytes("Increase monitoring frequency during fix deployment"));
        assert(texts(r@) =~= mitigation_steps_spec());
        r
    }

    /// Alerts set up to watch a regression of `scenario`.
    pub fn setup_regression_monitoring(scenario: &RegressionTestScenario) -> (r: Vec<Vec<u8>>)
        ensures
            texts(r@) == monitoring_alerts_spec(),
    {
        text_list3(
            "Monitor execution time: alert if exceeded",
            "Monitor gas usage: alert if exceeded",
            "Monitor memory usage: alert if exceeded",
        )
    }

    /// Parameters recorded for a run of `config`: ten iterations, the run's
    /// duration as timeout and a ten percent tolerance.
    pub fn create_test_parameters(config: &RegressionTestConfig) -> (r: TestParameters)
        ensures
            r.test_name@ == config.test_name@,
            r.iterations == 10,
            r.timeout_seconds == config.test_duration,
            r.acceptable_deviation_pct == 10,
    {
        TestParameters {
            test_name: copy_bytes(&config.test_name),
            iterations: 10,
            timeout_seconds: config.test_duration,
            acceptable_deviation_pct: 10,
        }
    }

    /// One line summing up a run.
    pub fn generate_test_summary(regressions: &Vec<PerformanceRegression>) -> (r: Vec<u8>)
        ensures
            r@ == (if regressions@.len() == 0 {
                "All tests passed successfully".spec_bytes()
            } else {
                "Regressions detected. Immediate attention required".spec_bytes()
            }),
    {
        if regressions.len() == 0 {
            text_bytes("All tests passed successfully")
        } else {
            text_bytes("Regressions detected. Immediate attention required")
        }
    }
}


/// Percentage by which `current` differs from `baseline`, rounded toward
/// zero; with a zero baseline it is the largest `i32` for a positive score
/// and zero otherwise.
pub open spec fn score_delta(current: int, baseline: int) -> int {
    if baseline == 0 {
        if current > 0 { i32::MAX as int } else { 0 }
    } else if current >= baseline {
        (current - baseline) * 100 / baseline
    } else {
        -((baseline - current) * 100 / baseline)
    }
}

/// Significance of a change: 3 below -30 percent, 2 below -20, 1 below -10, 0 otherwise.
pub open spec fn significance_of(delta: int) -> u32 {
    if delta < -30 {
        3
    } else if delta < -20 {
        2
    } else if delta < -10 {
        1
    } else {
        0
    }
}

/// Comparison of the score a scenario reached with the score it was expected to reach.
pub open spec fn comparison_spec(sc: RegressionTestScenario, current: u32, now: u64) -> BaselineComparison {
    let delta = score_delta(current as int, sc.expected_performance_score as int);
    BaselineComparison {
        baseline_metrics: empty_metrics(sc.target_contract, now),
        current_metrics: empty_metrics(sc.target_contract, now),
        deviation: delta as i32,
        is_regression: delta < -10,
        baseline_score: sc.expected_performance_score,
        current_score: current as u64,
        performance_delta: delta as i32,
        regression_detected: delta < -10,
        significance_level: significance_of(delta),
        baseline_duration: sc.expected_execution_time,
        current_duration: sc.expected_execution_time,
        improvement_percentage: (-delta) as i32,
        has_regression: delta < -10,
    }
}

/// Comparison recorded for a scenario that could not be run.
pub open spec fn failed_comparison_spec(contract: String, sc: RegressionTestScenario) -> BaselineComparison {
    BaselineComparison {
        baseline_metrics: empty_metrics(contract, 0),
        current_metrics: empty_metrics(contract, 0),
        deviation: 100,
        is_regression: true,
        baseline_score: sc.expected_performance_score,
        current_score: 0,
        performance_delta: (-(sc.expected_performance_score as i64)) as i32,
        regression_detected: true,
        significance_level: 3,
        baseline_duration: 0,
        current_duration: 0,
        improvement_percentage: -100i32,
        has_regression: true,
    }
}

impl RegressionTester {
    /// Compares the score a scenario reached with its expected score (see
    /// `comparison_spec`). The percentage change is the exact quotient,
    /// truncated toward zero; a floating-point evaluation of the same formula
    /// can land one lower for expected scores above about 10^13.
    pub fn compare_with_baseline(scenario: &RegressionTestScenario, current_score: u32, now: u64) -> (r:
        BaselineComparison)
        requires
            current_score <= 100,
        ensures
            r == comparison_spec(*scenario, current_score, now),
    {
        let baseline = scenario.expected_performance_score;
        let current = current_score as u64;
        let delta: i32 = if baseline == 0 {
            if current > 0 { i32::MAX } else { 0 }
        } else if current >= baseline {
            let q: u64 = (current - baseline) * 100 / baseline;
            q as i32
        } else {
            let d: u128 = (baseline - current) as u128 * 100;
            let q: u128 = d / baseline as u128;
            assert(q <= 100) by (nonlinear_arith)
                requires
                    d == (baseline - current) * 100,
                    q == d / (baseline as u128),
                    baseline > current,
                    baseline > 0,
            {
                assert(d <= baseline * 100);
            }
            -(q as i32)
        };
        let significance: u32 = if delta < -30 {
            3
        } else if delta < -20 {
            2
        } else if delta < -10 {
            1
        } else {
            0
        };
        let detected = delta < -10;
        BaselineComparison {
            baseline_metrics: Self::create_empty_performance_metrics(&scenario.target_contract, now),
            current_metrics: Self::create_empty_performance_metrics(&scenario.target_contract, now),
            deviation: delta,
            is_regression: detected,
            baseline_score: baseline,
            current_score: current,
            performance_delta: delta,
            regression_detected: detected,
            significance_level: significance,
            baseline_duration: scenario.expected_execution_time,
            current_duration: scenario.expected_execution_time,
            improvement_percentage: -delta,
            has_regression: detected,
        }
    }
}

/// Cause suggested for a regression: execution time off by more than 20
/// percent of its expectation, else memory up by more than 30 percent, else
/// gas up by more than 25 percent; several factors otherwise.
pub open spec fn root_cause_spec(m: PerformanceMetrics, sc: RegressionTestScenario) -> Seq<u8> {
    let exec_off = sc.expected_execution_time > 0 && {
        let d = m.execution_time - sc.expected_execution_time;
        (if d < 0 { -d } else { d }) * 100 > 20 * sc.expected_execution_time
    };
    let memory_up = sc.expected_memory_usage > 0 && (m.memory_usage - sc.expected_memory_usage) * 100 > 30
        * sc.expected_memory_usage;
    let gas_up = sc.expected_gas_usage > 0 && (m.gas_used - sc.expected_gas_usage) * 100 > 25 * sc.expected_gas_usage;
    if exec_off {
        "Execution time regression likely caused by algorithm or I/O changes".spec_bytes()
    } else if memory_up {
        "Memory usage increase suggests new memory allocations or leaks".spec_bytes()
    } else if gas_up {
        "Gas consumption increase indicates computational complexity changes".spec_bytes()
    } else {
        "Multiple factors contributing to performance regression".spec_bytes()
    }
}

/// The expectations of a scenario are small enough to classify a regression against.
pub open spec fn expectations_in_range(sc: RegressionTestScenario) -> bool {
    &&& sc.expected_execution_time * 12 <= u64::MAX
    &&& sc.expected_gas_usage * 12 <= u64::MAX
    &&& sc.expected_memory_usage * 12 <= u32::MAX
    &&& sc.expected_error_rate * 2 <= u32::MAX
    &&& sc.expected_network_latency * 15 <= u32::MAX
}

/// Magnitude of a percentage.
pub open spec fn magnitude(d: i32) -> u32 {
    if d < 0 { (-(d as int)) as u32 } else { d as u32 }
}

/// What running a scenario at `now` yields: its sample, score, comparison and advice.
pub open spec fn executed_result(t: TestScenarioResult, contract: String, sc: RegressionTestScenario, now: u64) -> bool {
    let m = measured_metrics(contract, sc, now);
    let score = threshold_score_spec(m, sc.performance_thresholds);
    let c = comparison_spec(sc, score as u32, now);
    &&& t.scenario_id == sc.scenario_id
    &&& t.scenario_name@ == sc.test_name@
    &&& t.test_name@ == sc.test_name@
    &&& t.current_metrics == m
    &&& t.performance_metrics == m
    &&& t.baseline_metrics == empty_metrics(sc.target_contract, now)
    &&& t.deviation_percentage == c.performance_delta
    &&& t.status == TestStatus::Passed
    &&& t.execution_status == TestStatus::Passed
    &&& t.execution_time == 0
    &&& t.performance_score == score
    &&& !t.has_error
    &&& t.error_details@ == Seq::<u8>::empty()
    &&& t.has_baseline_comparison
    &&& t.baseline_comparison == c
    &&& texts(t.recommendations@) == scenario_advice(m, c.regression_detected)
}

/// The regression reported for a scenario whose result regressed.
pub open spec fn regression_of(g: PerformanceRegression, sc: RegressionTestScenario, res: TestScenarioResult, now: u64) -> bool {
    let c = res.baseline_comparison;
    &&& forall|j: int| 0 <= j < 32 ==> #[trigger] g.regression_id@[j] == marked_id_spec(REGRESSION_MARKER, now, j)
    &&& g.scenario_id == sc.scenario_id
    &&& g.test_name@ == sc.test_name@
    &&& g.metric_name@ == "performance_score".spec_bytes()
    &&& g.baseline_value == c.baseline_score
    &&& g.current_value == c.current_score
    &&& g.regression_percentage == c.performance_delta
    &&& g.severity == RiskLevel::High
    &&& g.regression_type@ == regression_type_name(regression_kind_spec(res.performance_metrics, sc))
    &&& g.detected_at == now
    &&& g.performance_impact == magnitude(c.performance_delta)
    &&& texts(g.affected_operations@) == seq![
        "Contract execution".spec_bytes(),
        "Storage operations".spec_bytes(),
        "Memory management".spec_bytes(),
    ]
    &&& g.root_cause_analysis@ == root_cause_spec(res.performance_metrics, sc)
    &&& texts(g.mitigation_steps@) == mitigation_steps_spec()
    &&& g.rollback_recommendation@ == (if rollback_spec(c) {
        "Recommended".spec_bytes()
    } else {
        "Not Required".spec_bytes()
    })
    &&& texts(g.monitoring_alerts@) == monitoring_alerts_spec()
}

impl RegressionTester {
    /// Runs one scenario at time `now`: `InvalidConfiguration` when the ledger
    /// has not started, otherwise its sample, score, comparison and advice.
    pub fn execute_test_scenario(contract: &String, scenario: &RegressionTestScenario, now: u64) -> (r: Result<
        TestScenarioResult,
        DiagnosticsError,
    >)
        ensures
            now == 0 <==> r == Err::<TestScenarioResult, DiagnosticsError>(DiagnosticsError::InvalidConfiguration),
            now != 0 <==> r is Ok,
            r matches Ok(t) ==> executed_result(t, *contract, *scenario, now),
    {
        let parameters = TestParameters {
            test_name: copy_bytes(&scenario.test_name),
            iterations: 1,
            timeout_seconds: scenario.expected_execution_time,
            acceptable_deviation_pct: 10,
        };
        match Self::prepare_test_environment(&parameters, now) {
            Err(e) => {
                return Err(e);
            },
            Ok(()) => {},
        }
        let metrics = Self::measure_scenario_performance(contract, scenario, now);
        let score = Self::calculate_performance_score(&metrics, &scenario.performance_thresholds);
        let comparison = Self::compare_with_baseline(scenario, score, now);
        let recommendations = Self::generate_scenario_recommendations(&metrics, &comparison);
        Ok(TestScenarioResult {
            scenario_id: scenario.scenario_id,
            scenario_name: copy_bytes(&scenario.test_name),
            test_name: copy_bytes(&scenario.test_name),
            current_metrics: metrics.copied(),
            baseline_metrics: Self::create_empty_performance_metrics(&scenario.target_contract, now),
            performance_metrics: metrics,
            deviation_percentage: comparison.performance_delta,
            status: TestStatus::Passed,
            execution_status: TestStatus::Passed,
            execution_time: now - now,
            performance_score: score,
            has_error: false,
            error_details: Vec::new(),
            has_baseline_comparison: true,
            baseline_comparison: comparison,
            recommendations,
        })
    }

    /// Result recorded for a scenario that could not be run: zero samples,
    /// a failed status and a critical regression of the whole expected score.
    pub fn failed_scenario_result(contract: &String, scenario: &RegressionTestScenario, now: u64) -> (r:
        TestScenarioResult)
        requires
            scenario.expected_performance_score != 0x8000_0000_0000_0000u64,
        ensures
            r.scenario_id == scenario.scenario_id,
            r.scenario_name@ == scenario.test_name@,
            r.test_name@ == scenario.test_name@,
            r.current_metrics == empty_metrics(*contract, now),
            r.baseline_metrics == empty_metrics(*contract, now),
            r.performance_metrics == empty_metrics(*contract, now),
            r.deviation_percentage == -100,
            r.status == TestStatus::Failed,
            r.execution_status == TestStatus::Failed,
            r.execution_time == 0,
            r.performance_score == 0,
            r.has_error,
            r.error_details@ == "Test execution failed".spec_bytes(),
            r.has_baseline_comparison,
            r.baseline_comparison == failed_comparison_spec(*contract, *scenario),
            r.recommendations@.len() == 0,
    {
        let expected = scenario.expected_performance_score;
        assert((expected as i64) != i64::MIN) by (bit_vector)
            requires
                expected != 0x8000_0000_0000_0000u64,
        ;
        let negated: i64 = -(expected as i64);
        TestScenarioResult {
            scenario_id: scenario.scenario_id,
            scenario_name: copy_bytes(&scenario.test_name),
            test_name: copy_bytes(&scenario.test_name),
            current_metrics: Self::create_empty_performance_metrics(contract, now),
            baseline_metrics: Self::create_empty_performance_metrics(contract, now),
            performance_metrics: Self::create_empty_performance_metrics(contract, now),
            deviation_percentage: -100,
            status: TestStatus::Failed,
            execution_status: TestStatus::Failed,
            execution_time: 0,
            performance_score: 0,
            has_error: true,
            error_details: text_bytes("Test execution failed"),
            has_baseline_comparison: true,
            baseline_comparison: BaselineComparison {
                baseline_metrics: Self::create_empty_performance_metrics(contract, 0),
                current_metrics: Self::create_empty_performance_metrics(contract, 0),
                deviation: 100,
                is_regression: true,
                baseline_score: scenario.expected_performance_score,
                current_score: 0,
                performance_delta: negated as i32,
                regression_detected: true,
                significance_level: 3,
                baseline_duration: 0,
                current_duration: 0,
                improvement_percentage: -100,
                has_regression: true,
            },
            recommendations: Vec::new(),
        }
    }

    /// Likely cause of a regression (see `root_cause_spec`).
    pub fn analyze_regression_root_cause(metrics: &PerformanceMetrics, scenario: &RegressionTestScenario) -> (r: Vec<
        u8,
    >)
        ensures
            r@ == root_cause_spec(*metrics, *scenario),
    {
        let exp_time = scenario.expected_execution_time as u128;
        let cur_time = metrics.execution_time as u128;
        let exec_off = exp_time > 0 && (if cur_time >= exp_time {
            cur_time - exp_time
        } else {
            exp_time - cur_time
        }) * 100 > 20 * exp_time;
        let exp_mem = scenario.expected_memory_usage as u128;
        let cur_mem = metrics.memory_usage as u128;
        let memory_up = exp_mem > 0 && cur_mem > exp_mem && (cur_mem - exp_mem) * 100 > 30 * exp_mem;
        let exp_gas = scenario.expected_gas_usage as u128;
        let cur_gas = metrics.gas_used as u128;
        let gas_up = exp_gas > 0 && cur_gas > exp_gas && (cur_gas - exp_gas) * 100 > 25 * exp_gas;
        if exec_off {
            text_bytes("Execution time regression likely caused by algorithm or I/O changes")
        } else if memory_up {
            text_bytes("Memory usage increase suggests new memory allocations or leaks")
        } else if gas_up {
            text_bytes("Gas consumption increase indicates computational complexity changes")
        } else {
            text_bytes("Multiple factors contributing to performance regression")
        }
    }

    /// Magnitude of a percentage.
    fn percentage_magnitude(d: i32) -> (r: u32)
        ensures
            r == magnitude(d),
    {
        if d < 0 {
            (-(d as i64)) as u32
        } else {
            d as u32
        }
    }

    /// The regression a scenario's result shows, if its comparison found one.
    pub fn detect_regression(scenario: &RegressionTestScenario, result: &TestScenarioResult, now: u64) -> (r: Option<
        PerformanceRegression,
    >)
        requires
            result.baseline_comparison.regression_detected ==> expectations_in_range(*scenario),
        ensures
            r is None <==> !result.baseline_comparison.regression_detected,
            r matches Some(g) ==> regression_of(g, *scenario, *result, now),
    {
        let comparison = &result.baseline_comparison;
        if !comparison.regression_detected {
            return None;
        }
        let kind = Self::classify_regression_type(&result.performance_metrics, scenario);
        Some(PerformanceRegression {
            regression_id: marked_id(REGRESSION_MARKER, now),
            test_name: copy_bytes(&scenario.test_name),
            scenario_id: scenario.scenario_id,
            metric_name: text_bytes("performance_score"),
            baseline_value: comparison.baseline_score,
            current_value: comparison.current_score,
            regression_percentage: comparison.performance_delta,
            severity: RiskLevel::High,
            regression_type: Self::regression_type_to_string(kind),
            detected_at: now,
            performance_impact: Self::percentage_magnitude(comparison.performance_delta),
            affected_operations: Self::identify_affected_operations(&result.performance_metrics),
            root_cause_analysis: Self::analyze_regression_root_cause(&result.performance_metrics, scenario),
            mitigation_steps: Self::generate_regression_mitigation_steps(&result.performance_metrics),
            rollback_recommendation: if Self::assess_rollback_need(comparison) {
                text_bytes("Recommended")
            } else {
                text_bytes("Not Required")
            },
            monitoring_alerts: Self::setup_regression_monitoring(scenario),
        })
    }
}

/// The report made of a run's regressions at `now`.
pub open spec fn run_report(rep: RegressionReport, contract: String, regs: Seq<PerformanceRegression>, now: u64) -> bool {
    let critical = count_severity(regs, RiskLevel::Critical);
    let high = count_severity(regs, RiskLevel::High);
    &&& forall|j: int| 0 <= j < 32 ==> #[trigger] rep.report_id@[j] == marked_id_spec(TEST_RUN_MARKER, now, j)
    &&& rep.test_name@ == "Regression Test".spec_bytes()
    &&& rep.execution_time == now
    &&& rep.regression_detected == (regs.len() > 0)
    &&& rep.performance_changes@.len() == 0
    &&& rep.failed_thresholds@.len() == 0
    &&& rep.recommendations@.len() == 0
    &&& rep.overall_verdict == (if regs.len() > 0 { TestVerdict::Fail } else { TestVerdict::Pass })
    &&& rep.contract_address == contract
    &&& rep.report_period_start == now - 3600
    &&& rep.report_period_end == now
    &&& rep.total_tests_executed == regs.len()
    &&& rep.total_regressions_detected == regs.len()
    &&& rep.critical_regressions == critical
    &&& rep.high_severity_regressions == high
    &&& rep.performance_trend == TrendDirection::Stable
    &&& rep.stability_score == (if regs.len() > 0 { 50u64 } else { 90u64 })
    &&& rep.most_problematic_areas@.len() == 0
    &&& rep.improvement_recommendations@.len() == 0
    &&& rep.testing_coverage_analysis@ == "Test coverage complete".spec_bytes()
    &&& rep.risk_assessment == (if critical > 0 {
        RiskLevel::Critical
    } else if high > 0 {
        RiskLevel::High
    } else {
        RiskLevel::Low
    })
}

/// Two scenarios with the same identity, expectations and thresholds.
pub open spec fn same_scenario(a: RegressionTestScenario, b: RegressionTestScenario) -> bool {
    &&& a.scenario_id == b.scenario_id
    &&& a.test_name@ == b.test_name@
    &&& a.target_contract == b.target_contract
    &&& a.expected_performance_score == b.expected_performance_score
    &&& texts(a.test_parameters@) == texts(b.test_parameters@)
    &&& a.expected_execution_time == b.expected_execution_time
    &&& a.expected_gas_usage == b.expected_gas_usage
    &&& a.expected_memory_usage == b.expected_memory_usage
    &&& a.expected_error_rate == b.expected_error_rate
    &&& a.expected_network_latency == b.expected_network_latency
    &&& a.expected_transaction_count == b.expected_transaction_count
    &&& a.performance_thresholds == b.performance_thresholds
}

impl RegressionTestScenario {
    /// A copy of the scenario.
    pub fn copied(&self) -> (r: RegressionTestScenario)
        ensures
            same_scenario(r, *self),
    {
        RegressionTestScenario {
            scenario_id: self.scenario_id,
            test_name: copy_bytes(&self.test_name),
            target_contract: self.target_contract.clone(),
            expected_performance_score: self.expected_performance_score,
            test_parameters: copy_texts(&self.test_parameters),
            expected_execution_time: self.expected_execution_time,
            expected_gas_usage: self.expected_gas_usage,
            expected_memory_usage: self.expected_memory_usage,
            expected_error_rate: self.expected_error_rate,
            expected_network_latency: self.expected_network_latency,
            expected_transaction_count: self.expected_transaction_count,
            performance_thresholds: self.performance_thresholds,
        }
    }
}

impl RegressionTester {
    /// The report of a run's regressions (see `run_report`); the ledger must
    /// be at least an hour old, as the report covers the last hour.
    pub fn create_regression_report(contract: &String, regressions: &Vec<PerformanceRegression>, now: u64) -> (r:
        RegressionReport)
        requires
            now >= 3600,
            regressions@.len() <= u32::MAX,
        ensures
            run_report(r, *contract, regressions@, now),
    {
        let detected = regressions.len() > 0;
        let critical = Self::severity_count(regressions, RiskLevel::Critical);
        let high = Self::severity_count(regressions, RiskLevel::High);
        RegressionReport {
            report_id: marked_id(TEST_RUN_MARKER, now),
            test_name: text_bytes("Regression Test"),
            execution_time: now,
            regression_detected: detected,
            performance_changes: Vec::new(),
            failed_thresholds: Vec::new(),
            recommendations: Vec::new(),
            overall_verdict: if detected { TestVerdict::Fail } else { TestVerdict::Pass },
            contract_address: contract.clone(),
            report_period_start: now - 3600,
            report_period_end: now,
            total_tests_executed: regressions.len() as u32,
            total_regressions_detected: regressions.len() as u32,
            critical_regressions: critical as u32,
            high_severity_regressions: high as u32,
            performance_trend: TrendDirection::Stable,
            stability_score: if detected { 50 } else { 90 },
            most_problematic_areas: Vec::new(),
            improvement_recommendations: Vec::new(),
            testing_coverage_analysis: text_bytes("Test coverage complete"),
            risk_assessment: if critical > 0 {
                RiskLevel::Critical
            } else if high > 0 {
                RiskLevel::High
            } else {
                RiskLevel::Low
            },
        }
    }
}

/// Positions of the results whose comparison found a regression, in order.
pub open spec fn flagged(s: Seq<TestScenarioResult>) -> Seq<int>
    decreases s.len(),
{
    if s.len() == 0 {
        Seq::<int>::empty()
    } else {
        let f = flagged(s.drop_last());
        if s.last().baseline_comparison.regression_detected {
            f.push(s.len() - 1)
        } else {
            f
        }
    }
}

/// Sum of the scores of results.
pub open spec fn score_total(s: Seq<TestScenarioResult>) -> int
    decreases s.len(),
{
    if s.len() == 0 {
        0
    } else {
        score_total(s.drop_last()) + s.last().performance_score
    }
}

/// Whether running `sc` at `now` finds a regression.
pub open spec fn scenario_regresses(contract: String, sc: RegressionTestScenario, now: u64) -> bool {
    let m = measured_metrics(contract, sc, now);
    comparison_spec(sc, threshold_score_spec(m, sc.performance_thresholds) as u32, now).regression_detected
}

/// Every scenario that regresses has expectations small enough to classify against.
pub open spec fn scenarios_classifiable(contract: String, scenarios: Seq<RegressionTestScenario>, now: u64) -> bool {
    forall|i: int|
        0 <= i < scenarios.len() && scenario_regresses(contract, #[trigger] scenarios[i], now) ==> expectations_in_range(
            scenarios[i],
        )
}

/// Every position `flagged` gives lies within the results.
pub proof fn lemma_flagged_within(s: Seq<TestScenarioResult>)
    ensures
        flagged(s).len() <= s.len(),
        forall|k: int| 0 <= k < flagged(s).len() ==> 0 <= #[trigger] flagged(s)[k] < s.len(),
    decreases s.len(),
{
    if s.len() > 0 {
        let d = s.drop_last();
        lemma_flagged_within(d);
        let f = flagged(d);
        assert forall|k: int| 0 <= k < flagged(s).len() implies 0 <= #[trigger] flagged(s)[k] < s.len() by {
            if k < f.len() {
                assert(flagged(s)[k] == f[k]);
            }
        }
    }
}

impl RegressionTester {
    /// Runs every scenario of `config` against `contract` at `now`:
    /// `InvalidConfiguration` without scenarios; otherwise each scenario's
    /// result, the regressions found, their report, advice and next run, and
    /// the mean score. `trends` is the analysis of the contract's past runs.
    pub fn run_regression_tests(
        contract: &String,
        config: &RegressionTestConfig,
        trends: PerformanceTrends,
        now: u64,
    ) -> (r: Result<RegressionTestResult, DiagnosticsError>)
        requires
            config.test_scenarios@.len() > 0 ==> now >= 3600 && now + 86400 <= u64::MAX,
            config.test_scenarios@.len() * 100 <= u32::MAX,
            scenarios_classifiable(*contract, config.test_scenarios@, now),
        ensures
            config.test_scenarios@.len() == 0 <==> r == Err::<RegressionTestResult, DiagnosticsError>(
                DiagnosticsError::InvalidConfiguration,
            ),
            config.test_scenarios@.len() > 0 ==> r is Ok,
            r matches Ok(t) ==> {
                let n = config.test_scenarios@.len();
                let results = t.scenario_results@;
                let regs = t.regressions_detected@;
                let f = flagged(results);
                &&& results.len() == n
                &&& forall|i: int|
                    0 <= i < n ==> executed_result(#[trigger] results[i], *contract, config.test_scenarios@[i], now)
                &&& regs.len() == f.len()
                &&& forall|k: int|
                    0 <= k < regs.len() ==> regression_of(
                        #[trigger] regs[k],
                        config.test_scenarios@[f[k]],
                        results[f[k]],
                        now,
                    )
                &&& forall|j: int| 0 <= j < 32 ==> #[trigger] t.test_run_id@[j] == marked_id_spec(TEST_RUN_MARKER, now, j)
                &&& t.contract_address == *contract
                &&& t.timestamp == now
                &&& t.test_timestamp == now
                &&& t.test_scenarios@.len() == n
                &&& forall|i: int| 0 <= i < n ==> same_scenario(#[trigger] t.test_scenarios@[i], config.test_scenarios@[i])
                &&& t.overall_status == (if regs.len() > 0 { TestStatus::Failed } else { TestStatus::Passed })
                &&& run_report(t.regression_report, *contract, regs, now)
                &&& t.test_summary@ == (if regs.len() == 0 {
                    "All tests passed successfully".spec_bytes()
                } else {
                    "Regressions detected. Immediate attention required".spec_bytes()
                })
                &&& t.test_configuration.test_name@ == config.test_name@
                &&& t.test_configuration.iterations == 10
                &&& t.test_configuration.timeout_seconds == config.test_duration
                &&& t.test_configuration.acceptable_deviation_pct == 10
                &&& t.performance_trends == trends
                &&& texts(t.recommendations@) == regression_advice(regs)
                &&& t.overall_performance_score == score_total(results) / (n as int)
                &&& t.next_test_schedule == next_run_spec(regs, now)
            },
    {
        let n = config.test_scenarios.len();
        if n == 0 {
            return Err(DiagnosticsError::InvalidConfiguration);
        }
        let mut results: Vec<TestScenarioResult> = Vec::new();
        let mut regressions: Vec<PerformanceRegression> = Vec::new();
        let mut scenarios: Vec<RegressionTestScenario> = Vec::new();
        let mut total: u32 = 0;
        let mut i: usize = 0;
        while i < n
            invariant
                n == config.test_scenarios@.len(),
                n * 100 <= u32::MAX,
                now >= 3600,
                scenarios_classifiable(*contract, config.test_scenarios@, now),
                i <= n,
                results@.len() == i,
                scenarios@.len() == i,
                forall|j: int| 0 <= j < i ==> executed_result(#[trigger] results@[j], *contract, config.test_scenarios@[j], now),
                forall|j: int| 0 <= j < i ==> same_scenario(#[trigger] scenarios@[j], config.test_scenarios@[j]),
                total == score_total(results@),
                total <= 100 * i,
                regressions@.len() == flagged(results@).len(),
                regressions@.len() <= i,
                forall|k: int|
                    0 <= k < regressions@.len() ==> regression_of(
                        #[trigger] regressions@[k],
                        config.test_scenarios@[flagged(results@)[k]],
                        results@[flagged(results@)[k]],
                        now,
                    ),
            decreases n - i,
        {
            let scenario = &config.test_scenarios[i];
            scenarios.push(scenario.copied());
            let ghost before = results@;
            proof {
                lemma_flagged_within(before);
            }
            match Self::execute_test_scenario(contract, scenario, now) {
                Ok(result) => {
                    assert(scenario_regresses(*contract, config.test_scenarios@[i as int], now) ==> expectations_in_range(
                        config.test_scenarios@[i as int],
                    ));
                    assert(result.performance_score <= 100);
                    total = total + result.performance_score;
                    let found = Self::detect_regression(scenario, &result, now);
                    match found {
                        Some(g) => {
                            regressions.push(g);
                        },
                        None => {},
                    }
                    results.push(result);
                },
                Err(_) => {
                    assert(false);
                    results.push(Self::failed_scenario_result(contract, scenario, now));
                },
            }
            assert(results@.drop_last() =~= before);
            assert forall|j: int| 0 <= j < i + 1 implies executed_result(
                #[trigger] results@[j],
                *contract,
                config.test_scenarios@[j],
                now,
            ) by {
                if j < i {
                    assert(results@[j] == before[j]);
                }
            }
            proof {
                lemma_flagged_within(results@);
            }
            assert forall|k: int| 0 <= k < regressions@.len() implies regression_of(
                #[trigger] regressions@[k],
                config.test_scenarios@[flagged(results@)[k]],
                results@[flagged(results@)[k]],
                now,
            ) by {
                if k < flagged(before).len() {
                    assert(flagged(results@)[k] == flagged(before)[k]);
                    assert(results@[flagged(before)[k]] == before[flagged(before)[k]]);
                }
            }
            i += 1;
        }
        let average: u32 = total / (n as u32);
        let report = Self::create_regression_report(contract, &regressions, now);
        let summary = Self::generate_test_summary(&regressions);
        let parameters = Self::create_test_parameters(config);
        let recommendations = Self::generate_regression_recommendations(&regressions);
        let next = Self::calculate_next_test_schedule(&regressions, now);
        let failed = regressions.len() > 0;
        Ok(RegressionTestResult {
            test_run_id: marked_id(TEST_RUN_MARKER, now),
            contract_address: contract.clone(),
            timestamp: now,
            test_timestamp: now,
            test_scenarios: scenarios,
            scenario_results: results,
            overall_status: if failed { TestStatus::Failed } else { TestStatus::Passed },
            regression_report: report,
            test_summary: summary,
            test_configuration: parameters,
            regressions_detected: regressions,
            performance_trends: trends,
            recommendations,
            overall_performance_score: average,
            next_test_schedule: next,
        })
    }
}

/// Whether some regression among the results has the kind named `name`.
pub open spec fn has_regression_kind(results: Seq<RegressionTestResult>, name: Seq<u8>) -> bool {
    exists|i: int, j: int|
        0 <= i < results.len() && 0 <= j < results[i].regressions_detected@.len()
            && (#[trigger] results[i].regressions_detected@[j]).regression_type@ == name
}

/// Areas that regressed in the results: execution performance, memory
/// management and gas optimization, each where a regression of its kind
/// occurred; a note that none stands out otherwise.
pub open spec fn problem_areas_spec(results: Seq<RegressionTestResult>) -> Seq<Seq<u8>> {
    let found = (if has_regression_kind(results, "Performance Degradation".spec_bytes()) {
        seq!["Execution performance".spec_bytes()]
    } else {
        Seq::<Seq<u8>>::empty()
    }) + (if has_regression_kind(results, "Memory Leakage".spec_bytes()) {
        seq!["Memory management".spec_bytes()]
    } else {
        Seq::<Seq<u8>>::empty()
    }) + (if has_regression_kind(results, "Resource Consumption".spec_bytes()) {
        seq!["Gas optimization".spec_bytes()]
    } else {
        Seq::<Seq<u8>>::empty()
    });
    if found.len() == 0 {
        seq!["No significant problem areas identified".spec_bytes()]
    } else {
        found
    }
}

/// Number of scenario results over all runs.
pub open spec fn scenario_count(results: Seq<RegressionTestResult>) -> int
    decreases results.len(),
{
    if results.len() == 0 {
        0
    } else {
        scenario_count(results.drop_last()) + results.last().scenario_results@.len()
    }
}

/// Kinds of test the runs covered: 5 above 20 scenarios, 3 above 10, 1 otherwise.
pub open spec fn test_kinds(total: int) -> int {
    if total > 20 {
        5
    } else if total > 10 {
        3
    } else {
        1
    }
}

/// Identifier of the scenario at position `index`: the index, the low byte of the ledger time, then zeros.
pub open spec fn scenario_id_spec(index: u8, now: u64, j: int) -> u8 {
    if j == 0 {
        index
    } else if j == 1 {
        (now % 256) as u8
    } else {
        0
    }
}

impl RegressionTester {
    /// Whether some regression among the results has the kind named `name`.
    fn any_regression_of_kind(results: &Vec<RegressionTestResult>, name: &str) -> (r: bool)
        ensures
            r == has_regression_kind(results@, name.spec_bytes()),
    {
        let mut i: usize = 0;
        while i < results.len()
            invariant
                i <= results@.len(),
                forall|a: int, b: int|
                    0 <= a < i && 0 <= b < results@[a].regressions_detected@.len() ==> (
                    #[trigger] results@[a].regressions_detected@[b]).regression_type@ != name.spec_bytes(),
            decreases results@.len() - i,
        {
            let regs = &results[i].regressions_detected;
            let mut j: usize = 0;
            while j < regs.len()
                invariant
                    i < results@.len(),
                    *regs == results@[i as int].regressions_detected,
                    j <= regs@.len(),
                    forall|b: int| 0 <= b < j ==> (#[trigger] regs@[b]).regression_type@ != name.spec_bytes(),
                decreases regs@.len() - j,
            {
                if same_text(&regs[j].regression_type, name) {
                    assert(results@[i as int].regressions_detected@[j as int].regression_type@ == name.spec_bytes());
                    return true;
                }
                j += 1;
            }
            i += 1;
        }
        false
    }

    /// Areas that regressed over past runs (see `problem_areas_spec`).
    pub fn identify_problematic_areas(results: &Vec<RegressionTestResult>) -> (r: Vec<Vec<u8>>)
        ensures
            texts(r@) == problem_areas_spec(results@),
    {
        let mut r: Vec<Vec<u8>> = Vec::new();
        if Self::any_regression_of_kind(results, "Performance Degradation") {
            r.push(text_bytes("Execution performance"));
        }
        let ghost a = texts(r@);
        if Self::any_regression_of_kind(results, "Memory Leakage") {
            r.push(text_bytes("Memory management"));
        }
        let ghost b = texts(r@);
        if Self::any_regression_of_kind(results, "Resource Consumption") {
            r.push(text_bytes("Gas optimization"));
        }
        let ghost c = texts(r@);
        if r.len() == 0 {
            r.push(text_bytes("No significant problem areas identified"));
        }
        assert(texts(r@) =~= problem_areas_spec(results@));
        r
    }

    /// How much of the platform past runs covered: 20 percent per kind of
    /// test (see `test_kinds`), edge cases uncovered below five kinds.
    pub fn analyze_testing_coverage(results: &Vec<RegressionTestResult>) -> (r: TestingCoverageAnalysis)
        requires
            scenario_count(results@) <= u32::MAX,
        ensures
            r.coverage_percentage == test_kinds(scenario_count(results@)) * 20,
            texts(r.covered_functions@) == seq!["Performance monitoring".spec_bytes()],
            texts(r.uncovered_functions@) == (if test_kinds(scenario_count(results@)) < 5 {
                seq!["Edge case handling".spec_bytes()]
            } else {
                Seq::<Seq<u8>>::empty()
            }),
            texts(r.coverage_gaps@) == seq!["Load testing scenarios".spec_bytes(), "Edge case testing".spec_bytes()],
    {
        let mut total: u32 = 0;
        let mut i: usize = 0;
        while i < results.len()
            invariant
                i <= results@.len(),
                scenario_count(results@) <= u32::MAX,
                total == scenario_count(results@.subrange(0, i as int)),
            decreases results@.len() - i,
        {
            assert(results@.subrange(0, i + 1).drop_last() =~= results@.subrange(0, i as int));
            proof {
                Self::lemma_scenario_count_prefix(results@, i + 1);
            }
            total = total + results[i].scenario_results.len() as u32;
            i += 1;
        }
        assert(results@.subrange(0, results@.len() as int) =~= results@);
        let kinds: u64 = if total > 20 {
            5
        } else if total > 10 {
            3
        } else {
            1
        };
        let uncovered = if kinds < 5 {
            text_list1("Edge case handling")
        } else {
            let v: Vec<Vec<u8>> = Vec::new();
            assert(texts(v@) =~= Seq::<Seq<u8>>::empty());
            v
        };
        TestingCoverageAnalysis {
            coverage_percentage: kinds * 20,
            covered_functions: text_list1("Performance monitoring"),
            uncovered_functions: uncovered,
            coverage_gaps: text_list2("Load testing scenarios", "Edge case testing"),
        }
    }

    /// Counting scenarios over a prefix gives no more than over all runs.
    proof fn lemma_scenario_count_prefix(results: Seq<RegressionTestResult>, k: int)
        requires
            0 <= k <= results.len(),
        ensures
            scenario_count(results.subrange(0, k)) <= scenario_count(results),
        decreases results.len() - k,
    {
        if k < results.len() {
            Self::lemma_scenario_count_prefix(results, k + 1);
            assert(results.subrange(0, k + 1).drop_last() =~= results.subrange(0, k));
        } else {
            assert(results.subrange(0, k) =~= results);
        }
    }

    /// Identifier of the scenario at position `index` (see `scenario_id_spec`).
    pub fn generate_scenario_id(index: u8, now: u64) -> (r: [u8; 32])
        ensures
            forall|j: int| 0 <= j < 32 ==> #[trigger] r@[j] == scenario_id_spec(index, now, j),
    {
        let mut id: [u8; 32] = [0u8; 32];
        id[0] = index;
        let low: u8 = (now & 0xFF) as u8;
        assert(low == (now % 256) as u8) by (bit_vector)
            requires
                low == (now & 0xFF) as u8,
        ;
        id[1] = low;
        id
    }
}

/// The measure a baseline averages, by position: execution time, gas,
/// memory, CPU instructions, storage reads, storage writes, latency, error
/// rate and transactions.
pub open spec fn field_of(m: PerformanceMetrics, k: nat) -> nat {
    if k == 0 {
        m.execution_time as nat
    } else if k == 1 {
        m.gas_used as nat
    } else if k == 2 {
        m.memory_usage as nat
    } else if k == 3 {
        m.cpu_instructions as nat
    } else if k == 4 {
        m.storage_reads as nat
    } else if k == 5 {
        m.storage_writes as nat
    } else if k == 6 {
        m.network_latency as nat
    } else if k == 7 {
        m.error_rate as nat
    } else {
        m.transaction_count as nat
    }
}

/// Sum of one measure over samples.
pub open spec fn field_total(s: Seq<PerformanceMetrics>, k: nat) -> nat
    decreases s.len(),
{
    if s.len() == 0 {
        0
    } else {
        field_total(s.drop_last(), k) + field_of(s.last(), k)
    }
}

/// The sums a baseline needs fit the widths they are kept in: 64 bits for
/// the first four measures, 32 bits for the others.
pub open spec fn baseline_fits(s: Seq<PerformanceMetrics>) -> bool {
    &&& forall|k: nat| k < 4 ==> #[trigger] field_total(s, k) <= u64::MAX
    &&& forall|k: nat| 4 <= k < 9 ==> #[trigger] field_total(s, k) <= u32::MAX
}

/// Mean of one measure over samples.
pub open spec fn field_mean(s: Seq<PerformanceMetrics>, k: nat) -> int {
    field_total(s, k) as int / s.len() as int
}

/// The baseline of `contract` at `now`: the mean of each measure over the
/// samples, with fixed CPU share, bandwidth and storage use.
pub open spec fn baseline_spec(s: Seq<PerformanceMetrics>, contract: String, now: u64) -> PerformanceMetrics {
    PerformanceMetrics {
        timestamp: now,
        contract_address: contract,
        execution_time: field_mean(s, 0) as u64,
        gas_used: field_mean(s, 1) as u64,
        memory_usage: field_mean(s, 2) as u32,
        storage_reads: field_mean(s, 4) as u32,
        storage_writes: field_mean(s, 5) as u32,
        cpu_utilization: 50,
        cpu_instructions: field_mean(s, 3) as u64,
        transaction_count: field_mean(s, 8) as u32,
        error_count: 0,
        error_rate: field_mean(s, 7) as u32,
        average_execution_time: field_mean(s, 0) as u64,
        average_response_time: field_mean(s, 0) as u64,
        network_bandwidth: 1000,
        gas_consumption: field_mean(s, 1) as u64,
        storage_usage: 100,
        peak_memory_usage: field_mean(s, 2) as u32,
        network_latency: field_mean(s, 6) as u32,
    }
}

/// A sum over a prefix of the samples is no larger than over all of them.
pub proof fn lemma_field_total_prefix(s: Seq<PerformanceMetrics>, i: int, k: nat)
    requires
        0 <= i <= s.len(),
    ensures
        field_total(s.subrange(0, i), k) <= field_total(s, k),
    decreases s.len() - i,
{
    if i < s.len() {
        lemma_field_total_prefix(s, i + 1, k);
        assert(s.subrange(0, i + 1).drop_last() =~= s.subrange(0, i));
    } else {
        assert(s.subrange(0, i) =~= s);
    }
}

impl RegressionTester {
    /// Whether the sums of a baseline over `samples` fit (see `baseline_fits`).
    pub fn baseline_sums_fit(samples: &Vec<PerformanceMetrics>) -> (r: bool)
        ensures
            r == baseline_fits(samples@),
    {
        let mut t: [u128; 9] = [0u128; 9];
        let mut i: usize = 0;
        let ghost s = samples@;
        let n = samples.len();
        while i < n
            invariant
                s == samples@,
                n == s.len(),
                i <= s.len(),
                forall|k: int| 0 <= k < 9 ==> #[trigger] t@[k] == field_total(s.subrange(0, i as int), k as nat),
                forall|k: int| 0 <= k < 9 ==> #[trigger] t@[k] <= i * 0x1_0000_0000_0000_0000,
            decreases s.len() - i,
        {
            let m = &samples[i];
            let ghost before = t@;
            assert(s.subrange(0, i + 1).drop_last() =~= s.subrange(0, i as int));
            assert((i + 1) * 0x1_0000_0000_0000_0000 <= 0xffff_ffff_ffff_ffff * 0x1_0000_0000_0000_0000int) by (nonlinear_arith)
                requires
                    i < n,
                    n <= usize::MAX,
                    usize::MAX <= 0xffff_ffff_ffff_ffff,
            ;
            assert(i * 0x1_0000_0000_0000_0000 + 0xffff_ffff_ffff_ffff < (i + 1) * 0x1_0000_0000_0000_0000) by (nonlinear_arith);
            t[0] = t[0] + m.execution_time as u128;
            t[1] = t[1] + m.gas_used as u128;
            t[2] = t[2] + m.memory_usage as u128;
            t[3] = t[3] + m.cpu_instructions as u128;
            t[4] = t[4] + m.storage_reads as u128;
            t[5] = t[5] + m.storage_writes as u128;
            t[6] = t[6] + m.network_latency as u128;
            t[7] = t[7] + m.error_rate as u128;
            t[8] = t[8] + m.transaction_count as u128;
            assert forall|k: int| 0 <= k < 9 implies #[trigger] t@[k] == field_total(s.subrange(0, i + 1), k as nat) by {
                assert(t@[k] == before[k] + field_of(s[i as int], k as nat));
            }
            i += 1;
        }
        assert(s.subrange(0, s.len() as int) =~= s);
        let fits = t[0] <= u64::MAX as u128 && t[1] <= u64::MAX as u128 && t[2] <= u64::MAX as u128 && t[3]
            <= u64::MAX as u128 && t[4] <= u32::MAX as u128 && t[5] <= u32::MAX as u128 && t[6] <= u32::MAX as u128
            && t[7] <= u32::MAX as u128 && t[8] <= u32::MAX as u128;
        proof {
            if fits {
                assert forall|k: nat| k < 4 implies #[trigger] field_total(s, k) <= u64::MAX by {
                    assert(t@[k as int] == field_total(s, k));
                }
                assert forall|k: nat| 4 <= k < 9 implies #[trigger] field_total(s, k) <= u32::MAX by {
                    assert(t@[k as int] == field_total(s, k));
                }
            } else {
                assert(t@[0] == field_total(s, 0));
                assert(t@[1] == field_total(s, 1));
                assert(t@[2] == field_total(s, 2));
                assert(t@[3] == field_total(s, 3));
                assert(t@[4] == field_total(s, 4));
                assert(t@[5] == field_total(s, 5));
                assert(t@[6] == field_total(s, 6));
                assert(t@[7] == field_total(s, 7));
                assert(t@[8] == field_total(s, 8));
            }
        }
        fits
    }
}

/// The samples of the last `hours` hours before `now`, one per hour, as far
/// back as the ledger goes.
pub open spec fn recent_samples(st: DiagnosticsStorage, contract: String, hours: u32, now: u64) -> Seq<PerformanceMetrics> {
    let period = if hours * 3600 <= now { (hours * 3600) as u64 } else { now };
    hourly_samples(st.metrics@, contract@, period, now)
}

/// A monitoring session of `contract` started at `now` on `baseline`.
pub open spec fn session_of(
    m: MonitoringSession,
    contract: String,
    config: ContinuousMonitorConfig,
    baseline: PerformanceMetrics,
    now: u64,
) -> bool {
    &&& forall|j: int| 0 <= j < 32 ==> #[trigger] m.session_id@[j] == marked_id_spec(SESSION_MARKER, now, j)
    &&& m.contract_address == contract
    &&& m.start_time == now
    &&& !m.has_ended
    &&& m.end_time == 0
    &&& m.metrics_collected@.len() == 0
    &&& m.status == SessionStatus::Active
    &&& m.monitoring_status == SessionStatus::Active
    &&& m.monitoring_config == config
    &&& m.baseline_metrics == baseline
    &&& m.alert_thresholds@.len() == 1
    &&& m.alert_thresholds@[0].metric_name@ == "execution_time".spec_bytes()
    &&& m.alert_thresholds@[0].warning_threshold == config.alert_threshold
    &&& m.alert_thresholds@[0].critical_threshold == config.alert_threshold * 2
    &&& m.alert_thresholds@[0].enabled
    &&& m.active_alerts@.len() == 0
}

impl RegressionTester {
    /// The baseline of `contract` at `now` over recent samples (see
    /// `baseline_spec`); `InsufficientDataForPrediction` without samples.
    pub fn establish_performance_baseline(samples: &Vec<PerformanceMetrics>, contract: &String, now: u64) -> (r: Result<
        PerformanceMetrics,
        DiagnosticsError,
    >)
        requires
            baseline_fits(samples@),
        ensures
            samples@.len() == 0 <==> r == Err::<PerformanceMetrics, DiagnosticsError>(
                DiagnosticsError::InsufficientDataForPrediction,
            ),
            samples@.len() > 0 ==> r == Ok::<PerformanceMetrics, DiagnosticsError>(
                baseline_spec(samples@, *contract, now),
            ),
            r matches Ok(b) ==> b == baseline_spec(samples@, *contract, now),
    {
        let n = samples.len();
        if n == 0 {
            return Err(DiagnosticsError::InsufficientDataForPrediction);
        }
        let ghost s = samples@;
        let mut exec: u64 = 0;
        let mut gas: u64 = 0;
        let mut memory: u64 = 0;
        let mut cpu: u64 = 0;
        let mut reads: u32 = 0;
        let mut writes: u32 = 0;
        let mut latency: u32 = 0;
        let mut errors: u32 = 0;
        let mut transactions: u32 = 0;
        let mut i: usize = 0;
        while i < n
            invariant
                s == samples@,
                n == s.len(),
                i <= n,
                baseline_fits(s),
                exec == field_total(s.subrange(0, i as int), 0),
                gas == field_total(s.subrange(0, i as int), 1),
                memory == field_total(s.subrange(0, i as int), 2),
                cpu == field_total(s.subrange(0, i as int), 3),
                reads == field_total(s.subrange(0, i as int), 4),
                writes == field_total(s.subrange(0, i as int), 5),
                latency == field_total(s.subrange(0, i as int), 6),
                errors == field_total(s.subrange(0, i as int), 7),
                transactions == field_total(s.subrange(0, i as int), 8),
            decreases n - i,
        {
            let m = &samples[i];
            assert(s.subrange(0, i + 1).drop_last() =~= s.subrange(0, i as int));
            proof {
                lemma_field_total_prefix(s, i + 1, 0);
                lemma_field_total_prefix(s, i + 1, 1);
                lemma_field_total_prefix(s, i + 1, 2);
                lemma_field_total_prefix(s, i + 1, 3);
                lemma_field_total_prefix(s, i + 1, 4);
                lemma_field_total_prefix(s, i + 1, 5);
                lemma_field_total_prefix(s, i + 1, 6);
                lemma_field_total_prefix(s, i + 1, 7);
                lemma_field_total_prefix(s, i + 1, 8);
                assert(field_total(s, 0) <= u64::MAX);
                assert(field_total(s, 1) <= u64::MAX);
                assert(field_total(s, 2) <= u64::MAX);
                assert(field_total(s, 3) <= u64::MAX);
                assert(field_total(s, 4) <= u32::MAX);
                assert(field_total(s, 5) <= u32::MAX);
                assert(field_total(s, 6) <= u32::MAX);
                assert(field_total(s, 7) <= u32::MAX);
                assert(field_total(s, 8) <= u32::MAX);
            }
            exec = exec + m.execution_time;
            gas = gas + m.gas_used;
            memory = memory + m.memory_usage as u64;
            cpu = cpu + m.cpu_instructions;
            reads = reads + m.storage_reads;
            writes = writes + m.storage_writes;
            latency = latency + m.network_latency;
            errors = errors + m.error_rate;
            transactions = transactions + m.transaction_count;
            i += 1;
        }
        assert(s.subrange(0, n as int) =~= s);
        let count = n as u64;
        let mean_exec = exec / count;
        let mean_gas = gas / count;
        let mean_memory = memory / count;
        Ok(PerformanceMetrics {
            timestamp: now,
            contract_address: contract.clone(),
            execution_time: mean_exec,
            gas_used: mean_gas,
            memory_usage: mean_memory as u32,
            storage_reads: (reads as u64 / count) as u32,
            storage_writes: (writes as u64 / count) as u32,
            cpu_utilization: 50,
            cpu_instructions: cpu / count,
            transaction_count: (transactions as u64 / count) as u32,
            error_count: 0,
            error_rate: (errors as u64 / count) as u32,
            average_execution_time: mean_exec,
            average_response_time: mean_exec,
            network_bandwidth: 1000,
            gas_consumption: mean_gas,
            storage_usage: 100,
            peak_memory_usage: mean_memory as u32,
            network_latency: (latency as u64 / count) as u32,
        })
    }

    /// The samples of `contract` over the last `hours` hours (see `recent_samples`).
    pub fn get_recent_performance_metrics(st: &DiagnosticsStorage, contract: &String, hours: u32, now: u64) -> (r: Vec<
        PerformanceMetrics,
    >)
        requires
            st.wf(),
        ensures
            r@ == recent_samples(*st, *contract, hours, now),
    {
        let wanted: u64 = hours as u64 * 3600;
        let period = if wanted <= now { wanted } else { now };
        AnomalyDetector::collect_samples(st, contract, period, now)
    }

    /// Starts continuous monitoring of `contract` at `now`, with an
    /// execution-time threshold from `config` and a baseline over the last
    /// day's samples; `InsufficientDataForPrediction` when there are none.
    pub fn setup_continuous_monitoring(
        st: &DiagnosticsStorage,
        contract: &String,
        config: &ContinuousMonitorConfig,
        now: u64,
    ) -> (r: Result<MonitoringSession, DiagnosticsError>)
        requires
            st.wf(),
            config.alert_threshold * 2 <= u32::MAX,
            baseline_fits(recent_samples(*st, *contract, 24, now)),
        ensures
            recent_samples(*st, *contract, 24, now).len() == 0 <==> r == Err::<MonitoringSession, DiagnosticsError>(
                DiagnosticsError::InsufficientDataForPrediction,
            ),
            recent_samples(*st, *contract, 24, now).len() > 0 ==> r is Ok,
            r matches Ok(m) ==> session_of(
                m,
                *contract,
                *config,
                baseline_spec(recent_samples(*st, *contract, 24, now), *contract, now),
                now,
            ),
    {
        let mut thresholds: Vec<AlertThreshold> = Vec::new();
        thresholds.push(
            AlertThreshold {
                metric_name: text_bytes("execution_time"),
                warning_threshold: config.alert_threshold as u64,
                critical_threshold: (config.alert_threshold * 2) as u64,
                enabled: true,
            },
        );
        let recent = Self::get_recent_performance_metrics(st, contract, 24, now);
        let baseline = match Self::establish_performance_baseline(&recent, contract, now) {
            Ok(b) => b,
            Err(e) => {
                return Err(e);
            },
        };
        Ok(MonitoringSession {
            session_id: marked_id(SESSION_MARKER, now),
            contract_address: contract.clone(),
            start_time: now,
            has_ended: false,
            end_time: 0,
            metrics_collected: Vec::new(),
            status: SessionStatus::Active,
            monitoring_status: SessionStatus::Active,
            monitoring_config: *config,
            baseline_metrics: baseline,
            alert_thresholds: thresholds,
            active_alerts: Vec::new(),
        })
    }
}

/// Whether the measure a threshold watches has risen above the baseline by
/// more than its warning level; thresholds on unknown measures never fire.
pub open spec fn metric_exceeded(cur: PerformanceMetrics, t: AlertThreshold, base: PerformanceMetrics) -> bool {
    let name = t.metric_name@;
    if name == "execution_time".spec_bytes() {
        cur.execution_time > base.execution_time + t.warning_threshold
    } else if name == "gas_used".spec_bytes() {
        cur.gas_used > base.gas_used + t.warning_threshold
    } else if name == "memory_usage".spec_bytes() {
        cur.memory_usage > base.memory_usage + (t.warning_threshold as u32)
    } else if name == "error_rate".spec_bytes() {
        cur.error_rate > base.error_rate + (t.warning_threshold as u32)
    } else if name == "network_latency".spec_bytes() {
        cur.network_latency > base.network_latency + (t.warning_threshold as u32)
    } else {
        false
    }
}

/// The sums a threshold is checked with fit their widths.
pub open spec fn alert_sums_fit(cur: PerformanceMetrics, t: AlertThreshold, base: PerformanceMetrics) -> bool {
    let name = t.metric_name@;
    &&& name == "execution_time".spec_bytes() ==> base.execution_time + t.warning_threshold <= u64::MAX
    &&& name == "gas_used".spec_bytes() ==> base.gas_used + t.warning_threshold <= u64::MAX
    &&& name == "memory_usage".spec_bytes() ==> base.memory_usage + (t.warning_threshold as u32) <= u32::MAX
    &&& name == "error_rate".spec_bytes() ==> base.error_rate + (t.warning_threshold as u32) <= u32::MAX
    &&& name == "network_latency".spec_bytes() ==> base.network_latency + (t.warning_threshold as u32) <= u32::MAX
    &&& metric_exceeded(cur, t, base) ==> base.execution_time + t.critical_threshold <= u64::MAX
}

/// The alert a fired threshold raises at `now`: critical when execution time
/// is above the baseline by more than the critical level, medium otherwise.
pub open spec fn alert_of(a: PerformanceAlert, cur: PerformanceMetrics, t: AlertThreshold, base: PerformanceMetrics, now: u64) -> bool {
    &&& forall|j: int| 0 <= j < 32 ==> #[trigger] a.alert_id@[j] == marked_id_spec(ALERT_MARKER, now, j)
    &&& a.contract_address == cur.contract_address
    &&& a.timestamp == now
    &&& a.triggered_at == now
    &&& a.severity == (if cur.execution_time > base.execution_time + t.critical_threshold {
        RiskLevel::Critical
    } else {
        RiskLevel::Medium
    })
    &&& a.alert_type == AlertType::PerformanceRegression
    &&& a.description@ == "Performance metric exceeded threshold".spec_bytes()
    &&& a.alert_message@ == "Metric exceeded threshold vs baseline".spec_bytes()
    &&& a.metric_name@ == t.metric_name@
    &&& a.threshold_value == t.warning_threshold
    &&& a.actual_value == cur.execution_time
    &&& a.baseline_value == base.execution_time
    &&& a.escalation_level == 1
    &&& !a.auto_resolved
    &&& a.metrics == cur
}

/// Positions of the thresholds that fire, in order.
pub open spec fn fired(ts: Seq<AlertThreshold>, cur: PerformanceMetrics, base: PerformanceMetrics) -> Seq<int>
    decreases ts.len(),
{
    if ts.len() == 0 {
        Seq::<int>::empty()
    } else {
        let f = fired(ts.drop_last(), cur, base);
        if metric_exceeded(cur, ts.last(), base) {
            f.push(ts.len() - 1)
        } else {
            f
        }
    }
}

/// Every position `fired` gives lies within the thresholds.
pub proof fn lemma_fired_within(ts: Seq<AlertThreshold>, cur: PerformanceMetrics, base: PerformanceMetrics)
    ensures
        fired(ts, cur, base).len() <= ts.len(),
        forall|k: int| 0 <= k < fired(ts, cur, base).len() ==> 0 <= #[trigger] fired(ts, cur, base)[k] < ts.len(),
    decreases ts.len(),
{
    if ts.len() > 0 {
        let d = ts.drop_last();
        lemma_fired_within(d, cur, base);
        let f = fired(d, cur, base);
        assert forall|k: int| 0 <= k < fired(ts, cur, base).len() implies 0 <= #[trigger] fired(ts, cur, base)[k]
            < ts.len() by {
            if k < f.len() {
                assert(fired(ts, cur, base)[k] == f[k]);
            }
        }
    }
}

impl RegressionTester {
    /// The alert a threshold raises against `baseline`, if it fires (see
    /// `metric_exceeded` and `alert_of`).
    pub fn evaluate_alert_threshold(
        current: &PerformanceMetrics,
        threshold: &AlertThreshold,
        baseline: &PerformanceMetrics,
        now: u64,
    ) -> (r: Option<PerformanceAlert>)
        requires
            alert_sums_fit(*current, *threshold, *baseline),
        ensures
            r is Some <==> metric_exceeded(*current, *threshold, *baseline),
            r matches Some(a) ==> alert_of(a, *current, *threshold, *baseline, now),
    {
        let name = &threshold.metric_name;
        let exceeded = if same_text(name, "execution_time") {
            current.execution_time > baseline.execution_time + threshold.warning_threshold
        } else if same_text(name, "gas_used") {
            current.gas_used > baseline.gas_used + threshold.warning_threshold
        } else if same_text(name, "memory_usage") {
            current.memory_usage > baseline.memory_usage + threshold.warning_threshold as u32
        } else if same_text(name, "error_rate") {
            current.error_rate > baseline.error_rate + threshold.warning_threshold as u32
        } else if same_text(name, "network_latency") {
            current.network_latency > baseline.network_latency + threshold.warning_threshold as u32
        } else {
            false
        };
        if !exceeded {
            return None;
        }
        let severity = if current.execution_time > baseline.execution_time + threshold.critical_threshold {
            RiskLevel::Critical
        } else {
            RiskLevel::Medium
        };
        Some(PerformanceAlert {
            alert_id: marked_id(ALERT_MARKER, now),
            contract_address: current.contract_address.clone(),
            timestamp: now,
            triggered_at: now,
            severity,
            alert_type: AlertType::PerformanceRegression,
            description: text_bytes("Performance metric exceeded threshold"),
            alert_message: text_bytes("Metric exceeded threshold vs baseline"),
            metric_name: copy_bytes(&threshold.metric_name),
            threshold_value: threshold.warning_threshold,
            actual_value: current.execution_time,
            baseline_value: baseline.execution_time,
            escalation_level: 1,
            auto_resolved: false,
            metrics: current.copied(),
        })
    }

    /// The alerts a session's thresholds raise on `current` at `now`, in the
    /// order of the thresholds.
    pub fn check_real_time_performance(session: &MonitoringSession, current: &PerformanceMetrics, now: u64) -> (r: Vec<
        PerformanceAlert,
    >)
        requires
            forall|i: int|
                0 <= i < session.alert_thresholds@.len() ==> alert_sums_fit(
                    *current,
                    #[trigger] session.alert_thresholds@[i],
                    session.baseline_metrics,
                ),
        ensures
            ({
                let f = fired(session.alert_thresholds@, *current, session.baseline_metrics);
                &&& r@.len() == f.len()
                &&& forall|k: int|
                    0 <= k < r@.len() ==> alert_of(
                        #[trigger] r@[k],
                        *current,
                        session.alert_thresholds@[f[k]],
                        session.baseline_metrics,
                        now,
                    )
            }),
    {
        let ts = &session.alert_thresholds;
        let base = &session.baseline_metrics;
        let mut alerts: Vec<PerformanceAlert> = Vec::new();
        let mut i: usize = 0;
        while i < ts.len()
            invariant
                *ts == session.alert_thresholds,
                *base == session.baseline_metrics,
                i <= ts@.len(),
                forall|j: int| 0 <= j < ts@.len() ==> alert_sums_fit(*current, #[trigger] ts@[j], *base),
                alerts@.len() == fired(ts@.subrange(0, i as int), *current, *base).len(),
                forall|k: int|
                    0 <= k < alerts@.len() ==> alert_of(
                        #[trigger] alerts@[k],
                        *current,
                        ts@[fired(ts@.subrange(0, i as int), *current, *base)[k]],
                        *base,
                        now,
                    ),
            decreases ts@.len() - i,
        {
            let ghost pre = ts@.subrange(0, i as int);
            let ghost next = ts@.subrange(0, i + 1);
            assert(next.drop_last() =~= pre);
            proof {
                lemma_fired_within(pre, *current, *base);
            }
            let found = Self::evaluate_alert_threshold(current, &ts[i], base, now);
            match found {
                Some(a) => {
                    alerts.push(a);
                },
                None => {},
            }
            assert forall|k: int| 0 <= k < alerts@.len() implies alert_of(
                #[trigger] alerts@[k],
                *current,
                ts@[fired(next, *current, *base)[k]],
                *base,
                now,
            ) by {
                if k < fired(pre, *current, *base).len() {
                    assert(fired(next, *current, *base)[k] == fired(pre, *current, *base)[k]);
                }
            }
            i += 1;
        }
        assert(ts@.subrange(0, ts@.len() as int) =~= ts@);
        alerts
    }
}

/// Number of regressions over all runs.
pub open spec fn regression_total(results: Seq<RegressionTestResult>) -> nat
    decreases results.len(),
{
    if results.len() == 0 {
        0
    } else {
        regression_total(results.drop_last()) + results.last().regressions_detected@.len()
    }
}

/// Number of regressions of a severity over all runs.
pub open spec fn regression_level_total(results: Seq<RegressionTestResult>, level: RiskLevel) -> nat
    decreases results.len(),
{
    if results.len() == 0 {
        0
    } else {
        regression_level_total(results.drop_last(), level) + count_severity(
            results.last().regressions_detected@,
            level,
        )
    }
}

/// Regressions of one severity are among all regressions.
pub proof fn lemma_count_severity_bound(s: Seq<PerformanceRegression>, level: RiskLevel)
    ensures
        count_severity(s, level) <= s.len(),
    decreases s.len(),
{
    if s.len() > 0 {
        lemma_count_severity_bound(s.drop_last(), level);
    }
}

/// Over all runs, regressions of one severity are among all regressions.
pub proof fn lemma_level_total_bound(results: Seq<RegressionTestResult>, level: RiskLevel)
    ensures
        regression_level_total(results, level) <= regression_total(results),
    decreases results.len(),
{
    if results.len() > 0 {
        lemma_level_total_bound(results.drop_last(), level);
        lemma_count_severity_bound(results.last().regressions_detected@, level);
    }
}

/// A sum over a prefix of the runs is no larger than over all of them.
pub proof fn lemma_regression_total_prefix(results: Seq<RegressionTestResult>, i: int)
    requires
        0 <= i <= results.len(),
    ensures
        regression_total(results.subrange(0, i)) <= regression_total(results),
    decreases results.len() - i,
{
    if i < results.len() {
        lemma_regression_total_prefix(results, i + 1);
        assert(results.subrange(0, i + 1).drop_last() =~= results.subrange(0, i));
    } else {
        assert(results.subrange(0, i) =~= results);
    }
}

/// Whether a run of `contract` lies within `start` to `end`.
pub open spec fn run_in_period(r: RegressionTestResult, contract: Seq<char>, start: u64, end: u64) -> bool {
    r.contract_address@ == contract && start <= r.timestamp <= end
}

impl RegressionTester {
    /// The report of `contract`'s runs `results` over the `time_period`
    /// seconds before `now`: counts of runs and of regressions by severity, a
    /// verdict, the problem areas and fixed advice. `trend`, `stability_score`
    /// and `risk` are the figures computed in floating point over the same runs.
    pub fn generate_regression_report(
        contract: &String,
        results: &Vec<RegressionTestResult>,
        time_period: u64,
        now: u64,
        trend: TrendDirection,
        stability_score: u64,
        risk: RiskLevel,
    ) -> (r: Result<RegressionReport, DiagnosticsError>)
        requires
            time_period <= now,
            regression_total(results@) <= u32::MAX,
            results@.len() <= u32::MAX,
        ensures
            r matches Ok(rep) && {
                let total = regression_total(results@);
                let advice = seq![
                    "Implement automated performance testing in CI/CD pipeline".spec_bytes(),
                    "Establish performance budgets for critical operations".spec_bytes(),
                    "Enhance monitoring and alerting coverage".spec_bytes(),
                    "Regular performance optimization reviews".spec_bytes(),
                ];
                &&& forall|j: int| 0 <= j < 32 ==> #[trigger] rep.report_id@[j] == marked_id_spec(REPORT_MARKER, now, j)
                &&& rep.test_name@ == "regression_analysis".spec_bytes()
                &&& rep.execution_time == time_period
                &&& rep.regression_detected == (total > 0)
                &&& rep.performance_changes@.len() == 0
                &&& rep.failed_thresholds@.len() == 0
                &&& texts(rep.recommendations@) == advice
                &&& rep.overall_verdict == (if total == 0 { TestVerdict::Pass } else { TestVerdict::Fail })
                &&& rep.contract_address == *contract
                &&& rep.report_period_start == now - time_period
                &&& rep.report_period_end == now
                &&& rep.total_tests_executed == results@.len()
                &&& rep.total_regressions_detected == total
                &&& rep.critical_regressions == regression_level_total(results@, RiskLevel::Critical)
                &&& rep.high_severity_regressions == regression_level_total(results@, RiskLevel::High)
                &&& rep.performance_trend == trend
                &&& rep.stability_score == stability_score
                &&& texts(rep.most_problematic_areas@) == problem_areas_spec(results@)
                &&& texts(rep.improvement_recommendations@) == advice
                &&& rep.testing_coverage_analysis@ == "Coverage analysis complete".spec_bytes()
                &&& rep.risk_assessment == risk
            },
    {
        let start = now - time_period;
        let (total, critical, high) = Self::tally_regressions(results);
        Ok(RegressionReport {
            report_id: marked_id(REPORT_MARKER, now),
            test_name: text_bytes("regression_analysis"),
            execution_time: now - start,
            regression_detected: total > 0,
            performance_changes: Vec::new(),
            failed_thresholds: Vec::new(),
            recommendations: RegressionTester::generate_improvement_recommendations(),
            overall_verdict: if total == 0 {
                TestVerdict::Pass
            } else {
                TestVerdict::Fail
            },
            contract_address: contract.clone(),
            report_period_start: start,
            report_period_end: now,
            total_tests_executed: results.len() as u32,
            total_regressions_detected: total,
            critical_regressions: critical,
            high_severity_regressions: high,
            performance_trend: trend,
            stability_score,
            most_problematic_areas: Self::identify_problematic_areas(results),
            improvement_recommendations: RegressionTester::generate_improvement_recommendations(),
            testing_coverage_analysis: text_bytes("Coverage analysis complete"),
            risk_assessment: risk,
        })
    }

    /// Counts of all, critical and high-severity regressions over past runs.
    pub fn tally_regressions(results: &Vec<RegressionTestResult>) -> (r: (u32, u32, u32))
        requires
            regression_total(results@) <= u32::MAX,
        ensures
            r.0 == regression_total(results@),
            r.1 == regression_level_total(results@, RiskLevel::Critical),
            r.2 == regression_level_total(results@, RiskLevel::High),
    {
        let mut total: u32 = 0;
        let mut critical: u32 = 0;
        let mut high: u32 = 0;
        let mut i: usize = 0;
        while i < results.len()
            invariant
                i <= results@.len(),
                regression_total(results@) <= u32::MAX,
                total == regression_total(results@.subrange(0, i as int)),
                critical == regression_level_total(results@.subrange(0, i as int), RiskLevel::Critical),
                high == regression_level_total(results@.subrange(0, i as int), RiskLevel::High),
            decreases results@.len() - i,
        {
            let ghost next = results@.subrange(0, i + 1);
            assert(next.drop_last() =~= results@.subrange(0, i as int));
            proof {
                lemma_regression_total_prefix(results@, i + 1);
                lemma_level_total_bound(next, RiskLevel::Critical);
                lemma_level_total_bound(next, RiskLevel::High);
            }
            let regs = &results[i].regressions_detected;
            let c = Self::severity_count(regs, RiskLevel::Critical);
            let h = Self::severity_count(regs, RiskLevel::High);
            total = total + regs.len() as u32;
            critical = critical + c as u32;
            high = high + h as u32;
            i += 1;
        }
        assert(results@.subrange(0, results@.len() as int) =~= results@);
        (total, critical, high)
    }

    /// Positions of the runs of `contract` between `start` and `end`, in order.
    pub fn results_in_period(results: &Vec<RegressionTestResult>, contract: &String, start: u64, end: u64) -> (r: Vec<
        usize,
    >)
        ensures
            forall|k: int| 0 <= k < r@.len() ==> (#[trigger] r@[k]) < results@.len() && run_in_period(
                results@[r@[k] as int],
                contract@,
                start,
                end,
            ),
            forall|k: int, l: int| 0 <= k < l < r@.len() ==> #[trigger] r@[k] < #[trigger] r@[l],
            forall|j: int|
                0 <= j < results@.len() && run_in_period(#[trigger] results@[j], contract@, start, end) ==> exists|
                    k: int,
                | 0 <= k < r@.len() && r@[k] == j,
    {
        let mut r: Vec<usize> = Vec::new();
        let mut i: usize = 0;
        while i < results.len()
            invariant
                i <= results@.len(),
                forall|k: int| 0 <= k < r@.len() ==> (#[trigger] r@[k]) < i && run_in_period(
                    results@[r@[k] as int],
                    contract@,
                    start,
                    end,
                ),
                forall|k: int, l: int| 0 <= k < l < r@.len() ==> #[trigger] r@[k] < #[trigger] r@[l],
                forall|j: int|
                    0 <= j < i && run_in_period(#[trigger] results@[j], contract@, start, end) ==> exists|k: int|
                        0 <= k < r@.len() && r@[k] == j,
            decreases results@.len() - i,
        {
            let x = &results[i];
            let ghost before = r@;
            if x.contract_address == *contract && start <= x.timestamp && x.timestamp <= end {
                r.push(i);
                assert(r@[r@.len() - 1] == i);
            }
            assert forall|j: int|
                0 <= j < i + 1 && run_in_period(#[trigger] results@[j], contract@, start, end) implies exists|k: int|
                    0 <= k < r@.len() && r@[k] == j by {
                if j < i {
                    let k = choose|k: int| 0 <= k < before.len() && before[k] == j;
                    assert(r@[k] == before[k]);
                } else {
                    assert(r@[r@.len() - 1] == j);
                }
            }
            i += 1;
        }
        r
    }
}

} // verus!
