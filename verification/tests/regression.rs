use edu_contracts::diagnostics::errors::DiagnosticsError;
use edu_contracts::diagnostics::regression_runs::{
    AlertThreshold, PerformanceTrends, RegressionTestConfig, RegressionTestResult,
};
use edu_contracts::diagnostics::regression_tester::{RegressionTestScenario, RegressionTester};
use edu_contracts::diagnostics::storage::DiagnosticsStorage;
use edu_contracts::diagnostics::types::{
    AlertType, ContinuousMonitorConfig, PerformanceMetrics, PerformanceThresholds, RiskLevel, SessionStatus,
    TestStatus, TestVerdict, TrendDirection,
};

const CONTRACT: &str = "CTESTED";

fn thresholds(max_execution_time: u64, max_gas_usage: u64) -> PerformanceThresholds {
    PerformanceThresholds {
        max_execution_time_regression: 10,
        max_gas_usage_regression: 10,
        max_memory_usage_regression: 10,
        min_throughput_threshold: 1,
        max_error_rate_increase: 5,
        max_execution_time,
        max_gas_usage,
        max_memory_usage: 1_000_000,
        max_error_rate: 10,
        max_network_latency: 1_000,
    }
}

fn scenario(expected_score: u64, limits: PerformanceThresholds) -> RegressionTestScenario {
    RegressionTestScenario {
        scenario_id: [7u8; 32],
        test_name: b"checkout".to_vec(),
        target_contract: CONTRACT.to_string(),
        expected_performance_score: expected_score,
        test_parameters: Vec::new(),
        expected_execution_time: 500,
        expected_gas_usage: 1_000,
        expected_memory_usage: 1_000,
        expected_error_rate: 1,
        expected_network_latency: 10,
        expected_transaction_count: 5,
        performance_thresholds: limits,
    }
}

fn metrics(timestamp: u64, execution_time: u64, gas_used: u64, memory_usage: u32) -> PerformanceMetrics {
    PerformanceMetrics {
        timestamp,
        contract_address: CONTRACT.to_string(),
        execution_time,
        gas_used,
        memory_usage,
        storage_reads: 4,
        storage_writes: 2,
        cpu_utilization: 10,
        cpu_instructions: 1_000,
        transaction_count: 6,
        error_count: 0,
        error_rate: 3,
        average_execution_time: 0,
        average_response_time: 0,
        network_bandwidth: 0,
        gas_consumption: 0,
        storage_usage: 0,
        peak_memory_usage: 0,
        network_latency: 20,
    }
}

fn trends() -> PerformanceTrends {
    PerformanceTrends {
        trend_direction: TrendDirection::Stable,
        performance_change_pct: 0,
        performance_score_trend: TrendDirection::Stable,
        stability_trend: TrendDirection::Stable,
        predicted_performance: 0,
        prediction: b"Insufficient data for trend analysis".to_vec(),
        regression_frequency_trend: TrendDirection::Stable,
        confidence_level: 0,
    }
}

fn run_config(scenarios: Vec<RegressionTestScenario>) -> RegressionTestConfig {
    RegressionTestConfig {
        test_name: b"nightly".to_vec(),
        baseline_version: b"1.0".to_vec(),
        current_version: b"1.1".to_vec(),
        test_contracts: vec![CONTRACT.to_string()],
        performance_thresholds: thresholds(1_000, 10_000),
        test_duration: 600,
        test_scenarios: scenarios,
    }
}

#[test]
fn comparison_truncates_the_percentage_toward_zero() {
    let c = RegressionTester::compare_with_baseline(&scenario(100, thresholds(1_000, 10_000)), 80, 9);
    assert_eq!(c.performance_delta, -20);
    assert!(c.regression_detected);
    assert_eq!(c.significance_level, 1);
    assert_eq!(c.improvement_percentage, 20);
    let c = RegressionTester::compare_with_baseline(&scenario(60, thresholds(1_000, 10_000)), 45, 9);
    assert_eq!(c.performance_delta, -25);
    assert_eq!(c.significance_level, 2);
    let c = RegressionTester::compare_with_baseline(&scenario(30, thresholds(1_000, 10_000)), 100, 9);
    assert_eq!(c.performance_delta, 233);
    assert!(!c.regression_detected);
    assert_eq!(c.significance_level, 0);
}

#[test]
fn comparison_with_a_zero_expectation() {
    let c = RegressionTester::compare_with_baseline(&scenario(0, thresholds(1_000, 10_000)), 50, 9);
    assert_eq!(c.performance_delta, i32::MAX);
    let c = RegressionTester::compare_with_baseline(&scenario(0, thresholds(1_000, 10_000)), 0, 9);
    assert_eq!(c.performance_delta, 0);
}

#[test]
fn a_scenario_needs_a_started_ledger() {
    let sc = scenario(100, thresholds(1_000, 10_000));
    let r = RegressionTester::execute_test_scenario(&CONTRACT.to_string(), &sc, 0);
    assert_eq!(r.unwrap_err(), DiagnosticsError::InvalidConfiguration);
}

#[test]
fn a_scenario_within_its_thresholds_passes() {
    let sc = scenario(100, thresholds(1_000, 10_000));
    let t = RegressionTester::execute_test_scenario(&CONTRACT.to_string(), &sc, 5_000).unwrap();
    assert_eq!(t.performance_score, 100);
    assert_eq!(t.deviation_percentage, 0);
    assert_eq!(t.status, TestStatus::Passed);
    assert_eq!(t.performance_metrics.execution_time, 500);
    assert_eq!(t.performance_metrics.average_response_time, 250);
    assert_eq!(t.recommendations, vec![b"Performance within acceptable thresholds".to_vec()]);
    assert!(RegressionTester::detect_regression(&sc, &t, 5_000).is_none());
}

#[test]
fn a_scenario_over_its_thresholds_regresses() {
    let sc = scenario(100, thresholds(100, 100));
    let t = RegressionTester::execute_test_scenario(&CONTRACT.to_string(), &sc, 5_000).unwrap();
    assert_eq!(t.performance_score, 55);
    assert_eq!(t.deviation_percentage, -45);
    assert_eq!(t.baseline_comparison.significance_level, 3);
    assert!(t.recommendations.is_empty());
    let g = RegressionTester::detect_regression(&sc, &t, 5_000).unwrap();
    assert_eq!(g.regression_id[0], 0x47);
    assert_eq!(g.regression_id[8], (5_000u64 & 0xFF) as u8);
    assert_eq!(g.regression_type, b"Functional Regression".to_vec());
    assert_eq!(g.severity, RiskLevel::High);
    assert_eq!(g.performance_impact, 45);
    assert_eq!(g.baseline_value, 100);
    assert_eq!(g.current_value, 55);
    assert_eq!(g.rollback_recommendation, b"Not Required".to_vec());
    assert_eq!(g.root_cause_analysis, b"Multiple factors contributing to performance regression".to_vec());
    assert_eq!(g.metric_name, b"performance_score".to_vec());
}

#[test]
fn root_cause_follows_the_largest_change() {
    let sc = scenario(100, thresholds(1_000, 10_000));
    let slow = RegressionTester::analyze_regression_root_cause(&metrics(1, 700, 1_000, 1_000), &sc);
    assert_eq!(slow, b"Execution time regression likely caused by algorithm or I/O changes".to_vec());
    let fast = RegressionTester::analyze_regression_root_cause(&metrics(1, 300, 1_000, 1_000), &sc);
    assert_eq!(fast, b"Execution time regression likely caused by algorithm or I/O changes".to_vec());
    let memory = RegressionTester::analyze_regression_root_cause(&metrics(1, 500, 1_000, 1_400), &sc);
    assert_eq!(memory, b"Memory usage increase suggests new memory allocations or leaks".to_vec());
    let gas = RegressionTester::analyze_regression_root_cause(&metrics(1, 500, 1_300, 1_000), &sc);
    assert_eq!(gas, b"Gas consumption increase indicates computational complexity changes".to_vec());
    let edge = RegressionTester::analyze_regression_root_cause(&metrics(1, 600, 1_250, 1_300), &sc);
    assert_eq!(edge, b"Multiple factors contributing to performance regression".to_vec());
}

#[test]
fn a_run_without_scenarios_is_refused() {
    let r = RegressionTester::run_regression_tests(&CONTRACT.to_string(), &run_config(Vec::new()), trends(), 10_000);
    assert_eq!(r.unwrap_err(), DiagnosticsError::InvalidConfiguration);
}

#[test]
fn a_run_reports_its_regressions() {
    let config = run_config(vec![scenario(100, thresholds(1_000, 10_000)), scenario(100, thresholds(100, 100))]);
    let t = RegressionTester::run_regression_tests(&CONTRACT.to_string(), &config, trends(), 10_000).unwrap();
    assert_eq!(t.scenario_results.len(), 2);
    assert_eq!(t.regressions_detected.len(), 1);
    assert_eq!(t.overall_status, TestStatus::Failed);
    assert_eq!(t.overall_performance_score, 77);
    assert_eq!(t.next_test_schedule, 10_000 + 21_600);
    assert_eq!(t.test_run_id[0], 0x54);
    assert_eq!(t.test_summary, b"Regressions detected. Immediate attention required".to_vec());
    assert_eq!(t.test_configuration.iterations, 10);
    assert_eq!(t.test_configuration.timeout_seconds, 600);
    assert_eq!(t.test_scenarios.len(), 2);
    let report = &t.regression_report;
    assert_eq!(report.total_regressions_detected, 1);
    assert_eq!(report.high_severity_regressions, 1);
    assert_eq!(report.critical_regressions, 0);
    assert_eq!(report.risk_assessment, RiskLevel::High);
    assert_eq!(report.overall_verdict, TestVerdict::Fail);
    assert_eq!(report.stability_score, 50);
    assert_eq!(report.report_period_start, 10_000 - 3_600);
    assert_eq!(
        t.recommendations,
        vec![
            b"Prioritize high-severity regression fixes".to_vec(),
            b"Increase monitoring frequency".to_vec(),
            b"Review recent code changes for performance impact".to_vec(),
            b"Enhance test coverage in affected areas".to_vec(),
        ]
    );
}

#[test]
fn a_clean_run_passes() {
    let config = run_config(vec![scenario(100, thresholds(1_000, 10_000))]);
    let t = RegressionTester::run_regression_tests(&CONTRACT.to_string(), &config, trends(), 10_000).unwrap();
    assert_eq!(t.overall_status, TestStatus::Passed);
    assert_eq!(t.overall_performance_score, 100);
    assert_eq!(t.next_test_schedule, 10_000 + 86_400);
    assert_eq!(t.regression_report.overall_verdict, TestVerdict::Pass);
    assert_eq!(t.regression_report.risk_assessment, RiskLevel::Low);
    assert_eq!(t.regression_report.stability_score, 90);
    assert_eq!(t.test_summary, b"All tests passed successfully".to_vec());
}

fn past_run(regression_types: &[&str], scenarios: usize, timestamp: u64) -> RegressionTestResult {
    let config = run_config(vec![scenario(100, thresholds(100, 100))]);
    let mut t = RegressionTester::run_regression_tests(&CONTRACT.to_string(), &config, trends(), 10_000).unwrap();
    let template = t.regressions_detected[0].clone();
    t.regressions_detected = regression_types
        .iter()
        .map(|k| {
            let mut g = template.clone();
            g.regression_type = k.as_bytes().to_vec();
            g
        })
        .collect();
    let one = t.scenario_results[0].clone();
    t.scenario_results = vec![one; scenarios];
    t.timestamp = timestamp;
    t
}

#[test]
fn problem_areas_name_the_kinds_seen() {
    let runs = vec![past_run(&["Memory Leakage"], 1, 1), past_run(&["Performance Degradation"], 1, 2)];
    assert_eq!(
        RegressionTester::identify_problematic_areas(&runs),
        vec![b"Execution performance".to_vec(), b"Memory management".to_vec()]
    );
    let quiet = vec![past_run(&["Latency Increase"], 1, 1)];
    assert_eq!(
        RegressionTester::identify_problematic_areas(&quiet),
        vec![b"No significant problem areas identified".to_vec()]
    );
}

#[test]
fn coverage_grows_with_the_scenarios_run() {
    let few = RegressionTester::analyze_testing_coverage(&vec![past_run(&[], 4, 1)]);
    assert_eq!(few.coverage_percentage, 20);
    assert_eq!(few.uncovered_functions, vec![b"Edge case handling".to_vec()]);
    let some = RegressionTester::analyze_testing_coverage(&vec![past_run(&[], 6, 1), past_run(&[], 6, 2)]);
    assert_eq!(some.coverage_percentage, 60);
    let many = RegressionTester::analyze_testing_coverage(&vec![past_run(&[], 21, 1)]);
    assert_eq!(many.coverage_percentage, 100);
    assert!(many.uncovered_functions.is_empty());
    assert_eq!(many.coverage_gaps.len(), 2);
}

#[test]
fn tallies_and_period_queries_over_past_runs() {
    let mut critical = past_run(&["Memory Leakage", "Memory Leakage"], 1, 50);
    critical.regressions_detected[0].severity = RiskLevel::Critical;
    let runs = vec![past_run(&["Latency Increase"], 1, 10), critical, past_run(&[], 1, 90)];
    assert_eq!(RegressionTester::tally_regressions(&runs), (3, 1, 2));
    assert_eq!(RegressionTester::results_in_period(&runs, &CONTRACT.to_string(), 20, 90), vec![1, 2]);
    assert!(RegressionTester::results_in_period(&runs, &"COTHER".to_string(), 0, 100).is_empty());
}

#[test]
fn scenario_ids_carry_index_and_time() {
    let id = RegressionTester::generate_scenario_id(3, 0x1234);
    assert_eq!(id[0], 3);
    assert_eq!(id[1], 0x34);
    assert!(id[2..].iter().all(|b| *b == 0));
}

#[test]
fn a_baseline_averages_recent_samples() {
    let samples = vec![metrics(1, 100, 1_000, 300), metrics(2, 201, 2_000, 500)];
    assert!(RegressionTester::baseline_sums_fit(&samples));
    let b = RegressionTester::establish_performance_baseline(&samples, &CONTRACT.to_string(), 77).unwrap();
    assert_eq!(b.timestamp, 77);
    assert_eq!(b.execution_time, 150);
    assert_eq!(b.gas_used, 1_500);
    assert_eq!(b.memory_usage, 400);
    assert_eq!(b.peak_memory_usage, 400);
    assert_eq!(b.cpu_utilization, 50);
    assert_eq!(b.network_bandwidth, 1_000);
    assert_eq!(b.network_latency, 20);
    let empty = RegressionTester::establish_performance_baseline(&Vec::new(), &CONTRACT.to_string(), 77);
    assert_eq!(empty.unwrap_err(), DiagnosticsError::InsufficientDataForPrediction);
}

#[test]
fn baseline_sums_must_fit() {
    let mut huge = metrics(1, 1, 1, 1);
    huge.error_rate = u32::MAX;
    assert!(!RegressionTester::baseline_sums_fit(&vec![huge.clone(), huge]));
}

fn monitor_config(alert_threshold: u32) -> ContinuousMonitorConfig {
    ContinuousMonitorConfig {
        enabled: true,
        check_interval_seconds: 60,
        alert_threshold,
        auto_remediation: false,
    }
}

#[test]
fn monitoring_needs_samples_from_the_last_day() {
    let st = DiagnosticsStorage::new();
    let r = RegressionTester::setup_continuous_monitoring(&st, &CONTRACT.to_string(), &monitor_config(50), 100_000);
    assert_eq!(r.unwrap_err(), DiagnosticsError::InsufficientDataForPrediction);
}

#[test]
fn monitoring_starts_from_the_baseline() {
    let mut st = DiagnosticsStorage::new();
    let now = 100_000u64;
    let start = now - 86_400;
    st.store_performance_metrics(CONTRACT.to_string(), metrics(start, 100, 10, 10));
    st.store_performance_metrics(CONTRACT.to_string(), metrics(start + 3_600, 300, 30, 30));
    st.store_performance_metrics(CONTRACT.to_string(), metrics(start + 1, 900, 90, 90));
    let recent = RegressionTester::get_recent_performance_metrics(&st, &CONTRACT.to_string(), 24, now);
    assert_eq!(recent.len(), 2);
    let m = RegressionTester::setup_continuous_monitoring(&st, &CONTRACT.to_string(), &monitor_config(50), now)
        .unwrap();
    assert_eq!(m.session_id[0], 0x4D);
    assert_eq!(m.baseline_metrics.execution_time, 200);
    assert_eq!(m.status, SessionStatus::Active);
    assert_eq!(m.alert_thresholds.len(), 1);
    assert_eq!(m.alert_thresholds[0].metric_name, b"execution_time".to_vec());
    assert_eq!(m.alert_thresholds[0].warning_threshold, 50);
    assert_eq!(m.alert_thresholds[0].critical_threshold, 100);

    let calm = RegressionTester::check_real_time_performance(&m, &metrics(now, 240, 1, 1), now);
    assert!(calm.is_empty());
    let warm = RegressionTester::check_real_time_performance(&m, &metrics(now, 280, 1, 1), now);
    assert_eq!(warm.len(), 1);
    assert_eq!(warm[0].severity, RiskLevel::Medium);
    assert_eq!(warm[0].alert_id[0], 0x0A);
    assert_eq!(warm[0].actual_value, 280);
    assert_eq!(warm[0].baseline_value, 200);
    assert_eq!(warm[0].alert_type, AlertType::PerformanceRegression);
    let hot = RegressionTester::check_real_time_performance(&m, &metrics(now, 301, 1, 1), now);
    assert_eq!(hot[0].severity, RiskLevel::Critical);
}

#[test]
fn thresholds_on_other_measures() {
    let base = metrics(1, 100, 1_000, 500);
    let gas = AlertThreshold {
        metric_name: b"gas_used".to_vec(),
        warning_threshold: 100,
        critical_threshold: 1_000,
        enabled: true,
    };
    assert!(RegressionTester::evaluate_alert_threshold(&metrics(2, 100, 1_100, 500), &gas, &base, 2).is_none());
    let a = RegressionTester::evaluate_alert_threshold(&metrics(2, 100, 1_101, 500), &gas, &base, 2).unwrap();
    assert_eq!(a.metric_name, b"gas_used".to_vec());
    assert_eq!(a.severity, RiskLevel::Medium);
    let unknown = AlertThreshold {
        metric_name: b"cpu".to_vec(),
        warning_threshold: 0,
        critical_threshold: 0,
        enabled: true,
    };
    assert!(RegressionTester::evaluate_alert_threshold(&metrics(2, 900, 9_000, 900), &unknown, &base, 2).is_none());
}

#[test]
fn a_run_without_scenarios_is_refused_at_any_time() {
    let r = RegressionTester::run_regression_tests(&CONTRACT.to_string(), &run_config(Vec::new()), trends(), 0);
    assert_eq!(r.unwrap_err(), DiagnosticsError::InvalidConfiguration);
}

#[test]
fn a_regression_report_counts_the_runs_of_its_period() {
    let mut critical = past_run(&["Memory Leakage", "Memory Leakage"], 1, 50);
    critical.regressions_detected[0].severity = RiskLevel::Critical;
    let runs = vec![past_run(&["Latency Increase"], 1, 10), critical];
    let rep = RegressionTester::generate_regression_report(
        &CONTRACT.to_string(),
        &runs,
        3_600,
        10_000,
        TrendDirection::Stable,
        75,
        RiskLevel::High,
    )
    .unwrap();
    assert_eq!(rep.report_id[0], 0x52);
    assert_eq!(rep.test_name, b"regression_analysis".to_vec());
    assert_eq!(rep.execution_time, 3_600);
    assert_eq!(rep.report_period_start, 6_400);
    assert_eq!(rep.report_period_end, 10_000);
    assert_eq!(rep.total_tests_executed, 2);
    assert_eq!(rep.total_regressions_detected, 3);
    assert_eq!(rep.critical_regressions, 1);
    assert_eq!(rep.high_severity_regressions, 2);
    assert!(rep.regression_detected);
    assert_eq!(rep.overall_verdict, TestVerdict::Fail);
    assert_eq!(rep.most_problematic_areas, vec![b"Memory management".to_vec()]);
    assert_eq!(rep.stability_score, 75);
    assert_eq!(rep.risk_assessment, RiskLevel::High);
    assert_eq!(rep.recommendations.len(), 4);
    let empty = RegressionTester::generate_regression_report(
        &CONTRACT.to_string(),
        &Vec::new(),
        0,
        5,
        TrendDirection::Stable,
        100,
        RiskLevel::Low,
    )
    .unwrap();
    assert!(!empty.regression_detected);
    assert_eq!(empty.overall_verdict, TestVerdict::Pass);
}
