use edu_contracts::diagnostics::anomaly_detector::AnomalyDetector;
use edu_contracts::diagnostics::behavior_analyzer::BehaviorAnalyzer;
use edu_contracts::diagnostics::benchmark_engine::BenchmarkEngine;
use edu_contracts::diagnostics::contract::Diagnostics;
use edu_contracts::diagnostics::errors::DiagnosticsError;
use edu_contracts::diagnostics::performance_monitor::PerformanceMonitor;
use edu_contracts::diagnostics::predictive_engine::PredictiveEngine;
use edu_contracts::diagnostics::storage::DiagnosticsStorage;
use edu_contracts::diagnostics::types::{
    AnomalyEvent, AnomalyType, DiagnosticsConfig, MonitoringConfig, PerformanceMetrics, RiskLevel,
};

const CONTRACT: &str = "CWATCHED";

fn sample(timestamp: u64, execution_time: u64, gas_used: u64) -> PerformanceMetrics {
    PerformanceMetrics {
        timestamp,
        contract_address: CONTRACT.to_string(),
        execution_time,
        gas_used,
        memory_usage: 10_000_000,
        storage_reads: 10,
        storage_writes: 5,
        cpu_utilization: 0,
        cpu_instructions: 100_000,
        transaction_count: 100,
        error_count: 0,
        error_rate: 2,
        average_execution_time: 0,
        average_response_time: 0,
        network_bandwidth: 0,
        gas_consumption: 0,
        storage_usage: 0,
        peak_memory_usage: 0,
        network_latency: 50,
    }
}

fn config() -> DiagnosticsConfig {
    DiagnosticsConfig {
        admin: "GADMIN".to_string(),
        monitoring_enabled: true,
        anomaly_detection_enabled: true,
        prediction_enabled: true,
        max_trace_duration: 3600,
        metrics_retention_period: 86400,
        alert_threshold_cpu: 80,
        alert_threshold_memory: 50_000_000,
        alert_threshold_gas: 1_000_000,
    }
}

fn monitoring(interval: u64, history: u32) -> MonitoringConfig {
    MonitoringConfig {
        metrics_collection_interval: interval,
        enable_real_time_alerts: true,
        enable_predictive_analysis: false,
        enable_behavior_tracking: false,
        max_metrics_history: history,
    }
}

#[test]
fn test_detect_performance_degradation() {
    let mut metrics = Vec::new();
    for i in 0..5u64 {
        metrics.push(sample(1000 + i * 100, 100, 50000));
    }
    for i in 5..8u64 {
        metrics.push(sample(1000 + i * 100, 200, 50000));
    }
    let anomalies = AnomalyDetector::detect_performance_degradation(&metrics, 2000);
    assert!(!anomalies.is_empty());
    let anomaly = &anomalies[0];
    assert_eq!(anomaly.anomaly_type, AnomalyType::PerformanceDegradation);
    assert_eq!(anomaly.severity, RiskLevel::High);
}

#[test]
fn test_detect_gas_spike() {
    let mut metrics = Vec::new();
    for i in 0..5u64 {
        metrics.push(sample(1000 + i * 100, 100, 50000));
    }
    metrics.push(sample(1500, 100, 200000));
    let anomalies = AnomalyDetector::detect_gas_spikes(&metrics, 2000);
    assert!(!anomalies.is_empty());
    assert_eq!(anomalies[0].anomaly_type, AnomalyType::GasSpike);
}

#[test]
fn test_calculate_severity_score() {
    let critical_anomaly = AnomalyEvent {
        anomaly_id: [0u8; 32],
        contract_address: CONTRACT.to_string(),
        anomaly_type: AnomalyType::PerformanceDegradation,
        severity: RiskLevel::Critical,
        detected_at: 1000,
        description: b"Test anomaly".to_vec(),
        affected_metrics: Vec::new(),
        root_cause_analysis: b"Test cause".to_vec(),
        mitigation_steps: Vec::new(),
        auto_resolved: false,
    };
    assert_eq!(AnomalyDetector::calculate_severity_score(&critical_anomaly), 100);
}

#[test]
fn test_comprehensive_anomaly_detection() {
    let mut st = DiagnosticsStorage::new();
    let result =
        AnomalyDetector::detect_anomalies(&mut st, &CONTRACT.to_string(), 86400, 0, Vec::new(), Vec::new());
    assert!(result.is_err());
    assert_eq!(result.unwrap_err(), DiagnosticsError::InsufficientDataForPrediction);
}

#[test]
fn degradation_report_names_both_averages() {
    let mut metrics = Vec::new();
    for i in 0..4u64 {
        metrics.push(sample(i, 100, 1));
    }
    for i in 4..7u64 {
        metrics.push(sample(i, 250, 1));
    }
    let anomalies = AnomalyDetector::detect_performance_degradation(&metrics, 77);
    assert_eq!(anomalies.len(), 1);
    assert_eq!(anomalies[0].severity, RiskLevel::Critical);
    assert_eq!(anomalies[0].detected_at, 6);
    assert_eq!(anomalies[0].anomaly_id[0], 0xAF);
    assert_eq!(anomalies[0].anomaly_id[8], 77);
    assert_eq!(
        anomalies[0].description,
        b"Performance degraded: execution time increased from 100ms to 250ms".to_vec()
    );
}

#[test]
fn steady_or_short_histories_show_no_degradation() {
    let steady: Vec<PerformanceMetrics> = (0..6u64).map(|i| sample(i, 100, 1)).collect();
    assert!(AnomalyDetector::detect_performance_degradation(&steady, 0).is_empty());
    let short: Vec<PerformanceMetrics> = (0..3u64).map(|i| sample(i, 100 * (i + 1), 1)).collect();
    assert!(AnomalyDetector::detect_performance_degradation(&short, 0).is_empty());
}

#[test]
fn gas_spike_severity_and_message() {
    let metrics = vec![sample(1, 100, 1000), sample(2, 100, 1000), sample(3, 100, 6000)];
    let anomalies = AnomalyDetector::detect_gas_spikes(&metrics, 9);
    assert_eq!(anomalies.len(), 1);
    assert_eq!(anomalies[0].severity, RiskLevel::Critical);
    assert_eq!(anomalies[0].description, b"Gas usage spike detected: 6000 gas used vs 1000 average".to_vec());
    let calm = vec![sample(1, 100, 1000), sample(2, 100, 3000)];
    assert!(AnomalyDetector::detect_gas_spikes(&calm, 9).is_empty());
}

#[test]
fn severity_scores_rise_with_risk() {
    let mut event = AnomalyEvent {
        anomaly_id: [0u8; 32],
        contract_address: CONTRACT.to_string(),
        anomaly_type: AnomalyType::GasSpike,
        severity: RiskLevel::Low,
        detected_at: 0,
        description: Vec::new(),
        affected_metrics: Vec::new(),
        root_cause_analysis: Vec::new(),
        mitigation_steps: Vec::new(),
        auto_resolved: false,
    };
    let mut scores = Vec::new();
    for level in [RiskLevel::Low, RiskLevel::Medium, RiskLevel::High, RiskLevel::Critical] {
        event.severity = level;
        scores.push(AnomalyDetector::calculate_severity_score(&event));
    }
    assert_eq!(scores, vec![25, 50, 75, 100]);
}

#[test]
fn zero_detection_period_is_refused() {
    let mut st = DiagnosticsStorage::new();
    let result = AnomalyDetector::detect_anomalies(&mut st, &CONTRACT.to_string(), 0, 10, Vec::new(), Vec::new());
    assert_eq!(result.unwrap_err(), DiagnosticsError::InvalidDetectionPeriod);
}

#[test]
fn recorded_metrics_are_read_back() {
    let mut st = DiagnosticsStorage::new();
    Diagnostics::initialize(&mut st, "GADMIN".to_string(), config()).unwrap();
    let m = sample(5000, 120, 2_000_000);
    let alerts = PerformanceMonitor::record_metrics(&mut st, CONTRACT.to_string(), m.clone()).unwrap();
    assert_eq!(alerts.len(), 1);
    assert_eq!(alerts[0].alert_name, b"GAS_USAGE_HIGH".to_vec());
    let back = PerformanceMonitor::get_current_metrics(&st, &CONTRACT.to_string(), 5100).unwrap();
    assert_eq!(back.timestamp, 5000);
    assert_eq!(back.gas_used, 2_000_000);
    assert_eq!(
        PerformanceMonitor::get_current_metrics(&st, &CONTRACT.to_string(), 5000 + 7200).unwrap_err(),
        DiagnosticsError::MetricsNotFound
    );
}

#[test]
fn invalid_metrics_are_refused() {
    let mut st = DiagnosticsStorage::new();
    let mut m = sample(1, 0, 1);
    m.transaction_count = 5;
    assert_eq!(
        PerformanceMonitor::record_metrics(&mut st, CONTRACT.to_string(), m).unwrap_err(),
        DiagnosticsError::InvalidMetrics
    );
    let mut m = sample(1, 10, 1);
    m.error_rate = 101;
    assert_eq!(PerformanceMonitor::validate_metrics(&m), Err(DiagnosticsError::InvalidMetrics));
}

#[test]
fn monitoring_starts_and_stops() {
    let mut st = DiagnosticsStorage::new();
    let contract = CONTRACT.to_string();
    assert_eq!(
        Diagnostics::start_performance_monitoring(&mut st, contract.clone(), monitoring(60, 10), 1, 0).unwrap_err(),
        DiagnosticsError::AdminNotSet
    );
    Diagnostics::initialize(&mut st, "GADMIN".to_string(), config()).unwrap();
    assert_eq!(
        Diagnostics::start_performance_monitoring(&mut st, contract.clone(), monitoring(0, 10), 1, 0).unwrap_err(),
        DiagnosticsError::InvalidConfiguration
    );
    let id = Diagnostics::start_performance_monitoring(&mut st, contract.clone(), monitoring(60, 10), 0x0102, 3)
        .unwrap();
    assert_eq!(&id[0..8], &[0, 0, 0, 0, 0, 0, 1, 2]);
    assert_eq!(&id[8..12], &[0, 0, 0, 3]);
    Diagnostics::stop_performance_monitoring(&mut st, &contract).unwrap();
    Diagnostics::stop_performance_monitoring(&mut st, &contract).unwrap();
}

#[test]
fn run_diagnostic_never_succeeds() {
    let mut st = DiagnosticsStorage::new();
    let contract = CONTRACT.to_string();
    assert_eq!(
        Diagnostics::run_diagnostic(&mut st, &contract, 10_000, Vec::new(), Vec::new()),
        Err(DiagnosticsError::MetricsNotFound)
    );
    PerformanceMonitor::record_metrics(&mut st, contract.clone(), sample(9_990, 10, 1)).unwrap();
    assert_eq!(
        Diagnostics::run_diagnostic(&mut st, &contract, 10_000, Vec::new(), Vec::new()),
        Err(DiagnosticsError::InsufficientDataForPrediction)
    );
}

#[test]
fn performance_score_formula() {
    assert_eq!(PerformanceMonitor::calculate_performance_score(500, 0, 10), 100);
    assert_eq!(PerformanceMonitor::calculate_performance_score(2000, 2, 2_000_000), 100 - 20 - 10 - 20);
    assert_eq!(PerformanceMonitor::calculate_performance_score(50_000, 10, 0), 0);
}

#[test]
fn efficiency_score_formula() {
    assert_eq!(PerformanceMonitor::calculate_efficiency_score(100, 100, 100), 100);
    assert_eq!(PerformanceMonitor::calculate_efficiency_score(1000, 200_000, 2048), 100 - 20 - 20 - 20);
}

#[test]
fn scenario_score_formula() {
    assert_eq!(BenchmarkEngine::calculate_scenario_score(95, 500, 10), 95);
    assert_eq!(BenchmarkEngine::calculate_scenario_score(95, 1500, 2_000_000), 80);
    assert_eq!(BenchmarkEngine::calculate_scenario_score(3, 1500, 0), 0);
    assert_eq!(BenchmarkEngine::calculate_scenario_score(250, 0, 0), 100);
}

#[test]
fn cost_increase_formula() {
    assert_eq!(PredictiveEngine::calculate_cost_increase(0, 500), 0);
    assert_eq!(PredictiveEngine::calculate_cost_increase(200, 300), 50);
    assert_eq!(PredictiveEngine::calculate_cost_increase(300, 300), 0);
}

#[test]
fn dropout_risk_levels() {
    assert_eq!(BehaviorAnalyzer::determine_dropout_risk_level(10, 10, 10, 10), RiskLevel::Critical);
    assert_eq!(BehaviorAnalyzer::determine_dropout_risk_level(50, 50, 50, 50), RiskLevel::High);
    assert_eq!(BehaviorAnalyzer::determine_dropout_risk_level(70, 70, 70, 70), RiskLevel::Medium);
    assert_eq!(BehaviorAnalyzer::determine_dropout_risk_level(90, 80, 80, 70), RiskLevel::Low);
}

#[test]
fn a_period_reaching_before_the_ledger_start_uses_the_hours_since() {
    let mut st = DiagnosticsStorage::new();
    st.store_performance_metrics(CONTRACT.to_string(), sample(0, 100, 50_000));
    st.store_performance_metrics(CONTRACT.to_string(), sample(3_600, 100, 50_000));
    let samples = AnomalyDetector::collect_samples(&st, &CONTRACT.to_string(), 86_400, 10 * 3_600);
    assert_eq!(samples.len(), 2);
    let r = AnomalyDetector::detect_anomalies(&mut st, &CONTRACT.to_string(), 86_400, 10 * 3_600, Vec::new(), Vec::new());
    assert!(r.is_ok());
}
