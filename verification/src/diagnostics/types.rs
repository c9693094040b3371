//! Records of the diagnostics platform. Account addresses are held as their
//! text form, identifiers as 32 bytes, and human-readable text as UTF-8 bytes.
use vstd::prelude::*;

verus! {

/// Platform-wide settings.
#[derive(Clone, Debug)]
pub struct DiagnosticsConfig {
    pub admin: String,
    pub monitoring_enabled: bool,
    pub anomaly_detection_enabled: bool,
    pub prediction_enabled: bool,
    pub max_trace_duration: u64,
    pub metrics_retention_period: u64,
    pub alert_threshold_cpu: u32,
    pub alert_threshold_memory: u32,
    pub alert_threshold_gas: u64,
}

/// Per-contract monitoring settings.
#[derive(Clone, Copy, Debug, PartialEq, Eq, Structural)]
pub struct MonitoringConfig {
    pub metrics_collection_interval: u64,
    pub enable_real_time_alerts: bool,
    pub enable_predictive_analysis: bool,
    pub enable_behavior_tracking: bool,
    pub max_metrics_history: u32,
}

/// One sample of a contract's performance.
#[derive(Clone, Debug)]
pub struct PerformanceMetrics {
    pub timestamp: u64,
    pub contract_address: String,
    pub execution_time: u64,
    pub gas_used: u64,
    pub memory_usage: u32,
    pub storage_reads: u32,
    pub storage_writes: u32,
    pub cpu_utilization: u32,
    pub cpu_instructions: u64,
    pub transaction_count: u32,
    pub error_count: u32,
    pub error_rate: u32,
    pub average_execution_time: u64,
    pub average_response_time: u64,
    pub network_bandwidth: u32,
    pub gas_consumption: u64,
    pub storage_usage: u32,
    pub peak_memory_usage: u32,
    pub network_latency: u32,
}

/// Kind of resource that limits a contract.
#[derive(Clone, Copy, Debug, PartialEq, Eq, Structural)]
pub enum BottleneckType {
    CPU,
    Memory,
    Storage,
    Network,
    Gas,
    Throughput,
}

/// Risk levels, from lowest to highest.
#[derive(Clone, Copy, Debug, PartialEq, Eq, Structural)]
pub enum RiskLevel {
    Low,
    Medium,
    High,
    Critical,
}

/// Position of a risk level in the order Low < Medium < High < Critical.
pub open spec fn risk_rank(r: RiskLevel) -> nat {
    match r {
        RiskLevel::Low => 0,
        RiskLevel::Medium => 1,
        RiskLevel::High => 2,
        RiskLevel::Critical => 3,
    }
}

impl RiskLevel {
    /// Position of this level in the order Low < Medium < High < Critical.
    pub fn rank(&self) -> (r: u8)
        ensures
            r as nat == risk_rank(*self),
    {
        match self {
            RiskLevel::Low => 0,
            RiskLevel::Medium => 1,
            RiskLevel::High => 2,
            RiskLevel::Critical => 3,
        }
    }
}

/// Projected costs.
#[derive(Clone, Copy, Debug, PartialEq, Eq, Structural)]
pub struct CostProjection {
    pub current_daily_cost: u64,
    pub projected_daily_cost: u64,
    pub cost_optimization_potential: u64,
    pub cost_trend: CostTrend,
}

/// Direction of costs over time.
#[derive(Clone, Copy, Debug, PartialEq, Eq, Structural)]
pub enum CostTrend {
    Decreasing,
    Stable,
    Increasing,
    Exponential,
}

/// Kind of a learner's behavior pattern.
#[derive(Clone, Copy, Debug, PartialEq, Eq, Structural)]
pub enum PatternType {
    LoginTiming,
    SessionDuration,
    ContentConsumption,
    InteractionFrequency,
    ProgressPacing,
    ErrorRecovery,
}

/// Effect of a pattern on learning.
#[derive(Clone, Copy, Debug, PartialEq, Eq, Structural)]
pub enum ImpactLevel {
    Positive,
    Neutral,
    Negative,
    Unknown,
}

/// How well a learner is learning.
#[derive(Clone, Copy, Debug, PartialEq, Eq, Structural)]
pub struct LearningEffectiveness {
    pub completion_rate: u32,
    pub knowledge_retention: u32,
    pub skill_acquisition: u32,
    pub engagement_score: u32,
    pub effectiveness_trend: EffectivenessTrend,
}

/// Direction of learning effectiveness.
#[derive(Clone, Copy, Debug, PartialEq, Eq, Structural)]
pub enum EffectivenessTrend {
    Improving,
    Stable,
    Declining,
    Inconsistent,
}

/// How engaged a learner is.
#[derive(Clone, Copy, Debug, PartialEq, Eq, Structural)]
pub struct EngagementMetrics {
    pub daily_active_time: u32,
    pub session_frequency: u32,
    pub content_interaction_rate: u32,
    pub completion_velocity: u32,
    pub return_rate: u32,
}

/// Kind of behavioral risk.
#[derive(Clone, Copy, Debug, PartialEq, Eq, Structural)]
pub enum RiskType {
    Dropout,
    LearningPlateau,
    Disengagement,
    SkillRegression,
    TechnicalDifficulties,
}

/// Area an optimization addresses.
#[derive(Clone, Copy, Debug, PartialEq, Eq, Structural)]
pub enum OptimizationCategory {
    Gas,
    Storage,
    Memory,
    Network,
    Algorithm,
    Architecture,
}

/// Kind of optimization.
#[derive(Clone, Copy, Debug, PartialEq, Eq, Structural)]
pub enum OptimizationType {
    Storage,
    Compute,
    Network,
    Memory,
    Gas,
    GasEfficiency,
    StorageEfficiency,
    MemoryEfficiency,
    NetworkEfficiency,
    AlgorithmEfficiency,
    ArchitectureImprovement,
}

/// Effort an optimization takes.
#[derive(Clone, Copy, Debug, PartialEq, Eq, Structural)]
pub enum ImplementationEffort {
    Low,
    Simple,
    Medium,
    Complex,
    High,
    VeryHigh,
    VeryComplex,
}

/// Coarse complexity of an implementation.
#[derive(Clone, Copy, Debug, PartialEq, Eq, Structural)]
pub enum ImplementationComplexity {
    Low,
    Medium,
    High,
}

/// Priority of a recommendation.
#[derive(Clone, Copy, Debug, PartialEq, Eq, Structural)]
pub enum Priority {
    Low,
    Medium,
    High,
    Critical,
}

/// Priority of an optimization plan.
#[derive(Clone, Copy, Debug, PartialEq, Eq, Structural)]
pub enum OptimizationPriority {
    Low,
    Medium,
    High,
    Critical,
}

/// Expected improvements, in percent.
#[derive(Clone, Copy, Debug, PartialEq, Eq, Structural)]
pub struct ImpactEstimate {
    pub performance_improvement: u32,
    pub cost_reduction: u32,
    pub user_experience_improvement: u32,
    pub reliability_improvement: u32,
}

/// Complexity of an implementation.
#[derive(Clone, Copy, Debug, PartialEq, Eq, Structural)]
pub enum Complexity {
    Low,
    Medium,
    High,
    Simple,
    Moderate,
    Complex,
    VeryComplex,
}

/// Expected savings.
#[derive(Clone, Copy, Debug, PartialEq, Eq, Structural)]
pub struct SavingsEstimate {
    pub daily_cost_savings: u64,
    pub monthly_cost_savings: u64,
    pub annual_cost_savings: u64,
    pub performance_gains: u32,
}

/// An automated optimization recommendation.
#[derive(Clone, Debug)]
pub struct OptimizationRecommendation {
    pub recommendation_id: [u8; 32],
    pub category: OptimizationCategory,
    pub priority: Priority,
    pub description: Vec<u8>,
    pub expected_impact: ImpactEstimate,
    pub implementation_complexity: Complexity,
    pub estimated_savings: SavingsEstimate,
    pub implementation_steps: Vec<Vec<u8>>,
    pub contract_address: String,
    pub optimization_type: OptimizationType,
    pub title: Vec<u8>,
    pub expected_improvement: u64,
    pub estimated_effort: ImplementationEffort,
    pub cost_savings: u64,
    pub automated_fix_available: bool,
    pub monitoring_metrics: Vec<Vec<u8>>,
}

/// A slow step found in a trace or benchmark.
#[derive(Clone, Debug)]
pub struct PerformanceBottleneck {
    pub span_id: [u8; 32],
    pub bottleneck_type: BottleneckType,
    pub severity: RiskLevel,
    pub duration: u64,
    pub impact_percentage: u32,
    pub description: Vec<u8>,
}

/// A call that a benchmark scenario makes.
#[derive(Clone, Debug)]
pub struct FunctionCall {
    pub contract_address: String,
    pub function_name: String,
    pub call_frequency: u32,
    pub expected_duration: u64,
}

/// Limits a scenario is expected to stay within.
#[derive(Clone, Copy, Debug, PartialEq, Eq, Structural)]
pub struct PerformanceExpectation {
    pub max_execution_time: u64,
    pub max_gas_usage: u64,
    pub max_memory_usage: u32,
    pub min_success_rate: u32,
}

/// Shape of the load a scenario applies.
#[derive(Clone, Copy, Debug, PartialEq, Eq, Structural)]
pub enum LoadPattern {
    Constant,
    Ramp,
    Spike,
    Wave,
}

/// One benchmark scenario.
#[derive(Clone, Debug)]
pub struct TestScenario {
    pub scenario_name: Vec<u8>,
    pub function_calls: Vec<FunctionCall>,
    pub expected_performance: PerformanceExpectation,
    pub load_pattern: LoadPattern,
}

/// What a benchmark runs.
#[derive(Clone, Debug)]
pub struct BenchmarkConfig {
    pub benchmark_name: String,
    pub target_contracts: Vec<String>,
    pub test_scenarios: Vec<TestScenario>,
    pub duration: u64,
    pub concurrent_users: u32,
    pub has_baseline: bool,
    pub baseline_version: Vec<u8>,
}

/// Outcome of one scenario.
#[derive(Clone, Debug)]
pub struct ScenarioResult {
    pub scenario_name: Vec<u8>,
    pub success_rate: u32,
    pub average_execution_time: u64,
    pub total_gas_used: u64,
    pub peak_memory_usage: u32,
    pub error_count: u32,
    pub performance_score: u32,
}

/// Outcome of a benchmark.
#[derive(Clone, Debug)]
pub struct BenchmarkResult {
    pub benchmark_id: [u8; 32],
    pub benchmark_name: String,
    pub execution_time: u64,
    pub scenario_results: Vec<ScenarioResult>,
    pub has_comparison: bool,
    pub comparison_baseline_time: u64,
    pub comparison_improvement_pct: i32,
    pub bottlenecks: Vec<PerformanceBottleneck>,
    pub recommendations: Vec<Vec<u8>>,
    pub overall_score: u32,
    pub performance_comparison: Vec<u8>,
}

/// A benchmark compared with a baseline.
#[derive(Clone, Debug)]
pub struct PerformanceComparison {
    pub baseline_version: Vec<u8>,
    pub current_version: Vec<u8>,
    pub performance_delta: i32,
    pub gas_delta: i64,
    pub memory_delta: i32,
    pub throughput_delta: i32,
    pub regression_detected: bool,
    pub baseline_duration: u64,
    pub improvement_percentage: i32,
}

/// A detected anomaly.
#[derive(Clone, Debug)]
pub struct AnomalyEvent {
    pub anomaly_id: [u8; 32],
    pub contract_address: String,
    pub anomaly_type: AnomalyType,
    pub severity: RiskLevel,
    pub detected_at: u64,
    pub description: Vec<u8>,
    pub affected_metrics: Vec<Vec<u8>>,
    pub root_cause_analysis: Vec<u8>,
    pub mitigation_steps: Vec<Vec<u8>>,
    pub auto_resolved: bool,
}

/// Kind of anomaly.
#[derive(Clone, Copy, Debug, PartialEq, Eq, Structural)]
pub enum AnomalyType {
    PerformanceDegradation,
    MemoryLeak,
    GasSpike,
    ErrorRateSpike,
    ThroughputDrop,
    LatencyIncrease,
    ResourceExhaustion,
    UnusualPatterns,
    StateInconsistency,
}

/// Usage figures of one resource.
#[derive(Clone, Debug)]
pub struct ResourceMetrics {
    pub average_usage: u32,
    pub peak_usage: u32,
    pub minimum_usage: u32,
    pub utilization_trend: UtilizationTrend,
    pub efficiency_score: u32,
    pub storage_cost_per_operation: u64,
    pub cpu_efficiency_score: u64,
    pub optimization_opportunities: Vec<Vec<u8>>,
    pub gas_optimization_potential: u64,
    pub memory_leak_risk: RiskLevel,
    pub memory_opt_recommendations: Vec<Vec<u8>>,
    pub storage_efficiency_score: u32,
    pub storage_opt_suggestions: Vec<Vec<u8>>,
}

/// Gas usage figures.
#[derive(Clone, Copy, Debug, PartialEq, Eq, Structural)]
pub struct GasUtilization {
    pub average_usage: u32,
    pub peak_usage: u32,
    pub peak_gas_usage: u32,
    pub minimum_usage: u32,
    pub average_gas_per_transaction: u32,
    pub utilization_trend: UtilizationTrend,
    pub efficiency_score: u32,
    pub gas_optimization_potential: u64,
    pub gas_cost_analysis: u64,
    pub gas_efficiency_score: u64,
}

/// Direction of a resource's usage.
#[derive(Clone, Copy, Debug, PartialEq, Eq, Structural)]
pub enum UtilizationTrend {
    Increasing,
    Stable,
    Decreasing,
    Volatile,
}

/// Limits a regression test holds a contract to.
#[derive(Clone, Copy, Debug, PartialEq, Eq, Structural)]
pub struct PerformanceThresholds {
    pub max_execution_time_regression: u32,
    pub max_gas_usage_regression: u32,
    pub max_memory_usage_regression: u32,
    pub min_throughput_threshold: u32,
    pub max_error_rate_increase: u32,
    pub max_execution_time: u64,
    pub max_gas_usage: u64,
    pub max_memory_usage: u64,
    pub max_error_rate: u64,
    pub max_network_latency: u64,
}

/// Verdict of a regression test.
#[derive(Clone, Copy, Debug, PartialEq, Eq, Structural)]
pub enum TestVerdict {
    Pass,
    Warning,
    Fail,
    Inconclusive,
}

/// Health of a contract or of the system.
#[derive(Clone, Copy, Debug, PartialEq, Eq, Structural)]
pub enum HealthStatus {
    Healthy,
    Warning,
    Critical,
    Unknown,
}

/// Health of one contract.
#[derive(Clone, Debug)]
pub struct ContractHealth {
    pub contract_address: String,
    pub health_status: HealthStatus,
    pub performance_score: u32,
    pub error_rate: u32,
    pub last_activity: u64,
}

/// Figures over all monitored contracts.
#[derive(Clone, Copy, Debug, PartialEq, Eq, Structural)]
pub struct SystemMetrics {
    pub total_contracts: u32,
    pub active_contracts: u32,
    pub total_transactions: u32,
    pub average_response_time: u64,
    pub error_rate: u32,
    pub resource_utilization: u32,
}

/// Health of the whole system.
#[derive(Clone, Debug)]
pub struct SystemHealthReport {
    pub timestamp: u64,
    pub overall_health: HealthStatus,
    pub contract_health: Vec<ContractHealth>,
    pub system_metrics: SystemMetrics,
    pub anomalies: Vec<AnomalyEvent>,
    pub recommendations: Vec<Vec<u8>>,
}

/// Kind of diagnostic event.
#[derive(Clone, Copy, Debug, PartialEq, Eq, Structural)]
pub enum DiagnosticEventType {
    StateSnapshot,
    TransactionTrace,
    PerformanceMetric,
    AnomalyDetected,
    ErrorOccurred,
}

/// Severity of a bottleneck.
#[derive(Clone, Copy, Debug, PartialEq, Eq, Structural)]
pub enum BottleneckSeverity {
    Low,
    Medium,
    High,
    Critical,
}

/// Severity of an anomaly report.
#[derive(Clone, Copy, Debug, PartialEq, Eq, Structural)]
pub enum AnomalySeverity {
    Info,
    Warning,
    Severe,
    Critical,
}

/// Counters for the diagnostics dashboard.
#[derive(Clone, Copy, Debug, PartialEq, Eq, Structural)]
pub struct DiagnosticStats {
    pub total_contracts_monitored: u32,
    pub total_transactions_traced: u32,
    pub total_anomalies_detected: u32,
    pub total_bottlenecks_found: u32,
    pub avg_execution_time_ms: u32,
    pub avg_gas_usage: u64,
    pub success_rate_percentage: u32,
}

/// Switches of the tracing diagnostics.
#[derive(Clone, Copy, Debug, PartialEq, Eq, Structural)]
pub struct DiagnosticConfig {
    pub enable_state_tracking: bool,
    pub enable_transaction_tracing: bool,
    pub enable_performance_profiling: bool,
    pub enable_anomaly_detection: bool,
    pub trace_retention_days: u32,
    pub anomaly_threshold_multiplier: u32,
    pub max_traces_per_session: u32,
}

impl Default for DiagnosticConfig {
    /// Everything enabled, traces kept 30 days, anomalies at twice the norm,
    /// at most 1000 traces per session.
    fn default() -> (r: Self)
        ensures
            r == (DiagnosticConfig {
                enable_state_tracking: true,
                enable_transaction_tracing: true,
                enable_performance_profiling: true,
                enable_anomaly_detection: true,
                trace_retention_days: 30,
                anomaly_threshold_multiplier: 2,
                max_traces_per_session: 1000,
            }),
    {
        DiagnosticConfig {
            enable_state_tracking: true,
            enable_transaction_tracing: true,
            enable_performance_profiling: true,
            enable_anomaly_detection: true,
            trace_retention_days: 30,
            anomaly_threshold_multiplier: 2,
            max_traces_per_session: 1000,
        }
    }
}

/// Direction of a trend.
#[derive(Clone, Copy, Debug, PartialEq, Eq, Structural)]
pub enum TrendDirection {
    Increasing,
    Decreasing,
    Stable,
}

/// State of a test run.
#[derive(Clone, Copy, Debug, PartialEq, Eq, Structural)]
pub enum TestExecutionStatus {
    NotStarted,
    InProgress,
    Completed,
    Failed,
    Cancelled,
}

/// Severity of a regression.
#[derive(Clone, Copy, Debug, PartialEq, Eq, Structural)]
pub enum RegressionSeverity {
    Low,
    Medium,
    High,
    Critical,
}

/// State of monitoring.
#[derive(Clone, Copy, Debug, PartialEq, Eq, Structural)]
pub enum MonitoringStatus {
    Inactive,
    Active,
    Paused,
    Stopped,
}

/// Kind of regression.
#[derive(Clone, Copy, Debug, PartialEq, Eq, Structural)]
pub enum RegressionType {
    PerformanceDegradation,
    MemoryLeakage,
    ResourceConsumption,
    ErrorRateIncrease,
    LatencyIncrease,
    FunctionalRegression,
}

/// Business impact of an optimization.
#[derive(Clone, Copy, Debug, PartialEq, Eq, Structural)]
pub enum BusinessImpact {
    Low,
    Medium,
    High,
}

/// State of an optimization's implementation.
#[derive(Clone, Copy, Debug, PartialEq, Eq, Structural)]
pub enum ImplementationStatus {
    NotStarted,
    InProgress,
    Completed,
    Failed,
}

/// State of a monitoring session.
#[derive(Clone, Copy, Debug, PartialEq, Eq, Structural)]
pub enum SessionStatus {
    Active,
    Completed,
    Cancelled,
}

/// Kind of performance alert.
#[derive(Clone, Copy, Debug, PartialEq, Eq, Structural)]
pub enum AlertType {
    GasUsageHigh,
    MemoryUsageHigh,
    ExecutionTimeSlow,
    StorageInefficient,
    ErrorRateHigh,
    AnomalyDetected,
    PerformanceRegression,
}

/// Outcome of a test.
#[derive(Clone, Copy, Debug, PartialEq, Eq, Structural)]
pub enum TestStatus {
    Passed,
    Failed,
    Skipped,
    Running,
}

/// Summary of anomalies over a period.
#[derive(Clone, Debug)]
pub struct AnomalyTrends {
    pub trend_direction: TrendDirection,
    pub frequency_increase: bool,
    pub severity_escalation: bool,
    pub has_prediction: bool,
    pub predicted_next_anomaly: u64,
    pub total_anomalies: u32,
    pub critical_anomalies: u32,
    pub high_severity_anomalies: u32,
    pub most_common_type: Vec<u8>,
    pub improvement_rate: i32,
}

/// Settings of continuous monitoring.
#[derive(Clone, Copy, Debug, PartialEq, Eq, Structural)]
pub struct ContinuousMonitorConfig {
    pub enabled: bool,
    pub check_interval_seconds: u64,
    pub alert_threshold: u32,
    pub auto_remediation: bool,
}

} // verus!
