//! Errors of the diagnostics platform, each with its stable numeric code.
use vstd::prelude::*;

verus! {

/// What can go wrong in a diagnostics operation.
#[derive(Clone, Copy, Debug, PartialEq, Eq, Structural)]
pub enum DiagnosticsError {
    /// Admin address has not been set during initialization.
    AdminNotSet,
    /// Diagnostics configuration has not been set.
    ConfigNotSet,
    /// The provided configuration values are invalid.
    InvalidConfig,
    /// Caller is not authorized to perform this operation.
    Unauthorized,
    /// One or more configuration fields contain invalid values.
    InvalidConfiguration,
    /// Performance monitoring is disabled in the current configuration.
    MonitoringDisabled,
    /// The supplied metrics data failed validation.
    InvalidMetrics,
    /// No metrics record found for the specified contract.
    MetricsNotFound,
    /// Stored metrics data is corrupted or unreadable.
    DataCorrupt,
    /// The requested anomaly detection period is out of the allowed range.
    InvalidDetectionPeriod,
    /// Predictive capacity analysis is disabled in the current configuration.
    PredictionDisabled,
    /// Not enough historical data to produce a prediction.
    InsufficientData,
    /// The prediction model encountered an internal error.
    ModelError,
    /// The requested prediction horizon exceeds the allowed maximum.
    InvalidPredictionHorizon,
    /// Insufficient historical data points to generate a capacity prediction.
    InsufficientDataForPrediction,
    /// Behavior analysis is disabled in the current configuration.
    BehaviorDisabled,
    /// No behavior data found for the specified user.
    UserDataNotFound,
    /// The requested analysis period is invalid or out of range.
    InvalidAnalysisPeriod,
    /// Not enough behavior events recorded to complete the analysis.
    InsufficientBehaviorData,
    /// An error occurred while generating optimization recommendations.
    OptimizationError,
    /// No optimization opportunities were found for the contract.
    NoOptimizations,
    /// Distributed tracing is disabled in the current configuration.
    TracingDisabled,
    /// No trace found for the specified trace ID.
    TraceNotFound,
    /// The provided trace span data is invalid.
    InvalidTraceSpan,
    /// The trace has already been completed and cannot be modified.
    TraceAlreadyCompleted,
    /// Benchmarking is disabled in the current configuration.
    BenchmarkDisabled,
    /// The benchmark run failed to complete successfully.
    BenchmarkFailed,
    /// The provided benchmark configuration contains invalid values.
    InvalidBenchmarkConfig,
    /// Anomaly detection is disabled in the current configuration.
    AnomalyDisabled,
    /// No anomalies were detected during the specified period.
    NoAnomalies,
    /// An error occurred during resource utilization analysis.
    ResourceError,
    /// Regression testing is disabled in the current configuration.
    RegressionDisabled,
    /// No baseline metrics found for the specified contract.
    BaselineNotFound,
    /// The provided test scenario is invalid or malformed.
    InvalidTestScenario,
    /// The regression test configuration is missing required fields or is invalid.
    InvalidRegressionConfig,
    /// A storage read or write operation failed.
    StorageError,
    /// The requested data record was not found in storage.
    DataNotFound,
    /// An unexpected internal error occurred.
    InternalError,
    /// The provided input value is invalid or out of range.
    InvalidInput,
}

/// The stable numeric code of each error.
pub open spec fn diagnostics_error_code(e: DiagnosticsError) -> u32 {
    match e {
        DiagnosticsError::AdminNotSet => 1001,
        DiagnosticsError::ConfigNotSet => 1002,
        DiagnosticsError::InvalidConfig => 1003,
        DiagnosticsError::Unauthorized => 1004,
        DiagnosticsError::InvalidConfiguration => 1005,
        DiagnosticsError::MonitoringDisabled => 1101,
        DiagnosticsError::InvalidMetrics => 1102,
        DiagnosticsError::MetricsNotFound => 1103,
        DiagnosticsError::DataCorrupt => 1105,
        DiagnosticsError::InvalidDetectionPeriod => 1106,
        DiagnosticsError::PredictionDisabled => 1201,
        DiagnosticsError::InsufficientData => 1202,
        DiagnosticsError::ModelError => 1203,
        DiagnosticsError::InvalidPredictionHorizon => 1204,
        DiagnosticsError::InsufficientDataForPrediction => 1205,
        DiagnosticsError::BehaviorDisabled => 1301,
        DiagnosticsError::UserDataNotFound => 1304,
        DiagnosticsError::InvalidAnalysisPeriod => 1305,
        DiagnosticsError::InsufficientBehaviorData => 1306,
        DiagnosticsError::OptimizationError => 1401,
        DiagnosticsError::NoOptimizations => 1402,
        DiagnosticsError::TracingDisabled => 1501,
        DiagnosticsError::TraceNotFound => 1503,
        DiagnosticsError::InvalidTraceSpan => 1504,
        DiagnosticsError::TraceAlreadyCompleted => 1505,
        DiagnosticsError::BenchmarkDisabled => 1601,
        DiagnosticsError::BenchmarkFailed => 1603,
        DiagnosticsError::InvalidBenchmarkConfig => 1604,
        DiagnosticsError::AnomalyDisabled => 1701,
        DiagnosticsError::NoAnomalies => 1702,
        DiagnosticsError::ResourceError => 1801,
        DiagnosticsError::RegressionDisabled => 1901,
        DiagnosticsError::BaselineNotFound => 1903,
        DiagnosticsError::InvalidTestScenario => 1904,
        DiagnosticsError::InvalidRegressionConfig => 1905,
        DiagnosticsError::StorageError => 2101,
        DiagnosticsError::DataNotFound => 2102,
        DiagnosticsError::InternalError => 2301,
        DiagnosticsError::InvalidInput => 2302,
    }
}

impl DiagnosticsError {
    /// The stable numeric code of this error.
    pub fn code(&self) -> (r: u32)
        ensures
            r == diagnostics_error_code(*self),
    {
        match self {
            DiagnosticsError::AdminNotSet => 1001,
            DiagnosticsError::ConfigNotSet => 1002,
            DiagnosticsError::InvalidConfig => 1003,
            DiagnosticsError::Unauthorized => 1004,
            DiagnosticsError::InvalidConfiguration => 1005,
            DiagnosticsError::MonitoringDisabled => 1101,
            DiagnosticsError::InvalidMetrics => 1102,
            DiagnosticsError::MetricsNotFound => 1103,
            DiagnosticsError::DataCorrupt => 1105,
            DiagnosticsError::InvalidDetectionPeriod => 1106,
            DiagnosticsError::PredictionDisabled => 1201,
            DiagnosticsError::InsufficientData => 1202,
            DiagnosticsError::ModelError => 1203,
            DiagnosticsError::InvalidPredictionHorizon => 1204,
            DiagnosticsError::InsufficientDataForPrediction => 1205,
            DiagnosticsError::BehaviorDisabled => 1301,
            DiagnosticsError::UserDataNotFound => 1304,
            DiagnosticsError::InvalidAnalysisPeriod => 1305,
            DiagnosticsError::InsufficientBehaviorData => 1306,
            DiagnosticsError::OptimizationError => 1401,
            DiagnosticsError::NoOptimizations => 1402,
            DiagnosticsError::TracingDisabled => 1501,
            DiagnosticsError::TraceNotFound => 1503,
            DiagnosticsError::InvalidTraceSpan => 1504,
            DiagnosticsError::TraceAlreadyCompleted => 1505,
            DiagnosticsError::BenchmarkDisabled => 1601,
            DiagnosticsError::BenchmarkFailed => 1603,
            DiagnosticsError::InvalidBenchmarkConfig => 1604,
            DiagnosticsError::AnomalyDisabled => 1701,
            DiagnosticsError::NoAnomalies => 1702,
            DiagnosticsError::ResourceError => 1801,
            DiagnosticsError::RegressionDisabled => 1901,
            DiagnosticsError::BaselineNotFound => 1903,
            DiagnosticsError::InvalidTestScenario => 1904,
            DiagnosticsError::InvalidRegressionConfig => 1905,
            DiagnosticsError::StorageError => 2101,
            DiagnosticsError::DataNotFound => 2102,
            DiagnosticsError::InternalError => 2301,
            DiagnosticsError::InvalidInput => 2302,
        }
    }
}

/// Error kinds used by the platform's own test harness.
#[derive(Clone, Copy, Debug, PartialEq, Eq, Structural)]
pub enum TestError {
    Test1,
    Test2,
}

impl TestError {
    /// The numeric code of this error.
    pub fn code(&self) -> (r: u32)
        ensures
            r == (match *self {
                TestError::Test1 => 1u32,
                TestError::Test2 => 2u32,
            }),
    {
        match self {
            TestError::Test1 => 1,
            TestError::Test2 => 2,
        }
    }
}

} // verus!
