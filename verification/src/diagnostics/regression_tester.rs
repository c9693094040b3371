//! Regression testing: scoring a scenario's sample against its thresholds and
//! classifying a regression against the scenario's expectations.
use vstd::prelude::*;
use vstd::string::StringSliceAdditionalSpecFns;
use crate::text::{texts, text_bytes, text_list3};
use crate::diagnostics::types::{PerformanceMetrics, PerformanceThresholds, RegressionType};

verus! {

/// Performance regression testing.
pub struct RegressionTester;

/// One regression test scenario with its expectations.
#[derive(Clone, Debug)]
pub struct RegressionTestScenario {
    pub scenario_id: [u8; 32],
    pub test_name: Vec<u8>,
    pub target_contract: String,
    pub expected_performance_score: u64,
    pub test_parameters: Vec<Vec<u8>>,
    pub expected_execution_time: u64,
    pub expected_gas_usage: u64,
    pub expected_memory_usage: u32,
    pub expected_error_rate: u32,
    pub expected_network_latency: u32,
    pub expected_transaction_count: u32,
    pub performance_thresholds: PerformanceThresholds,
}

/// Parameters of a test run.
#[derive(Clone, Debug)]
pub struct TestParameters {
    pub test_name: Vec<u8>,
    pub iterations: u32,
    pub timeout_seconds: u64,
    pub acceptable_deviation_pct: u32,
}

/// Score out of 100: 20 off for execution time, 25 for gas, 15 for memory,
/// 30 for the error rate and 10 for latency above their thresholds.
pub open spec fn threshold_score_spec(m: PerformanceMetrics, t: PerformanceThresholds) -> int {
    100 - (if m.execution_time > t.max_execution_time { 20int } else { 0int }) - (if m.gas_used > t.max_gas_usage {
        25int
    } else {
        0int
    }) - (if m.memory_usage > t.max_memory_usage { 15int } else { 0int }) - (if m.error_rate > t.max_error_rate {
        30int
    } else {
        0int
    }) - (if m.network_latency > t.max_network_latency { 10int } else { 0int })
}

/// Kind of regression a sample shows against a scenario's expectations: the
/// first of execution time above 1.2 times, gas above 1.2 times, memory above
/// 1.2 times, error rate above twice, latency above 1.5 times; functional otherwise.
pub open spec fn regression_kind_spec(m: PerformanceMetrics, sc: RegressionTestScenario) -> RegressionType {
    if m.execution_time > sc.expected_execution_time * 12 / 10 {
        RegressionType::PerformanceDegradation
    } else if m.gas_used > sc.expected_gas_usage * 12 / 10 {
        RegressionType::ResourceConsumption
    } else if m.memory_usage > sc.expected_memory_usage * 12 / 10 {
        RegressionType::MemoryLeakage
    } else if m.error_rate > sc.expected_error_rate * 2 {
        RegressionType::ErrorRateIncrease
    } else if m.network_latency > sc.expected_network_latency * 15 / 10 {
        RegressionType::LatencyIncrease
    } else {
        RegressionType::FunctionalRegression
    }
}

/// Name of each kind of regression.
pub open spec fn regression_type_name(t: RegressionType) -> Seq<u8> {
    match t {
        RegressionType::PerformanceDegradation => "Performance Degradation".spec_bytes(),
        RegressionType::MemoryLeakage => "Memory Leakage".spec_bytes(),
        RegressionType::ResourceConsumption => "Resource Consumption".spec_bytes(),
        RegressionType::ErrorRateIncrease => "Error Rate Increase".spec_bytes(),
        RegressionType::LatencyIncrease => "Latency Increase".spec_bytes(),
        RegressionType::FunctionalRegression => "Functional Regression".spec_bytes(),
    }
}

impl RegressionTester {
    /// Score of a sample against thresholds (see `threshold_score_spec`).
    pub fn calculate_performance_score(metrics: &PerformanceMetrics, thresholds: &PerformanceThresholds) -> (r: u32)
        ensures
            r == threshold_score_spec(*metrics, *thresholds),
    {
        let mut score: u32 = 100;
        if metrics.execution_time > thresholds.max_execution_time {
            score = score - 20;
        }
        if metrics.gas_used > thresholds.max_gas_usage {
            score = score - 25;
        }
        if metrics.memory_usage as u64 > thresholds.max_memory_usage {
            score = score - 15;
        }
        if metrics.error_rate as u64 > thresholds.max_error_rate {
            score = score - 30;
        }
        if metrics.network_latency as u64 > thresholds.max_network_latency {
            score = score - 10;
        }
        score
    }

    /// Kind of regression a sample shows (see `regression_kind_spec`).
    pub fn classify_regression_type(metrics: &PerformanceMetrics, scenario: &RegressionTestScenario) -> (r: RegressionType)
        requires
            scenario.expected_execution_time * 12 <= u64::MAX,
            scenario.expected_gas_usage * 12 <= u64::MAX,
            scenario.expected_memory_usage * 12 <= u32::MAX,
            scenario.expected_error_rate * 2 <= u32::MAX,
            scenario.expected_network_latency * 15 <= u32::MAX,
        ensures
            r == regression_kind_spec(*metrics, *scenario),
    {
        if metrics.execution_time > scenario.expected_execution_time * 12 / 10 {
            RegressionType::PerformanceDegradation
        } else if metrics.gas_used > scenario.expected_gas_usage * 12 / 10 {
            RegressionType::ResourceConsumption
        } else if metrics.memory_usage > scenario.expected_memory_usage * 12 / 10 {
            RegressionType::MemoryLeakage
        } else if metrics.error_rate > scenario.expected_error_rate * 2 {
            RegressionType::ErrorRateIncrease
        } else if metrics.network_latency > scenario.expected_network_latency * 15 / 10 {
            RegressionType::LatencyIncrease
        } else {
            RegressionType::FunctionalRegression
        }
    }

    /// Name of a kind of regression.
    pub fn regression_type_to_string(regression_type: RegressionType) -> (r: Vec<u8>)
        ensures
            r@ == regression_type_name(regression_type),
    {
        match regression_type {
            RegressionType::PerformanceDegradation => text_bytes("Performance Degradation"),
            RegressionType::MemoryLeakage => text_bytes("Memory Leakage"),
            RegressionType::ResourceConsumption => text_bytes("Resource Consumption"),
            RegressionType::ErrorRateIncrease => text_bytes("Error Rate Increase"),
            RegressionType::LatencyIncrease => text_bytes("Latency Increase"),
            RegressionType::FunctionalRegression => text_bytes("Functional Regression"),
        }
    }

    /// Operations a regression is reported to affect.
    pub fn identify_affected_operations(metrics: &PerformanceMetrics) -> (r: Vec<Vec<u8>>)
        ensures
            texts(r@) == seq![
                "Contract execution".spec_bytes(),
                "Storage operations".spec_bytes(),
                "Memory management".spec_bytes(),
            ],
    {
        text_list3("Contract execution", "Storage operations", "Memory management")
    }

    /// General advice after a regression report.
    pub fn generate_improvement_recommendations() -> (r: Vec<Vec<u8>>)
        ensures
            texts(r@) == seq![
                "Implement automated performance testing in CI/CD pipeline".spec_bytes(),
                "Establish performance budgets for critical operations".spec_bytes(),
                "Enhance monitoring and alerting coverage".spec_bytes(),
                "Regular performance optimization reviews".spec_bytes(),
            ],
    {
        let mut r: Vec<Vec<u8>> = Vec::new();
        r.push(text_bytes("Implement automated performance testing in CI/CD pipeline"));
        r.push(text_bytes("Establish performance budgets for critical operations"));
        r.push(text_bytes("Enhance monitoring and alerting coverage"));
        r.push(text_bytes("Regular performance optimization reviews"));
        assert(texts(r@) =~= seq![
            "Implement automated performance testing in CI/CD pipeline".spec_bytes(),
            "Establish performance budgets for critical operations".spec_bytes(),
            "Enhance monitoring and alerting coverage".spec_bytes(),
            "Regular performance optimization reviews".spec_bytes(),
        ]);
        r
    }
}

} // verus!
