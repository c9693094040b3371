//! The diagnostics platform: performance monitoring, benchmarks, anomaly
//! detection, resource and optimization analysis, and system health.
pub mod errors;
pub mod types;
pub mod storage;
pub mod ids;
pub mod performance_monitor;
pub mod benchmark_engine;
pub mod anomaly_detector;
pub mod resource_optimizer;
pub mod behavior_analyzer;
pub mod predictive_engine;
pub mod distributed_tracer;
pub mod tracing;
pub mod optimization_engine;
pub mod improvement_plans;
pub mod regression_tester;
pub mod regression_runs;
pub mod contract;
