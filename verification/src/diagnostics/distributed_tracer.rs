//! Distributed tracing: span validation and the flow and comparison figures
//! reported for traces.
use vstd::prelude::*;
use crate::diagnostics::errors::DiagnosticsError;

verus! {

/// Distributed tracing of cross-contract operations.
pub struct DistributedTracer;

/// One timed step of a trace.
#[derive(Clone, Debug)]
pub struct TraceSpan {
    pub span_id: [u8; 32],
    pub has_parent: bool,
    pub parent_span_id: [u8; 32],
    pub operation_name: Vec<u8>,
    pub start_time: u64,
    pub end_time: u64,
    pub contract_address: String,
    pub function_name: String,
    pub gas_used: u64,
    pub success: bool,
    pub has_error: bool,
    pub error_message: Vec<u8>,
}

/// Timing figures of an execution flow.
#[derive(Clone, Copy, Debug, PartialEq, Eq, Structural)]
pub struct FlowPerformanceMetrics {
    pub average_span_duration: u64,
    pub critical_path_duration: u64,
    pub parallelization_efficiency: u32,
    pub resource_utilization: u32,
}

/// Change between two traces, in percent or counts.
#[derive(Clone, Copy, Debug, PartialEq, Eq, Structural)]
pub struct PerformanceDelta {
    pub duration_change_percentage: i32,
    pub gas_usage_change_percentage: i32,
    pub span_count_change: i32,
    pub bottleneck_count_change: i32,
}

/// How a bottleneck changed between two traces.
#[derive(Clone, Copy, Debug, PartialEq, Eq, Structural)]
pub enum ChangeType {
    Improved,
    Degraded,
    New,
    Resolved,
}

impl DistributedTracer {
    /// `InvalidTraceSpan` for a span that does not end after it starts or has
    /// no operation name.
    pub fn validate_span(span: &TraceSpan) -> (r: Result<(), DiagnosticsError>)
        ensures
            (span.end_time > span.start_time && span.operation_name@.len() > 0) <==> r is Ok,
            r is Err ==> r == Err::<(), DiagnosticsError>(DiagnosticsError::InvalidTraceSpan),
    {
        if span.end_time <= span.start_time {
            return Err(DiagnosticsError::InvalidTraceSpan);
        }
        if span.operation_name.len() == 0 {
            return Err(DiagnosticsError::InvalidTraceSpan);
        }
        Ok(())
    }

    /// Flow figures reported for every trace: spans of 500 on average, a
    /// critical path of 2000, 75 percent parallel efficiency, 80 percent utilization.
    pub fn calculate_flow_performance_metrics() -> (r: FlowPerformanceMetrics)
        ensures
            r == (FlowPerformanceMetrics {
                average_span_duration: 500,
                critical_path_duration: 2000,
                parallelization_efficiency: 75,
                resource_utilization: 80,
            }),
    {
        FlowPerformanceMetrics {
            average_span_duration: 500,
            critical_path_duration: 2000,
            parallelization_efficiency: 75,
            resource_utilization: 80,
        }
    }

    /// Change reported between two traces: 15 percent faster, 10 percent less
    /// gas, 5 spans and 2 bottlenecks fewer.
    pub fn calculate_performance_delta() -> (r: PerformanceDelta)
        ensures
            r == (PerformanceDelta {
                duration_change_percentage: -15i32,
                gas_usage_change_percentage: -10i32,
                span_count_change: -5i32,
                bottleneck_count_change: -2i32,
            }),
    {
        PerformanceDelta {
            duration_change_percentage: -15,
            gas_usage_change_percentage: -10,
            span_count_change: -5,
            bottleneck_count_change: -2,
        }
    }
}

} // verus!
