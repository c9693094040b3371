//! The life of a trace: started with a root span, extended span by span
//! until it is completed, then analysed for optimizations and errors.
use vstd::prelude::*;
use vstd::string::StringSliceAdditionalSpecFns;
use crate::text::{copy_bytes, copy_texts, texts, text_bytes};
use crate::diagnostics::distributed_tracer::{DistributedTracer, TraceSpan};
use crate::diagnostics::errors::DiagnosticsError;
use crate::diagnostics::ids::{be_byte, be_byte32, put_u32_be, put_u64_be};
use crate::diagnostics::types::{BottleneckType, PerformanceBottleneck, RiskLevel};

verus! {

/// A call from one contract to another seen in a trace.
#[derive(Clone, Debug)]
pub struct ContractCall {
    pub from_contract: String,
    pub to_contract: String,
    pub function: String,
    pub duration: u64,
    pub gas_used: u64,
    pub success: bool,
}

/// What is known of a trace, and whether it has been completed.
#[derive(Clone, Debug)]
pub struct TraceAnalysis {
    pub trace_id: [u8; 32],
    pub total_duration: u64,
    pub total_gas_used: u64,
    pub span_count: u32,
    pub bottlenecks: Vec<PerformanceBottleneck>,
    pub optimization_opportunities: Vec<Vec<u8>>,
    pub call_graph: Vec<ContractCall>,
    pub has_errors: bool,
    pub error_count: u32,
    pub error_analysis: Vec<u8>,
    pub is_completed: bool,
}

/// The traces kept by the platform, each under its identifier.
pub struct TraceStore {
    pub traces: Vec<TraceAnalysis>,
}

/// Identifier of a trace or span: the ledger time's bytes, the ledger
/// sequence's bytes, then `marker` at position 16, zeros elsewhere.
pub open spec fn trace_id_spec(now: u64, sequence: u32, marker: u8, j: int) -> u8 {
    if 0 <= j < 8 {
        be_byte(now, j)
    } else if 8 <= j < 12 {
        be_byte32(sequence, j - 8)
    } else if j == 16 {
        marker
    } else {
        0
    }
}

/// Marker of trace identifiers.
pub const TRACE_MARKER: u8 = 0xABu8;

/// Marker of span identifiers.
pub const SPAN_MARKER: u8 = 0xCDu8;

/// The bottleneck a span shows: a slow span above one second (CPU above
/// five, critical above ten, throughput otherwise), else heavy gas above a
/// million (high above five million).
pub open spec fn span_bottleneck(b: PerformanceBottleneck, s: TraceSpan) -> bool {
    let d = (s.end_time - s.start_time) as u64;
    &&& b.span_id == s.span_id
    &&& b.duration == d
    &&& if d > 1000 {
        &&& b.bottleneck_type == (if d > 5000 { BottleneckType::CPU } else { BottleneckType::Throughput })
        &&& b.severity == (if d > 10000 {
            RiskLevel::Critical
        } else if d > 5000 {
            RiskLevel::High
        } else {
            RiskLevel::Medium
        })
        &&& b.impact_percentage == (if d * 100 / 10000 < 100 { d * 100 / 10000 } else { 100 })
        &&& b.description@ == "Slow operation detected".spec_bytes()
    } else {
        &&& b.bottleneck_type == BottleneckType::Gas
        &&& b.severity == (if s.gas_used > 5_000_000 { RiskLevel::High } else { RiskLevel::Medium })
        &&& b.impact_percentage == (if ((s.gas_used / 100_000) as u32) < 100 {
            (s.gas_used / 100_000) as u32
        } else {
            100u32
        })
        &&& b.description@ == "High gas usage detected".spec_bytes()
    }
}

/// Whether a span shows a bottleneck.
pub open spec fn has_bottleneck(s: TraceSpan) -> bool {
    s.end_time - s.start_time > 1000 || s.gas_used > 1_000_000
}

/// Calls that failed.
pub open spec fn failed_calls(c: Seq<ContractCall>) -> nat
    decreases c.len(),
{
    if c.len() == 0 {
        0
    } else {
        failed_calls(c.drop_last()) + if c.last().success { 0nat } else { 1nat }
    }
}

/// Optimizations suggested for a trace: batching above 50 spans, gas above
/// ten million, asynchronous work above 30 seconds, error handling when
/// calls failed.
pub open spec fn trace_opportunities(span_count: u32, gas: u64, duration: u64, failed: nat) -> Seq<Seq<u8>> {
    (if span_count > 50 {
        seq!["Consider batching operations to reduce span count".spec_bytes()]
    } else {
        Seq::<Seq<u8>>::empty()
    }) + (if gas > 10_000_000 {
        seq!["Optimize gas usage through efficient algorithms".spec_bytes()]
    } else {
        Seq::<Seq<u8>>::empty()
    }) + (if duration > 30_000 {
        seq!["Implement asynchronous processing for long operations".spec_bytes()]
    } else {
        Seq::<Seq<u8>>::empty()
    }) + (if failed > 0 {
        seq!["Implement better error handling and retry mechanisms".spec_bytes()]
    } else {
        Seq::<Seq<u8>>::empty()
    })
}

/// Whether two identifiers are equal, byte by byte.
pub fn same_id(a: &[u8; 32], b: &[u8; 32]) -> (r: bool)
    ensures
        r == (*a == *b),
{
    let mut i: usize = 0;
    while i < 32
        invariant
            i <= 32,
            forall|k: int| 0 <= k < i ==> a[k] == b[k],
        decreases 32 - i,
    {
        if a[i] != b[i] {
            return false;
        }
        i += 1;
    }
    assert(*a =~= *b);
    true
}

impl TraceAnalysis {
    /// Field by field equal, lists item by item, texts by their bytes.
    pub open spec fn same_as(&self, o: &TraceAnalysis) -> bool {
        &&& self.trace_id == o.trace_id
        &&& self.total_duration == o.total_duration
        &&& self.total_gas_used == o.total_gas_used
        &&& self.span_count == o.span_count
        &&& self.bottlenecks@.len() == o.bottlenecks@.len()
        &&& forall|i: int| 0 <= i < self.bottlenecks@.len() ==> (#[trigger] self.bottlenecks@[i]).same_as(&o.bottlenecks@[i])
        &&& texts(self.optimization_opportunities@) == texts(o.optimization_opportunities@)
        &&& self.call_graph@ == o.call_graph@
        &&& self.has_errors == o.has_errors
        &&& self.error_count == o.error_count
        &&& self.error_analysis@ == o.error_analysis@
        &&& self.is_completed == o.is_completed
    }

    /// A copy of this analysis.
    pub fn copied(&self) -> (r: TraceAnalysis)
        ensures
            r.same_as(self),
    {
        let mut bottlenecks: Vec<PerformanceBottleneck> = Vec::new();
        let mut i: usize = 0;
        while i < self.bottlenecks.len()
            invariant
                i <= self.bottlenecks@.len(),
                bottlenecks@.len() == i,
                forall|k: int| 0 <= k < i ==> (#[trigger] bottlenecks@[k]).same_as(&self.bottlenecks@[k]),
            decreases self.bottlenecks@.len() - i,
        {
            bottlenecks.push(self.bottlenecks[i].copied());
            i += 1;
        }
        let mut calls: Vec<ContractCall> = Vec::new();
        let mut j: usize = 0;
        while j < self.call_graph.len()
            invariant
                j <= self.call_graph@.len(),
                calls@.len() == j,
                forall|k: int| 0 <= k < j ==> #[trigger] calls@[k] == self.call_graph@[k],
            decreases self.call_graph@.len() - j,
        {
            let c = &self.call_graph[j];
            calls.push(
                ContractCall {
                    from_contract: c.from_contract.clone(),
                    to_contract: c.to_contract.clone(),
                    function: c.function.clone(),
                    duration: c.duration,
                    gas_used: c.gas_used,
                    success: c.success,
                },
            );
            j += 1;
        }
        assert(calls@ =~= self.call_graph@);
        TraceAnalysis {
            trace_id: self.trace_id,
            total_duration: self.total_duration,
            total_gas_used: self.total_gas_used,
            span_count: self.span_count,
            bottlenecks,
            optimization_opportunities: copy_texts(&self.optimization_opportunities),
            call_graph: calls,
            has_errors: self.has_errors,
            error_count: self.error_count,
            error_analysis: copy_bytes(&self.error_analysis),
            is_completed: self.is_completed,
        }
    }
}

impl TraceStore {
    /// Traces kept under distinct identifiers.
    pub open spec fn wf(&self) -> bool {
        forall|i: int, j: int|
            0 <= i < self.traces@.len() && 0 <= j < self.traces@.len() && i != j ==> #[trigger] self.traces@[i].trace_id
                != #[trigger] self.traces@[j].trace_id
    }

    /// Whether a trace is kept under `id`.
    pub open spec fn has(&self, id: [u8; 32]) -> bool {
        exists|i: int| 0 <= i < self.traces@.len() && #[trigger] self.traces@[i].trace_id == id
    }

    /// The trace kept under `id` (meaningful when there is one).
    pub open spec fn at(&self, id: [u8; 32]) -> TraceAnalysis {
        self.traces@[choose|i: int| 0 <= i < self.traces@.len() && #[trigger] self.traces@[i].trace_id == id]
    }

    /// A store without traces.
    pub fn new() -> (r: Self)
        ensures
            r.wf(),
            r.traces@.len() == 0,
    {
        TraceStore { traces: Vec::new() }
    }

    /// Position of the trace kept under `id`.
    pub fn find(&self, id: &[u8; 32]) -> (r: Option<usize>)
        requires
            self.wf(),
        ensures
            r is None <==> !self.has(*id),
            r matches Some(i) ==> i < self.traces@.len() && self.traces@[i as int].trace_id == *id
                && self.at(*id) == self.traces@[i as int],
    {
        let mut i: usize = 0;
        while i < self.traces.len()
            invariant
                self.wf(),
                i <= self.traces@.len(),
                forall|k: int| 0 <= k < i ==> self.traces@[k].trace_id != *id,
            decreases self.traces@.len() - i,
        {
            if same_id(&self.traces[i].trace_id, id) {
                proof {
                    let c = choose|k: int| 0 <= k < self.traces@.len() && #[trigger] self.traces@[k].trace_id == *id;
                    if c != i {
                        assert(self.traces@[c].trace_id != self.traces@[i as int].trace_id);
                    }
                }
                return Some(i);
            }
            i += 1;
        }
        None
    }

    /// Puts `t` at position `i`, in place of the trace with the same identifier.
    pub fn update_at(&mut self, i: usize, t: TraceAnalysis)
        requires
            old(self).wf(),
            i < old(self).traces@.len(),
            old(self).traces@[i as int].trace_id == t.trace_id,
        ensures
            final(self).wf(),
            final(self).traces@ == old(self).traces@.update(i as int, t),
            final(self).has(t.trace_id),
            final(self).at(t.trace_id) == t,
            forall|id: [u8; 32]| (final(self).has(id) <==> old(self).has(id)),
            forall|id: [u8; 32]| id != t.trace_id && old(self).has(id) ==> final(self).at(id) == old(self).at(id),
    {
        let ghost id = t.trace_id;
        self.traces.set(i, t);
        proof {
            assert(self.traces@[i as int].trace_id == id);
            assert forall|x: [u8; 32]| (self.has(x) <==> old(self).has(x)) by {
                if self.has(x) {
                    let k = choose|k: int| 0 <= k < self.traces@.len() && #[trigger] self.traces@[k].trace_id == x;
                    assert(old(self).traces@[k].trace_id == x);
                }
                if old(self).has(x) {
                    let k = choose|k: int| 0 <= k < old(self).traces@.len() && #[trigger] old(self).traces@[k].trace_id == x;
                    assert(self.traces@[k].trace_id == x);
                }
            }
            assert forall|x: [u8; 32]| x != id && old(self).has(x) implies self.at(x) == old(self).at(x) by {
                let k = choose|k: int| 0 <= k < self.traces@.len() && #[trigger] self.traces@[k].trace_id == x;
                let k0 = choose|k: int| 0 <= k < old(self).traces@.len() && #[trigger] old(self).traces@[k].trace_id == x;
                assert(k != i);
                assert(old(self).traces@[k].trace_id == x);
                if k != k0 {
                    assert(old(self).traces@[k].trace_id != old(self).traces@[k0].trace_id);
                }
            }
            let c = choose|k: int| 0 <= k < self.traces@.len() && #[trigger] self.traces@[k].trace_id == id;
            if c != i {
                assert(self.traces@[c].trace_id != self.traces@[i as int].trace_id);
            }
        }
    }

    /// Keeps `t` under its identifier, in place of any trace kept there.
    pub fn store(&mut self, t: TraceAnalysis)
        requires
            old(self).wf(),
        ensures
            final(self).wf(),
            final(self).has(t.trace_id),
            final(self).at(t.trace_id) == t,
            forall|id: [u8; 32]| id != t.trace_id ==> (final(self).has(id) <==> old(self).has(id)),
            forall|id: [u8; 32]| id != t.trace_id && old(self).has(id) ==> final(self).at(id) == old(self).at(id),
    {
        let ghost id = t.trace_id;
        match self.find(&t.trace_id) {
            Some(i) => {
                self.update_at(i, t);
            },
            None => {
                self.traces.push(t);
                proof {
                    let n = old(self).traces@.len() as int;
                    assert(self.traces@[n].trace_id == id);
                    assert forall|x: [u8; 32]| x != id implies (self.has(x) <==> old(self).has(x)) by {
                        if self.has(x) {
                            let k = choose|k: int| 0 <= k < self.traces@.len() && #[trigger] self.traces@[k].trace_id == x;
                            assert(k != n);
                            assert(old(self).traces@[k].trace_id == x);
                        }
                        if old(self).has(x) {
                            let k = choose|k: int| 0 <= k < old(self).traces@.len() && #[trigger] old(self).traces@[k].trace_id
                                == x;
                            assert(self.traces@[k].trace_id == x);
                        }
                    }
                    assert forall|x: [u8; 32]| x != id && old(self).has(x) implies self.at(x) == old(self).at(x) by {
                        let k = choose|k: int| 0 <= k < self.traces@.len() && #[trigger] self.traces@[k].trace_id == x;
                        let k0 = choose|k: int| 0 <= k < old(self).traces@.len() && #[trigger] old(self).traces@[k].trace_id == x;
                        assert(k != n);
                        assert(old(self).traces@[k].trace_id == x);
                        if k != k0 {
                            assert(old(self).traces@[k].trace_id != old(self).traces@[k0].trace_id);
                        }
                    }
                    let c = choose|k: int| 0 <= k < self.traces@.len() && #[trigger] self.traces@[k].trace_id == id;
                    if c != n {
                        assert(self.traces@[c].trace_id != self.traces@[n].trace_id);
                    }
                }
            },
        }
    }
}

impl DistributedTracer {
    /// Identifier of a trace or span (see `trace_id_spec`).
    pub fn generate_trace_id(now: u64, sequence: u32, marker: u8) -> (r: [u8; 32])
        ensures
            forall|j: int| 0 <= j < 32 ==> #[trigger] r@[j] == trace_id_spec(now, sequence, marker, j),
    {
        let mut data: [u8; 32] = [0u8; 32];
        put_u64_be(&mut data, 0, now);
        put_u32_be(&mut data, 8, sequence);
        data[16] = marker;
        data
    }

    /// The bottleneck a span shows, if any (see `span_bottleneck`).
    pub fn analyze_span_for_bottlenecks(span: &TraceSpan) -> (r: Option<PerformanceBottleneck>)
        requires
            span.start_time <= span.end_time,
            (span.end_time - span.start_time) * 100 <= u64::MAX,
        ensures
            r is Some <==> has_bottleneck(*span),
            r matches Some(b) ==> span_bottleneck(b, *span),
    {
        let duration = span.end_time - span.start_time;
        if duration > 1000 {
            let impact = duration * 100 / 10000;
            return Some(
                PerformanceBottleneck {
                    span_id: span.span_id,
                    bottleneck_type: if duration > 5000 {
                        BottleneckType::CPU
                    } else {
                        BottleneckType::Throughput
                    },
                    severity: if duration > 10000 {
                        RiskLevel::Critical
                    } else if duration > 5000 {
                        RiskLevel::High
                    } else {
                        RiskLevel::Medium
                    },
                    duration,
                    impact_percentage: (if impact < 100 { impact } else { 100 }) as u32,
                    description: text_bytes("Slow operation detected"),
                },
            );
        }
        if span.gas_used > 1_000_000 {
            let impact = (span.gas_used / 100_000) as u32;
            return Some(
                PerformanceBottleneck {
                    span_id: span.span_id,
                    bottleneck_type: BottleneckType::Gas,
                    severity: if span.gas_used > 5_000_000 {
                        RiskLevel::High
                    } else {
                        RiskLevel::Medium
                    },
                    duration,
                    impact_percentage: if impact < 100 { impact } else { 100 },
                    description: text_bytes("High gas usage detected"),
                },
            );
        }
        None
    }

    /// Starts a trace named `name` at `now`: a fresh analysis with its root
    /// span counted, kept under the new identifier, which is returned.
    pub fn start_trace(store: &mut TraceStore, name: &Vec<u8>, now: u64, sequence: u32) -> (r: Result<
        [u8; 32],
        DiagnosticsError,
    >)
        requires
            old(store).wf(),
        ensures
            final(store).wf(),
            r matches Ok(id) && {
                let t = final(store).at(id);
                &&& forall|j: int| 0 <= j < 32 ==> #[trigger] id@[j] == trace_id_spec(now, sequence, TRACE_MARKER, j)
                &&& final(store).has(id)
                &&& t.trace_id == id
                &&& t.total_duration == 0
                &&& t.total_gas_used == 0
                &&& t.span_count == 1
                &&& t.bottlenecks@.len() == 0
                &&& t.optimization_opportunities@.len() == 0
                &&& t.call_graph@.len() == 0
                &&& !t.has_errors
                &&& t.error_count == 0
                &&& t.error_analysis@.len() == 0
                &&& !t.is_completed
                &&& forall|x: [u8; 32]| x != id ==> (final(store).has(x) <==> old(store).has(x))
                &&& forall|x: [u8; 32]| x != id && old(store).has(x) ==> final(store).at(x) == old(store).at(x)
            },
    {
        let id = Self::generate_trace_id(now, sequence, TRACE_MARKER);
        let t = TraceAnalysis {
            trace_id: id,
            total_duration: 0,
            total_gas_used: 0,
            span_count: 1,
            bottlenecks: Vec::new(),
            optimization_opportunities: Vec::new(),
            call_graph: Vec::new(),
            has_errors: false,
            error_count: 0,
            error_analysis: Vec::new(),
            is_completed: false,
        };
        store.store(t);
        Ok(id)
    }

    /// Adds a span to the trace kept under `id`: `TraceNotFound` without one,
    /// `TraceAlreadyCompleted` once it is completed, `InvalidTraceSpan` for a
    /// span that does not end after it starts or has no name; otherwise the
    /// span is counted, its gas added and its bottleneck, if any, recorded.
    pub fn add_span(store: &mut TraceStore, id: &[u8; 32], span: &TraceSpan) -> (r: Result<(), DiagnosticsError>)
        requires
            old(store).wf(),
            old(store).has(*id) && !old(store).at(*id).is_completed && span.end_time > span.start_time
                && span.operation_name@.len() > 0 ==> {
                &&& old(store).at(*id).span_count < u32::MAX
                &&& old(store).at(*id).total_gas_used + span.gas_used <= u64::MAX
                &&& (span.end_time - span.start_time) * 100 <= u64::MAX
            },
        ensures
            final(store).wf(),
            !old(store).has(*id) ==> r == Err::<(), DiagnosticsError>(DiagnosticsError::TraceNotFound),
            completed(*old(store), *id) ==> r == Err::<(), DiagnosticsError>(
                DiagnosticsError::TraceAlreadyCompleted,
            ),
            old(store).has(*id) && !old(store).at(*id).is_completed && !(span.end_time > span.start_time
                && span.operation_name@.len() > 0) ==> r == Err::<(), DiagnosticsError>(
                DiagnosticsError::InvalidTraceSpan,
            ),
            old(store).has(*id) && !old(store).at(*id).is_completed && span.end_time > span.start_time
                && span.operation_name@.len() > 0 ==> r is Ok,
            r is Err ==> final(store).traces@ == old(store).traces@,
            r is Ok ==> {
                let before = old(store).at(*id);
                let after = final(store).at(*id);
                &&& old(store).has(*id) && !before.is_completed
                &&& span.end_time > span.start_time && span.operation_name@.len() > 0
                &&& final(store).has(*id)
                &&& after.trace_id == *id
                &&& after.span_count == before.span_count + 1
                &&& after.total_gas_used == before.total_gas_used + span.gas_used
                &&& after.total_duration == before.total_duration
                &&& !after.is_completed
                &&& after.call_graph@ == before.call_graph@
                &&& texts(after.optimization_opportunities@) == texts(before.optimization_opportunities@)
                &&& after.has_errors == before.has_errors
                &&& after.error_count == before.error_count
                &&& after.error_analysis@ == before.error_analysis@
                &&& after.bottlenecks@.len() == before.bottlenecks@.len() + (if has_bottleneck(*span) {
                    1int
                } else {
                    0int
                })
                &&& forall|k: int|
                    0 <= k < before.bottlenecks@.len() ==> (#[trigger] after.bottlenecks@[k]).same_as(&before.bottlenecks@[k])
                &&& has_bottleneck(*span) ==> span_bottleneck(after.bottlenecks@.last(), *span)
                &&& forall|x: [u8; 32]| (final(store).has(x) <==> old(store).has(x))
                &&& forall|x: [u8; 32]| x != *id && old(store).has(x) ==> final(store).at(x) == old(store).at(x)
            },
    {
        let i = match store.find(id) {
            Some(i) => i,
            None => {
                return Err(DiagnosticsError::TraceNotFound);
            },
        };
        if store.traces[i].is_completed {
            return Err(DiagnosticsError::TraceAlreadyCompleted);
        }
        match Self::validate_span(span) {
            Ok(()) => {},
            Err(e) => {
                return Err(e);
            },
        }
        let mut t = store.traces[i].copied();
        let ghost before = store.traces@[i as int];
        t.span_count = t.span_count + 1;
        t.total_gas_used = t.total_gas_used + span.gas_used;
        let found = Self::analyze_span_for_bottlenecks(span);
        match found {
            Some(b) => {
                t.bottlenecks.push(b);
            },
            None => {},
        }
        store.update_at(i, t);
        Ok(())
    }
}

/// Slow stretches, parallel chances and contention in an execution flow.
#[derive(Clone, Debug)]
pub struct FlowBottleneckAnalysis {
    pub sequential_bottlenecks: Vec<Vec<u8>>,
    pub parallel_opportunities: Vec<Vec<u8>>,
    pub resource_contention: Vec<Vec<u8>>,
}

/// A recurring pattern in an execution flow.
#[derive(Clone, Debug)]
pub struct ExecutionPattern {
    pub pattern_type: Vec<u8>,
    pub frequency: u32,
    pub performance_impact: Vec<u8>,
}

/// How a trace executed.
#[derive(Clone, Debug)]
pub struct ExecutionFlowAnalysis {
    pub trace_id: [u8; 32],
    pub execution_patterns: Vec<ExecutionPattern>,
    pub performance_metrics: crate::diagnostics::distributed_tracer::FlowPerformanceMetrics,
    pub critical_path: Vec<Vec<u8>>,
    pub optimization_suggestions: Vec<Vec<u8>>,
    pub bottleneck_analysis: FlowBottleneckAnalysis,
}

/// How the failures of a trace arose.
#[derive(Clone, Debug)]
pub struct TraceErrorReport {
    pub error_type: Vec<u8>,
    pub error_count: u32,
    pub root_cause: Vec<u8>,
    pub resolution_suggestions: Vec<Vec<u8>>,
}

/// Whether a trace is kept under `id` and completed.
pub open spec fn completed(store: TraceStore, id: [u8; 32]) -> bool {
    store.has(id) && store.at(id).is_completed
}

impl DistributedTracer {
    /// Calls that failed.
    fn count_failed_calls(calls: &Vec<ContractCall>) -> (r: u32)
        requires
            calls@.len() <= u32::MAX,
        ensures
            r == failed_calls(calls@),
    {
        let mut n: u32 = 0;
        let mut i: usize = 0;
        while i < calls.len()
            invariant
                i <= calls@.len(),
                calls@.len() <= u32::MAX,
                n == failed_calls(calls@.subrange(0, i as int)),
                n <= i,
            decreases calls@.len() - i,
        {
            assert(calls@.subrange(0, i + 1).drop_last() =~= calls@.subrange(0, i as int));
            if !calls[i].success {
                n = n + 1;
            }
            i += 1;
        }
        assert(calls@.subrange(0, calls@.len() as int) =~= calls@);
        n
    }

    /// Optimizations suggested for a trace (see `trace_opportunities`).
    pub fn identify_optimization_opportunities(trace: &TraceAnalysis) -> (r: Vec<Vec<u8>>)
        requires
            trace.call_graph@.len() <= u32::MAX,
        ensures
            texts(r@) == trace_opportunities(
                trace.span_count,
                trace.total_gas_used,
                trace.total_duration,
                failed_calls(trace.call_graph@),
            ),
    {
        let mut r: Vec<Vec<u8>> = Vec::new();
        if trace.span_count > 50 {
            r.push(text_bytes("Consider batching operations to reduce span count"));
        }
        let ghost a = texts(r@);
        if trace.total_gas_used > 10_000_000 {
            r.push(text_bytes("Optimize gas usage through efficient algorithms"));
        }
        let ghost b = texts(r@);
        if trace.total_duration > 30_000 {
            r.push(text_bytes("Implement asynchronous processing for long operations"));
        }
        let ghost c = texts(r@);
        if Self::count_failed_calls(&trace.call_graph) > 0 {
            r.push(text_bytes("Implement better error handling and retry mechanisms"));
        }
        assert(texts(r@) =~= trace_opportunities(
            trace.span_count,
            trace.total_gas_used,
            trace.total_duration,
            failed_calls(trace.call_graph@),
        ));
        r
    }

    /// Completes the trace kept under `id` at `now` and analyses it: its
    /// duration becomes `now`, its optimizations are listed and its failed
    /// calls counted. `TraceNotFound` without one, `TraceAlreadyCompleted`
    /// once it is completed.
    pub fn complete_trace(store: &mut TraceStore, id: &[u8; 32], now: u64) -> (r: Result<
        TraceAnalysis,
        DiagnosticsError,
    >)
        requires
            old(store).wf(),
            old(store).has(*id) ==> old(store).at(*id).call_graph@.len() <= u32::MAX,
        ensures
            final(store).wf(),
            !old(store).has(*id) ==> r == Err::<TraceAnalysis, DiagnosticsError>(DiagnosticsError::TraceNotFound),
            completed(*old(store), *id) ==> r == Err::<TraceAnalysis, DiagnosticsError>(
                DiagnosticsError::TraceAlreadyCompleted,
            ),
            r is Err ==> final(store).traces@ == old(store).traces@,
            old(store).has(*id) && !old(store).at(*id).is_completed ==> r is Ok,
            r matches Ok(t) ==> {
                let before = old(store).at(*id);
                let failed = failed_calls(before.call_graph@);
                &&& old(store).has(*id) && !before.is_completed
                &&& final(store).has(*id)
                &&& t.same_as(&final(store).at(*id))
                &&& t.trace_id == *id
                &&& t.is_completed
                &&& t.total_duration == now
                &&& t.total_gas_used == before.total_gas_used
                &&& t.span_count == before.span_count
                &&& t.call_graph@ == before.call_graph@
                &&& t.bottlenecks@.len() == before.bottlenecks@.len()
                &&& texts(t.optimization_opportunities@) == trace_opportunities(
                    before.span_count,
                    before.total_gas_used,
                    now,
                    failed,
                )
                &&& t.has_errors == (failed > 0)
                &&& t.error_count == failed
                &&& t.error_analysis@ == (if failed > 0 {
                    "Contract call failures detected".spec_bytes()
                } else {
                    "No errors".spec_bytes()
                })
                &&& forall|x: [u8; 32]| (final(store).has(x) <==> old(store).has(x))
                &&& forall|x: [u8; 32]| x != *id && old(store).has(x) ==> final(store).at(x) == old(store).at(x)
            },
    {
        let i = match store.find(id) {
            Some(i) => i,
            None => {
                return Err(DiagnosticsError::TraceNotFound);
            },
        };
        if store.traces[i].is_completed {
            return Err(DiagnosticsError::TraceAlreadyCompleted);
        }
        let mut t = store.traces[i].copied();
        t.total_duration = now;
        t.is_completed = true;
        t.optimization_opportunities = Self::identify_optimization_opportunities(&t);
        Self::analyze_errors(&mut t);
        let result = t.copied();
        store.update_at(i, t);
        Ok(result)
    }

    /// The critical path reported for a trace.
    pub fn identify_critical_path() -> (r: Vec<Vec<u8>>)
        ensures
            texts(r@) == seq![
                "Contract initialization".spec_bytes(),
                "Data processing".spec_bytes(),
                "Result computation".spec_bytes(),
            ],
    {
        crate::text::text_list3("Contract initialization", "Data processing", "Result computation")
    }

    /// Suggestions reported for an execution flow.
    pub fn generate_flow_optimization_suggestions() -> (r: Vec<Vec<u8>>)
        ensures
            texts(r@) == seq![
                "Implement parallel processing for independent operations".spec_bytes(),
                "Cache frequently accessed data".spec_bytes(),
                "Optimize critical path operations".spec_bytes(),
            ],
    {
        crate::text::text_list3(
            "Implement parallel processing for independent operations",
            "Cache frequently accessed data",
            "Optimize critical path operations",
        )
    }

    /// Bottlenecks reported for an execution flow.
    pub fn analyze_flow_bottlenecks() -> (r: FlowBottleneckAnalysis)
        ensures
            texts(r.sequential_bottlenecks@) == seq!["Database queries".spec_bytes()],
            texts(r.parallel_opportunities@) == seq!["Data validation".spec_bytes()],
            texts(r.resource_contention@) == seq!["Memory allocation".spec_bytes()],
    {
        FlowBottleneckAnalysis {
            sequential_bottlenecks: crate::text::text_list1("Database queries"),
            parallel_opportunities: crate::text::text_list1("Data validation"),
            resource_contention: crate::text::text_list1("Memory allocation"),
        }
    }

    /// How the trace kept under `id` executed: no patterns are recognised,
    /// and the flow figures, critical path, suggestions and bottlenecks are
    /// the ones reported for every trace; `TraceNotFound` without one.
    pub fn analyze_execution_flow(store: &TraceStore, id: &[u8; 32]) -> (r: Result<
        ExecutionFlowAnalysis,
        DiagnosticsError,
    >)
        requires
            store.wf(),
        ensures
            !store.has(*id) <==> r == Err::<ExecutionFlowAnalysis, DiagnosticsError>(DiagnosticsError::TraceNotFound),
            store.has(*id) ==> r is Ok,
            r matches Ok(a) ==> {
                &&& a.trace_id == *id
                &&& a.execution_patterns@.len() == 0
                &&& a.performance_metrics == (crate::diagnostics::distributed_tracer::FlowPerformanceMetrics {
                    average_span_duration: 500,
                    critical_path_duration: 2000,
                    parallelization_efficiency: 75,
                    resource_utilization: 80,
                })
                &&& texts(a.critical_path@) == seq![
                    "Contract initialization".spec_bytes(),
                    "Data processing".spec_bytes(),
                    "Result computation".spec_bytes(),
                ]
                &&& texts(a.optimization_suggestions@) == seq![
                    "Implement parallel processing for independent operations".spec_bytes(),
                    "Cache frequently accessed data".spec_bytes(),
                    "Optimize critical path operations".spec_bytes(),
                ]
                &&& texts(a.bottleneck_analysis.sequential_bottlenecks@) == seq!["Database queries".spec_bytes()]
                &&& texts(a.bottleneck_analysis.parallel_opportunities@) == seq!["Data validation".spec_bytes()]
                &&& texts(a.bottleneck_analysis.resource_contention@) == seq!["Memory allocation".spec_bytes()]
            },
    {
        match store.find(id) {
            Some(_) => {},
            None => {
                return Err(DiagnosticsError::TraceNotFound);
            },
        }
        Ok(ExecutionFlowAnalysis {
            trace_id: *id,
            execution_patterns: Vec::new(),
            performance_metrics: Self::calculate_flow_performance_metrics(),
            critical_path: Self::identify_critical_path(),
            optimization_suggestions: Self::generate_flow_optimization_suggestions(),
            bottleneck_analysis: Self::analyze_flow_bottlenecks(),
        })
    }

    /// Likely cause of failed calls: systemic above three, isolated otherwise.
    pub fn determine_root_cause(failed_count: u32) -> (r: Vec<u8>)
        ensures
            r@ == (if failed_count > 3 {
                "Systemic failure - multiple contract calls failing".spec_bytes()
            } else {
                "Isolated failure in contract interaction".spec_bytes()
            }),
    {
        if failed_count > 3 {
            text_bytes("Systemic failure - multiple contract calls failing")
        } else {
            text_bytes("Isolated failure in contract interaction")
        }
    }

    /// Steps suggested against failed calls.
    pub fn generate_error_resolution_suggestions(failed_count: u32) -> (r: Vec<Vec<u8>>)
        ensures
            texts(r@) == seq![
                "Review contract interfaces and parameters".spec_bytes(),
                "Implement retry logic with exponential backoff".spec_bytes(),
                "Add comprehensive error logging".spec_bytes(),
            ],
    {
        crate::text::text_list3(
            "Review contract interfaces and parameters",
            "Implement retry logic with exponential backoff",
            "Add comprehensive error logging",
        )
    }

    /// Remediation steps reported for a trace's root causes.
    pub fn generate_remediation_steps() -> (r: Vec<Vec<u8>>)
        ensures
            texts(r@) == seq![
                "Implement comprehensive input validation".spec_bytes(),
                "Add error boundaries for fault isolation".spec_bytes(),
                "Implement graceful degradation".spec_bytes(),
            ],
    {
        crate::text::text_list3(
            "Implement comprehensive input validation",
            "Add error boundaries for fault isolation",
            "Implement graceful degradation",
        )
    }

    /// Prevention advice reported for a trace's root causes.
    pub fn generate_prevention_recommendations() -> (r: Vec<Vec<u8>>)
        ensures
            texts(r@) == seq![
                "Implement automated testing for edge cases".spec_bytes(),
                "Add monitoring for early error detection".spec_bytes(),
                "Implement circuit breaker patterns".spec_bytes(),
            ],
    {
        crate::text::text_list3(
            "Implement automated testing for edge cases",
            "Add monitoring for early error detection",
            "Implement circuit breaker patterns",
        )
    }

    /// Advice reported when comparing two traces.
    pub fn generate_comparison_recommendations() -> (r: Vec<Vec<u8>>)
        ensures
            texts(r@) == seq![
                "Continue current optimization strategy".spec_bytes(),
                "Monitor for performance regressions".spec_bytes(),
            ],
    {
        crate::text::text_list2("Continue current optimization strategy", "Monitor for performance regressions")
    }
}

/// A kind of error seen in a trace.
#[derive(Clone, Debug)]
pub struct ErrorPattern {
    pub pattern_type: Vec<u8>,
    pub occurrence_count: u32,
    pub severity: RiskLevel,
}

/// How an error spread through a trace.
#[derive(Clone, Debug)]
pub struct ErrorPropagation {
    pub origin_span: Vec<u8>,
    pub propagation_path: Vec<Vec<u8>>,
    pub impact_scope: Vec<u8>,
}

/// A cause found for a trace's errors.
#[derive(Clone, Debug)]
pub struct RootCause {
    pub cause_type: Vec<u8>,
    pub confidence: u32,
    pub evidence: Vec<Vec<u8>>,
    pub affected_operations: Vec<Vec<u8>>,
}

/// Why a trace failed and what to do about it.
#[derive(Clone, Debug)]
pub struct RootCauseAnalysis {
    pub trace_id: [u8; 32],
    pub error_patterns: Vec<ErrorPattern>,
    pub error_propagation: ErrorPropagation,
    pub root_causes: Vec<RootCause>,
    pub remediation_steps: Vec<Vec<u8>>,
    pub prevention_recommendations: Vec<Vec<u8>>,
}

/// How a bottleneck changed between two traces.
#[derive(Clone, Debug)]
pub struct BottleneckChange {
    pub bottleneck_type: BottleneckType,
    pub change_type: crate::diagnostics::distributed_tracer::ChangeType,
    pub impact_change_percentage: i32,
    pub description: Vec<u8>,
}

/// Whether one trace regressed against another.
#[derive(Clone, Debug)]
pub struct RegressionAnalysis {
    pub regression_detected: bool,
    pub severity: RiskLevel,
    pub affected_areas: Vec<Vec<u8>>,
}

/// One trace set against another.
#[derive(Clone, Debug)]
pub struct TraceComparison {
    pub baseline_trace_id: [u8; 32],
    pub comparison_trace_id: [u8; 32],
    pub performance_delta: crate::diagnostics::distributed_tracer::PerformanceDelta,
    pub bottleneck_changes: Vec<BottleneckChange>,
    pub regression_analysis: RegressionAnalysis,
    pub recommendations: Vec<Vec<u8>>,
}

impl DistributedTracer {
    /// Records a trace's failed calls: the count, with a note that calls
    /// failed, or none.
    pub fn analyze_errors(trace: &mut TraceAnalysis)
        requires
            old(trace).call_graph@.len() <= u32::MAX,
        ensures
            ({
                let failed = failed_calls(old(trace).call_graph@);
                &&& final(trace).has_errors == (failed > 0)
                &&& final(trace).error_count == failed
                &&& final(trace).error_analysis@ == (if failed > 0 {
                    "Contract call failures detected".spec_bytes()
                } else {
                    "No errors".spec_bytes()
                })
                &&& *final(trace) == (TraceAnalysis {
                    has_errors: final(trace).has_errors,
                    error_count: final(trace).error_count,
                    error_analysis: final(trace).error_analysis,
                    ..*old(trace)
                })
            }),
    {
        let failed = Self::count_failed_calls(&trace.call_graph);
        if failed > 0 {
            trace.has_errors = true;
            trace.error_count = failed;
            trace.error_analysis = text_bytes("Contract call failures detected");
        } else {
            trace.has_errors = false;
            trace.error_count = 0;
            trace.error_analysis = text_bytes("No errors");
        }
    }

    /// How errors spread, as reported for every trace.
    pub fn trace_error_propagation() -> (r: ErrorPropagation)
        ensures
            r.origin_span@ == "initial_call".spec_bytes(),
            texts(r.propagation_path@) == seq!["contract_a".spec_bytes(), "contract_b".spec_bytes()],
            r.impact_scope@ == "full_transaction".spec_bytes(),
    {
        ErrorPropagation {
            origin_span: text_bytes("initial_call"),
            propagation_path: crate::text::text_list2("contract_a", "contract_b"),
            impact_scope: text_bytes("full_transaction"),
        }
    }

    /// The root cause reported for every trace: invalid input validation,
    /// with 85 percent confidence.
    pub fn identify_root_causes() -> (r: Vec<RootCause>)
        ensures
            r@.len() == 1,
            r@[0].cause_type@ == "Invalid input validation".spec_bytes(),
            r@[0].confidence == 85,
            texts(r@[0].evidence@) == seq!["Input validation failure".spec_bytes()],
            texts(r@[0].affected_operations@) == seq!["data_processing".spec_bytes()],
    {
        let mut r: Vec<RootCause> = Vec::new();
        r.push(
            RootCause {
                cause_type: text_bytes("Invalid input validation"),
                confidence: 85,
                evidence: crate::text::text_list1("Input validation failure"),
                affected_operations: crate::text::text_list1("data_processing"),
            },
        );
        r
    }

    /// Why the trace kept under `id` failed: no error patterns are
    /// recognised, and the propagation, root cause, remediation and
    /// prevention are the ones reported for every trace; `TraceNotFound`
    /// without one.
    pub fn perform_root_cause_analysis(store: &TraceStore, id: &[u8; 32]) -> (r: Result<
        RootCauseAnalysis,
        DiagnosticsError,
    >)
        requires
            store.wf(),
        ensures
            !store.has(*id) <==> r == Err::<RootCauseAnalysis, DiagnosticsError>(DiagnosticsError::TraceNotFound),
            store.has(*id) ==> r is Ok,
            r matches Ok(a) ==> {
                &&& a.trace_id == *id
                &&& a.error_patterns@.len() == 0
                &&& a.error_propagation.origin_span@ == "initial_call".spec_bytes()
                &&& texts(a.error_propagation.propagation_path@) == seq![
                    "contract_a".spec_bytes(),
                    "contract_b".spec_bytes(),
                ]
                &&& a.error_propagation.impact_scope@ == "full_transaction".spec_bytes()
                &&& a.root_causes@.len() == 1
                &&& a.root_causes@[0].cause_type@ == "Invalid input validation".spec_bytes()
                &&& a.root_causes@[0].confidence == 85
                &&& texts(a.root_causes@[0].evidence@) == seq!["Input validation failure".spec_bytes()]
                &&& texts(a.root_causes@[0].affected_operations@) == seq!["data_processing".spec_bytes()]
                &&& texts(a.remediation_steps@) == seq![
                    "Implement comprehensive input validation".spec_bytes(),
                    "Add error boundaries for fault isolation".spec_bytes(),
                    "Implement graceful degradation".spec_bytes(),
                ]
                &&& texts(a.prevention_recommendations@) == seq![
                    "Implement automated testing for edge cases".spec_bytes(),
                    "Add monitoring for early error detection".spec_bytes(),
                    "Implement circuit breaker patterns".spec_bytes(),
                ]
            },
    {
        match store.find(id) {
            Some(_) => {},
            None => {
                return Err(DiagnosticsError::TraceNotFound);
            },
        }
        Ok(RootCauseAnalysis {
            trace_id: *id,
            error_patterns: Vec::new(),
            error_propagation: Self::trace_error_propagation(),
            root_causes: Self::identify_root_causes(),
            remediation_steps: Self::generate_remediation_steps(),
            prevention_recommendations: Self::generate_prevention_recommendations(),
        })
    }

    /// Bottleneck changes reported between two traces: the CPU bottleneck improved by 20 percent.
    pub fn compare_bottlenecks() -> (r: Vec<BottleneckChange>)
        ensures
            r@.len() == 1,
            r@[0].bottleneck_type == BottleneckType::CPU,
            r@[0].change_type == crate::diagnostics::distributed_tracer::ChangeType::Improved,
            r@[0].impact_change_percentage == -20,
            r@[0].description@ == "CPU bottleneck reduced through optimization".spec_bytes(),
    {
        let mut r: Vec<BottleneckChange> = Vec::new();
        r.push(
            BottleneckChange {
                bottleneck_type: BottleneckType::CPU,
                change_type: crate::diagnostics::distributed_tracer::ChangeType::Improved,
                impact_change_percentage: -20,
                description: text_bytes("CPU bottleneck reduced through optimization"),
            },
        );
        r
    }

    /// Whether a change of traces is a regression: slower by more than 10
    /// percent, of high severity above 25 percent.
    pub fn analyze_regression(delta: &crate::diagnostics::distributed_tracer::PerformanceDelta) -> (r:
        RegressionAnalysis)
        ensures
            r.regression_detected == (delta.duration_change_percentage > 10),
            r.severity == (if delta.duration_change_percentage > 25 { RiskLevel::High } else { RiskLevel::Low }),
            texts(r.affected_areas@) == seq!["Execution time".spec_bytes()],
    {
        RegressionAnalysis {
            regression_detected: delta.duration_change_percentage > 10,
            severity: if delta.duration_change_percentage > 25 {
                RiskLevel::High
            } else {
                RiskLevel::Low
            },
            affected_areas: crate::text::text_list1("Execution time"),
        }
    }

    /// The trace kept under `comparison` set against the one under
    /// `baseline`, with the change, bottleneck changes and advice reported
    /// for every pair; `TraceNotFound` unless both are kept.
    pub fn compare_traces(store: &TraceStore, baseline: &[u8; 32], comparison: &[u8; 32]) -> (r: Result<
        TraceComparison,
        DiagnosticsError,
    >)
        requires
            store.wf(),
        ensures
            !(store.has(*baseline) && store.has(*comparison)) <==> r == Err::<TraceComparison, DiagnosticsError>(
                DiagnosticsError::TraceNotFound,
            ),
            store.has(*baseline) && store.has(*comparison) ==> r is Ok,
            r matches Ok(c) ==> {
                &&& c.baseline_trace_id == *baseline
                &&& c.comparison_trace_id == *comparison
                &&& c.performance_delta == (crate::diagnostics::distributed_tracer::PerformanceDelta {
                    duration_change_percentage: -15i32,
                    gas_usage_change_percentage: -10i32,
                    span_count_change: -5i32,
                    bottleneck_count_change: -2i32,
                })
                &&& c.bottleneck_changes@.len() == 1
                &&& c.bottleneck_changes@[0].bottleneck_type == BottleneckType::CPU
                &&& c.bottleneck_changes@[0].change_type == crate::diagnostics::distributed_tracer::ChangeType::Improved
                &&& c.bottleneck_changes@[0].impact_change_percentage == -20
                &&& c.bottleneck_changes@[0].description@ == "CPU bottleneck reduced through optimization".spec_bytes()
                &&& !c.regression_analysis.regression_detected
                &&& c.regression_analysis.severity == RiskLevel::Low
                &&& texts(c.regression_analysis.affected_areas@) == seq!["Execution time".spec_bytes()]
                &&& texts(c.recommendations@) == seq![
                    "Continue current optimization strategy".spec_bytes(),
                    "Monitor for performance regressions".spec_bytes(),
                ]
            },
    {
        match store.find(baseline) {
            Some(_) => {},
            None => {
                return Err(DiagnosticsError::TraceNotFound);
            },
        }
        match store.find(comparison) {
            Some(_) => {},
            None => {
                return Err(DiagnosticsError::TraceNotFound);
            },
        }
        let delta = Self::calculate_performance_delta();
        let regression = Self::analyze_regression(&delta);
        Ok(TraceComparison {
            baseline_trace_id: *baseline,
            comparison_trace_id: *comparison,
            performance_delta: delta,
            bottleneck_changes: Self::compare_bottlenecks(),
            regression_analysis: regression,
            recommendations: Self::generate_comparison_recommendations(),
        })
    }
}

} // verus!
