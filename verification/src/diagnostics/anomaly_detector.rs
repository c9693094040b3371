//! Anomaly detection over a contract's hourly samples: performance
//! degradation, gas and error-rate spikes, throughput drops, latency
//! increases, state inconsistencies and resource exhaustion, plus root-cause
//! texts, severity scores and trend summaries.
use vstd::prelude::*;
use vstd::string::StringSliceAdditionalSpecFns;
use crate::text::{
    copy_bytes, copy_texts, decimal_digits, texts, text_bytes, text_list1, text_list2, text_list3,
    with_two_numbers,
};
use crate::diagnostics::errors::DiagnosticsError;
use crate::diagnostics::ids::{anomaly_id, anomaly_id_spec};
use crate::diagnostics::performance_monitor::{SampleField, field_of, field_value, sum_by};
use crate::diagnostics::storage::DiagnosticsStorage;
use crate::diagnostics::types::{
    AnomalyEvent, AnomalyTrends, AnomalyType, PerformanceMetrics, RiskLevel, TrendDirection,
};

verus! {

/// Anomaly detection for system degradation.
pub struct AnomalyDetector;

/// First index of the last `count` samples of a list of `len`.
pub open spec fn tail_start(len: nat, count: nat) -> nat {
    if count >= len {
        0
    } else {
        (len - count) as nat
    }
}

/// Average of field `f` over the last `count` samples (0 for none).
pub open spec fn tail_average(s: Seq<PerformanceMetrics>, count: nat, f: SampleField) -> nat {
    let st = tail_start(s.len(), count);
    if s.len() == st {
        0
    } else {
        sum_by(s.subrange(st as int, s.len() as int), f) / ((s.len() - st) as nat)
    }
}

/// Average of field `f` over the samples before the last `count` (0 for none).
pub open spec fn head_average(s: Seq<PerformanceMetrics>, count: nat, f: SampleField) -> nat {
    let end = tail_start(s.len(), count);
    if end == 0 {
        0
    } else {
        sum_by(s.subrange(0, end as int), f) / end
    }
}

/// Average of field `f` over all samples (0 for none).
pub open spec fn average(s: Seq<PerformanceMetrics>, f: SampleField) -> nat {
    if s.len() == 0 {
        0
    } else {
        sum_by(s, f) / s.len()
    }
}

/// The sum over a prefix is at most the sum over the whole list.
pub proof fn lemma_sum_prefix(s: Seq<PerformanceMetrics>, k: int, f: SampleField)
    requires
        0 <= k <= s.len(),
    ensures
        sum_by(s.subrange(0, k), f) <= sum_by(s, f),
    decreases s.len(),
{
    if k < s.len() {
        assert(s.drop_last().subrange(0, k) =~= s.subrange(0, k));
        lemma_sum_prefix(s.drop_last(), k, f);
    } else {
        assert(s.subrange(0, k) =~= s);
    }
}

/// Sum of field `f` over the samples from index `from` on.
fn field_total(metrics: &Vec<PerformanceMetrics>, from: usize, f: SampleField) -> (r: u64)
    requires
        from <= metrics@.len(),
        sum_by(metrics@.subrange(from as int, metrics@.len() as int), f) <= u64::MAX,
    ensures
        r == sum_by(metrics@.subrange(from as int, metrics@.len() as int), f),
{
    let ghost t = metrics@.subrange(from as int, metrics@.len() as int);
    let mut total: u64 = 0;
    let mut i: usize = from;
    while i < metrics.len()
        invariant
            from <= i <= metrics@.len(),
            t == metrics@.subrange(from as int, metrics@.len() as int),
            sum_by(t, f) <= u64::MAX,
            total == sum_by(metrics@.subrange(from as int, i as int), f),
        decreases metrics@.len() - i,
    {
        proof {
            assert(t.subrange(0, i - from + 1) =~= metrics@.subrange(from as int, i + 1));
            lemma_sum_prefix(t, i - from + 1, f);
            assert(metrics@.subrange(from as int, i + 1).drop_last() =~= metrics@.subrange(from as int, i as int));
        }
        total = total + field_value(&metrics[i], f);
        i += 1;
    }
    total
}

/// `e` is an anomaly detected at `now` with the given fields.
pub open spec fn event_is(
    e: AnomalyEvent,
    now: u64,
    contract: Seq<char>,
    anomaly_type: AnomalyType,
    severity: RiskLevel,
    detected_at: u64,
    description: Seq<u8>,
    affected: Seq<Seq<u8>>,
    root_cause: Seq<u8>,
    steps: Seq<Seq<u8>>,
) -> bool {
    &&& forall|j: int| 0 <= j < 32 ==> #[trigger] e.anomaly_id@[j] == anomaly_id_spec(now, j)
    &&& e.contract_address@ == contract
    &&& e.anomaly_type == anomaly_type
    &&& e.severity == severity
    &&& e.detected_at == detected_at
    &&& e.description@ == description
    &&& texts(e.affected_metrics@) == affected
    &&& e.root_cause_analysis@ == root_cause
    &&& texts(e.mitigation_steps@) == steps
    &&& !e.auto_resolved
}

/// Builds an anomaly detected at `now`.
fn make_event(
    now: u64,
    contract: String,
    anomaly_type: AnomalyType,
    severity: RiskLevel,
    detected_at: u64,
    description: Vec<u8>,
    affected_metrics: Vec<Vec<u8>>,
    root_cause_analysis: Vec<u8>,
    mitigation_steps: Vec<Vec<u8>>,
) -> (r: AnomalyEvent)
    ensures
        event_is(
            r,
            now,
            contract@,
            anomaly_type,
            severity,
            detected_at,
            description@,
            texts(affected_metrics@),
            root_cause_analysis@,
            texts(mitigation_steps@),
        ),
{
    AnomalyEvent {
        anomaly_id: anomaly_id(now),
        contract_address: contract,
        anomaly_type,
        severity,
        detected_at,
        description,
        affected_metrics,
        root_cause_analysis,
        mitigation_steps,
        auto_resolved: false,
    }
}

/// The cause the latest sample suggests for a performance degradation.
pub open spec fn degradation_cause(s: Seq<PerformanceMetrics>) -> Seq<u8> {
    if s.len() == 0 {
        "Insufficient data for analysis".spec_bytes()
    } else if s.last().memory_usage > 100_000_000 {
        "High memory usage may be causing performance degradation".spec_bytes()
    } else if s.last().gas_used > 5_000_000 {
        "High gas usage indicates computational complexity issues".spec_bytes()
    } else if s.last().network_latency > 500 {
        "High network latency contributing to performance issues".spec_bytes()
    } else {
        "Performance degradation cause requires further investigation".spec_bytes()
    }
}

/// The root cause the latest sample suggests for a performance anomaly.
pub open spec fn performance_root_cause(s: Seq<PerformanceMetrics>) -> Seq<u8> {
    if s.len() == 0 {
        "Insufficient data for root cause analysis".spec_bytes()
    } else if s.last().cpu_instructions > 30_000_000 {
        "High CPU usage indicates computational bottlenecks".spec_bytes()
    } else if s.last().storage_reads > 500 {
        "Excessive storage operations causing performance issues".spec_bytes()
    } else if s.last().memory_usage > 50_000_000 {
        "Memory pressure affecting system performance".spec_bytes()
    } else {
        "Multiple factors contributing to performance degradation".spec_bytes()
    }
}

/// Whether the execution time of the last three samples is more than 1.5 times
/// that of the samples before them (there must be at least one).
pub open spec fn degradation_detected(s: Seq<PerformanceMetrics>) -> bool {
    s.len() > 3 && tail_average(s, 3, SampleField::ExecutionTime) > head_average(
        s,
        3,
        SampleField::ExecutionTime,
    ) * 15 / 10
}

/// The degradation check stays within 64 bits.
pub open spec fn degradation_in_range(s: Seq<PerformanceMetrics>) -> bool {
    &&& sum_by(s, SampleField::ExecutionTime) <= u64::MAX
    &&& head_average(s, 3, SampleField::ExecutionTime) * 15 <= u64::MAX
}

/// Whether the latest gas use is more than three times the average of the samples before it.
pub open spec fn gas_spike_detected(s: Seq<PerformanceMetrics>) -> bool {
    s.len() >= 2 && s.last().gas_used > head_average(s, 1, SampleField::Gas) * 3
}

/// The gas check stays within 64 bits.
pub open spec fn gas_in_range(s: Seq<PerformanceMetrics>) -> bool {
    &&& sum_by(s, SampleField::Gas) <= u64::MAX
    &&& head_average(s, 1, SampleField::Gas) * 5 <= u64::MAX
}

/// Whether the latest error rate is above 10 and three times the average.
pub open spec fn error_spike_detected(s: Seq<PerformanceMetrics>) -> bool {
    s.len() >= 2 && s.last().error_rate > average(s, SampleField::ErrorRate) * 3 && s.last().error_rate > 10
}

/// The error-rate check stays within 32 bits.
pub open spec fn error_rate_in_range(s: Seq<PerformanceMetrics>) -> bool {
    &&& sum_by(s, SampleField::ErrorRate) <= u32::MAX
    &&& average(s, SampleField::ErrorRate) * 3 <= u32::MAX
}

/// Whether the recent throughput is below 70 percent of the average.
pub open spec fn throughput_drop_detected(s: Seq<PerformanceMetrics>) -> bool {
    s.len() >= 3 && tail_average(s, 3, SampleField::Transactions) < average(s, SampleField::Transactions) * 7 / 10
}

/// The throughput check stays within 32 bits.
pub open spec fn throughput_in_range(s: Seq<PerformanceMetrics>) -> bool {
    &&& sum_by(s, SampleField::Transactions) <= u32::MAX
    &&& average(s, SampleField::Transactions) * 7 <= u32::MAX
}

/// Whether the latest latency is more than 2.5 times the average.
pub open spec fn latency_increase_detected(s: Seq<PerformanceMetrics>) -> bool {
    s.len() >= 2 && s.last().network_latency > average(s, SampleField::NetworkLatency) * 25 / 10
}

/// The latency check stays within 32 bits.
pub open spec fn latency_in_range(s: Seq<PerformanceMetrics>) -> bool {
    &&& sum_by(s, SampleField::NetworkLatency) <= u32::MAX
    &&& average(s, SampleField::NetworkLatency) * 25 <= u32::MAX
}

/// What the degradation check reports for samples `s` at time `now`.
pub open spec fn degradation_output(s: Seq<PerformanceMetrics>, now: u64, v: Seq<AnomalyEvent>) -> bool {
    &&& v.len() == (if degradation_detected(s) { 1int } else { 0int })
    &&& (degradation_detected(s) ==> {
        let recent = tail_average(s, 3, SampleField::ExecutionTime);
        let hist = head_average(s, 3, SampleField::ExecutionTime);
        event_is(
            v[0],
            now,
            s.last().contract_address@,
            AnomalyType::PerformanceDegradation,
            if recent > hist * 2 { RiskLevel::Critical } else { RiskLevel::High },
            s.last().timestamp,
            "Performance degraded: execution time increased from ".spec_bytes() + decimal_digits(hist)
                + "ms to ".spec_bytes() + decimal_digits(recent) + "ms".spec_bytes(),
            seq!["execution_time".spec_bytes(), "average_execution_time".spec_bytes()],
            degradation_cause(s),
            seq![
                "Analyze recent code changes".spec_bytes(),
                "Check for resource contention".spec_bytes(),
                "Review algorithm efficiency".spec_bytes(),
            ],
        )
    })
}

/// What the gas check reports for samples `s` at time `now`.
pub open spec fn gas_spike_output(s: Seq<PerformanceMetrics>, now: u64, v: Seq<AnomalyEvent>) -> bool {
    &&& v.len() == (if gas_spike_detected(s) { 1int } else { 0int })
    &&& (gas_spike_detected(s) ==> {
        let avg = head_average(s, 1, SampleField::Gas);
        let latest = s.last().gas_used;
        event_is(
            v[0],
            now,
            s.last().contract_address@,
            AnomalyType::GasSpike,
            if latest > avg * 5 { RiskLevel::Critical } else { RiskLevel::High },
            s.last().timestamp,
            "Gas usage spike detected: ".spec_bytes() + decimal_digits(latest as nat) + " gas used vs ".spec_bytes()
                + decimal_digits(avg) + " average".spec_bytes(),
            seq!["gas_used".spec_bytes()],
            "Sudden increase in gas usage may indicate inefficient operations".spec_bytes(),
            seq![
                "Review recent function calls".spec_bytes(),
                "Optimize gas-intensive operations".spec_bytes(),
                "Implement gas usage limits".spec_bytes(),
            ],
        )
    })
}

/// What the error-rate check reports for samples `s` at time `now`.
pub open spec fn error_spike_output(s: Seq<PerformanceMetrics>, now: u64, v: Seq<AnomalyEvent>) -> bool {
    &&& v.len() == (if error_spike_detected(s) { 1int } else { 0int })
    &&& (error_spike_detected(s) ==> {
        let avg = average(s, SampleField::ErrorRate);
        let latest = s.last().error_rate;
        event_is(
            v[0],
            now,
            s.last().contract_address@,
            AnomalyType::ErrorRateSpike,
            if latest > 25 { RiskLevel::Critical } else { RiskLevel::High },
            s.last().timestamp,
            "Error rate spike: ".spec_bytes() + decimal_digits(latest as nat) + "% vs ".spec_bytes() + decimal_digits(avg)
                + "% average".spec_bytes(),
            seq!["error_rate".spec_bytes(), "error_count".spec_bytes()],
            "Sudden increase in error rate indicates system instability".spec_bytes(),
            seq![
                "Investigate error patterns".spec_bytes(),
                "Review error logs".spec_bytes(),
                "Implement circuit breakers".spec_bytes(),
            ],
        )
    })
}

/// What the throughput check reports for samples `s` at time `now`.
pub open spec fn throughput_drop_output(s: Seq<PerformanceMetrics>, now: u64, v: Seq<AnomalyEvent>) -> bool {
    &&& v.len() == (if throughput_drop_detected(s) { 1int } else { 0int })
    &&& (throughput_drop_detected(s) ==> {
        let recent = tail_average(s, 3, SampleField::Transactions);
        let hist = average(s, SampleField::Transactions);
        event_is(
            v[0],
            now,
            s.last().contract_address@,
            AnomalyType::ThroughputDrop,
            if recent < hist / 2 { RiskLevel::Critical } else { RiskLevel::High },
            s.last().timestamp,
            "Throughput dropped: ".spec_bytes() + decimal_digits(recent) + " vs ".spec_bytes() + decimal_digits(hist)
                + " historical average".spec_bytes(),
            seq!["transaction_count".spec_bytes()],
            "Significant throughput reduction may indicate capacity issues".spec_bytes(),
            seq![
                "Check system capacity".spec_bytes(),
                "Review load balancing".spec_bytes(),
                "Optimize bottlenecks".spec_bytes(),
            ],
        )
    })
}

/// What the latency check reports for samples `s` at time `now`.
pub open spec fn latency_increase_output(s: Seq<PerformanceMetrics>, now: u64, v: Seq<AnomalyEvent>) -> bool {
    &&& v.len() == (if latency_increase_detected(s) { 1int } else { 0int })
    &&& (latency_increase_detected(s) ==> {
        let avg = average(s, SampleField::NetworkLatency);
        let latest = s.last().network_latency;
        event_is(
            v[0],
            now,
            s.last().contract_address@,
            AnomalyType::LatencyIncrease,
            if latest > avg * 5 { RiskLevel::High } else { RiskLevel::Medium },
            s.last().timestamp,
            "Network latency increased: ".spec_bytes() + decimal_digits(latest as nat) + "ms vs ".spec_bytes()
                + decimal_digits(avg) + "ms average".spec_bytes(),
            seq!["network_latency".spec_bytes()],
            "Increased network latency may indicate connectivity issues".spec_bytes(),
            seq![
                "Check network connectivity".spec_bytes(),
                "Review network configuration".spec_bytes(),
                "Implement request optimization".spec_bytes(),
            ],
        )
    })
}


/// Samples with an error rate above 5 percent and some transactions.
pub open spec fn inconsistent_count(s: Seq<PerformanceMetrics>) -> nat
    decreases s.len(),
{
    if s.len() == 0 {
        0
    } else {
        inconsistent_count(s.drop_last()) + if s.last().error_rate > 5 && s.last().transaction_count > 0 {
            1nat
        } else {
            0nat
        }
    }
}

/// Whether more than a quarter of the samples look inconsistent.
pub open spec fn state_inconsistency_detected(s: Seq<PerformanceMetrics>) -> bool {
    s.len() >= 2 && inconsistent_count(s) > s.len() / 4
}

/// What the state check reports for `contract`'s samples `s` at time `now`.
pub open spec fn state_inconsistency_output(contract: Seq<char>, s: Seq<PerformanceMetrics>, now: u64, v: Seq<AnomalyEvent>) -> bool {
    &&& v.len() == (if state_inconsistency_detected(s) { 1int } else { 0int })
    &&& (state_inconsistency_detected(s) ==> event_is(
        v[0],
        now,
        contract,
        AnomalyType::StateInconsistency,
        RiskLevel::High,
        s.last().timestamp,
        "State inconsistencies detected in ".spec_bytes() + decimal_digits(inconsistent_count(s)) + " out of ".spec_bytes()
            + decimal_digits(s.len()) + " samples".spec_bytes(),
        seq!["error_rate".spec_bytes(), "state_validation".spec_bytes()],
        "Contract state validation failures indicate data corruption or race conditions".spec_bytes(),
        seq![
            "Implement state validation checks".spec_bytes(),
            "Review concurrent access patterns".spec_bytes(),
            "Add state recovery mechanisms".spec_bytes(),
        ],
    ))
}

/// Resource limits the latest sample approaches.
pub open spec fn resource_issues(m: PerformanceMetrics) -> Seq<Seq<u8>> {
    let a: Seq<Seq<u8>> = if m.memory_usage > 800_000_000 {
        seq!["High memory usage".spec_bytes()]
    } else {
        seq![]
    };
    let b: Seq<Seq<u8>> = if m.storage_reads > 1000 || m.storage_writes > 500 {
        seq!["High storage operations".spec_bytes()]
    } else {
        seq![]
    };
    let c: Seq<Seq<u8>> = if m.cpu_instructions > 50_000_000 {
        seq!["High CPU usage".spec_bytes()]
    } else {
        seq![]
    };
    a + b + c
}

/// Whether the latest sample approaches a resource limit.
pub open spec fn resource_exhaustion_detected(s: Seq<PerformanceMetrics>) -> bool {
    s.len() >= 1 && resource_issues(s.last()).len() > 0
}

/// What the resource check reports for samples `s` at time `now`.
pub open spec fn resource_exhaustion_output(s: Seq<PerformanceMetrics>, now: u64, v: Seq<AnomalyEvent>) -> bool {
    &&& v.len() == (if resource_exhaustion_detected(s) { 1int } else { 0int })
    &&& (resource_exhaustion_detected(s) ==> event_is(
        v[0],
        now,
        s.last().contract_address@,
        AnomalyType::ResourceExhaustion,
        RiskLevel::High,
        s.last().timestamp,
        "Resource usage approaching system limits".spec_bytes(),
        resource_issues(s.last()),
        "High resource usage may lead to system instability or failures".spec_bytes(),
        seq![
            "Implement resource usage limits".spec_bytes(),
            "Optimize resource-intensive operations".spec_bytes(),
            "Add resource monitoring alerts".spec_bytes(),
        ],
    ))
}

/// Root-cause text for each kind of anomaly.
pub open spec fn root_cause_spec(t: AnomalyType, history: Seq<PerformanceMetrics>) -> Seq<u8> {
    match t {
        AnomalyType::PerformanceDegradation => performance_root_cause(history),
        AnomalyType::MemoryLeak => "Memory allocation patterns show sustained growth without corresponding deallocation".spec_bytes(),
        AnomalyType::GasSpike => "Computational complexity increased due to algorithm changes or data size growth".spec_bytes(),
        AnomalyType::ErrorRateSpike => "Input validation failures or external dependency issues".spec_bytes(),
        AnomalyType::ThroughputDrop => "System capacity constraints or resource contention".spec_bytes(),
        AnomalyType::LatencyIncrease => "Network congestion or external service degradation".spec_bytes(),
        AnomalyType::StateInconsistency => "Race conditions or improper state management".spec_bytes(),
        AnomalyType::ResourceExhaustion => "Resource usage patterns exceed sustainable thresholds".spec_bytes(),
        AnomalyType::UnusualPatterns => "System behavior deviates from established patterns".spec_bytes(),
    }
}

/// Severity of an anomaly as a score: 25, 50, 75 or 100.
pub open spec fn severity_score_spec(r: RiskLevel) -> u32 {
    match r {
        RiskLevel::Low => 25,
        RiskLevel::Medium => 50,
        RiskLevel::High => 75,
        RiskLevel::Critical => 100,
    }
}

/// Name of each kind of anomaly.
pub open spec fn anomaly_type_name(t: AnomalyType) -> Seq<u8> {
    match t {
        AnomalyType::GasSpike => "GasSpike".spec_bytes(),
        AnomalyType::MemoryLeak => "MemoryLeak".spec_bytes(),
        AnomalyType::PerformanceDegradation => "PerformanceDegradation".spec_bytes(),
        AnomalyType::ErrorRateSpike => "ErrorRateSpike".spec_bytes(),
        AnomalyType::ThroughputDrop => "ThroughputDrop".spec_bytes(),
        AnomalyType::LatencyIncrease => "LatencyIncrease".spec_bytes(),
        AnomalyType::StateInconsistency => "StateInconsistency".spec_bytes(),
        AnomalyType::ResourceExhaustion => "ResourceExhaustion".spec_bytes(),
        AnomalyType::UnusualPatterns => "UnusualPatterns".spec_bytes(),
    }
}

/// Kind and severity of each anomaly.
pub open spec fn kinds(s: Seq<AnomalyEvent>) -> Seq<(AnomalyType, RiskLevel)> {
    s.map_values(|e: AnomalyEvent| (e.anomaly_type, e.severity))
}

/// How many anomalies are of kind `t`.
pub open spec fn type_count(k: Seq<(AnomalyType, RiskLevel)>, t: AnomalyType) -> nat
    decreases k.len(),
{
    if k.len() == 0 {
        0
    } else {
        type_count(k.drop_last(), t) + if k.last().0 == t {
            1nat
        } else {
            0nat
        }
    }
}

/// How many anomalies have severity `r`.
pub open spec fn severity_count(k: Seq<(AnomalyType, RiskLevel)>, r: RiskLevel) -> nat
    decreases k.len(),
{
    if k.len() == 0 {
        0
    } else {
        severity_count(k.drop_last(), r) + if k.last().1 == r {
            1nat
        } else {
            0nat
        }
    }
}

/// The larger of two counts.
pub open spec fn max_nat(a: nat, b: nat) -> nat {
    if a >= b {
        a
    } else {
        b
    }
}

/// The largest count of any kind.
pub open spec fn max_type_count(k: Seq<(AnomalyType, RiskLevel)>) -> nat {
    max_nat(
        max_nat(
            max_nat(
                max_nat(type_count(k, AnomalyType::GasSpike), type_count(k, AnomalyType::MemoryLeak)),
                max_nat(type_count(k, AnomalyType::PerformanceDegradation), type_count(k, AnomalyType::ErrorRateSpike)),
            ),
            max_nat(
                max_nat(type_count(k, AnomalyType::ThroughputDrop), type_count(k, AnomalyType::LatencyIncrease)),
                max_nat(type_count(k, AnomalyType::StateInconsistency), type_count(k, AnomalyType::ResourceExhaustion)),
            ),
        ),
        type_count(k, AnomalyType::UnusualPatterns),
    )
}

/// The most frequent kind; ties go to the first of gas spike, memory leak,
/// degradation, error spike, throughput drop, latency increase, state
/// inconsistency, resource exhaustion, unusual patterns. Unusual patterns
/// when there is none.
pub open spec fn most_common_spec(k: Seq<(AnomalyType, RiskLevel)>) -> AnomalyType {
    let m = max_type_count(k);
    if k.len() == 0 {
        AnomalyType::UnusualPatterns
    } else if type_count(k, AnomalyType::GasSpike) == m {
        AnomalyType::GasSpike
    } else if type_count(k, AnomalyType::MemoryLeak) == m {
        AnomalyType::MemoryLeak
    } else if type_count(k, AnomalyType::PerformanceDegradation) == m {
        AnomalyType::PerformanceDegradation
    } else if type_count(k, AnomalyType::ErrorRateSpike) == m {
        AnomalyType::ErrorRateSpike
    } else if type_count(k, AnomalyType::ThroughputDrop) == m {
        AnomalyType::ThroughputDrop
    } else if type_count(k, AnomalyType::LatencyIncrease) == m {
        AnomalyType::LatencyIncrease
    } else if type_count(k, AnomalyType::StateInconsistency) == m {
        AnomalyType::StateInconsistency
    } else if type_count(k, AnomalyType::ResourceExhaustion) == m {
        AnomalyType::ResourceExhaustion
    } else {
        AnomalyType::UnusualPatterns
    }
}

/// Trend of `n` anomalies split in halves: increasing when the second half
/// holds more than 1.2 times the first, decreasing when less than 0.8 times.
pub open spec fn trend_spec(n: nat) -> TrendDirection {
    let first = n / 2;
    let second = n - first;
    if n < 2 {
        TrendDirection::Stable
    } else if second > first * 12 / 10 {
        TrendDirection::Increasing
    } else if second < first * 8 / 10 {
        TrendDirection::Decreasing
    } else {
        TrendDirection::Stable
    }
}

/// The trend summary of anomalies of kinds `k`.
pub open spec fn trends_match(t: AnomalyTrends, k: Seq<(AnomalyType, RiskLevel)>) -> bool {
    &&& t.total_anomalies == k.len()
    &&& t.critical_anomalies == severity_count(k, RiskLevel::Critical)
    &&& t.high_severity_anomalies == severity_count(k, RiskLevel::High)
    &&& t.most_common_type@ == anomaly_type_name(most_common_spec(k))
    &&& t.trend_direction == trend_spec(k.len())
    &&& !t.frequency_increase
    &&& !t.severity_escalation
    &&& !t.has_prediction
    &&& t.predicted_next_anomaly == 0
    &&& t.improvement_rate == 0
}

impl AnomalyEvent {
    /// Field by field equal, texts by their bytes.
    pub open spec fn same_as(&self, o: &AnomalyEvent) -> bool {
        &&& self.anomaly_id == o.anomaly_id
        &&& self.contract_address == o.contract_address
        &&& self.anomaly_type == o.anomaly_type
        &&& self.severity == o.severity
        &&& self.detected_at == o.detected_at
        &&& self.description@ == o.description@
        &&& texts(self.affected_metrics@) == texts(o.affected_metrics@)
        &&& self.root_cause_analysis@ == o.root_cause_analysis@
        &&& texts(self.mitigation_steps@) == texts(o.mitigation_steps@)
        &&& self.auto_resolved == o.auto_resolved
    }

    /// A copy of this anomaly.
    pub fn copied(&self) -> (r: AnomalyEvent)
        ensures
            r.same_as(self),
    {
        AnomalyEvent {
            anomaly_id: self.anomaly_id,
            contract_address: self.contract_address.clone(),
            anomaly_type: self.anomaly_type,
            severity: self.severity,
            detected_at: self.detected_at,
            description: copy_bytes(&self.description),
            affected_metrics: copy_texts(&self.affected_metrics),
            root_cause_analysis: copy_bytes(&self.root_cause_analysis),
            mitigation_steps: copy_texts(&self.mitigation_steps),
            auto_resolved: self.auto_resolved,
        }
    }
}

/// Two lists of anomalies agree item by item.
pub open spec fn same_events(a: Seq<AnomalyEvent>, b: Seq<AnomalyEvent>) -> bool {
    a.len() == b.len() && forall|i: int| 0 <= i < a.len() ==> (#[trigger] a[i]).same_as(&b[i])
}

/// A copy of a list of anomalies.
pub fn copy_events(v: &Vec<AnomalyEvent>) -> (r: Vec<AnomalyEvent>)
    ensures
        same_events(r@, v@),
{
    let mut r: Vec<AnomalyEvent> = Vec::new();
    let mut i: usize = 0;
    while i < v.len()
        invariant
            i <= v@.len(),
            r@.len() == i,
            forall|k: int| 0 <= k < i ==> (#[trigger] r@[k]).same_as(&v@[k]),
        decreases v@.len() - i,
    {
        r.push(v[i].copied());
        i += 1;
    }
    r
}

/// The samples of `contract` stored at `start`, `start + step`, ...,
/// `start + (n - 1) * step`, in time order.
pub open spec fn spaced_samples(
    log: Map<(Seq<char>, u64), PerformanceMetrics>,
    contract: Seq<char>,
    start: u64,
    step: u64,
    n: nat,
) -> Seq<PerformanceMetrics>
    decreases n,
{
    if n == 0 {
        Seq::empty()
    } else {
        let before = spaced_samples(log, contract, start, step, (n - 1) as nat);
        let t = start + (n - 1) * step;
        if log.contains_key((contract, t as u64)) {
            before.push(log[(contract, t as u64)])
        } else {
            before
        }
    }
}

/// The hourly samples of `contract` over the `period` seconds before `now`.
pub open spec fn hourly_samples(
    log: Map<(Seq<char>, u64), PerformanceMetrics>,
    contract: Seq<char>,
    period: u64,
    now: u64,
) -> Seq<PerformanceMetrics> {
    if period <= now {
        spaced_samples(log, contract, (now - period) as u64, 3600, (period / 3600) as nat)
    } else {
        let skip = hours_before_start(period, now);
        if skip < period / 3600 {
            spaced_samples(log, contract, (now + skip * 3600 - period) as u64, 3600, (period / 3600 - skip) as nat)
        } else {
            Seq::empty()
        }
    }
}

/// How many of the hourly times of a `period` ending at `now` fall before
/// the ledger's start: the hours needed to cover `period - now`.
pub open spec fn hours_before_start(period: u64, now: u64) -> int {
    (period - now + 3599) / 3600
}

/// Every check on the samples stays within the widths it is computed in.
pub open spec fn detection_in_range(s: Seq<PerformanceMetrics>) -> bool {
    &&& degradation_in_range(s)
    &&& gas_in_range(s)
    &&& error_rate_in_range(s)
    &&& throughput_in_range(s)
    &&& latency_in_range(s)
    &&& s.len() <= u32::MAX
}


/// Kind and severity of the anomalies logged for `contract` at or after `from`, in log order.
pub open spec fn logged_kinds(log: Seq<(String, u64, Vec<AnomalyEvent>)>, contract: Seq<char>, from: u64) -> Seq<
    (AnomalyType, RiskLevel),
>
    decreases log.len(),
{
    if log.len() == 0 {
        Seq::empty()
    } else {
        let before = logged_kinds(log.drop_last(), contract, from);
        let e = log.last();
        if e.0@ == contract && e.1 >= from {
            before + kinds(e.2@)
        } else {
            before
        }
    }
}

/// `v` is what detection over samples `s` at `now` gives, with the memory
/// and variance findings `memory` and `unusual` spliced in at their places.
pub open spec fn detection_output(
    contract: Seq<char>,
    s: Seq<PerformanceMetrics>,
    now: u64,
    memory: Seq<AnomalyEvent>,
    unusual: Seq<AnomalyEvent>,
    v: Seq<AnomalyEvent>,
) -> bool {
    exists|
        d1: Seq<AnomalyEvent>,
        d2: Seq<AnomalyEvent>,
        d3: Seq<AnomalyEvent>,
        d4: Seq<AnomalyEvent>,
        d5: Seq<AnomalyEvent>,
        d6: Seq<AnomalyEvent>,
        d7: Seq<AnomalyEvent>,
    |
        #![trigger degradation_output(s, now, d1), gas_spike_output(s, now, d2), error_spike_output(s, now, d3), throughput_drop_output(s, now, d4), latency_increase_output(s, now, d5), state_inconsistency_output(contract, s, now, d6), resource_exhaustion_output(s, now, d7)]
        degradation_output(s, now, d1) && gas_spike_output(s, now, d2) && error_spike_output(s, now, d3)
            && throughput_drop_output(s, now, d4) && latency_increase_output(s, now, d5)
            && state_inconsistency_output(contract, s, now, d6) && resource_exhaustion_output(s, now, d7) && v == d1
            + memory + d2 + d3 + d4 + d5 + unusual + d6 + d7
}

impl AnomalyDetector {
    /// Average execution time of the last `count` samples (0 for none).
    pub fn calculate_recent_average_execution_time(metrics: &Vec<PerformanceMetrics>, count: u32) -> (r: u64)
        requires
            sum_by(metrics@, SampleField::ExecutionTime) <= u64::MAX,
        ensures
            r == tail_average(metrics@, count as nat, SampleField::ExecutionTime),
    {
        Self::recent_average(metrics, count, SampleField::ExecutionTime)
    }

    /// Average execution time of the samples before the last `recent` (0 for none).
    pub fn calculate_historical_average_execution_time(metrics: &Vec<PerformanceMetrics>, recent: u32) -> (r: u64)
        requires
            sum_by(metrics@, SampleField::ExecutionTime) <= u64::MAX,
        ensures
            r == head_average(metrics@, recent as nat, SampleField::ExecutionTime),
    {
        Self::leading_average(metrics, recent, SampleField::ExecutionTime)
    }

    /// Average of field `f` over the samples before the last `recent`.
    fn leading_average(metrics: &Vec<PerformanceMetrics>, recent: u32, f: SampleField) -> (r: u64)
        requires
            sum_by(metrics@, f) <= u64::MAX,
        ensures
            r == head_average(metrics@, recent as nat, f),
    {
        let len = metrics.len();
        let end: usize = if (recent as usize) >= len {
            0
        } else {
            len - recent as usize
        };
        if end == 0 {
            return 0;
        }
        let mut total: u64 = 0;
        let mut i: usize = 0;
        while i < end
            invariant
                i <= end,
                end <= metrics@.len(),
                sum_by(metrics@, f) <= u64::MAX,
                total == sum_by(metrics@.subrange(0, i as int), f),
            decreases end - i,
        {
            proof {
                lemma_sum_prefix(metrics@, i + 1, f);
                assert(metrics@.subrange(0, i + 1).drop_last() =~= metrics@.subrange(0, i as int));
            }
            total = total + field_value(&metrics[i], f);
            i += 1;
        }
        total / (end as u64)
    }

    /// Average gas of all samples (0 for none).
    pub fn calculate_average_gas_usage(metrics: &Vec<PerformanceMetrics>) -> (r: u64)
        requires
            sum_by(metrics@, SampleField::Gas) <= u64::MAX,
        ensures
            r == average(metrics@, SampleField::Gas),
    {
        Self::overall_average(metrics, SampleField::Gas)
    }

    /// Average error rate of all samples (0 for none).
    pub fn calculate_average_error_rate(metrics: &Vec<PerformanceMetrics>) -> (r: u32)
        requires
            sum_by(metrics@, SampleField::ErrorRate) <= u32::MAX,
        ensures
            r == average(metrics@, SampleField::ErrorRate),
    {
        Self::overall_average(metrics, SampleField::ErrorRate) as u32
    }

    /// Average transactions of the last `count` samples (0 for none).
    pub fn calculate_recent_throughput(metrics: &Vec<PerformanceMetrics>, count: u32) -> (r: u32)
        requires
            sum_by(metrics@, SampleField::Transactions) <= u32::MAX,
        ensures
            r == tail_average(metrics@, count as nat, SampleField::Transactions),
    {
        Self::recent_average(metrics, count, SampleField::Transactions) as u32
    }

    /// Average transactions of all samples (0 for none).
    pub fn calculate_historical_throughput(metrics: &Vec<PerformanceMetrics>) -> (r: u32)
        requires
            sum_by(metrics@, SampleField::Transactions) <= u32::MAX,
        ensures
            r == average(metrics@, SampleField::Transactions),
    {
        Self::overall_average(metrics, SampleField::Transactions) as u32
    }

    /// Average network latency of all samples (0 for none).
    pub fn calculate_average_network_latency(metrics: &Vec<PerformanceMetrics>) -> (r: u32)
        requires
            sum_by(metrics@, SampleField::NetworkLatency) <= u32::MAX,
        ensures
            r == average(metrics@, SampleField::NetworkLatency),
    {
        Self::overall_average(metrics, SampleField::NetworkLatency) as u32
    }

    /// Average of field `f` over all samples.
    fn overall_average(metrics: &Vec<PerformanceMetrics>, f: SampleField) -> (r: u64)
        requires
            sum_by(metrics@, f) <= u64::MAX,
        ensures
            r == average(metrics@, f),
            r <= sum_by(metrics@, f),
    {
        if metrics.len() == 0 {
            return 0;
        }
        assert(metrics@.subrange(0, metrics@.len() as int) =~= metrics@);
        let total = field_total(metrics, 0, f);
        total / (metrics.len() as u64)
    }

    /// Average of field `f` over the last `count` samples.
    fn recent_average(metrics: &Vec<PerformanceMetrics>, count: u32, f: SampleField) -> (r: u64)
        requires
            sum_by(metrics@, f) <= u64::MAX,
        ensures
            r == tail_average(metrics@, count as nat, f),
            r <= sum_by(metrics@, f),
    {
        let len = metrics.len();
        let start: usize = if (count as usize) >= len {
            0
        } else {
            len - count as usize
        };
        if start == len {
            return 0;
        }
        proof {
            Self::lemma_suffix_sum(metrics@, start as int, f);
        }
        let total = field_total(metrics, start, f);
        total / ((len - start) as u64)
    }

    /// The sum over a suffix is at most the sum over the whole list.
    proof fn lemma_suffix_sum(s: Seq<PerformanceMetrics>, start: int, f: SampleField)
        requires
            0 <= start <= s.len(),
        ensures
            sum_by(s.subrange(start, s.len() as int), f) <= sum_by(s, f),
        decreases s.len(),
    {
        if start < s.len() {
            let d = s.drop_last();
            Self::lemma_suffix_sum(d, start, f);
            assert(s.subrange(start, s.len() as int).drop_last() =~= d.subrange(start, d.len() as int));
        } else {
            assert(s.subrange(start, s.len() as int).len() == 0);
        }
    }
    /// A degradation anomaly when the average execution time of the last three
    /// samples exceeds 1.5 times that of the samples before them: critical
    /// above twice it, high otherwise.
    pub fn detect_performance_degradation(metrics: &Vec<PerformanceMetrics>, now: u64) -> (r: Vec<AnomalyEvent>)
        requires
            degradation_in_range(metrics@),
        ensures
            degradation_output(metrics@, now, r@),

    {
        let mut r: Vec<AnomalyEvent> = Vec::new();
        if metrics.len() <= 3 {
            return r;
        }
        let recent = Self::calculate_recent_average_execution_time(metrics, 3);
        let hist = Self::calculate_historical_average_execution_time(metrics, 3);
        if recent > hist * 15 / 10 {
            let last = &metrics[metrics.len() - 1];
            let severity = if recent > hist * 2 {
                RiskLevel::Critical
            } else {
                RiskLevel::High
            };
            r.push(
                make_event(
                    now,
                    last.contract_address.clone(),
                    AnomalyType::PerformanceDegradation,
                    severity,
                    last.timestamp,
                    with_two_numbers("Performance degraded: execution time increased from ", hist, "ms to ", recent, "ms"),
                    text_list2("execution_time", "average_execution_time"),
                    Self::analyze_performance_degradation_cause(metrics),
                    text_list3("Analyze recent code changes", "Check for resource contention", "Review algorithm efficiency"),
                ),
            );
        }
        r
    }

    /// A gas spike when the latest gas use exceeds three times the average of the
    /// samples before it: critical above five times, high otherwise.
    pub fn detect_gas_spikes(metrics: &Vec<PerformanceMetrics>, now: u64) -> (r: Vec<AnomalyEvent>)
        requires
            gas_in_range(metrics@),
        ensures
            gas_spike_output(metrics@, now, r@),

    {
        let mut r: Vec<AnomalyEvent> = Vec::new();
        if metrics.len() < 2 {
            return r;
        }
        let avg = Self::leading_average(metrics, 1, SampleField::Gas);
        let last = &metrics[metrics.len() - 1];
        let latest = last.gas_used;
        if latest > avg * 3 {
            let severity = if latest > avg * 5 {
                RiskLevel::Critical
            } else {
                RiskLevel::High
            };
            r.push(
                make_event(
                    now,
                    last.contract_address.clone(),
                    AnomalyType::GasSpike,
                    severity,
                    last.timestamp,
                    with_two_numbers("Gas usage spike detected: ", latest, " gas used vs ", avg, " average"),
                    text_list1("gas_used"),
                    text_bytes("Sudden increase in gas usage may indicate inefficient operations"),
                    text_list3("Review recent function calls", "Optimize gas-intensive operations", "Implement gas usage limits"),
                ),
            );
        }
        r
    }

    /// An error-rate spike when the latest rate is above 10 percent and three
    /// times the average: critical above 25 percent, high otherwise.
    pub fn detect_error_rate_spikes(metrics: &Vec<PerformanceMetrics>, now: u64) -> (r: Vec<AnomalyEvent>)
        requires
            error_rate_in_range(metrics@),
        ensures
            error_spike_output(metrics@, now, r@),

    {
        let mut r: Vec<AnomalyEvent> = Vec::new();
        if metrics.len() < 2 {
            return r;
        }
        let avg = Self::calculate_average_error_rate(metrics);
        let last = &metrics[metrics.len() - 1];
        let latest = last.error_rate;
        if latest > avg * 3 && latest > 10 {
            let severity = if latest > 25 {
                RiskLevel::Critical
            } else {
                RiskLevel::High
            };
            r.push(
                make_event(
                    now,
                    last.contract_address.clone(),
                    AnomalyType::ErrorRateSpike,
                    severity,
                    last.timestamp,
                    with_two_numbers("Error rate spike: ", latest as u64, "% vs ", avg as u64, "% average"),
                    text_list2("error_rate", "error_count"),
                    text_bytes("Sudden increase in error rate indicates system instability"),
                    text_list3("Investigate error patterns", "Review error logs", "Implement circuit breakers"),
                ),
            );
        }
        r
    }

    /// A throughput drop when the average transactions of the last three
    /// samples fall below 70 percent of the overall average: critical below
    /// half of it, high otherwise.
    pub fn detect_throughput_drops(metrics: &Vec<PerformanceMetrics>, now: u64) -> (r: Vec<AnomalyEvent>)
        requires
            throughput_in_range(metrics@),
        ensures
            throughput_drop_output(metrics@, now, r@),

    {
        let mut r: Vec<AnomalyEvent> = Vec::new();
        if metrics.len() < 3 {
            return r;
        }
        let recent = Self::calculate_recent_throughput(metrics, 3);
        let hist = Self::calculate_historical_throughput(metrics);
        if recent < hist * 7 / 10 {
            let last = &metrics[metrics.len() - 1];
            let severity = if recent < hist / 2 {
                RiskLevel::Critical
            } else {
                RiskLevel::High
            };
            r.push(
                make_event(
                    now,
                    last.contract_address.clone(),
                    AnomalyType::ThroughputDrop,
                    severity,
                    last.timestamp,
                    with_two_numbers("Throughput dropped: ", recent as u64, " vs ", hist as u64, " historical average"),
                    text_list1("transaction_count"),
                    text_bytes("Significant throughput reduction may indicate capacity issues"),
                    text_list3("Check system capacity", "Review load balancing", "Optimize bottlenecks"),
                ),
            );
        }
        r
    }

    /// A latency increase when the latest latency exceeds 2.5 times the
    /// average: high above five times, medium otherwise.
    pub fn detect_latency_increases(metrics: &Vec<PerformanceMetrics>, now: u64) -> (r: Vec<AnomalyEvent>)
        requires
            latency_in_range(metrics@),
        ensures
            latency_increase_output(metrics@, now, r@),

    {
        let mut r: Vec<AnomalyEvent> = Vec::new();
        if metrics.len() < 2 {
            return r;
        }
        let avg = Self::calculate_average_network_latency(metrics);
        let last = &metrics[metrics.len() - 1];
        let latest = last.network_latency;
        if latest > avg * 25 / 10 {
            let severity = if latest > avg * 5 {
                RiskLevel::High
            } else {
                RiskLevel::Medium
            };
            r.push(
                make_event(
                    now,
                    last.contract_address.clone(),
                    AnomalyType::LatencyIncrease,
                    severity,
                    last.timestamp,
                    with_two_numbers("Network latency increased: ", latest as u64, "ms vs ", avg as u64, "ms average"),
                    text_list1("network_latency"),
                    text_bytes("Increased network latency may indicate connectivity issues"),
                    text_list3("Check network connectivity", "Review network configuration", "Implement request optimization"),
                ),
            );
        }
        r
    }

    /// The cause the latest sample suggests for a performance degradation.
    pub fn analyze_performance_degradation_cause(metrics: &Vec<PerformanceMetrics>) -> (r: Vec<u8>)
        ensures
            r@ == degradation_cause(metrics@),
    {
        if metrics.len() == 0 {
            return text_bytes("Insufficient data for analysis");
        }
        let latest = &metrics[metrics.len() - 1];
        if latest.memory_usage > 100_000_000 {
            text_bytes("High memory usage may be causing performance degradation")
        } else if latest.gas_used > 5_000_000 {
            text_bytes("High gas usage indicates computational complexity issues")
        } else if latest.network_latency > 500 {
            text_bytes("High network latency contributing to performance issues")
        } else {
            text_bytes("Performance degradation cause requires further investigation")
        }
    }

    /// The root cause the latest sample suggests for a performance anomaly.
    pub fn analyze_performance_root_cause(metrics: &Vec<PerformanceMetrics>) -> (r: Vec<u8>)
        ensures
            r@ == performance_root_cause(metrics@),
    {
        if metrics.len() == 0 {
            return text_bytes("Insufficient data for root cause analysis");
        }
        let latest = &metrics[metrics.len() - 1];
        if latest.cpu_instructions > 30_000_000 {
            text_bytes("High CPU usage indicates computational bottlenecks")
        } else if latest.storage_reads > 500 {
            text_bytes("Excessive storage operations causing performance issues")
        } else if latest.memory_usage > 50_000_000 {
            text_bytes("Memory pressure affecting system performance")
        } else {
            text_bytes("Multiple factors contributing to performance degradation")
        }
    }
    /// A state-inconsistency anomaly for `contract` when more than a quarter
    /// of the samples have an error rate above 5 percent with transactions.
    pub fn detect_state_inconsistencies(contract: &String, metrics: &Vec<PerformanceMetrics>, now: u64) -> (r: Vec<
        AnomalyEvent,
    >)
        requires
            metrics@.len() <= u32::MAX,
        ensures
            state_inconsistency_output(contract@, metrics@, now, r@),
    {
        let mut r: Vec<AnomalyEvent> = Vec::new();
        if metrics.len() < 2 {
            return r;
        }
        let mut count: u32 = 0;
        let mut i: usize = 0;
        while i < metrics.len()
            invariant
                i <= metrics@.len() <= u32::MAX,
                count == inconsistent_count(metrics@.subrange(0, i as int)),
                count <= i,
            decreases metrics@.len() - i,
        {
            assert(metrics@.subrange(0, i as int + 1).drop_last() =~= metrics@.subrange(0, i as int));
            if metrics[i].error_rate > 5 && metrics[i].transaction_count > 0 {
                count = count + 1;
            }
            i += 1;
        }
        assert(metrics@.subrange(0, metrics@.len() as int) =~= metrics@);
        let n: u32 = metrics.len() as u32;
        if count > n / 4 {
            let last = &metrics[metrics.len() - 1];
            r.push(
                make_event(
                    now,
                    contract.clone(),
                    AnomalyType::StateInconsistency,
                    RiskLevel::High,
                    last.timestamp,
                    with_two_numbers("State inconsistencies detected in ", count as u64, " out of ", n as u64, " samples"),
                    text_list2("error_rate", "state_validation"),
                    text_bytes("Contract state validation failures indicate data corruption or race conditions"),
                    text_list3(
                        "Implement state validation checks",
                        "Review concurrent access patterns",
                        "Add state recovery mechanisms",
                    ),
                ),
            );
        }
        r
    }

    /// A resource-exhaustion anomaly when the latest sample uses more than
    /// 800 MB of memory, more than 1000 storage reads or 500 writes, or more
    /// than 50 000 000 CPU instructions.
    pub fn detect_resource_exhaustion(metrics: &Vec<PerformanceMetrics>, now: u64) -> (r: Vec<AnomalyEvent>)
        ensures
            resource_exhaustion_output(metrics@, now, r@),
    {
        let mut r: Vec<AnomalyEvent> = Vec::new();
        if metrics.len() == 0 {
            return r;
        }
        let latest = &metrics[metrics.len() - 1];
        let mut issues: Vec<Vec<u8>> = Vec::new();
        if latest.memory_usage > 800_000_000 {
            issues.push(text_bytes("High memory usage"));
        }
        let ghost i1 = texts(issues@);
        if latest.storage_reads > 1000 || latest.storage_writes > 500 {
            issues.push(text_bytes("High storage operations"));
        }
        let ghost i2 = texts(issues@);
        if latest.cpu_instructions > 50_000_000 {
            issues.push(text_bytes("High CPU usage"));
        }
        assert(texts(issues@) =~= resource_issues(*latest));
        if issues.len() > 0 {
            r.push(
                make_event(
                    now,
                    latest.contract_address.clone(),
                    AnomalyType::ResourceExhaustion,
                    RiskLevel::High,
                    latest.timestamp,
                    text_bytes("Resource usage approaching system limits"),
                    issues,
                    text_bytes("High resource usage may lead to system instability or failures"),
                    text_list3(
                        "Implement resource usage limits",
                        "Optimize resource-intensive operations",
                        "Add resource monitoring alerts",
                    ),
                ),
            );
        }
        r
    }

    /// The root cause of an anomaly, from its kind and the sample history.
    pub fn analyze_root_cause(anomaly: &AnomalyEvent, history: &Vec<PerformanceMetrics>) -> (r: Vec<u8>)
        ensures
            r@ == root_cause_spec(anomaly.anomaly_type, history@),
    {
        match anomaly.anomaly_type {
            AnomalyType::PerformanceDegradation => Self::analyze_performance_root_cause(history),
            AnomalyType::MemoryLeak => text_bytes(
                "Memory allocation patterns show sustained growth without corresponding deallocation",
            ),
            AnomalyType::GasSpike => text_bytes(
                "Computational complexity increased due to algorithm changes or data size growth",
            ),
            AnomalyType::ErrorRateSpike => text_bytes("Input validation failures or external dependency issues"),
            AnomalyType::ThroughputDrop => text_bytes("System capacity constraints or resource contention"),
            AnomalyType::LatencyIncrease => text_bytes("Network congestion or external service degradation"),
            AnomalyType::StateInconsistency => text_bytes("Race conditions or improper state management"),
            AnomalyType::ResourceExhaustion => text_bytes("Resource usage patterns exceed sustainable thresholds"),
            AnomalyType::UnusualPatterns => text_bytes("System behavior deviates from established patterns"),
        }
    }

    /// Severity score of an anomaly: 25, 50, 75 or 100.
    pub fn calculate_severity_score(anomaly: &AnomalyEvent) -> (r: u32)
        ensures
            r == severity_score_spec(anomaly.severity),
    {
        match anomaly.severity {
            RiskLevel::Low => 25,
            RiskLevel::Medium => 50,
            RiskLevel::High => 75,
            RiskLevel::Critical => 100,
        }
    }

    /// Name of a kind of anomaly.
    pub fn anomaly_type_to_string(t: AnomalyType) -> (r: Vec<u8>)
        ensures
            r@ == anomaly_type_name(t),
    {
        match t {
            AnomalyType::GasSpike => text_bytes("GasSpike"),
            AnomalyType::MemoryLeak => text_bytes("MemoryLeak"),
            AnomalyType::PerformanceDegradation => text_bytes("PerformanceDegradation"),
            AnomalyType::ErrorRateSpike => text_bytes("ErrorRateSpike"),
            AnomalyType::ThroughputDrop => text_bytes("ThroughputDrop"),
            AnomalyType::LatencyIncrease => text_bytes("LatencyIncrease"),
            AnomalyType::StateInconsistency => text_bytes("StateInconsistency"),
            AnomalyType::ResourceExhaustion => text_bytes("ResourceExhaustion"),
            AnomalyType::UnusualPatterns => text_bytes("UnusualPatterns"),
        }
    }

    /// The most frequent kind among the anomalies (see `most_common_spec`).
    pub fn find_most_common_anomaly_type(anomalies: &Vec<AnomalyEvent>) -> (r: AnomalyType)
        ensures
            r == most_common_spec(kinds(anomalies@)),
    {
        let k = Self::kinds_of(anomalies);
        Self::most_common_of(&k)
    }

    /// Kind and severity of each anomaly.
    fn kinds_of(anomalies: &Vec<AnomalyEvent>) -> (r: Vec<(AnomalyType, RiskLevel)>)
        ensures
            r@ == kinds(anomalies@),
    {
        let mut r: Vec<(AnomalyType, RiskLevel)> = Vec::new();
        let mut i: usize = 0;
        while i < anomalies.len()
            invariant
                i <= anomalies@.len(),
                r@ == kinds(anomalies@.subrange(0, i as int)),
            decreases anomalies@.len() - i,
        {
            r.push((anomalies[i].anomaly_type, anomalies[i].severity));
            i += 1;
            assert(r@ =~= kinds(anomalies@.subrange(0, i as int)));
        }
        assert(anomalies@.subrange(0, anomalies@.len() as int) =~= anomalies@);
        r
    }

    /// The most frequent kind among kinds `k`.
    fn most_common_of(k: &Vec<(AnomalyType, RiskLevel)>) -> (r: AnomalyType)
        ensures
            r == most_common_spec(k@),
    {
        if k.len() == 0 {
            return AnomalyType::UnusualPatterns;
        }
        let gas = Self::count_type(k, AnomalyType::GasSpike);
        let memory = Self::count_type(k, AnomalyType::MemoryLeak);
        let performance = Self::count_type(k, AnomalyType::PerformanceDegradation);
        let errors = Self::count_type(k, AnomalyType::ErrorRateSpike);
        let throughput = Self::count_type(k, AnomalyType::ThroughputDrop);
        let latency = Self::count_type(k, AnomalyType::LatencyIncrease);
        let state = Self::count_type(k, AnomalyType::StateInconsistency);
        let resource = Self::count_type(k, AnomalyType::ResourceExhaustion);
        let unusual = Self::count_type(k, AnomalyType::UnusualPatterns);
        let m = Self::larger(
            Self::larger(
                Self::larger(Self::larger(gas, memory), Self::larger(performance, errors)),
                Self::larger(Self::larger(throughput, latency), Self::larger(state, resource)),
            ),
            unusual,
        );
        if gas == m {
            AnomalyType::GasSpike
        } else if memory == m {
            AnomalyType::MemoryLeak
        } else if performance == m {
            AnomalyType::PerformanceDegradation
        } else if errors == m {
            AnomalyType::ErrorRateSpike
        } else if throughput == m {
            AnomalyType::ThroughputDrop
        } else if latency == m {
            AnomalyType::LatencyIncrease
        } else if state == m {
            AnomalyType::StateInconsistency
        } else if resource == m {
            AnomalyType::ResourceExhaustion
        } else {
            AnomalyType::UnusualPatterns
        }
    }

    /// The larger of two counts.
    fn larger(a: usize, b: usize) -> (r: usize)
        ensures
            r == max_nat(a as nat, b as nat),
    {
        if a >= b {
            a
        } else {
            b
        }
    }

    /// How many of kinds `k` are `t`.
    fn count_type(k: &Vec<(AnomalyType, RiskLevel)>, t: AnomalyType) -> (r: usize)
        ensures
            r == type_count(k@, t),
    {
        let mut n: usize = 0;
        let mut i: usize = 0;
        while i < k.len()
            invariant
                i <= k@.len(),
                n == type_count(k@.subrange(0, i as int), t),
                n <= i,
            decreases k@.len() - i,
        {
            assert(k@.subrange(0, i as int + 1).drop_last() =~= k@.subrange(0, i as int));
            if k[i].0 == t {
                n = n + 1;
            }
            i += 1;
        }
        assert(k@.subrange(0, k@.len() as int) =~= k@);
        n
    }

    /// How many of kinds `k` have severity `sev`.
    fn count_severity(k: &Vec<(AnomalyType, RiskLevel)>, sev: RiskLevel) -> (r: usize)
        ensures
            r == severity_count(k@, sev),
            r <= k@.len(),
    {
        let mut n: usize = 0;
        let mut i: usize = 0;
        while i < k.len()
            invariant
                i <= k@.len(),
                n == severity_count(k@.subrange(0, i as int), sev),
                n <= i,
            decreases k@.len() - i,
        {
            assert(k@.subrange(0, i as int + 1).drop_last() =~= k@.subrange(0, i as int));
            if k[i].1 == sev {
                n = n + 1;
            }
            i += 1;
        }
        assert(k@.subrange(0, k@.len() as int) =~= k@);
        n
    }

    /// Trend of the anomalies over time (see `trend_spec`).
    pub fn calculate_anomaly_trend_direction(anomalies: &Vec<AnomalyEvent>) -> (r: TrendDirection)
        requires
            anomalies@.len() / 2 * 12 <= u32::MAX,
        ensures
            r == trend_spec(anomalies@.len()),
    {
        Self::trend_of(anomalies.len())
    }

    /// Trend of `n` anomalies split in halves.
    fn trend_of(n: usize) -> (r: TrendDirection)
        requires
            n / 2 * 12 <= u32::MAX,
        ensures
            r == trend_spec(n as nat),
    {
        if n < 2 {
            return TrendDirection::Stable;
        }
        let first = n / 2;
        let second = n - first;
        if second > first * 12 / 10 {
            TrendDirection::Increasing
        } else if second < first * 8 / 10 {
            TrendDirection::Decreasing
        } else {
            TrendDirection::Stable
        }
    }

    /// Trend summary of anomalies of kinds `k`.
    pub fn anomaly_trends(k: &Vec<(AnomalyType, RiskLevel)>) -> (r: AnomalyTrends)
        requires
            k@.len() <= u32::MAX,
            k@.len() / 2 * 12 <= u32::MAX,
        ensures
            trends_match(r, k@),
    {
        let critical = Self::count_severity(k, RiskLevel::Critical);
        let high = Self::count_severity(k, RiskLevel::High);
        let common = Self::most_common_of(k);
        AnomalyTrends {
            trend_direction: Self::trend_of(k.len()),
            frequency_increase: false,
            severity_escalation: false,
            has_prediction: false,
            predicted_next_anomaly: 0,
            total_anomalies: k.len() as u32,
            critical_anomalies: critical as u32,
            high_severity_anomalies: high as u32,
            most_common_type: Self::anomaly_type_to_string(common),
            improvement_rate: 0,
        }
    }

    /// The hourly samples of `contract` over the `period` seconds before `now`.
    pub fn collect_samples(st: &DiagnosticsStorage, contract: &String, period: u64, now: u64) -> (r: Vec<PerformanceMetrics>)
        requires
            st.wf(),
        ensures
            r@ == hourly_samples(st.metrics@, contract@, period, now),
    {
        let hours = period / 3600;
        if period <= now {
            assert(hours * 3600 <= period) by (nonlinear_arith)
                requires
                    hours == period / 3600,
            ;
            return Self::samples_from(st, contract, now - period, hours);
        }
        let gap = period - now;
        let skip: u64 = gap / 3600 + if gap % 3600 == 0 {
            0
        } else {
            1
        };
        assert(skip == hours_before_start(period, now)) by (nonlinear_arith)
            requires
                gap == period - now,
                skip == gap / 3600 + if gap % 3600 == 0 { 0int } else { 1int },
                gap > 0,
        ;
        if skip >= hours {
            return Vec::new();
        }
        assert(skip * 3600 >= gap && skip * 3600 < period && skip * 3600 + (hours - skip) * 3600 <= period)
            by (nonlinear_arith)
            requires
                gap == period - now,
                skip == gap / 3600 + if gap % 3600 == 0 { 0int } else { 1int },
                skip < hours,
                hours == period / 3600,
        ;
        Self::samples_from(st, contract, skip * 3600 - gap, hours - skip)
    }

    /// The samples of `contract` stored at `start` and at each of the next
    /// `n - 1` hours, in time order.
    fn samples_from(st: &DiagnosticsStorage, contract: &String, start: u64, n: u64) -> (r: Vec<PerformanceMetrics>)
        requires
            st.wf(),
            start + n * 3600 <= u64::MAX,
        ensures
            r@ == spaced_samples(st.metrics@, contract@, start, 3600, n as nat),
    {
        let mut r: Vec<PerformanceMetrics> = Vec::new();
        let mut i: u64 = 0;
        while i < n
            invariant
                st.wf(),
                start + n * 3600 <= u64::MAX,
                i <= n,
                r@ == spaced_samples(st.metrics@, contract@, start, 3600, i as nat),
            decreases n - i,
        {
            assert(i * 3600 <= n * 3600) by (nonlinear_arith)
                requires
                    i < n,
            ;
            let t = start + i * 3600;
            match st.get_performance_metrics(contract, t) {
                Some(m) => {
                    r.push(m);
                },
                None => {},
            }
            i += 1;
        }
        r
    }
    /// Detects anomalies of `contract` over the hourly samples of the
    /// `detection_period` seconds before `now`. The memory-trend and variance
    /// findings on the same samples are supplied by the caller and spliced in
    /// after the degradation and latency findings. A non-empty result is
    /// logged under the contract and time.
    pub fn detect_anomalies(
        st: &mut DiagnosticsStorage,
        contract: &String,
        detection_period: u64,
        now: u64,
        memory_leaks: Vec<AnomalyEvent>,
        unusual_patterns: Vec<AnomalyEvent>,
    ) -> (r: Result<Vec<AnomalyEvent>, DiagnosticsError>)
        requires
            old(st).wf(),
            detection_period > 0 && hourly_samples(old(st).metrics@, contract@, detection_period, now).len() >= 2
                ==> detection_in_range(hourly_samples(old(st).metrics@, contract@, detection_period, now)),
        ensures
            final(st).wf(),
            detection_period == 0 ==> r == Err::<Vec<AnomalyEvent>, DiagnosticsError>(DiagnosticsError::InvalidDetectionPeriod),
            detection_period > 0 && hourly_samples(old(st).metrics@, contract@, detection_period, now).len() < 2 ==> r
                == Err::<Vec<AnomalyEvent>, DiagnosticsError>(DiagnosticsError::InsufficientDataForPrediction),
            detection_period > 0 && hourly_samples(old(st).metrics@, contract@, detection_period, now).len() >= 2 ==> r is Ok,
            r is Err ==> *final(st) == *old(st),
            r matches Ok(v) ==> {
                &&& detection_output(
                    contract@,
                    hourly_samples(old(st).metrics@, contract@, detection_period, now),
                    now,
                    memory_leaks@,
                    unusual_patterns@,
                    v@,
                )
                &&& v@.len() == 0 ==> *final(st) == *old(st)
                &&& v@.len() > 0 ==> {
                    &&& final(st).anomaly_log@.len() == old(st).anomaly_log@.len() + 1
                    &&& final(st).anomaly_log@.drop_last() == old(st).anomaly_log@
                    &&& final(st).anomaly_log@.last().0 == *contract
                    &&& final(st).anomaly_log@.last().1 == now
                    &&& same_events(final(st).anomaly_log@.last().2@, v@)
                    &&& *final(st) == (DiagnosticsStorage { anomaly_log: final(st).anomaly_log, ..*old(st) })
                }
            },
    {
        if detection_period == 0 {
            return Err(DiagnosticsError::InvalidDetectionPeriod);
        }
        let samples = Self::collect_samples(st, contract, detection_period, now);
        if samples.len() < 2 {
            return Err(DiagnosticsError::InsufficientDataForPrediction);
        }
        let ghost s = samples@;
        let mut anomalies: Vec<AnomalyEvent> = Vec::new();
        let mut d1 = Self::detect_performance_degradation(&samples, now);
        let ghost g1 = d1@;
        anomalies.append(&mut d1);
        let mut memory = memory_leaks;
        anomalies.append(&mut memory);
        let mut d2 = Self::detect_gas_spikes(&samples, now);
        let ghost g2 = d2@;
        anomalies.append(&mut d2);
        let mut d3 = Self::detect_error_rate_spikes(&samples, now);
        let ghost g3 = d3@;
        anomalies.append(&mut d3);
        let mut d4 = Self::detect_throughput_drops(&samples, now);
        let ghost g4 = d4@;
        anomalies.append(&mut d4);
        let mut d5 = Self::detect_latency_increases(&samples, now);
        let ghost g5 = d5@;
        anomalies.append(&mut d5);
        let mut unusual = unusual_patterns;
        anomalies.append(&mut unusual);
        let mut d6 = Self::detect_state_inconsistencies(contract, &samples, now);
        let ghost g6 = d6@;
        anomalies.append(&mut d6);
        let mut d7 = Self::detect_resource_exhaustion(&samples, now);
        let ghost g7 = d7@;
        anomalies.append(&mut d7);
        proof {
            assert(anomalies@ =~= g1 + memory_leaks@ + g2 + g3 + g4 + g5 + unusual_patterns@ + g6 + g7);
            assert(degradation_output(s, now, g1));
            assert(gas_spike_output(s, now, g2));
            assert(error_spike_output(s, now, g3));
            assert(throughput_drop_output(s, now, g4));
            assert(latency_increase_output(s, now, g5));
            assert(state_inconsistency_output(contract@, s, now, g6));
            assert(resource_exhaustion_output(s, now, g7));
        }
        if anomalies.len() > 0 {
            let logged = copy_events(&anomalies);
            st.store_anomaly_events(contract.clone(), now, logged);
        }
        Ok(anomalies)
    }

    /// Trend summary of the anomalies logged for `contract` in the `period`
    /// seconds up to `now` (from time zero when the period reaches back further).
    pub fn get_anomaly_trends(st: &DiagnosticsStorage, contract: &String, period: u64, now: u64) -> (r: Result<
        AnomalyTrends,
        DiagnosticsError,
    >)
        requires
            logged_kinds(st.anomaly_log@, contract@, if period <= now { (now - period) as u64 } else { 0 }).len() <= u32::MAX,
            logged_kinds(st.anomaly_log@, contract@, if period <= now { (now - period) as u64 } else { 0 }).len() / 2 * 12
                <= u32::MAX,
        ensures
            r matches Ok(t) && trends_match(t, logged_kinds(st.anomaly_log@, contract@, if period <= now { (now - period) as u64 } else { 0 })),
    {
        let from: u64 = if period <= now {
            now - period
        } else {
            0
        };
        let mut k: Vec<(AnomalyType, RiskLevel)> = Vec::new();
        let mut i: usize = 0;
        while i < st.anomaly_log.len()
            invariant
                i <= st.anomaly_log@.len(),
                k@ == logged_kinds(st.anomaly_log@.subrange(0, i as int), contract@, from),
            decreases st.anomaly_log@.len() - i,
        {
            assert(st.anomaly_log@.subrange(0, i as int + 1).drop_last() =~= st.anomaly_log@.subrange(0, i as int));
            let entry = &st.anomaly_log[i];
            if entry.0 == *contract && entry.1 >= from {
                let more = Self::kinds_of(&entry.2);
                let mut more = more;
                k.append(&mut more);
            }
            i += 1;
        }
        assert(st.anomaly_log@.subrange(0, st.anomaly_log@.len() as int) =~= st.anomaly_log@);
        Ok(Self::anomaly_trends(&k))
    }
}

} // verus!
