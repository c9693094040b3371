//! Real-time performance monitoring: sessions, sample recording with
//! threshold alerts, reports over a time window, and scores.
use vstd::prelude::*;
use vstd::string::StringSliceAdditionalSpecFns;
use crate::text::text_bytes;
use crate::diagnostics::errors::DiagnosticsError;
use crate::diagnostics::ids::{monitoring_id, monitoring_id_spec};
use crate::diagnostics::storage::{DiagnosticsStorage, latest_sample, latest_search_in_range};
use crate::diagnostics::types::{MonitoringConfig, PerformanceMetrics, DiagnosticsConfig};

verus! {

/// Real-time performance monitoring and profiling.
pub struct PerformanceMonitor;

/// Totals of a contract's samples over a time window.
#[derive(Clone, Debug)]
pub struct PerformanceReport {
    pub contract_address: String,
    pub start_time: u64,
    pub end_time: u64,
    pub total_transactions: u32,
    pub average_execution_time: u64,
    pub min_execution_time: u64,
    pub max_execution_time: u64,
    pub total_gas_used: u64,
    pub peak_memory_usage: u32,
    pub error_rate: u32,
    pub performance_score: u32,
}

/// Cost of one profiled operation.
#[derive(Clone, Debug)]
pub struct OperationProfile {
    pub operation_name: Vec<u8>,
    pub contract_address: String,
    pub timestamp: u64,
    pub execution_time: u64,
    pub gas_used: u64,
    pub memory_used: u32,
    pub success: bool,
    pub efficiency_score: u32,
}

/// A sample value above its alert threshold.
#[derive(Clone, Debug)]
pub struct ThresholdAlert {
    pub alert_name: Vec<u8>,
    pub threshold: u64,
    pub actual: u64,
}

/// `a - b`, or zero where `b` is larger.
pub open spec fn floor_sub(a: int, b: int) -> int {
    if a > b {
        a - b
    } else {
        0
    }
}

/// Score out of 100: one point off per 100 of average execution time above
/// 1000, five per percent of errors, one per 100 000 gas above 1 000 000.
pub open spec fn performance_score_spec(avg_execution_time: u64, error_rate: u32, gas_used: u64) -> int {
    let time_penalty: int = if avg_execution_time > 1000 {
        ((avg_execution_time / 100) as u32) as int
    } else {
        0
    };
    let gas_penalty: int = if gas_used > 1_000_000 {
        ((gas_used / 100_000) as u32) as int
    } else {
        0
    };
    floor_sub(100, time_penalty + 5 * error_rate + gas_penalty)
}

/// Efficiency out of 100: one point off per 50 of execution time above 500,
/// one per 10 000 gas above 100 000, one per 100 of memory above 1024.
pub open spec fn efficiency_score_spec(execution_time: u64, gas_used: u64, memory_used: u32) -> int {
    let time_penalty: int = if execution_time > 500 {
        ((execution_time / 50) as u32) as int
    } else {
        0
    };
    let gas_penalty: int = if gas_used > 100_000 {
        ((gas_used / 10_000) as u32) as int
    } else {
        0
    };
    let memory_penalty: int = if memory_used > 1024 {
        (memory_used / 100) as int
    } else {
        0
    };
    floor_sub(floor_sub(floor_sub(100, time_penalty), gas_penalty), memory_penalty)
}

/// The samples of `contract` stored at the times `start`, `start + 1`, ...,
/// `start + n - 1`, in time order.
pub open spec fn window_samples(
    log: Map<(Seq<char>, u64), PerformanceMetrics>,
    contract: Seq<char>,
    start: u64,
    n: nat,
) -> Seq<PerformanceMetrics>
    decreases n,
{
    if n == 0 {
        Seq::empty()
    } else {
        let before = window_samples(log, contract, start, (n - 1) as nat);
        let t = start + n - 1;
        if t <= u64::MAX && log.contains_key((contract, t as u64)) {
            before.push(log[(contract, t as u64)])
        } else {
            before
        }
    }
}

/// A numeric field of a sample.
#[derive(Clone, Copy, Debug, PartialEq, Eq, Structural)]
pub enum SampleField {
    Transactions,
    AverageExecutionTime,
    Gas,
    Errors,
    PeakMemory,
    ExecutionTime,
    ErrorRate,
    NetworkLatency,
    Memory,
    StorageOps,
}

/// The value of field `f` of sample `m`.
pub open spec fn field_of(m: PerformanceMetrics, f: SampleField) -> nat {
    match f {
        SampleField::Transactions => m.transaction_count as nat,
        SampleField::AverageExecutionTime => m.average_execution_time as nat,
        SampleField::Gas => m.gas_used as nat,
        SampleField::Errors => m.error_count as nat,
        SampleField::PeakMemory => m.peak_memory_usage as nat,
        SampleField::ExecutionTime => m.execution_time as nat,
        SampleField::ErrorRate => m.error_rate as nat,
        SampleField::NetworkLatency => m.network_latency as nat,
        SampleField::Memory => m.memory_usage as nat,
        SampleField::StorageOps => m.storage_reads as nat + m.storage_writes as nat,
    }
}

/// The value of field `f` of sample `m`.
pub fn field_value(m: &PerformanceMetrics, f: SampleField) -> (r: u64)
    ensures
        r == field_of(*m, f),
{
    match f {
        SampleField::Transactions => m.transaction_count as u64,
        SampleField::AverageExecutionTime => m.average_execution_time,
        SampleField::Gas => m.gas_used,
        SampleField::Errors => m.error_count as u64,
        SampleField::PeakMemory => m.peak_memory_usage as u64,
        SampleField::ExecutionTime => m.execution_time,
        SampleField::ErrorRate => m.error_rate as u64,
        SampleField::NetworkLatency => m.network_latency as u64,
        SampleField::Memory => m.memory_usage as u64,
        SampleField::StorageOps => m.storage_reads as u64 + m.storage_writes as u64,
    }
}

/// Sum of field `f` over the samples.
pub open spec fn sum_by(s: Seq<PerformanceMetrics>, f: SampleField) -> nat
    decreases s.len(),
{
    if s.len() == 0 {
        0
    } else {
        sum_by(s.drop_last(), f) + field_of(s.last(), f)
    }
}

/// Largest value of field `f` over the samples, or `init` if it is larger.
pub open spec fn max_by(s: Seq<PerformanceMetrics>, f: SampleField, init: nat) -> nat
    decreases s.len(),
{
    if s.len() == 0 {
        init
    } else {
        let m = max_by(s.drop_last(), f, init);
        if field_of(s.last(), f) > m {
            field_of(s.last(), f)
        } else {
            m
        }
    }
}

/// Smallest value of field `f` over the samples, or `init` if it is smaller.
pub open spec fn min_by(s: Seq<PerformanceMetrics>, f: SampleField, init: nat) -> nat
    decreases s.len(),
{
    if s.len() == 0 {
        init
    } else {
        let m = min_by(s.drop_last(), f, init);
        if field_of(s.last(), f) < m {
            field_of(s.last(), f)
        } else {
            m
        }
    }
}

/// A shorter window is a prefix of a longer one, so sums over it are no larger.
pub proof fn lemma_window_sum_monotone(
    log: Map<(Seq<char>, u64), PerformanceMetrics>,
    contract: Seq<char>,
    start: u64,
    k: nat,
    n: nat,
    f: SampleField,
)
    requires
        k <= n,
    ensures
        sum_by(window_samples(log, contract, start, k), f) <= sum_by(window_samples(log, contract, start, n), f),
    decreases n,
{
    if k < n {
        lemma_window_sum_monotone(log, contract, start, k, (n - 1) as nat, f);
        let before = window_samples(log, contract, start, (n - 1) as nat);
        let w = window_samples(log, contract, start, n);
        if w != before {
            assert(w.drop_last() =~= before);
        }
    }
}

/// The number of timestamps from `start` to `end`, both included.
pub open spec fn window_len(start: u64, end: u64) -> nat {
    if start <= end {
        (end - start + 1) as nat
    } else {
        0
    }
}

/// The totals of a report over the window stay within the widths the
/// platform computes them in.
pub open spec fn report_in_range(s: Seq<PerformanceMetrics>) -> bool {
    &&& sum_by(s, SampleField::Transactions) <= u32::MAX
    &&& sum_by(s, SampleField::AverageExecutionTime) <= u64::MAX
    &&& sum_by(s, SampleField::Gas) <= u64::MAX
    &&& sum_by(s, SampleField::Errors) * 100 <= u32::MAX
    &&& (sum_by(s, SampleField::Transactions) > 0 ==> (sum_by(s, SampleField::Errors)
        * 100 / sum_by(s, SampleField::Transactions)) * 5 <= u32::MAX)
}

/// The report over the samples `s` of `contract` between `start` and `end`.
pub open spec fn report_of(contract: String, start: u64, end: u64, s: Seq<PerformanceMetrics>) -> PerformanceReport {
    let tx = sum_by(s, SampleField::Transactions);
    let avg = (sum_by(s, SampleField::AverageExecutionTime) / tx) as u64;
    let errors = sum_by(s, SampleField::Errors);
    let rate = (errors * 100 / tx) as u32;
    let gas = sum_by(s, SampleField::Gas) as u64;
    let min_exec = min_by(s, SampleField::ExecutionTime, u64::MAX as nat);
    PerformanceReport {
        contract_address: contract,
        start_time: start,
        end_time: end,
        total_transactions: tx as u32,
        average_execution_time: avg,
        min_execution_time: if min_exec == u64::MAX { 0 } else { min_exec as u64 },
        max_execution_time: max_by(s, SampleField::ExecutionTime, 0) as u64,
        total_gas_used: gas,
        peak_memory_usage: max_by(s, SampleField::PeakMemory, 0) as u32,
        error_rate: rate,
        performance_score: performance_score_spec(avg, rate, gas) as u32,
    }
}

/// The threshold alerts a sample raises under the platform settings.
pub open spec fn alerts_spec(config: DiagnosticsConfig, m: PerformanceMetrics) -> Seq<(Seq<u8>, u64, u64)> {
    let a1: Seq<(Seq<u8>, u64, u64)> = if m.cpu_utilization > config.alert_threshold_cpu {
        seq![("CPU_UTILIZATION_HIGH".spec_bytes(), config.alert_threshold_cpu as u64, m.cpu_utilization as u64)]
    } else {
        seq![]
    };
    let a2: Seq<(Seq<u8>, u64, u64)> = if m.memory_usage > config.alert_threshold_memory {
        seq![("MEMORY_USAGE_HIGH".spec_bytes(), config.alert_threshold_memory as u64, m.memory_usage as u64)]
    } else {
        seq![]
    };
    let a3: Seq<(Seq<u8>, u64, u64)> = if m.gas_used > config.alert_threshold_gas {
        seq![("GAS_USAGE_HIGH".spec_bytes(), config.alert_threshold_gas, m.gas_used)]
    } else {
        seq![]
    };
    let a4: Seq<(Seq<u8>, u64, u64)> = if m.error_rate > 5 {
        seq![("ERROR_RATE_HIGH".spec_bytes(), 5u64, m.error_rate as u64)]
    } else {
        seq![]
    };
    a1 + a2 + a3 + a4
}

/// The alerts as plain triples of name, threshold and value.
pub open spec fn alert_triples(v: Seq<ThresholdAlert>) -> Seq<(Seq<u8>, u64, u64)> {
    v.map_values(|a: ThresholdAlert| (a.alert_name@, a.threshold, a.actual))
}

/// Whether a sample passes validation.
pub open spec fn metrics_valid(m: PerformanceMetrics) -> bool {
    &&& !(m.execution_time == 0 && m.transaction_count > 0)
    &&& m.error_rate <= 100
    &&& m.cpu_utilization <= 100
}

impl PerformanceMonitor {
    /// Starts monitoring `contract`: stores its settings, adds it to the
    /// monitored contracts and returns the session identifier built from the
    /// ledger time and sequence.
    pub fn start_monitoring(
        st: &mut DiagnosticsStorage,
        contract: String,
        config: MonitoringConfig,
        now: u64,
        sequence: u32,
    ) -> (r: Result<[u8; 32], DiagnosticsError>)
        requires
            old(st).wf(),
        ensures
            final(st).wf(),
            (config.metrics_collection_interval == 0 || config.max_metrics_history == 0) <==> r
                == Err::<[u8; 32], DiagnosticsError>(DiagnosticsError::InvalidConfiguration),
            r is Err ==> *final(st) == *old(st),
            config.metrics_collection_interval > 0 && config.max_metrics_history > 0 ==> r is Ok,
            r matches Ok(id) ==> {
                &&& forall|j: int| 0 <= j < 32 ==> #[trigger] id@[j] == monitoring_id_spec(now, sequence, j)
                &&& final(st).monitoring_configs@ == old(st).monitoring_configs@.insert(contract@, config)
                &&& final(st).monitored_view() == (if old(st).monitored_view().contains(contract@) {
                    old(st).monitored_view()
                } else {
                    old(st).monitored_view().push(contract@)
                })
                &&& *final(st) == (DiagnosticsStorage {
                    monitoring_configs: final(st).monitoring_configs,
                    monitored: final(st).monitored,
                    ..*old(st)
                })
            },
    {
        if config.metrics_collection_interval == 0 || config.max_metrics_history == 0 {
            return Err(DiagnosticsError::InvalidConfiguration);
        }
        st.set_monitoring_config(contract.clone(), config);
        st.add_monitored_contract(&contract);
        Ok(monitoring_id(now, sequence))
    }

    /// Stops monitoring `contract`: removes it from the monitored contracts.
    pub fn stop_monitoring(st: &mut DiagnosticsStorage, contract: &String) -> (r: Result<(), DiagnosticsError>)
        requires
            old(st).wf(),
        ensures
            final(st).wf(),
            r is Ok,
            !final(st).monitored_view().contains(contract@),
            old(st).monitored_view().contains(contract@) ==> exists|i: int|
                0 <= i < old(st).monitored_view().len() && old(st).monitored_view()[i] == contract@
                    && final(st).monitored_view() == old(st).monitored_view().remove(i),
            !old(st).monitored_view().contains(contract@) ==> final(st).monitored_view() == old(st).monitored_view(),
            *final(st) == (DiagnosticsStorage { monitored: final(st).monitored, ..*old(st) }),
    {
        st.remove_monitored_contract(contract);
        Ok(())
    }

    /// Records a sample of `contract` after validating it, and returns the
    /// threshold alerts it raises (none while no settings are stored).
    pub fn record_metrics(
        st: &mut DiagnosticsStorage,
        contract: String,
        metrics: PerformanceMetrics,
    ) -> (r: Result<Vec<ThresholdAlert>, DiagnosticsError>)
        requires
            old(st).wf(),
        ensures
            final(st).wf(),
            !metrics_valid(metrics) <==> r == Err::<Vec<ThresholdAlert>, DiagnosticsError>(
                DiagnosticsError::InvalidMetrics,
            ),
            r is Err ==> *final(st) == *old(st),
            metrics_valid(metrics) ==> r is Ok,
            r matches Ok(alerts) ==> {
                &&& final(st).metrics@ == old(st).metrics@.insert((contract@, metrics.timestamp), metrics)
                &&& *final(st) == (DiagnosticsStorage { metrics: final(st).metrics, ..*old(st) })
                &&& alert_triples(alerts@) == match old(st).config {
                    Some(c) => alerts_spec(c, metrics),
                    None => Seq::empty(),
                }
            },
    {
        Self::validate_metrics(&metrics)?;
        let alerts = match &st.config {
            Some(c) => Self::check_performance_alerts(c, &metrics),
            None => {
                let v: Vec<ThresholdAlert> = Vec::new();
                assert(alert_triples(v@) =~= Seq::empty());
                v
            },
        };
        st.store_performance_metrics(contract, metrics);
        Ok(alerts)
    }

    /// The most recent sample of `contract` in the hour up to `now`, or
    /// `MetricsNotFound`.
    pub fn get_current_metrics(
        st: &DiagnosticsStorage,
        contract: &String,
        now: u64,
    ) -> (r: Result<PerformanceMetrics, DiagnosticsError>)
        requires
            st.wf(),
            latest_search_in_range(st.metrics@, contract@, now),
        ensures
            match latest_sample(st.metrics@, contract@, now) {
                Some(m) => r == Ok::<PerformanceMetrics, DiagnosticsError>(m),
                None => r == Err::<PerformanceMetrics, DiagnosticsError>(DiagnosticsError::MetricsNotFound),
            },
    {
        match st.get_latest_performance_metrics(contract, now) {
            Some(m) => Ok(m),
            None => Err(DiagnosticsError::MetricsNotFound),
        }
    }

    /// Report over the samples of `contract` stored at each second from
    /// `start_time` to `end_time`; `MetricsNotFound` when they hold no transaction.
    pub fn generate_performance_report(
        st: &DiagnosticsStorage,
        contract: &String,
        start_time: u64,
        end_time: u64,
    ) -> (r: Result<PerformanceReport, DiagnosticsError>)
        requires
            st.wf(),
            report_in_range(window_samples(st.metrics@, contract@, start_time, window_len(start_time, end_time))),
        ensures
            ({
                let s = window_samples(st.metrics@, contract@, start_time, window_len(start_time, end_time));
                if sum_by(s, SampleField::Transactions) == 0 {
                    r == Err::<PerformanceReport, DiagnosticsError>(DiagnosticsError::MetricsNotFound)
                } else {
                    r == Ok::<PerformanceReport, DiagnosticsError>(report_of(*contract, start_time, end_time, s))
                }
            }),
    {
        let ghost log = st.metrics@;
        let ghost total = window_len(start_time, end_time);
        let mut total_transactions: u32 = 0;
        let mut total_execution_time: u64 = 0;
        let mut total_gas_used: u64 = 0;
        let mut total_errors: u32 = 0;
        let mut peak_memory: u32 = 0;
        let mut min_execution_time: u64 = u64::MAX;
        let mut max_execution_time: u64 = 0;
        if start_time <= end_time {
            let mut t: u64 = start_time;
            loop
                invariant_except_break
                    total_transactions == sum_by(window_samples(log, contract@, start_time, (t - start_time) as nat), SampleField::Transactions),
                    total_execution_time == sum_by(window_samples(log, contract@, start_time, (t - start_time) as nat), SampleField::AverageExecutionTime),
                    total_gas_used == sum_by(window_samples(log, contract@, start_time, (t - start_time) as nat), SampleField::Gas),
                    total_errors == sum_by(window_samples(log, contract@, start_time, (t - start_time) as nat), SampleField::Errors),
                    peak_memory == max_by(window_samples(log, contract@, start_time, (t - start_time) as nat), SampleField::PeakMemory, 0),
                    min_execution_time == min_by(window_samples(log, contract@, start_time, (t - start_time) as nat), SampleField::ExecutionTime, u64::MAX as nat),
                    max_execution_time == max_by(window_samples(log, contract@, start_time, (t - start_time) as nat), SampleField::ExecutionTime, 0),
                invariant
                    st.wf(),
                    log == st.metrics@,
                    total == window_len(start_time, end_time),
                    start_time <= t <= end_time,
                    report_in_range(window_samples(log, contract@, start_time, total)),
                ensures
                    total_transactions == sum_by(window_samples(log, contract@, start_time, total), SampleField::Transactions),
                    total_execution_time == sum_by(window_samples(log, contract@, start_time, total), SampleField::AverageExecutionTime),
                    total_gas_used == sum_by(window_samples(log, contract@, start_time, total), SampleField::Gas),
                    total_errors == sum_by(window_samples(log, contract@, start_time, total), SampleField::Errors),
                    peak_memory == max_by(window_samples(log, contract@, start_time, total), SampleField::PeakMemory, 0),
                    min_execution_time == min_by(window_samples(log, contract@, start_time, total), SampleField::ExecutionTime, u64::MAX as nat),
                    max_execution_time == max_by(window_samples(log, contract@, start_time, total), SampleField::ExecutionTime, 0),
                decreases end_time - t,
            {
                let ghost k = (t - start_time) as nat;
                proof {
                    lemma_window_sum_monotone(log, contract@, start_time, k + 1, total, SampleField::Transactions);
                    lemma_window_sum_monotone(log, contract@, start_time, k + 1, total, SampleField::AverageExecutionTime);
                    lemma_window_sum_monotone(log, contract@, start_time, k + 1, total, SampleField::Gas);
                    lemma_window_sum_monotone(log, contract@, start_time, k + 1, total, SampleField::Errors);
                }
                match st.get_performance_metrics(contract, t) {
                    Some(m) => {
                        proof {
                            let w = window_samples(log, contract@, start_time, k + 1);
                            assert(w == window_samples(log, contract@, start_time, k).push(m));
                            assert(w.drop_last() =~= window_samples(log, contract@, start_time, k));
                        }
                        total_transactions = total_transactions + m.transaction_count;
                        total_execution_time = total_execution_time + m.average_execution_time;
                        total_gas_used = total_gas_used + m.gas_used;
                        total_errors = total_errors + m.error_count;
                        if m.peak_memory_usage > peak_memory {
                            peak_memory = m.peak_memory_usage;
                        }
                        if m.execution_time < min_execution_time {
                            min_execution_time = m.execution_time;
                        }
                        if m.execution_time > max_execution_time {
                            max_execution_time = m.execution_time;
                        }
                    },
                    None => {},
                }
                if t == end_time {
                    break;
                }
                t = t + 1;
            }
        }
        if total_transactions == 0 {
            return Err(DiagnosticsError::MetricsNotFound);
        }
        let average_execution_time = total_execution_time / (total_transactions as u64);
        let error_rate = (total_errors * 100) / total_transactions;
        Ok(PerformanceReport {
            contract_address: contract.clone(),
            start_time,
            end_time,
            total_transactions,
            average_execution_time,
            min_execution_time: if min_execution_time == u64::MAX {
                0
            } else {
                min_execution_time
            },
            max_execution_time,
            total_gas_used,
            peak_memory_usage: peak_memory,
            error_rate,
            performance_score: Self::calculate_performance_score(average_execution_time, error_rate, total_gas_used),
        })
    }

    /// Profiles one operation of `contract` that ran from `start_time` to `end_time`.
    pub fn profile_operation(
        contract: &String,
        operation_name: Vec<u8>,
        start_time: u64,
        end_time: u64,
        gas_used: u64,
        memory_used: u32,
        success: bool,
        now: u64,
    ) -> (r: Result<OperationProfile, DiagnosticsError>)
        requires
            start_time <= end_time,
        ensures
            r matches Ok(p) && p == (OperationProfile {
                operation_name,
                contract_address: *contract,
                timestamp: now,
                execution_time: (end_time - start_time) as u64,
                gas_used,
                memory_used,
                success,
                efficiency_score: efficiency_score_spec((end_time - start_time) as u64, gas_used, memory_used) as u32,
            }),
    {
        let execution_time = end_time - start_time;
        Ok(OperationProfile {
            operation_name,
            contract_address: contract.clone(),
            timestamp: now,
            execution_time,
            gas_used,
            memory_used,
            success,
            efficiency_score: Self::calculate_efficiency_score(execution_time, gas_used, memory_used),
        })
    }

    /// `InvalidMetrics` for a sample with transactions but no execution time,
    /// or an error rate or CPU utilization above 100 percent.
    pub fn validate_metrics(metrics: &PerformanceMetrics) -> (r: Result<(), DiagnosticsError>)
        ensures
            metrics_valid(*metrics) <==> r is Ok,
            r is Err ==> r == Err::<(), DiagnosticsError>(DiagnosticsError::InvalidMetrics),
    {
        if metrics.execution_time == 0 && metrics.transaction_count > 0 {
            return Err(DiagnosticsError::InvalidMetrics);
        }
        if metrics.error_rate > 100 {
            return Err(DiagnosticsError::InvalidMetrics);
        }
        if metrics.cpu_utilization > 100 {
            return Err(DiagnosticsError::InvalidMetrics);
        }
        Ok(())
    }

    /// The alerts a sample raises: CPU, memory and gas above the configured
    /// thresholds, and an error rate above 5 percent, in that order.
    pub fn check_performance_alerts(config: &DiagnosticsConfig, metrics: &PerformanceMetrics) -> (r: Vec<ThresholdAlert>)
        ensures
            alert_triples(r@) == alerts_spec(*config, *metrics),
    {
        let mut r: Vec<ThresholdAlert> = Vec::new();
        if metrics.cpu_utilization > config.alert_threshold_cpu {
            r.push(ThresholdAlert {
                alert_name: text_bytes("CPU_UTILIZATION_HIGH"),
                threshold: config.alert_threshold_cpu as u64,
                actual: metrics.cpu_utilization as u64,
            });
        }
        let ghost r1 = alert_triples(r@);
        if metrics.memory_usage > config.alert_threshold_memory {
            r.push(ThresholdAlert {
                alert_name: text_bytes("MEMORY_USAGE_HIGH"),
                threshold: config.alert_threshold_memory as u64,
                actual: metrics.memory_usage as u64,
            });
        }
        let ghost r2 = alert_triples(r@);
        if metrics.gas_used > config.alert_threshold_gas {
            r.push(ThresholdAlert {
                alert_name: text_bytes("GAS_USAGE_HIGH"),
                threshold: config.alert_threshold_gas,
                actual: metrics.gas_used,
            });
        }
        let ghost r3 = alert_triples(r@);
        if metrics.error_rate > 5 {
            r.push(ThresholdAlert {
                alert_name: text_bytes("ERROR_RATE_HIGH"),
                threshold: 5,
                actual: metrics.error_rate as u64,
            });
        }
        assert(alert_triples(r@) =~= alerts_spec(*config, *metrics));
        r
    }

    /// Performance score out of 100 (see `performance_score_spec`).
    pub fn calculate_performance_score(avg_execution_time: u64, error_rate: u32, gas_used: u64) -> (r: u32)
        requires
            error_rate * 5 <= u32::MAX,
        ensures
            r == performance_score_spec(avg_execution_time, error_rate, gas_used),
    {
        let mut score: u32 = 100;
        if avg_execution_time > 1000 {
            score = score.saturating_sub((avg_execution_time / 100) as u32);
        }
        score = score.saturating_sub(error_rate * 5);
        if gas_used > 1_000_000 {
            score = score.saturating_sub((gas_used / 100_000) as u32);
        }
        if score > 100 {
            100
        } else {
            score
        }
    }

    /// Efficiency score out of 100 (see `efficiency_score_spec`).
    pub fn calculate_efficiency_score(execution_time: u64, gas_used: u64, memory_used: u32) -> (r: u32)
        ensures
            r == efficiency_score_spec(execution_time, gas_used, memory_used),
    {
        let mut score: u32 = 100;
        if execution_time > 500 {
            score = score.saturating_sub((execution_time / 50) as u32);
        }
        if gas_used > 100_000 {
            score = score.saturating_sub((gas_used / 10_000) as u32);
        }
        if memory_used > 1024 {
            score = score.saturating_sub(memory_used / 100);
        }
        if score > 100 {
            100
        } else {
            score
        }
    }
}

} // verus!
