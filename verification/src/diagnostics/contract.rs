//! The diagnostics contract's entry points: setup, admin-gated monitoring and
//! benchmarks, and the system health report. The caller's authorization and
//! the ledger time and sequence come from the host.
use vstd::prelude::*;
use crate::diagnostics::anomaly_detector::{AnomalyDetector, hourly_samples, spaced_samples};
use crate::diagnostics::errors::DiagnosticsError;
use crate::diagnostics::performance_monitor::PerformanceMonitor;
use crate::diagnostics::ids::monitoring_id_spec;
use crate::diagnostics::storage::{DiagnosticsStorage, latest_sample, latest_search_in_range};
use crate::diagnostics::types::{
    AnomalyEvent, DiagnosticsConfig, HealthStatus, MonitoringConfig, PerformanceMetrics, SystemHealthReport,
    SystemMetrics,
};

verus! {

/// The diagnostics contract.
pub struct Diagnostics;

/// Transactions of the latest samples of the contracts.
pub open spec fn health_transactions(
    log: Map<(Seq<char>, u64), PerformanceMetrics>,
    cs: Seq<Seq<char>>,
    now: u64,
) -> nat
    decreases cs.len(),
{
    if cs.len() == 0 {
        0
    } else {
        health_transactions(log, cs.drop_last(), now) + match latest_sample(log, cs.last(), now) {
            Some(m) => m.transaction_count as nat,
            None => 0,
        }
    }
}

/// Sum of the average execution times of the latest samples of the contracts.
pub open spec fn health_response_time(
    log: Map<(Seq<char>, u64), PerformanceMetrics>,
    cs: Seq<Seq<char>>,
    now: u64,
) -> nat
    decreases cs.len(),
{
    if cs.len() == 0 {
        0
    } else {
        health_response_time(log, cs.drop_last(), now) + match latest_sample(log, cs.last(), now) {
            Some(m) => m.average_execution_time as nat,
            None => 0,
        }
    }
}

/// Contracts whose latest sample has an error rate below 5 percent and an
/// average execution time below 1000.
pub open spec fn health_active(
    log: Map<(Seq<char>, u64), PerformanceMetrics>,
    cs: Seq<Seq<char>>,
    now: u64,
) -> nat
    decreases cs.len(),
{
    if cs.len() == 0 {
        0
    } else {
        health_active(log, cs.drop_last(), now) + match latest_sample(log, cs.last(), now) {
            Some(m) => if m.error_rate < 5 && m.average_execution_time < 1000 {
                1nat
            } else {
                0nat
            },
            None => 0,
        }
    }
}

/// The health figures over monitored contracts `cs` stay within their widths,
/// and the search for every latest sample stays at or after time zero.
pub open spec fn health_in_range(
    log: Map<(Seq<char>, u64), PerformanceMetrics>,
    cs: Seq<Seq<char>>,
    now: u64,
) -> bool {
    &&& cs.len() <= u32::MAX
    &&& forall|i: int| 0 <= i < cs.len() ==> latest_search_in_range(log, #[trigger] cs[i], now)
    &&& health_transactions(log, cs, now) <= u32::MAX
    &&& health_response_time(log, cs, now) <= u64::MAX
}

/// At most one sample per step.
pub proof fn lemma_spaced_samples_len(
    log: Map<(Seq<char>, u64), PerformanceMetrics>,
    contract: Seq<char>,
    start: u64,
    step: u64,
    n: nat,
)
    ensures
        spaced_samples(log, contract, start, step, n).len() <= n,
    decreases n,
{
    if n > 0 {
        lemma_spaced_samples_len(log, contract, start, step, (n - 1) as nat);
    }
}

impl Diagnostics {
    /// Sets the admin and the platform settings.
    pub fn initialize(st: &mut DiagnosticsStorage, admin: String, config: DiagnosticsConfig) -> (r: Result<
        (),
        DiagnosticsError,
    >)
        ensures
            r is Ok,
            *final(st) == (DiagnosticsStorage { admin: Some(admin), config: Some(config), ..*old(st) }),
    {
        st.set_admin(admin);
        st.set_config(config);
        Ok(())
    }

    /// Starts monitoring `contract`; `AdminNotSet` before initialization.
    pub fn start_performance_monitoring(
        st: &mut DiagnosticsStorage,
        contract: String,
        config: MonitoringConfig,
        now: u64,
        sequence: u32,
    ) -> (r: Result<[u8; 32], DiagnosticsError>)
        requires
            old(st).wf(),
        ensures
            final(st).wf(),
            old(st).admin is None ==> r == Err::<[u8; 32], DiagnosticsError>(DiagnosticsError::AdminNotSet),
            old(st).admin is Some && (config.metrics_collection_interval == 0 || config.max_metrics_history == 0) ==> r
                == Err::<[u8; 32], DiagnosticsError>(DiagnosticsError::InvalidConfiguration),
            r is Err ==> *final(st) == *old(st),
            old(st).admin is Some && config.metrics_collection_interval > 0 && config.max_metrics_history > 0 ==> r is Ok,
            r is Ok ==> final(st).monitoring_configs@ == old(st).monitoring_configs@.insert(contract@, config)
                && final(st).monitored_view().contains(contract@),
            r matches Ok(id) ==> (forall|j: int| 0 <= j < 32 ==> #[trigger] id@[j] == monitoring_id_spec(now, sequence, j))
                && *final(st) == (DiagnosticsStorage {
                    monitoring_configs: final(st).monitoring_configs,
                    monitored: final(st).monitored,
                    ..*old(st)
                }),
    {
        let _admin = st.get_admin()?;
        let r = PerformanceMonitor::start_monitoring(st, contract, config, now, sequence);
        proof {
            if r is Ok {
                if !old(st).monitored_view().contains(contract@) {
                    assert(final(st).monitored_view()[old(st).monitored_view().len() as int] == contract@);
                }
            }
        }
        r
    }

    /// Stops monitoring `contract`; `AdminNotSet` before initialization.
    pub fn stop_performance_monitoring(st: &mut DiagnosticsStorage, contract: &String) -> (r: Result<
        (),
        DiagnosticsError,
    >)
        requires
            old(st).wf(),
        ensures
            final(st).wf(),
            old(st).admin is None <==> r == Err::<(), DiagnosticsError>(DiagnosticsError::AdminNotSet),
            r is Err ==> *final(st) == *old(st),
            r is Ok ==> !final(st).monitored_view().contains(contract@),
            r is Ok ==> *final(st) == (DiagnosticsStorage { monitored: final(st).monitored, ..*old(st) }),
    {
        let _admin = st.get_admin()?;
        PerformanceMonitor::stop_monitoring(st, contract)
    }

    /// Health of all monitored contracts at `now`, from their latest samples.
    pub fn get_system_health_report(st: &DiagnosticsStorage, now: u64) -> (r: Result<SystemHealthReport, DiagnosticsError>)
        requires
            st.wf(),
            health_in_range(st.metrics@, st.monitored_view(), now),
        ensures
            r matches Ok(h) && {
                let cs = st.monitored_view();
                let active = health_active(st.metrics@, cs, now);
                let time = health_response_time(st.metrics@, cs, now);
                &&& h.timestamp == now
                &&& h.overall_health == HealthStatus::Healthy
                &&& h.contract_health@.len() == 0
                &&& h.anomalies@.len() == 0
                &&& h.recommendations@.len() == 0
                &&& h.system_metrics == SystemMetrics {
                    total_contracts: cs.len() as u32,
                    active_contracts: active as u32,
                    total_transactions: health_transactions(st.metrics@, cs, now) as u32,
                    average_response_time: (if active > 0 { time / active } else { time }) as u64,
                    error_rate: 0,
                    resource_utilization: 0,
                }
            },
    {
        let contracts = st.get_monitored_contracts();
        let ghost cs = st.monitored_view();
        let ghost log = st.metrics@;
        let mut total_transactions: u32 = 0;
        let mut response_time: u64 = 0;
        let mut active: u32 = 0;
        let mut i: usize = 0;
        while i < contracts.len()
            invariant
                st.wf(),
                log == st.metrics@,
                cs == st.monitored_view(),
                contracts@ == st.monitored@,
                cs.len() == contracts@.len(),
                i <= contracts@.len(),
                health_in_range(log, cs, now),
                total_transactions == health_transactions(log, cs.subrange(0, i as int), now),
                response_time == health_response_time(log, cs.subrange(0, i as int), now),
                active == health_active(log, cs.subrange(0, i as int), now),
                active <= i,
            decreases contracts@.len() - i,
        {
            let ghost next = cs.subrange(0, i as int + 1);
            proof {
                assert(next.drop_last() =~= cs.subrange(0, i as int));
                assert(next.last() == cs[i as int]);
                assert(cs[i as int] == contracts@[i as int]@);
                Self::lemma_health_prefix(log, cs, i as int + 1, now);
                assert(latest_search_in_range(log, cs[i as int], now));
            }
            match PerformanceMonitor::get_current_metrics(st, &contracts[i], now) {
                Ok(m) => {
                    total_transactions = total_transactions + m.transaction_count;
                    response_time = response_time + m.average_execution_time;
                    if m.error_rate < 5 && m.average_execution_time < 1000 {
                        active = active + 1;
                    }
                },
                Err(_) => {},
            }
            i += 1;
        }
        proof {
            assert(cs.subrange(0, cs.len() as int) =~= cs);
        }
        let average_response_time = if active > 0 {
            response_time / (active as u64)
        } else {
            response_time
        };
        Ok(SystemHealthReport {
            timestamp: now,
            overall_health: HealthStatus::Healthy,
            contract_health: Vec::new(),
            system_metrics: SystemMetrics {
                total_contracts: contracts.len() as u32,
                active_contracts: active,
                total_transactions,
                average_response_time,
                error_rate: 0,
                resource_utilization: 0,
            },
            anomalies: Vec::new(),
            recommendations: Vec::new(),
        })
    }

    /// The health totals over a prefix of the contracts are at most those over all.
    proof fn lemma_health_prefix(log: Map<(Seq<char>, u64), PerformanceMetrics>, cs: Seq<Seq<char>>, k: int, now: u64)
        requires
            0 <= k <= cs.len(),
        ensures
            health_transactions(log, cs.subrange(0, k), now) <= health_transactions(log, cs, now),
            health_response_time(log, cs.subrange(0, k), now) <= health_response_time(log, cs, now),
        decreases cs.len(),
    {
        if k < cs.len() {
            assert(cs.drop_last().subrange(0, k) =~= cs.subrange(0, k));
            Self::lemma_health_prefix(log, cs.drop_last(), k, now);
        } else {
            assert(cs.subrange(0, k) =~= cs);
        }
    }

    /// The one-hour diagnostic of `contract` at `now`: `MetricsNotFound`
    /// without a recent sample; otherwise the anomaly scan over the last hour,
    /// which holds at most one hourly sample, reports too little data.
    pub fn run_diagnostic(
        st: &mut DiagnosticsStorage,
        contract: &String,
        now: u64,
        memory_leaks: Vec<AnomalyEvent>,
        unusual_patterns: Vec<AnomalyEvent>,
    ) -> (r: Result<(), DiagnosticsError>)
        requires
            old(st).wf(),
            now >= 3600,
        ensures
            *final(st) == *old(st),
            latest_sample(old(st).metrics@, contract@, now) is None ==> r == Err::<(), DiagnosticsError>(
                DiagnosticsError::MetricsNotFound,
            ),
            latest_sample(old(st).metrics@, contract@, now) is Some ==> r == Err::<(), DiagnosticsError>(
                DiagnosticsError::InsufficientDataForPrediction,
            ),
    {
        let _performance = PerformanceMonitor::get_current_metrics(st, contract, now)?;
        proof {
            lemma_spaced_samples_len(st.metrics@, contract@, (now - 3600) as u64, 3600, 1);
            assert(hourly_samples(st.metrics@, contract@, 3600, now).len() <= 1);
        }
        let anomalies = AnomalyDetector::detect_anomalies(st, contract, 3600, now, memory_leaks, unusual_patterns);
        match anomalies {
            Ok(_) => Ok(()),
            Err(e) => Err(e),
        }
    }
}

} // verus!
