//! State of the diagnostics platform: admin, settings, the log of recorded
//! performance samples keyed by contract and time, monitoring settings, the
//! monitored contracts, benchmark results and detected anomalies.
use vstd::prelude::*;
use crate::table::Table;
use crate::diagnostics::errors::DiagnosticsError;
use crate::diagnostics::types::{PerformanceMetrics, DiagnosticsConfig, MonitoringConfig, BenchmarkResult, AnomalyEvent};
use crate::diagnostics::resource_optimizer::ResourceUtilization;

verus! {

/// The key a sample is stored under: its contract and its timestamp.
pub open spec fn metric_key(e: (String, PerformanceMetrics)) -> (Seq<char>, u64) {
    (e.0@, e.1.timestamp)
}

/// No two samples share a key.
pub open spec fn metric_keys_unique(s: Seq<(String, PerformanceMetrics)>) -> bool {
    forall|i: int, j: int|
        #![trigger s[i], s[j]]
        0 <= i < s.len() && 0 <= j < s.len() && i != j ==> metric_key(s[i]) != metric_key(s[j])
}

/// Whether some sample carries key `k`.
pub open spec fn has_metric_key(s: Seq<(String, PerformanceMetrics)>, k: (Seq<char>, u64)) -> bool {
    exists|i: int| 0 <= i < s.len() && #[trigger] metric_key(s[i]) == k
}

/// The samples of a list, by key.
pub open spec fn metrics_map(s: Seq<(String, PerformanceMetrics)>) -> Map<(Seq<char>, u64), PerformanceMetrics> {
    Map::new(
        |k: (Seq<char>, u64)| has_metric_key(s, k),
        |k: (Seq<char>, u64)| s[choose|i: int| 0 <= i < s.len() && #[trigger] metric_key(s[i]) == k].1,
    )
}

/// With distinct keys, the sample at index `i` is the one the map holds under its key.
pub proof fn lemma_metrics_map_at(s: Seq<(String, PerformanceMetrics)>, i: int)
    requires
        metric_keys_unique(s),
        0 <= i < s.len(),
    ensures
        metrics_map(s).contains_key(metric_key(s[i])),
        metrics_map(s)[metric_key(s[i])] == s[i].1,
{
    let k = metric_key(s[i]);
    assert(has_metric_key(s, k));
    let j = choose|j: int| 0 <= j < s.len() && #[trigger] metric_key(s[j]) == k;
    assert(metric_key(s[j]) == k);
    if j != i {
        assert(metric_key(s[i]) != metric_key(s[j]));
    }
}

impl PerformanceMetrics {
    /// A copy equal to this sample.
    pub fn copied(&self) -> (r: PerformanceMetrics)
        ensures
            r == *self,
    {
        PerformanceMetrics {
            timestamp: self.timestamp,
            contract_address: self.contract_address.clone(),
            execution_time: self.execution_time,
            gas_used: self.gas_used,
            memory_usage: self.memory_usage,
            storage_reads: self.storage_reads,
            storage_writes: self.storage_writes,
            cpu_utilization: self.cpu_utilization,
            cpu_instructions: self.cpu_instructions,
            transaction_count: self.transaction_count,
            error_count: self.error_count,
            error_rate: self.error_rate,
            average_execution_time: self.average_execution_time,
            average_response_time: self.average_response_time,
            network_bandwidth: self.network_bandwidth,
            gas_consumption: self.gas_consumption,
            storage_usage: self.storage_usage,
            peak_memory_usage: self.peak_memory_usage,
            network_latency: self.network_latency,
        }
    }
}

/// Recorded performance samples, at most one per contract and timestamp.
pub struct MetricsLog {
    samples: Vec<(String, PerformanceMetrics)>,
}

impl View for MetricsLog {
    type V = Map<(Seq<char>, u64), PerformanceMetrics>;

    closed spec fn view(&self) -> Map<(Seq<char>, u64), PerformanceMetrics> {
        metrics_map(self.samples@)
    }
}

impl MetricsLog {
    /// Well-formedness: keys are pairwise distinct.
    pub closed spec fn wf(&self) -> bool {
        metric_keys_unique(self.samples@)
    }

    /// An empty log.
    pub fn new() -> (r: Self)
        ensures
            r.wf(),
            r@ == Map::<(Seq<char>, u64), PerformanceMetrics>::empty(),
    {
        let r = MetricsLog { samples: Vec::new() };
        assert(r@ =~= Map::<(Seq<char>, u64), PerformanceMetrics>::empty());
        r
    }

    /// The stored samples, each with the contract it was recorded for.
    pub fn samples(&self) -> (r: &Vec<(String, PerformanceMetrics)>)
        ensures
            metrics_map(r@) == self@,
            metric_keys_unique(r@) == self.wf(),
    {
        &self.samples
    }

    /// Index of the sample stored under the key.
    fn position(&self, contract: &String, timestamp: u64) -> (r: Option<usize>)
        requires
            self.wf(),
        ensures
            match r {
                Some(i) => i < self.samples@.len() && metric_key(self.samples@[i as int]) == (
                contract@,
                timestamp,
                ),
                None => !self@.contains_key((contract@, timestamp)),
            },
    {
        let mut i: usize = 0;
        while i < self.samples.len()
            invariant
                i <= self.samples@.len(),
                forall|j: int| 0 <= j < i ==> metric_key(#[trigger] self.samples@[j]) != (contract@, timestamp),
            decreases self.samples@.len() - i,
        {
            if self.samples[i].1.timestamp == timestamp && self.samples[i].0 == *contract {
                return Some(i);
            }
            i += 1;
        }
        None
    }

    /// The sample stored for `contract` at `timestamp`, if any.
    pub fn get(&self, contract: &String, timestamp: u64) -> (r: Option<PerformanceMetrics>)
        requires
            self.wf(),
        ensures
            r is Some <==> self@.contains_key((contract@, timestamp)),
            r matches Some(m) ==> m == self@[(contract@, timestamp)],
    {
        match self.position(contract, timestamp) {
            Some(i) => {
                proof {
                    lemma_metrics_map_at(self.samples@, i as int);
                }
                Some(self.samples[i].1.copied())
            },
            None => None,
        }
    }

    /// Stores `m` under `contract` and its timestamp, replacing what was there.
    pub fn record(&mut self, contract: String, m: PerformanceMetrics)
        requires
            old(self).wf(),
        ensures
            final(self).wf(),
            final(self)@ == old(self)@.insert((contract@, m.timestamp), m),
    {
        let ghost k = (contract@, m.timestamp);
        let ghost e = (contract, m);
        let ghost before = self.samples@;
        match self.position(&contract, m.timestamp) {
            Some(i) => {
                self.samples.set(i, (contract, m));
                proof {
                    let after = self.samples@;
                    assert(after == before.update(i as int, e));
                    assert(metric_keys_unique(after)) by {
                        assert forall|a: int, b: int|
                            #![trigger after[a], after[b]]
                            0 <= a < after.len() && 0 <= b < after.len() && a != b implies metric_key(
                            after[a],
                        ) != metric_key(after[b]) by {
                            if a != i && b != i {
                                assert(after[a] == before[a] && after[b] == before[b]);
                            } else if a == i {
                                assert(after[b] == before[b]);
                                assert(metric_key(before[a]) != metric_key(before[b]));
                            } else {
                                assert(after[a] == before[a]);
                                assert(metric_key(before[a]) != metric_key(before[b]));
                            }
                        }
                    }
                    assert forall|q: (Seq<char>, u64)| #[trigger] has_metric_key(after, q) == (
                    has_metric_key(before, q) || q == k) by {
                        if has_metric_key(before, q) {
                            let j = choose|j: int| 0 <= j < before.len() && #[trigger] metric_key(before[j]) == q;
                            if j == i {
                                assert(metric_key(after[i as int]) == q);
                            } else {
                                assert(metric_key(after[j]) == q);
                            }
                        }
                        if has_metric_key(after, q) {
                            let j = choose|j: int| 0 <= j < after.len() && #[trigger] metric_key(after[j]) == q;
                            if j != i {
                                assert(metric_key(before[j]) == q);
                            }
                        }
                        if q == k {
                            assert(metric_key(after[i as int]) == q);
                        }
                    }
                    assert forall|q: (Seq<char>, u64)| #[trigger] metrics_map(after).contains_key(q) implies metrics_map(
                    after,
                    )[q] == old(self)@.insert(k, m)[q] by {
                        let j = choose|j: int| 0 <= j < after.len() && #[trigger] metric_key(after[j]) == q;
                        lemma_metrics_map_at(after, j);
                        if j != i {
                            assert(after[j] == before[j]);
                            lemma_metrics_map_at(before, j);
                        }
                    }
                    assert(metrics_map(after) =~= old(self)@.insert(k, m));
                }
            },
            None => {
                self.samples.push((contract, m));
                proof {
                    let after = self.samples@;
                    assert(after == before.push(e));
                    assert(!has_metric_key(before, k));
                    assert(metric_keys_unique(after)) by {
                        assert forall|a: int, b: int|
                            #![trigger after[a], after[b]]
                            0 <= a < after.len() && 0 <= b < after.len() && a != b implies metric_key(
                            after[a],
                        ) != metric_key(after[b]) by {
                            if a < before.len() && b < before.len() {
                                assert(after[a] == before[a] && after[b] == before[b]);
                            } else if a < before.len() {
                                assert(after[a] == before[a]);
                                assert(metric_key(before[a]) != k);
                            } else {
                                assert(after[b] == before[b]);
                                assert(metric_key(before[b]) != k);
                            }
                        }
                    }
                    assert forall|q: (Seq<char>, u64)| #[trigger] has_metric_key(after, q) == (
                    has_metric_key(before, q) || q == k) by {
                        if has_metric_key(before, q) {
                            let j = choose|j: int| 0 <= j < before.len() && #[trigger] metric_key(before[j]) == q;
                            assert(metric_key(after[j]) == q);
                        }
                        if has_metric_key(after, q) {
                            let j = choose|j: int| 0 <= j < after.len() && #[trigger] metric_key(after[j]) == q;
                            if j < before.len() {
                                assert(metric_key(before[j]) == q);
                            }
                        }
                        if q == k {
                            assert(metric_key(after[before.len() as int]) == q);
                        }
                    }
                    assert forall|q: (Seq<char>, u64)| #[trigger] metrics_map(after).contains_key(q) implies metrics_map(
                    after,
                    )[q] == old(self)@.insert(k, m)[q] by {
                        let j = choose|j: int| 0 <= j < after.len() && #[trigger] metric_key(after[j]) == q;
                        lemma_metrics_map_at(after, j);
                        if j < before.len() {
                            assert(after[j] == before[j]);
                            lemma_metrics_map_at(before, j);
                        }
                    }
                    assert(metrics_map(after) =~= old(self)@.insert(k, m));
                }
            },
        }
    }
}

/// The texts of a list of addresses.
pub open spec fn address_views(v: Seq<String>) -> Seq<Seq<char>> {
    v.map_values(|a: String| a@)
}

/// No address occurs twice.
pub open spec fn addresses_unique(v: Seq<Seq<char>>) -> bool {
    forall|i: int, j: int| #![trigger v[i], v[j]] 0 <= i < v.len() && 0 <= j < v.len() && i != j ==> v[i] != v[j]
}

/// `i` is the smallest offset back from `now`, within the last hour, at which
/// a sample of `contract` is stored.
pub open spec fn is_latest_offset(
    log: Map<(Seq<char>, u64), PerformanceMetrics>,
    contract: Seq<char>,
    now: u64,
    i: int,
) -> bool {
    &&& 0 <= i < 3600
    &&& i <= now
    &&& log.contains_key((contract, (now - i) as u64))
    &&& forall|j: int| 0 <= j < i ==> !#[trigger] log.contains_key((contract, (now - j) as u64))
}

/// The most recent sample of `contract` within the hour up to `now`.
pub open spec fn latest_sample(
    log: Map<(Seq<char>, u64), PerformanceMetrics>,
    contract: Seq<char>,
    now: u64,
) -> Option<PerformanceMetrics> {
    if exists|i: int| is_latest_offset(log, contract, now, i) {
        let i = choose|i: int| is_latest_offset(log, contract, now, i);
        Some(log[(contract, (now - i) as u64)])
    } else {
        None
    }
}

/// The backward search for the latest sample stays at or after time zero:
/// either a full hour lies behind `now`, or a sample is found before time zero.
pub open spec fn latest_search_in_range(
    log: Map<(Seq<char>, u64), PerformanceMetrics>,
    contract: Seq<char>,
    now: u64,
) -> bool {
    now >= 3599 || exists|i: int| 0 <= i <= now && #[trigger] log.contains_key((contract, (now - i) as u64))
}

/// The whole state of the diagnostics platform.
pub struct DiagnosticsStorage {
    pub admin: Option<String>,
    pub config: Option<DiagnosticsConfig>,
    pub metrics: MetricsLog,
    pub monitoring_configs: Table<MonitoringConfig>,
    pub monitored: Vec<String>,
    pub benchmark_results: Table<BenchmarkResult>,
    pub anomaly_log: Vec<(String, u64, Vec<AnomalyEvent>)>,
    pub resource_utilizations: Table<ResourceUtilization>,
}

impl DiagnosticsConfig {
    /// A copy equal to these settings.
    pub fn copied(&self) -> (r: DiagnosticsConfig)
        ensures
            r == *self,
    {
        DiagnosticsConfig {
            admin: self.admin.clone(),
            monitoring_enabled: self.monitoring_enabled,
            anomaly_detection_enabled: self.anomaly_detection_enabled,
            prediction_enabled: self.prediction_enabled,
            max_trace_duration: self.max_trace_duration,
            metrics_retention_period: self.metrics_retention_period,
            alert_threshold_cpu: self.alert_threshold_cpu,
            alert_threshold_memory: self.alert_threshold_memory,
            alert_threshold_gas: self.alert_threshold_gas,
        }
    }
}

impl DiagnosticsStorage {
    /// The monitored contracts, as texts.
    pub open spec fn monitored_view(&self) -> Seq<Seq<char>> {
        address_views(self.monitored@)
    }

    /// Well-formedness of every keyed collection.
    pub open spec fn wf(&self) -> bool {
        &&& self.metrics.wf()
        &&& self.monitoring_configs.wf()
        &&& self.benchmark_results.wf()
        &&& self.resource_utilizations.wf()
        &&& addresses_unique(self.monitored_view())
    }

    /// A platform with nothing stored.
    pub fn new() -> (r: Self)
        ensures
            r.wf(),
            r.admin is None,
            r.config is None,
            r.metrics@ == Map::<(Seq<char>, u64), PerformanceMetrics>::empty(),
            r.monitoring_configs@ == Map::<Seq<char>, MonitoringConfig>::empty(),
            r.monitored@.len() == 0,
            r.benchmark_results@ == Map::<Seq<char>, BenchmarkResult>::empty(),
            r.anomaly_log@.len() == 0,
            r.resource_utilizations@ == Map::<Seq<char>, ResourceUtilization>::empty(),
    {
        DiagnosticsStorage {
            admin: None,
            config: None,
            metrics: MetricsLog::new(),
            monitoring_configs: Table::new(),
            monitored: Vec::new(),
            benchmark_results: Table::new(),
            anomaly_log: Vec::new(),
            resource_utilizations: Table::new(),
        }
    }

    /// Sets the admin address.
    pub fn set_admin(&mut self, admin: String)
        ensures
            *final(self) == (DiagnosticsStorage { admin: Some(admin), ..*old(self) }),
    {
        self.admin = Some(admin);
    }

    /// The admin address, or `AdminNotSet`.
    pub fn get_admin(&self) -> (r: Result<String, DiagnosticsError>)
        ensures
            match self.admin {
                Some(a) => r == Ok::<String, DiagnosticsError>(a),
                None => r == Err::<String, DiagnosticsError>(DiagnosticsError::AdminNotSet),
            },
    {
        match &self.admin {
            Some(a) => Ok(a.clone()),
            None => Err(DiagnosticsError::AdminNotSet),
        }
    }

    /// Sets the platform settings.
    pub fn set_config(&mut self, config: DiagnosticsConfig)
        ensures
            *final(self) == (DiagnosticsStorage { config: Some(config), ..*old(self) }),
    {
        self.config = Some(config);
    }

    /// The platform settings, or `ConfigNotSet`.
    pub fn get_config(&self) -> (r: Result<DiagnosticsConfig, DiagnosticsError>)
        ensures
            match self.config {
                Some(c) => r == Ok::<DiagnosticsConfig, DiagnosticsError>(c),
                None => r == Err::<DiagnosticsConfig, DiagnosticsError>(DiagnosticsError::ConfigNotSet),
            },
    {
        match &self.config {
            Some(c) => Ok(c.copied()),
            None => Err(DiagnosticsError::ConfigNotSet),
        }
    }

    /// Stores a sample under its contract and timestamp.
    pub fn store_performance_metrics(&mut self, contract: String, metrics: PerformanceMetrics)
        requires
            old(self).wf(),
        ensures
            final(self).wf(),
            final(self).metrics@ == old(self).metrics@.insert((contract@, metrics.timestamp), metrics),
            *final(self) == (DiagnosticsStorage { metrics: final(self).metrics, ..*old(self) }),
    {
        self.metrics.record(contract, metrics);
    }

    /// The sample of `contract` stored at `timestamp`, if any.
    pub fn get_performance_metrics(&self, contract: &String, timestamp: u64) -> (r: Option<PerformanceMetrics>)
        requires
            self.wf(),
        ensures
            r is Some <==> self.metrics@.contains_key((contract@, timestamp)),
            r matches Some(m) ==> m == self.metrics@[(contract@, timestamp)],
    {
        self.metrics.get(contract, timestamp)
    }

    /// The most recent sample of `contract` in the hour up to `now`, searching
    /// back one second at a time.
    pub fn get_latest_performance_metrics(&self, contract: &String, now: u64) -> (r: Option<PerformanceMetrics>)
        requires
            self.wf(),
            latest_search_in_range(self.metrics@, contract@, now),
        ensures
            r == latest_sample(self.metrics@, contract@, now),
    {
        let mut i: u64 = 0;
        while i < 3600
            invariant
                self.wf(),
                i <= 3600,
                latest_search_in_range(self.metrics@, contract@, now),
                forall|j: int| 0 <= j < i ==> j <= now && !#[trigger] self.metrics@.contains_key((contract@, (now - j) as u64)),
            decreases 3600 - i,
        {
            if i > now {
                proof {
                    let w = choose|w: int| 0 <= w <= now && #[trigger] self.metrics@.contains_key((contract@, (now - w) as u64));
                    assert(w < i);
                    assert(!self.metrics@.contains_key((contract@, (now - w) as u64)));
                }
            }
            let found = self.metrics.get(contract, now - i);
            if let Some(m) = found {
                proof {
                    assert(is_latest_offset(self.metrics@, contract@, now, i as int));
                    let c = choose|c: int| is_latest_offset(self.metrics@, contract@, now, c);
                    if c < i {
                        assert(!self.metrics@.contains_key((contract@, (now - c) as u64)));
                    }
                    if i < c {
                        assert(!self.metrics@.contains_key((contract@, (now - i) as u64)));
                    }
                }
                return Some(m);
            }
            i += 1;
        }
        proof {
            if exists|c: int| is_latest_offset(self.metrics@, contract@, now, c) {
                let c = choose|c: int| is_latest_offset(self.metrics@, contract@, now, c);
                assert(!self.metrics@.contains_key((contract@, (now - c) as u64)));
            }
        }
        None
    }

    /// Sets the monitoring settings of `contract`.
    pub fn set_monitoring_config(&mut self, contract: String, config: MonitoringConfig)
        requires
            old(self).wf(),
        ensures
            final(self).wf(),
            final(self).monitoring_configs@ == old(self).monitoring_configs@.insert(contract@, config),
            *final(self) == (DiagnosticsStorage { monitoring_configs: final(self).monitoring_configs, ..*old(self) }),
    {
        self.monitoring_configs.insert(contract, config);
    }

    /// The monitoring settings of `contract`, if any.
    pub fn get_monitoring_config(&self, contract: &String) -> (r: Option<MonitoringConfig>)
        requires
            self.wf(),
        ensures
            r is Some <==> self.monitoring_configs@.contains_key(contract@),
            r matches Some(c) ==> c == self.monitoring_configs@[contract@],
    {
        match self.monitoring_configs.get(contract) {
            Some(c) => Some(*c),
            None => None,
        }
    }

    /// Index of `contract` among the monitored contracts.
    fn monitored_position(&self, contract: &String) -> (r: Option<usize>)
        ensures
            match r {
                Some(i) => i < self.monitored@.len() && self.monitored_view()[i as int] == contract@,
                None => !self.monitored_view().contains(contract@),
            },
    {
        let mut i: usize = 0;
        while i < self.monitored.len()
            invariant
                i <= self.monitored@.len(),
                forall|j: int| 0 <= j < i ==> (#[trigger] self.monitored@[j])@ != contract@,
            decreases self.monitored@.len() - i,
        {
            if self.monitored[i] == *contract {
                return Some(i);
            }
            i += 1;
        }
        proof {
            if self.monitored_view().contains(contract@) {
                let j = choose|j: int| 0 <= j < self.monitored_view().len() && self.monitored_view()[j] == contract@;
                assert(self.monitored@[j]@ == contract@);
            }
        }
        None
    }

    /// Adds `contract` to the monitored contracts unless it is there already.
    pub fn add_monitored_contract(&mut self, contract: &String)
        requires
            old(self).wf(),
        ensures
            final(self).wf(),
            final(self).monitored_view() == (if old(self).monitored_view().contains(contract@) {
                old(self).monitored_view()
            } else {
                old(self).monitored_view().push(contract@)
            }),
            *final(self) == (DiagnosticsStorage { monitored: final(self).monitored, ..*old(self) }),
    {
        if self.monitored_position(contract).is_none() {
            let ghost before = self.monitored_view();
            self.monitored.push(contract.clone());
            proof {
                assert(self.monitored_view() =~= before.push(contract@));
                let v = self.monitored_view();
                assert forall|i: int, j: int| #![trigger v[i], v[j]] 0 <= i < v.len() && 0 <= j < v.len() && i != j implies v[i] != v[j] by {
                    if i < before.len() && j < before.len() {
                        assert(v[i] == before[i] && v[j] == before[j]);
                    } else if i < before.len() {
                        assert(v[i] == before[i]);
                        assert(before.contains(before[i]));
                    } else {
                        assert(v[j] == before[j]);
                        assert(before.contains(before[j]));
                    }
                }
            }
        }
    }

    /// Removes `contract` from the monitored contracts, if it is there.
    pub fn remove_monitored_contract(&mut self, contract: &String)
        requires
            old(self).wf(),
        ensures
            final(self).wf(),
            !final(self).monitored_view().contains(contract@),
            old(self).monitored_view().contains(contract@) ==> exists|i: int|
                0 <= i < old(self).monitored_view().len() && old(self).monitored_view()[i] == contract@
                    && final(self).monitored_view() == old(self).monitored_view().remove(i),
            !old(self).monitored_view().contains(contract@) ==> final(self).monitored_view() == old(self).monitored_view(),
            *final(self) == (DiagnosticsStorage { monitored: final(self).monitored, ..*old(self) }),
    {
        match self.monitored_position(contract) {
            Some(i) => {
                let ghost before = self.monitored_view();
                self.monitored.remove(i);
                proof {
                    let v = self.monitored_view();
                    assert(v =~= before.remove(i as int));
                    assert forall|a: int, b: int| #![trigger v[a], v[b]] 0 <= a < v.len() && 0 <= b < v.len() && a != b implies v[a] != v[b] by {
                        let a2 = if a < i { a } else { a + 1 };
                        let b2 = if b < i { b } else { b + 1 };
                        assert(v[a] == before[a2] && v[b] == before[b2]);
                    }
                    if v.contains(contract@) {
                        let k = choose|k: int| 0 <= k < v.len() && v[k] == contract@;
                        let k2 = if k < i { k } else { k + 1 };
                        assert(v[k] == before[k2]);
                        assert(before[i as int] == contract@);
                    }
                }
            },
            None => {},
        }
    }

    /// A copy of the monitored contracts.
    pub fn get_monitored_contracts(&self) -> (r: Vec<String>)
        ensures
            r@ == self.monitored@,
    {
        let mut r: Vec<String> = Vec::new();
        let mut i: usize = 0;
        while i < self.monitored.len()
            invariant
                i <= self.monitored@.len(),
                r@ == self.monitored@.subrange(0, i as int),
            decreases self.monitored@.len() - i,
        {
            r.push(self.monitored[i].clone());
            i += 1;
            assert(r@ =~= self.monitored@.subrange(0, i as int));
        }
        assert(self.monitored@.subrange(0, self.monitored@.len() as int) =~= self.monitored@);
        r
    }

    /// Stores the result of the benchmark named `name`.
    pub fn store_benchmark_results(&mut self, name: String, result: BenchmarkResult)
        requires
            old(self).wf(),
        ensures
            final(self).wf(),
            final(self).benchmark_results@ == old(self).benchmark_results@.insert(name@, result),
            *final(self) == (DiagnosticsStorage { benchmark_results: final(self).benchmark_results, ..*old(self) }),
    {
        self.benchmark_results.insert(name, result);
    }

    /// The stored result of the benchmark named `name`, if any.
    pub fn get_benchmark_results(&self, name: &String) -> (r: Option<&BenchmarkResult>)
        requires
            self.wf(),
        ensures
            r is Some <==> self.benchmark_results@.contains_key(name@),
            r matches Some(b) ==> *b == self.benchmark_results@[name@],
    {
        self.benchmark_results.get(name)
    }

    /// Stores the latest resource analysis of `contract`.
    pub fn store_resource_utilization(&mut self, contract: String, utilization: ResourceUtilization)
        requires
            old(self).wf(),
        ensures
            final(self).wf(),
            final(self).resource_utilizations@ == old(self).resource_utilizations@.insert(contract@, utilization),
            *final(self) == (DiagnosticsStorage { resource_utilizations: final(self).resource_utilizations, ..*old(self) }),
    {
        self.resource_utilizations.insert(contract, utilization);
    }

    /// Records the anomalies detected for `contract` at time `now`.
    pub fn store_anomaly_events(&mut self, contract: String, now: u64, events: Vec<AnomalyEvent>)
        ensures
            final(self).anomaly_log@ == old(self).anomaly_log@.push((contract, now, events)),
            *final(self) == (DiagnosticsStorage { anomaly_log: final(self).anomaly_log, ..*old(self) }),
    {
        self.anomaly_log.push((contract, now, events));
    }
}

} // verus!
