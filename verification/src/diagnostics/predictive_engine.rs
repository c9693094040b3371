//! Capacity prediction: the integer averages over a contract's samples and
//! the projected cost increase of a load change.
use vstd::prelude::*;
use crate::diagnostics::anomaly_detector::{AnomalyDetector, average};
use crate::diagnostics::performance_monitor::{field_value, SampleField, sum_by};
use vstd::string::StringSliceAdditionalSpecFns;
use crate::text::{texts, text_bytes};
use crate::diagnostics::errors::DiagnosticsError;
use crate::diagnostics::ids::{monitoring_id, monitoring_id_spec};
use crate::diagnostics::storage::{latest_sample, latest_search_in_range, DiagnosticsStorage};
use crate::diagnostics::types::{BottleneckType, CostProjection, PerformanceMetrics, RiskLevel};

verus! {

/// Predictive capacity planning.
pub struct PredictiveEngine;

/// Direction of a contract's load.
#[derive(Clone, Copy, Debug, PartialEq, Eq, Structural)]
pub enum LoadTrend {
    Increasing,
    Decreasing,
    Stable,
    Volatile,
}

/// Direction of a resource's usage.
#[derive(Clone, Copy, Debug, PartialEq, Eq, Structural)]
pub enum ResourceTrend {
    Increasing,
    Decreasing,
    Stable,
}

/// What degrades.
#[derive(Clone, Copy, Debug, PartialEq, Eq, Structural)]
pub enum DegradationType {
    ExecutionTime,
    Memory,
    ErrorRate,
    Throughput,
}

/// A predicted degradation.
#[derive(Clone, Copy, Debug, PartialEq, Eq, Structural)]
pub struct DegradationPrediction {
    pub degradation_type: DegradationType,
    pub current_value: u64,
    pub predicted_value: u64,
    pub confidence: u32,
    pub time_to_degradation: u64,
}

/// A resource that limits scaling.
#[derive(Clone, Copy, Debug, PartialEq, Eq, Structural)]
pub struct ScalingBottleneck {
    pub resource_type: BottleneckType,
    pub current_utilization: u32,
    pub projected_utilization: u32,
    pub severity: RiskLevel,
}

/// Percentage cost increase from `current` to `predicted` gas, truncated to
/// 32 bits; 0 when nothing is used now.
pub open spec fn cost_increase_spec(current: u64, predicted: u64) -> u32 {
    if current == 0 {
        0
    } else {
        (((predicted - current) * 100 / (current as int)) as u64) as u32
    }
}

impl PredictiveEngine {
    /// Percentage cost increase from `current_gas` to `predicted_gas`.
    pub fn calculate_cost_increase(current_gas: u64, predicted_gas: u64) -> (r: u32)
        requires
            current_gas > 0 ==> current_gas <= predicted_gas,
            current_gas > 0 ==> (predicted_gas - current_gas) * 100 <= u64::MAX,
        ensures
            r == cost_increase_spec(current_gas, predicted_gas),
    {
        if current_gas == 0 {
            return 0;
        }
        ((predicted_gas - current_gas) * 100 / current_gas) as u32
    }

    /// Average transactions per sample (0 for none).
    pub fn calculate_average_load(data: &Vec<PerformanceMetrics>) -> (r: u32)
        requires
            sum_by(data@, SampleField::Transactions) <= u32::MAX,
        ensures
            r == average(data@, SampleField::Transactions),
    {
        AnomalyDetector::calculate_historical_throughput(data)
    }

    /// Average gas per sample (0 for none).
    pub fn calculate_average_gas_usage(data: &Vec<PerformanceMetrics>) -> (r: u64)
        requires
            sum_by(data@, SampleField::Gas) <= u64::MAX,
        ensures
            r == average(data@, SampleField::Gas),
    {
        AnomalyDetector::calculate_average_gas_usage(data)
    }

    /// Gas per day: the average hourly gas times 24.
    pub fn calculate_daily_gas_usage(data: &Vec<PerformanceMetrics>) -> (r: u64)
        requires
            sum_by(data@, SampleField::Gas) <= u64::MAX,
            average(data@, SampleField::Gas) * 24 <= u64::MAX,
        ensures
            r == average(data@, SampleField::Gas) * 24,
    {
        if data.len() == 0 {
            return 0;
        }
        Self::calculate_average_gas_usage(data) * 24
    }
}

/// Sums over two lists add up.
pub proof fn lemma_sum_concat(a: Seq<PerformanceMetrics>, b: Seq<PerformanceMetrics>, f: SampleField)
    ensures
        sum_by(a + b, f) == sum_by(a, f) + sum_by(b, f),
    decreases b.len(),
{
    if b.len() > 0 {
        lemma_sum_concat(a, b.drop_last(), f);
        assert((a + b).drop_last() =~= a + b.drop_last());
    } else {
        assert(a + b =~= a);
    }
}

/// A sum over a stretch of the samples is at most the sum over all of them.
pub proof fn lemma_sum_range(s: Seq<PerformanceMetrics>, lo: int, hi: int, f: SampleField)
    requires
        0 <= lo <= hi <= s.len(),
    ensures
        sum_by(s.subrange(lo, hi), f) <= sum_by(s, f),
{
    let a = s.subrange(0, lo);
    let b = s.subrange(lo, hi);
    let c = s.subrange(hi, s.len() as int);
    lemma_sum_concat(a, b, f);
    lemma_sum_concat(a + b, c, f);
    assert(a + b + c =~= s);
}

/// Average transactions of the first third, middle third and last third of the samples.
pub open spec fn third_averages(s: Seq<PerformanceMetrics>) -> (nat, nat, nat) {
    let a = s.len() / 3;
    let b = s.len() * 2 / 3;
    (
        average(s.subrange(0, a as int), SampleField::Transactions),
        average(s.subrange(a as int, b as int), SampleField::Transactions),
        average(s.subrange(b as int, s.len() as int), SampleField::Transactions),
    )
}

/// Direction of the load: rising or falling through the thirds, volatile
/// when the last third differs from the first by more than a tenth of it,
/// stable otherwise or with fewer than three samples.
pub open spec fn load_trend_spec(s: Seq<PerformanceMetrics>) -> LoadTrend {
    if s.len() < 3 {
        LoadTrend::Stable
    } else {
        let (early, middle, recent) = third_averages(s);
        if recent > middle && middle > early {
            LoadTrend::Increasing
        } else if recent < middle && middle < early {
            LoadTrend::Decreasing
        } else if (if recent >= early { recent - early } else { early - recent }) > early / 10 {
            LoadTrend::Volatile
        } else {
            LoadTrend::Stable
        }
    }
}

/// Direction of memory use between the halves of the samples, with a ten percent margin.
pub open spec fn resource_trend_spec(s: Seq<PerformanceMetrics>) -> ResourceTrend {
    if s.len() < 2 {
        ResourceTrend::Stable
    } else {
        let h = s.len() / 2;
        let early = average(s.subrange(0, h as int), SampleField::Memory);
        let recent = average(s.subrange(h as int, s.len() as int), SampleField::Memory);
        if recent > early * 11 / 10 {
            ResourceTrend::Increasing
        } else if recent < early * 9 / 10 {
            ResourceTrend::Decreasing
        } else {
            ResourceTrend::Stable
        }
    }
}

/// Times of the samples with more than one and a half times `average` transactions, in order.
pub open spec fn peak_times(s: Seq<PerformanceMetrics>, average: nat) -> Seq<u64>
    decreases s.len(),
{
    if s.len() == 0 {
        Seq::<u64>::empty()
    } else {
        let p = peak_times(s.drop_last(), average);
        if s.last().transaction_count > average * 15 / 10 {
            p.push(s.last().timestamp)
        } else {
            p
        }
    }
}

impl PredictiveEngine {
    /// Average of field `f` over the samples from `lo` up to `hi` (0 for none).
    fn range_average(data: &Vec<PerformanceMetrics>, lo: usize, hi: usize, f: SampleField) -> (r: u64)
        requires
            lo <= hi <= data@.len(),
            sum_by(data@.subrange(lo as int, hi as int), f) <= u64::MAX,
        ensures
            r == average(data@.subrange(lo as int, hi as int), f),
    {
        let ghost w = data@.subrange(lo as int, hi as int);
        let mut total: u64 = 0;
        let mut i: usize = lo;
        while i < hi
            invariant
                lo <= i <= hi <= data@.len(),
                w == data@.subrange(lo as int, hi as int),
                sum_by(w, f) <= u64::MAX,
                total == sum_by(data@.subrange(lo as int, i as int), f),
            decreases hi - i,
        {
            assert(data@.subrange(lo as int, i + 1).drop_last() =~= data@.subrange(lo as int, i as int));
            proof {
                lemma_sum_range(w, 0, i + 1 - lo, f);
                assert(w.subrange(0, i + 1 - lo) =~= data@.subrange(lo as int, i + 1));
            }
            total = total + field_value(&data[i], f);
            i += 1;
        }
        if hi == lo {
            return 0;
        }
        total / ((hi - lo) as u64)
    }

    /// Average memory use per sample (0 for none).
    pub fn calculate_average_memory(data: &Vec<PerformanceMetrics>) -> (r: u32)
        requires
            sum_by(data@, SampleField::Memory) <= u32::MAX,
        ensures
            r == average(data@, SampleField::Memory),
    {
        assert(data@.subrange(0, data@.len() as int) =~= data@);
        let a = Self::range_average(data, 0, data.len(), SampleField::Memory);
        assert(a <= sum_by(data@, SampleField::Memory)) by (nonlinear_arith)
            requires
                data@.len() > 0 ==> a == sum_by(data@, SampleField::Memory) / data@.len(),
                data@.len() == 0 ==> a == 0,
        ;
        a as u32
    }

    /// Average transactions per sample (0 for none).
    pub fn calculate_average_transactions_per_hour(data: &Vec<PerformanceMetrics>) -> (r: u32)
        requires
            sum_by(data@, SampleField::Transactions) <= u32::MAX,
        ensures
            r == average(data@, SampleField::Transactions),
    {
        Self::calculate_average_load(data)
    }

    /// Average storage reads and writes per sample (0 for none).
    pub fn calculate_average_storage_usage(data: &Vec<PerformanceMetrics>) -> (r: u32)
        requires
            sum_by(data@, SampleField::StorageOps) <= u32::MAX,
        ensures
            r == average(data@, SampleField::StorageOps),
    {
        assert(data@.subrange(0, data@.len() as int) =~= data@);
        let a = Self::range_average(data, 0, data.len(), SampleField::StorageOps);
        assert(a <= sum_by(data@, SampleField::StorageOps)) by (nonlinear_arith)
            requires
                data@.len() > 0 ==> a == sum_by(data@, SampleField::StorageOps) / data@.len(),
                data@.len() == 0 ==> a == 0,
        ;
        a as u32
    }

    /// Direction of the load (see `load_trend_spec`).
    pub fn analyze_load_trend(data: &Vec<PerformanceMetrics>) -> (r: LoadTrend)
        requires
            sum_by(data@, SampleField::Transactions) <= u32::MAX,
        ensures
            r == load_trend_spec(data@),
    {
        let n = data.len();
        if n < 3 {
            return LoadTrend::Stable;
        }
        let a = n / 3;
        let b = n / 3 * 2 + (n % 3) * 2 / 3;
        assert(b == n * 2 / 3) by (nonlinear_arith)
            requires
                b == n / 3 * 2 + (n % 3) * 2 / 3,
        ;
        proof {
            lemma_sum_range(data@, 0, a as int, SampleField::Transactions);
            lemma_sum_range(data@, a as int, b as int, SampleField::Transactions);
            lemma_sum_range(data@, b as int, n as int, SampleField::Transactions);
        }
        let early = Self::range_average(data, 0, a, SampleField::Transactions);
        let middle = Self::range_average(data, a, b, SampleField::Transactions);
        let recent = Self::range_average(data, b, n, SampleField::Transactions);
        if recent > middle && middle > early {
            LoadTrend::Increasing
        } else if recent < middle && middle < early {
            LoadTrend::Decreasing
        } else if (if recent >= early { recent - early } else { early - recent }) > early / 10 {
            LoadTrend::Volatile
        } else {
            LoadTrend::Stable
        }
    }

    /// Direction of memory use (see `resource_trend_spec`).
    pub fn analyze_resource_trend(data: &Vec<PerformanceMetrics>) -> (r: ResourceTrend)
        requires
            sum_by(data@, SampleField::Memory) <= u32::MAX,
            data@.len() >= 2 ==> average(data@.subrange(0, (data@.len() / 2) as int), SampleField::Memory) * 11 <= u32::MAX,
        ensures
            r == resource_trend_spec(data@),
    {
        let n = data.len();
        if n < 2 {
            return ResourceTrend::Stable;
        }
        let h = n / 2;
        proof {
            lemma_sum_range(data@, 0, h as int, SampleField::Memory);
            lemma_sum_range(data@, h as int, n as int, SampleField::Memory);
        }
        let early = Self::range_average(data, 0, h, SampleField::Memory);
        let recent = Self::range_average(data, h, n, SampleField::Memory);
        if recent > early * 11 / 10 {
            ResourceTrend::Increasing
        } else if recent < early * 9 / 10 {
            ResourceTrend::Decreasing
        } else {
            ResourceTrend::Stable
        }
    }

    /// Times of the samples well above the average load (see `peak_times`).
    pub fn identify_peak_load_times(data: &Vec<PerformanceMetrics>) -> (r: Vec<u64>)
        requires
            sum_by(data@, SampleField::Transactions) <= u32::MAX,
            average(data@, SampleField::Transactions) * 15 <= u32::MAX,
        ensures
            r@ == peak_times(data@, average(data@, SampleField::Transactions)),
    {
        let avg = Self::calculate_average_load(data);
        let threshold = avg * 15 / 10;
        let mut r: Vec<u64> = Vec::new();
        let mut i: usize = 0;
        while i < data.len()
            invariant
                i <= data@.len(),
                threshold == avg * 15 / 10,
                avg == average(data@, SampleField::Transactions),
                r@ == peak_times(data@.subrange(0, i as int), avg as nat),
            decreases data@.len() - i,
        {
            assert(data@.subrange(0, i + 1).drop_last() =~= data@.subrange(0, i as int));
            if data[i].transaction_count > threshold {
                r.push(data[i].timestamp);
            }
            i += 1;
        }
        assert(data@.subrange(0, data@.len() as int) =~= data@);
        r
    }
}

/// Predicted load of a contract.
#[derive(Clone, Debug)]
pub struct LoadPrediction {
    pub predicted_tx_per_hour: u32,
    pub predicted_gas_usage: u64,
    pub predicted_storage_growth: u32,
    pub peak_load_times: Vec<u64>,
    pub resource_saturation_risk: RiskLevel,
    pub predicted_tx_hourly: u32,
}

/// A predicted bottleneck.
#[derive(Clone, Debug)]
pub struct BottleneckPrediction {
    pub bottleneck_type: BottleneckType,
    pub severity: RiskLevel,
    pub estimated_impact: Vec<u8>,
    pub recommended_actions: Vec<Vec<u8>>,
    pub estimated_occurrence_time: u64,
}

/// A capacity prediction for a contract.
#[derive(Clone, Debug)]
pub struct CapacityPrediction {
    pub prediction_id: [u8; 32],
    pub contract_address: String,
    pub prediction_horizon: u64,
    pub predicted_load: LoadPrediction,
    pub capacity_recommendations: Vec<Vec<u8>>,
    pub bottleneck_predictions: Vec<BottleneckPrediction>,
    pub cost_projections: CostProjection,
    pub confidence_score: u32,
    pub generated_at: u64,
}

/// What a load increase asks of a contract.
#[derive(Clone, Debug)]
pub struct ScalingPrediction {
    pub contract_address: String,
    pub target_load_increase: u32,
    pub predicted_gas_usage: u64,
    pub predicted_memory_usage: u32,
    pub predicted_execution_time: u64,
    pub scaling_bottlenecks: Vec<ScalingBottleneck>,
    pub scaling_recommendations: Vec<Vec<u8>>,
    pub estimated_cost_increase: u32,
}

/// Advice for one predicted bottleneck.
pub open spec fn bottleneck_advice(t: BottleneckType) -> Seq<Seq<u8>> {
    match t {
        BottleneckType::Memory => seq!["Optimize memory allocation patterns".spec_bytes()],
        BottleneckType::CPU => seq!["Optimize computational algorithms".spec_bytes()],
        BottleneckType::Gas => seq!["Implement gas optimization techniques".spec_bytes()],
        _ => Seq::<Seq<u8>>::empty(),
    }
}

/// Advice for the predicted bottlenecks, in order.
pub open spec fn bottlenecks_advice(b: Seq<BottleneckPrediction>) -> Seq<Seq<u8>>
    decreases b.len(),
{
    if b.len() == 0 {
        Seq::<Seq<u8>>::empty()
    } else {
        bottlenecks_advice(b.drop_last()) + bottleneck_advice(b.last().bottleneck_type)
    }
}

/// Capacity advice: scaling under high or critical saturation risk,
/// watching under medium risk, then advice for each bottleneck.
pub open spec fn capacity_advice(risk: RiskLevel, b: Seq<BottleneckPrediction>) -> Seq<Seq<u8>> {
    (match risk {
        RiskLevel::High | RiskLevel::Critical => seq![
            "Consider horizontal scaling to handle increased load".spec_bytes(),
            "Implement load balancing strategies".spec_bytes(),
        ],
        RiskLevel::Medium => seq!["Monitor resource usage closely".spec_bytes()],
        _ => Seq::<Seq<u8>>::empty(),
    }) + bottlenecks_advice(b)
}

/// The resources that limit a load increase of `target` percent: the CPU
/// above 70 percent, critical above 85.
pub open spec fn scaling_bottlenecks_spec(m: PerformanceMetrics, target: u32) -> Seq<ScalingBottleneck> {
    if m.cpu_utilization > 70 {
        seq![
            ScalingBottleneck {
                resource_type: BottleneckType::CPU,
                current_utilization: m.cpu_utilization,
                projected_utilization: (m.cpu_utilization + target) as u32,
                severity: if m.cpu_utilization > 85 { RiskLevel::Critical } else { RiskLevel::High },
            },
        ]
    } else {
        Seq::<ScalingBottleneck>::empty()
    }
}

/// Advice for one scaling bottleneck.
pub open spec fn scaling_advice(t: BottleneckType) -> Seq<Seq<u8>> {
    match t {
        BottleneckType::CPU => seq![
            "Consider implementing CPU load balancing".spec_bytes(),
            "Optimize CPU-intensive algorithms".spec_bytes(),
        ],
        BottleneckType::Memory => seq![
            "Implement memory pooling strategies".spec_bytes(),
            "Optimize data structures for memory efficiency".spec_bytes(),
        ],
        BottleneckType::Storage => seq!["Implement storage tiering".spec_bytes()],
        _ => Seq::<Seq<u8>>::empty(),
    }
}

/// Advice for the scaling bottlenecks, in order.
pub open spec fn scalings_advice(b: Seq<ScalingBottleneck>) -> Seq<Seq<u8>>
    decreases b.len(),
{
    if b.len() == 0 {
        Seq::<Seq<u8>>::empty()
    } else {
        scalings_advice(b.drop_last()) + scaling_advice(b.last().resource_type)
    }
}

/// The figures a load increase is projected with fit their widths; memory
/// above the 800MB mark overflows the projection and is left out.
pub open spec fn scaling_in_range(m: PerformanceMetrics, target: u32) -> bool {
    &&& 100 + target <= u32::MAX
    &&& m.gas_used * (100 + target) <= u64::MAX
    &&& m.memory_usage * (100 + target) <= u32::MAX
    &&& m.execution_time * (100 + target) <= u64::MAX
    &&& m.cpu_utilization > 70 ==> m.cpu_utilization + target <= u32::MAX
    &&& m.memory_usage <= 800_000_000
}

/// The samples of `contract` at `now`, an hour before, and so on for `n`
/// hours, newest first.
pub open spec fn back_samples(log: Map<(Seq<char>, u64), PerformanceMetrics>, contract: Seq<char>, now: u64, n: nat) -> Seq<
    PerformanceMetrics,
>
    decreases n,
{
    if n == 0 {
        Seq::empty()
    } else {
        let before = back_samples(log, contract, now, (n - 1) as nat);
        let t = now - (n - 1) * 3600;
        if log.contains_key((contract, t as u64)) {
            before.push(log[(contract, t as u64)])
        } else {
            before
        }
    }
}

impl PredictiveEngine {
    /// Capacity advice for a predicted load and its bottlenecks (see `capacity_advice`).
    pub fn generate_capacity_recommendations(load: &LoadPrediction, bottlenecks: &Vec<BottleneckPrediction>) -> (r: Vec<
        Vec<u8>,
    >)
        ensures
            texts(r@) == capacity_advice(load.resource_saturation_risk, bottlenecks@),
    {
        let mut r: Vec<Vec<u8>> = Vec::new();
        match load.resource_saturation_risk {
            RiskLevel::High | RiskLevel::Critical => {
                r.push(text_bytes("Consider horizontal scaling to handle increased load"));
                r.push(text_bytes("Implement load balancing strategies"));
            },
            RiskLevel::Medium => {
                r.push(text_bytes("Monitor resource usage closely"));
            },
            _ => {},
        }
        let ghost head = texts(r@);
        let mut i: usize = 0;
        while i < bottlenecks.len()
            invariant
                i <= bottlenecks@.len(),
                texts(r@) == head + bottlenecks_advice(bottlenecks@.subrange(0, i as int)),
            decreases bottlenecks@.len() - i,
        {
            let ghost before = texts(r@);
            assert(bottlenecks@.subrange(0, i + 1).drop_last() =~= bottlenecks@.subrange(0, i as int));
            match bottlenecks[i].bottleneck_type {
                BottleneckType::Memory => {
                    r.push(text_bytes("Optimize memory allocation patterns"));
                },
                BottleneckType::CPU => {
                    r.push(text_bytes("Optimize computational algorithms"));
                },
                BottleneckType::Gas => {
                    r.push(text_bytes("Implement gas optimization techniques"));
                },
                _ => {},
            }
            assert(texts(r@) =~= before + bottleneck_advice(bottlenecks@[i as int].bottleneck_type));
            i += 1;
        }
        assert(bottlenecks@.subrange(0, bottlenecks@.len() as int) =~= bottlenecks@);
        assert(texts(r@) =~= capacity_advice(load.resource_saturation_risk, bottlenecks@));
        r
    }

    /// The resources that limit a load increase (see `scaling_bottlenecks_spec`).
    pub fn identify_scaling_bottlenecks(current: &PerformanceMetrics, target_increase: u32) -> (r: Vec<
        ScalingBottleneck,
    >)
        requires
            scaling_in_range(*current, target_increase),
        ensures
            r@ == scaling_bottlenecks_spec(*current, target_increase),
    {
        let mut r: Vec<ScalingBottleneck> = Vec::new();
        if current.cpu_utilization > 70 {
            r.push(
                ScalingBottleneck {
                    resource_type: BottleneckType::CPU,
                    current_utilization: current.cpu_utilization,
                    projected_utilization: current.cpu_utilization + target_increase,
                    severity: if current.cpu_utilization > 85 {
                        RiskLevel::Critical
                    } else {
                        RiskLevel::High
                    },
                },
            );
        }
        assert(r@ =~= scaling_bottlenecks_spec(*current, target_increase));
        r
    }

    /// Advice for scaling bottlenecks (see `scalings_advice`).
    pub fn generate_scaling_recommendations(bottlenecks: &Vec<ScalingBottleneck>) -> (r: Vec<Vec<u8>>)
        ensures
            texts(r@) == scalings_advice(bottlenecks@),
    {
        let mut r: Vec<Vec<u8>> = Vec::new();
        let mut i: usize = 0;
        while i < bottlenecks.len()
            invariant
                i <= bottlenecks@.len(),
                texts(r@) == scalings_advice(bottlenecks@.subrange(0, i as int)),
            decreases bottlenecks@.len() - i,
        {
            let ghost before = texts(r@);
            assert(bottlenecks@.subrange(0, i + 1).drop_last() =~= bottlenecks@.subrange(0, i as int));
            match bottlenecks[i].resource_type {
                BottleneckType::CPU => {
                    r.push(text_bytes("Consider implementing CPU load balancing"));
                    r.push(text_bytes("Optimize CPU-intensive algorithms"));
                },
                BottleneckType::Memory => {
                    r.push(text_bytes("Implement memory pooling strategies"));
                    r.push(text_bytes("Optimize data structures for memory efficiency"));
                },
                BottleneckType::Storage => {
                    r.push(text_bytes("Implement storage tiering"));
                },
                _ => {},
            }
            assert(texts(r@) =~= before + scaling_advice(bottlenecks@[i as int].resource_type));
            i += 1;
        }
        assert(bottlenecks@.subrange(0, bottlenecks@.len() as int) =~= bottlenecks@);
        r
    }

    /// What a load increase of `target_increase` percent asks of `contract`,
    /// from its latest sample; `MetricsNotFound` without one.
    pub fn predict_scaling_requirements(
        st: &DiagnosticsStorage,
        contract: &String,
        target_increase: u32,
        now: u64,
    ) -> (r: Result<ScalingPrediction, DiagnosticsError>)
        requires
            st.wf(),
            latest_search_in_range(st.metrics@, contract@, now),
            latest_sample(st.metrics@, contract@, now) matches Some(m) ==> scaling_in_range(m, target_increase),
        ensures
            latest_sample(st.metrics@, contract@, now) is None <==> r == Err::<ScalingPrediction, DiagnosticsError>(
                DiagnosticsError::MetricsNotFound,
            ),
            latest_sample(st.metrics@, contract@, now) is Some ==> r is Ok,
            r matches Ok(p) ==> {
                let m = latest_sample(st.metrics@, contract@, now)->0;
                let gas = m.gas_used * (100 + target_increase) / 100;
                &&& p.contract_address == *contract
                &&& p.target_load_increase == target_increase
                &&& p.predicted_gas_usage == gas
                &&& p.predicted_memory_usage == m.memory_usage * (100 + target_increase) / 100
                &&& p.predicted_execution_time == m.execution_time * (100 + target_increase) / 100
                &&& p.scaling_bottlenecks@ == scaling_bottlenecks_spec(m, target_increase)
                &&& texts(p.scaling_recommendations@) == scalings_advice(scaling_bottlenecks_spec(m, target_increase))
                &&& p.estimated_cost_increase == cost_increase_spec(m.gas_used, gas as u64)
            },
    {
        let m = match st.get_latest_performance_metrics(contract, now) {
            Some(m) => m,
            None => {
                return Err(DiagnosticsError::MetricsNotFound);
            },
        };
        let factor: u64 = 100 + target_increase as u64;
        let gas = m.gas_used * factor / 100;
        let memory = m.memory_usage * (100 + target_increase) / 100;
        let execution = m.execution_time * factor / 100;
        let bottlenecks = Self::identify_scaling_bottlenecks(&m, target_increase);
        let recommendations = Self::generate_scaling_recommendations(&bottlenecks);
        assert(m.gas_used <= gas) by (nonlinear_arith)
            requires
                gas == m.gas_used * factor / 100,
                factor >= 100,
        ;
        assert((gas - m.gas_used) * 100 <= u64::MAX) by (nonlinear_arith)
            requires
                gas == m.gas_used * factor / 100,
                m.gas_used * factor <= u64::MAX,
                m.gas_used <= gas,
                factor >= 100,
        ;
        let cost = Self::calculate_cost_increase(m.gas_used, gas);
        Ok(ScalingPrediction {
            contract_address: contract.clone(),
            target_load_increase: target_increase,
            predicted_gas_usage: gas,
            predicted_memory_usage: memory,
            predicted_execution_time: execution,
            scaling_bottlenecks: bottlenecks,
            scaling_recommendations: recommendations,
            estimated_cost_increase: cost,
        })
    }

    /// The samples of `contract` of the last 24 hours, newest first (see
    /// `back_samples`); `InsufficientDataForPrediction` when there are none.
    /// The ledger must be at least 23 hours old.
    pub fn gather_historical_data(st: &DiagnosticsStorage, contract: &String, now: u64) -> (r: Result<
        Vec<PerformanceMetrics>,
        DiagnosticsError,
    >)
        requires
            st.wf(),
            now >= 23 * 3600,
        ensures
            back_samples(st.metrics@, contract@, now, 24).len() == 0 <==> r == Err::<
                Vec<PerformanceMetrics>,
                DiagnosticsError,
            >(DiagnosticsError::InsufficientDataForPrediction),
            back_samples(st.metrics@, contract@, now, 24).len() > 0 ==> r is Ok,
            r matches Ok(v) ==> v@ == back_samples(st.metrics@, contract@, now, 24),
    {
        let mut data: Vec<PerformanceMetrics> = Vec::new();
        let mut i: u64 = 0;
        while i < 24
            invariant
                st.wf(),
                now >= 23 * 3600,
                i <= 24,
                data@ == back_samples(st.metrics@, contract@, now, i as nat),
            decreases 24 - i,
        {
            let t = now - i * 3600;
            match st.get_performance_metrics(contract, t) {
                Some(m) => {
                    data.push(m);
                },
                None => {},
            }
            i += 1;
        }
        if data.len() == 0 {
            return Err(DiagnosticsError::InsufficientDataForPrediction);
        }
        Ok(data)
    }

    /// The capacity `contract` needs over the next `horizon` seconds, from its
    /// samples of the last day: `InvalidPredictionHorizon` outside an hour to
    /// a year, `InsufficientDataForPrediction` with fewer than ten samples.
    /// `load`, `bottlenecks`, `costs` and `confidence` are the figures computed
    /// in floating point over the same samples.
    pub fn predict_capacity(
        st: &DiagnosticsStorage,
        contract: &String,
        horizon: u64,
        now: u64,
        sequence: u32,
        load: LoadPrediction,
        bottlenecks: Vec<BottleneckPrediction>,
        costs: CostProjection,
        confidence: u32,
    ) -> (r: Result<CapacityPrediction, DiagnosticsError>)
        requires
            st.wf(),
            3600 <= horizon <= 31_536_000 ==> now >= 23 * 3600,
            3600 <= horizon <= 31_536_000 && back_samples(st.metrics@, contract@, now, 24).len() >= 10 ==> {
                let d = back_samples(st.metrics@, contract@, now, 24);
                &&& sum_by(d, SampleField::Transactions) <= u32::MAX
                &&& sum_by(d, SampleField::Memory) <= u32::MAX
                &&& average(d.subrange(0, (d.len() / 2) as int), SampleField::Memory) * 11 <= u32::MAX
            },
        ensures
            !(3600 <= horizon <= 31_536_000) ==> r == Err::<CapacityPrediction, DiagnosticsError>(
                DiagnosticsError::InvalidPredictionHorizon,
            ),
            3600 <= horizon <= 31_536_000 && back_samples(st.metrics@, contract@, now, 24).len() < 10 ==> r == Err::<
                CapacityPrediction,
                DiagnosticsError,
            >(DiagnosticsError::InsufficientDataForPrediction),
            3600 <= horizon <= 31_536_000 && back_samples(st.metrics@, contract@, now, 24).len() >= 10 ==> r is Ok,
            r matches Ok(p) ==> {
                &&& forall|j: int| 0 <= j < 32 ==> #[trigger] p.prediction_id@[j] == monitoring_id_spec(now, sequence, j)
                &&& p.contract_address == *contract
                &&& p.prediction_horizon == horizon
                &&& p.predicted_load == load
                &&& texts(p.capacity_recommendations@) == capacity_advice(load.resource_saturation_risk, bottlenecks@)
                &&& p.bottleneck_predictions@ == bottlenecks@
                &&& p.cost_projections == costs
                &&& p.confidence_score == confidence
                &&& p.generated_at == now
            },
    {
        if horizon < 3600 || horizon > 31_536_000 {
            return Err(DiagnosticsError::InvalidPredictionHorizon);
        }
        let data = match Self::gather_historical_data(st, contract, now) {
            Ok(d) => d,
            Err(e) => {
                return Err(e);
            },
        };
        if data.len() < 10 {
            return Err(DiagnosticsError::InsufficientDataForPrediction);
        }
        let _load_trend = Self::analyze_load_trend(&data);
        let _resource_trend = Self::analyze_resource_trend(&data);
        let recommendations = Self::generate_capacity_recommendations(&load, &bottlenecks);
        Ok(CapacityPrediction {
            prediction_id: Self::generate_prediction_id(now, sequence),
            contract_address: contract.clone(),
            prediction_horizon: horizon,
            predicted_load: load,
            capacity_recommendations: recommendations,
            bottleneck_predictions: bottlenecks,
            cost_projections: costs,
            confidence_score: confidence,
            generated_at: now,
        })
    }

    /// Identifier of a prediction: the ledger time's bytes, then the ledger
    /// sequence's bytes, then zeros.
    pub fn generate_prediction_id(now: u64, sequence: u32) -> (r: [u8; 32])
        ensures
            forall|j: int| 0 <= j < 32 ==> #[trigger] r@[j] == monitoring_id_spec(now, sequence, j),
    {
        monitoring_id(now, sequence)
    }
}

} // verus!
