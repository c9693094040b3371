//! Properties of the contracts that span operations or hold for every input,
//! stated over the same models the operations' contracts use.
use vstd::prelude::*;
use crate::documentation::types::{Document, DocumentStatus, DocumentVersion, KnowledgeArticle};
use crate::documentation::documents::spec_updated_document;
use crate::fraud_detection::{Credential, FraudDetectionError, all_zero, credential_problem};
use crate::documentation::versions::{demoted, spec_new_version, version_numbered, versions_of, lemma_version_numbered_demoted};
use crate::fraud_detection::{FraudStatistics, counted, can_count};
use crate::diagnostics::anomaly_detector::{most_common_spec, type_count, max_type_count, severity_score_spec};
use crate::diagnostics::behavior_analyzer::dropout_risk_spec;
use crate::diagnostics::benchmark_engine::scenario_score_spec;
use crate::diagnostics::performance_monitor::{efficiency_score_spec, performance_score_spec};
use crate::diagnostics::storage::{addresses_unique};
use crate::diagnostics::types::{AnomalyType, OptimizationRecommendation, PerformanceMetrics, RiskLevel, risk_rank};
use crate::diagnostics::improvement_plans::{impact_total, selection};
use crate::diagnostics::regression_runs::{count_severity, next_run_spec, PerformanceRegression};
use crate::diagnostics::tracing::{completed, TraceAnalysis, TraceStore};
use crate::diagnostics::anomaly_detector::{
    average, error_spike_output, gas_spike_output, head_average, latency_increase_output, tail_average,
    throughput_drop_output, degradation_output, detection_output, state_inconsistency_output,
    resource_exhaustion_output,
};
use crate::diagnostics::performance_monitor::SampleField;
use crate::diagnostics::behavior_analyzer::{UserInteraction, engagement_spec, percent_of, span_units, success_count};
use crate::diagnostics::predictive_engine::{BottleneckPrediction, capacity_advice};
use crate::diagnostics::benchmark_engine::{error_sum, recommendations_spec, score_sum};
use crate::diagnostics::types::{AnomalyEvent, ScenarioResult};
use crate::fraud_detection::{FraudDetectionConfig, FraudType, strongest, timestamp_anomalies, timestamp_confidence};
use vstd::string::StringSliceAdditionalSpecFns;
use crate::gdpr::{
    EncryptedExport, ExportRequest, ExportStatus, GdprError, ENCRYPTION_VERSION, EXPORT_EXPIRATION_SECONDS, export_fetch_error,
    export_status_outcome, integrity_outcome, request_with_id, sha256_spec,
};

verus! {

/// A stored document is read back as stored, and storing it leaves every
/// other document as it was.
pub proof fn law_document_read_after_create(
    documents: Map<Seq<char>, Document>,
    doc_id: Seq<char>,
    d: Document,
    other: Seq<char>,
)
    ensures
        documents.insert(doc_id, d).contains_key(doc_id),
        documents.insert(doc_id, d)[doc_id] == d,
        other != doc_id ==> documents.insert(doc_id, d).contains_key(other) == documents.contains_key(other),
        other != doc_id && documents.contains_key(other) ==> documents.insert(doc_id, d)[other] == documents[other],
{
}

/// After snapshot `n` of a document is added, reading number `n` gives the
/// new, current snapshot, and reading any other number gives the snapshot
/// found there before, no longer current if it was numbered from 1 below `n`.
pub proof fn law_version_read_after_create(
    versions: Map<Seq<char>, Vec<DocumentVersion>>,
    doc_id: String,
    n: u32,
    content: String,
    author: String,
    changelog: String,
    now: u64,
    m: u32,
)
    ensures
        ({
            let v = spec_new_version(doc_id, n, content, author, changelog, now);
            let before = versions_of(versions, doc_id@);
            let after = before.map_values(|x: DocumentVersion| demoted(x, n)).push(v);
            &&& version_numbered(after, n) == Some(v)
            &&& v.is_current
            &&& m != n ==> version_numbered(after, m) == match version_numbered(before, m) {
                Some(w) => Some(demoted(w, n)),
                None => None,
            }
        }),
{
    let v = spec_new_version(doc_id, n, content, author, changelog, now);
    let before = versions_of(versions, doc_id@);
    let after = before.map_values(|x: DocumentVersion| demoted(x, n)).push(v);
    assert(after.drop_last() =~= before.map_values(|x: DocumentVersion| demoted(x, n)));
    lemma_version_numbered_demoted(before, n, m);
}

/// Fraud statistics after checking a run of credentials, one verdict each.
pub open spec fn counted_all(st: FraudStatistics, verdicts: Seq<bool>) -> FraudStatistics
    decreases verdicts.len(),
{
    if verdicts.len() == 0 {
        st
    } else {
        counted(counted_all(st, verdicts.drop_last()), verdicts.last())
    }
}

/// Verdicts that found fraud.
pub open spec fn fraud_verdicts(verdicts: Seq<bool>) -> nat
    decreases verdicts.len(),
{
    if verdicts.len() == 0 {
        0
    } else {
        fraud_verdicts(verdicts.drop_last()) + if verdicts.last() {
            1nat
        } else {
            0nat
        }
    }
}

/// Every check counts once and every fraud verdict counts once: after a run
/// of checks the totals grow by the number of checks and of fraud verdicts,
/// and with no false positive the accuracy is 100 percent.
pub proof fn law_fraud_statistics_count(st: FraudStatistics, verdicts: Seq<bool>)
    requires
        st.false_positives <= st.total_credentials_checked,
        st.total_credentials_checked + verdicts.len() < u64::MAX / 100,
        st.fraud_detected + verdicts.len() < u64::MAX,
    ensures
        counted_all(st, verdicts).total_credentials_checked == st.total_credentials_checked + verdicts.len(),
        counted_all(st, verdicts).fraud_detected == st.fraud_detected + fraud_verdicts(verdicts),
        counted_all(st, verdicts).false_positives == st.false_positives,
        verdicts.len() > 0 && st.false_positives == 0 ==> counted_all(st, verdicts).accuracy_rate == 100,
    decreases verdicts.len(),
{
    if verdicts.len() > 0 {
        let d = verdicts.drop_last();
        law_fraud_statistics_count(st, d);
        let mid = counted_all(st, d);
        assert(fraud_verdicts(d) <= d.len()) by {
            lemma_fraud_verdicts_bound(d);
        }
        assert(can_count(mid));
        let total = mid.total_credentials_checked + 1;
        if st.false_positives == 0 {
            assert((total - 0) * 100 / total == 100) by (nonlinear_arith)
                requires
                    total > 0,
            ;
        }
    }
}

/// Fraud verdicts are at most all verdicts.
pub proof fn lemma_fraud_verdicts_bound(verdicts: Seq<bool>)
    ensures
        fraud_verdicts(verdicts) <= verdicts.len(),
    decreases verdicts.len(),
{
    if verdicts.len() > 0 {
        lemma_fraud_verdicts_bound(verdicts.drop_last());
    }
}

/// A recorded sample is read back under its contract and time, and
/// recording it leaves every other sample as it was.
pub proof fn law_metrics_read_after_record(
    log: Map<(Seq<char>, u64), PerformanceMetrics>,
    contract: Seq<char>,
    m: PerformanceMetrics,
    other: (Seq<char>, u64),
)
    ensures
        log.insert((contract, m.timestamp), m).contains_key((contract, m.timestamp)),
        log.insert((contract, m.timestamp), m)[(contract, m.timestamp)] == m,
        other != (contract, m.timestamp) && log.contains_key(other) ==> log.insert((contract, m.timestamp), m)[other]
            == log[other],
{
}

/// Stopping the monitoring of a contract that starting added undoes it: the
/// monitored contracts are as before.
pub proof fn law_monitoring_start_then_stop(monitored: Seq<Seq<char>>, contract: Seq<char>)
    requires
        addresses_unique(monitored),
        !monitored.contains(contract),
    ensures
        ({
            let started = monitored.push(contract);
            &&& addresses_unique(started)
            &&& forall|i: int|
                0 <= i < started.len() && started[i] == contract ==> #[trigger] started.remove(i) == monitored
        }),
{
    let started = monitored.push(contract);
    assert forall|a: int, b: int| #![trigger started[a], started[b]] 0 <= a < started.len() && 0 <= b < started.len() && a != b implies started[a] != started[b] by {
        if a < monitored.len() && b < monitored.len() {
            assert(started[a] == monitored[a] && started[b] == monitored[b]);
        } else if a < monitored.len() {
            assert(started[a] == monitored[a]);
            assert(monitored.contains(monitored[a]));
        } else {
            assert(started[b] == monitored[b]);
            assert(monitored.contains(monitored[b]));
        }
    }
    assert forall|i: int| 0 <= i < started.len() && started[i] == contract implies #[trigger] started.remove(i) == monitored by {
        if i < monitored.len() {
            assert(started[i] == monitored[i]);
            assert(monitored.contains(monitored[i]));
        }
        assert(started.remove(i) =~= monitored);
    }
}

/// Scores stay between 0 and 100.
pub proof fn law_scores_bounded(a: u64, e: u32, g: u64, m: u32, rate: u32)
    ensures
        0 <= performance_score_spec(a, e, g) <= 100,
        0 <= efficiency_score_spec(a, g, m) <= 100,
        rate <= 100 ==> 0 <= scenario_score_spec(rate, a, g) <= 100,
        scenario_score_spec(rate, a, g) <= 100,
{
}

/// More errors never raise the performance score, nor does a longer
/// execution time or more gas.
pub proof fn law_performance_score_monotone(a1: u64, a2: u64, e1: u32, e2: u32, g1: u64, g2: u64)
    requires
        e1 <= e2,
    ensures
        performance_score_spec(a1, e2, g1) <= performance_score_spec(a1, e1, g1),
{
}

/// The severity score grows with the risk level.
pub proof fn law_severity_score_monotone(r1: RiskLevel, r2: RiskLevel)
    requires
        risk_rank(r1) <= risk_rank(r2),
    ensures
        severity_score_spec(r1) <= severity_score_spec(r2),
{
}

/// Higher scores never raise the dropout risk.
pub proof fn law_dropout_risk_antitone(
    e1: u32,
    v1: u32,
    c1: u32,
    p1: u32,
    e2: u32,
    v2: u32,
    c2: u32,
    p2: u32,
)
    requires
        e1 + v1 + c1 + p1 <= e2 + v2 + c2 + p2,
    ensures
        risk_rank(dropout_risk_spec(e2, v2, c2, p2)) <= risk_rank(dropout_risk_spec(e1, v1, c1, p1)),
{
}

/// The most common kind of anomaly occurs at least as often as any other.
pub proof fn law_most_common_is_maximal(k: Seq<(AnomalyType, RiskLevel)>, t: AnomalyType)
    requires
        k.len() > 0,
    ensures
        type_count(k, t) <= type_count(k, most_common_spec(k)),
{
    let m = max_type_count(k);
    assert(type_count(k, t) <= m);
    assert(type_count(k, most_common_spec(k)) == m);
}

/// A plan takes recommendations in order while the improvement so far is
/// below the target: the improvement it reaches is that of the ones it
/// takes, it stops only once the target is met or nothing is left, and the
/// ones before the last it takes fall short of the target.
pub proof fn law_plan_stops_at_target(v: Seq<OptimizationRecommendation>, target: u32)
    ensures
        ({
            let (count, total) = selection(v, target);
            &&& count <= v.len()
            &&& total == impact_total(v.subrange(0, count as int), 0)
            &&& count == v.len() || total >= target
            &&& count > 0 ==> impact_total(v.subrange(0, count - 1), 0) < target
        }),
    decreases v.len(),
{
    if v.len() > 0 {
        let d = v.drop_last();
        law_plan_stops_at_target(d, target);
        let (c, t) = selection(d, target);
        assert(d.subrange(0, c as int) =~= v.subrange(0, c as int));
        if c > 0 {
            assert(d.subrange(0, c - 1) =~= v.subrange(0, c - 1));
        }
        if t < target {
            assert(c == d.len());
            assert(v.subrange(0, (c + 1) as int).drop_last() =~= v.subrange(0, c as int));
            assert(v.subrange(0, (c + 1) as int) =~= v);
        }
    } else {
        assert(v.subrange(0, 0) =~= Seq::<OptimizationRecommendation>::empty());
    }
}

/// Completing a trace closes it, whatever the ledger time: the trace kept
/// under its identifier counts as completed, so further spans and a second
/// completion are refused.
pub proof fn law_completion_closes_trace(t: TraceAnalysis, after: TraceStore, id: [u8; 32])
    requires
        t.is_completed,
        after.has(id),
        t.same_as(&after.at(id)),
    ensures
        completed(after, id),
{
}

/// Every regression a run reports is of high severity, so a run that
/// found any is scheduled again six hours later.
pub proof fn law_regressions_rerun_in_six_hours(regs: Seq<PerformanceRegression>, now: u64)
    requires
        regs.len() > 0,
        forall|k: int| 0 <= k < regs.len() ==> #[trigger] regs[k].severity == RiskLevel::High,
    ensures
        next_run_spec(regs, now) == now + 21600,
{
    lemma_no_critical(regs);
}

/// Regressions all of high severity include no critical one.
proof fn lemma_no_critical(regs: Seq<PerformanceRegression>)
    requires
        forall|k: int| 0 <= k < regs.len() ==> #[trigger] regs[k].severity == RiskLevel::High,
    ensures
        count_severity(regs, RiskLevel::Critical) == 0,
    decreases regs.len(),
{
    if regs.len() > 0 {
        let d = regs.drop_last();
        assert forall|k: int| 0 <= k < d.len() implies #[trigger] d[k].severity == RiskLevel::High by {
            assert(d[k] == regs[k]);
        }
        lemma_no_critical(d);
        assert(regs.last().severity == RiskLevel::High);
    }
}


/// Once an export is stored for a request, its owner's integrity check
/// reports whether the digest stored with it is the SHA-256 of its data, so an
/// export stored with the digest of its own data checks as intact; anyone else
/// is refused, and the checks of every other request are as before.
pub proof fn law_integrity_after_store(
    before: Seq<ExportRequest>,
    after: Seq<ExportRequest>,
    q: ExportRequest,
    salt: [u8; 32],
    key_verification_hash: [u8; 32],
    data: Vec<u8>,
    data_hash: [u8; 32],
    user: Seq<char>,
    other: u64,
)
    requires
        request_with_id(after, q.request_id) == Some(
            ExportRequest {
                encrypted_export: EncryptedExport {
                    salt,
                    key_verification_hash,
                    data,
                    data_hash,
                    encryption_version: ENCRYPTION_VERSION,
                },
                has_hash: true,
                status: ExportStatus::Ready,
                ..q
            },
        ),
        forall|m: u64| m != q.request_id ==> request_with_id(after, m) == request_with_id(before, m),
    ensures
        data@.len() > 0 ==> integrity_outcome(after, q.user@, q.request_id) == Ok::<bool, GdprError>(
            data_hash@ == sha256_spec(data@),
        ),
        data@.len() > 0 && data_hash@ == sha256_spec(data@) ==> integrity_outcome(after, q.user@, q.request_id)
            == Ok::<bool, GdprError>(true),
        user != q.user@ ==> integrity_outcome(after, user, q.request_id) == Err::<bool, GdprError>(
            GdprError::Unauthorized,
        ),
        other != q.request_id ==> integrity_outcome(after, user, other) == integrity_outcome(before, user, other),
{
}


/// Reading a document back after an update gives the given title, content,
/// status and tags where they were given and the old ones elsewhere; new
/// content raises the version by one; the update time is the call's time and
/// every other field is as before. Other documents read as before.
pub proof fn law_update_read_back(
    documents: Map<Seq<char>, Document>,
    doc_id: Seq<char>,
    title: Option<String>,
    content: Option<String>,
    status: Option<DocumentStatus>,
    tags: Option<Vec<String>>,
    now: u64,
    other: Seq<char>,
)
    requires
        documents.contains_key(doc_id),
        content is Some ==> documents[doc_id].version < u32::MAX,
    ensures
        ({
            let d = documents[doc_id];
            let after = documents.insert(doc_id, spec_updated_document(d, title, content, status, tags, now));
            let d2 = after[doc_id];
            &&& after.contains_key(doc_id)
            &&& d2.title == (match title { Some(t) => t, None => d.title })
            &&& d2.content == (match content { Some(c) => c, None => d.content })
            &&& d2.status == (match status { Some(x) => x, None => d.status })
            &&& d2.tags == (match tags { Some(t) => t, None => d.tags })
            &&& d2.version == d.version + (if content is Some { 1int } else { 0int })
            &&& d2.updated_at == now
            &&& d2 == Document {
                title: d2.title,
                content: d2.content,
                status: d2.status,
                tags: d2.tags,
                version: d2.version,
                updated_at: now,
                ..d
            }
            &&& other != doc_id ==> after.contains_key(other) == documents.contains_key(other)
            &&& other != doc_id && documents.contains_key(other) ==> after[other] == documents[other]
        }),
{
}

/// Each view of a document adds one to its view count and one to the total
/// views, so `k` views of a new document and an untouched total give `k` and `k`.
pub proof fn law_views_add_up(d: Document, total: u64, k: nat)
    requires
        d.view_count + k <= u32::MAX,
        total + k <= u64::MAX,
    ensures
        views_after(d, k).view_count == d.view_count + k,
        total_after(total, k) == total + k,
        views_after(d, k) == (Document { view_count: views_after(d, k).view_count, ..d }),
    decreases k,
{
    if k > 0 {
        law_views_add_up(d, total, (k - 1) as nat);
    }
}

/// A document after `k` views, each as `increment_view_count` records it.
pub open spec fn views_after(d: Document, k: nat) -> Document
    decreases k,
{
    if k == 0 {
        d
    } else {
        let p = views_after(d, (k - 1) as nat);
        Document { view_count: (p.view_count + 1) as u32, ..p }
    }
}

/// The total views after `k` views, each as `increment_view_count` counts it.
pub open spec fn total_after(total: u64, k: nat) -> int
    decreases k,
{
    if k == 0 {
        total as int
    } else {
        total_after(total, (k - 1) as nat) + 1
    }
}

/// A vote adds one to the helpful or to the unhelpful votes of an article,
/// as it says, and leaves every other field as it was.
pub proof fn law_vote_counts(a: KnowledgeArticle, is_helpful: bool)
    requires
        is_helpful ==> a.helpful_votes < u32::MAX,
        !is_helpful ==> a.not_helpful_votes < u32::MAX,
    ensures
        ({
            let after = if is_helpful {
                KnowledgeArticle { helpful_votes: (a.helpful_votes + 1) as u32, ..a }
            } else {
                KnowledgeArticle { not_helpful_votes: (a.not_helpful_votes + 1) as u32, ..a }
            };
            &&& after.helpful_votes == a.helpful_votes + (if is_helpful { 1int } else { 0int })
            &&& after.not_helpful_votes == a.not_helpful_votes + (if is_helpful { 0int } else { 1int })
            &&& after == KnowledgeArticle {
                helpful_votes: after.helpful_votes,
                not_helpful_votes: after.not_helpful_votes,
                ..a
            }
        }),
{
}

/// A credential is checked in a fixed order: a blank identifier or student
/// first, then a missing signature, then a missing issue date; one that
/// passes all three has no structural problem.
pub proof fn law_credential_check_order(c: Credential)
    ensures
        all_zero(c.id@) || all_zero(c.student_id@) ==> credential_problem(c) == Some(
            FraudDetectionError::InvalidCredential,
        ),
        !(all_zero(c.id@) || all_zero(c.student_id@)) && c.signature@.len() == 0 ==> credential_problem(c) == Some(
            FraudDetectionError::InvalidSignature,
        ),
        !(all_zero(c.id@) || all_zero(c.student_id@)) && c.signature@.len() > 0 && c.issue_date == 0
            ==> credential_problem(c) == Some(FraudDetectionError::InvalidTimestamp),
        !(all_zero(c.id@) || all_zero(c.student_id@)) && c.signature@.len() > 0 && c.issue_date > 0
            ==> credential_problem(c) is None,
{
}


/// A new export request is read back under the id one past the counter:
/// its owner sees it processing until it expires, anyone else is refused,
/// and every other request reads as before. The counter then holds that id,
/// so the next request gets a larger one.
pub proof fn law_request_read_back(
    before: Seq<ExportRequest>,
    after: Seq<ExportRequest>,
    counter: u64,
    user: Seq<char>,
    now: u64,
    later: u64,
    asker: Seq<char>,
    other: u64,
)
    requires
        counter < u64::MAX,
        after.len() == before.len() + 1,
        after.drop_last() == before,
        after.last().request_id == counter + 1,
        after.last().user@ == user,
        after.last().requested_at == now,
        after.last().status == ExportStatus::Processing,
    ensures
        request_with_id(after, (counter + 1) as u64) == Some(after.last()),
        later <= now + EXPORT_EXPIRATION_SECONDS ==> export_status_outcome(after, user, (counter + 1) as u64, later)
            == Ok::<ExportStatus, GdprError>(ExportStatus::Processing),
        asker != user ==> export_status_outcome(after, asker, (counter + 1) as u64, later) == Err::<
            ExportStatus,
            GdprError,
        >(GdprError::Unauthorized),
        other != counter + 1 ==> request_with_id(after, other) == request_with_id(before, other),
{
}

/// Once an export is stored for a request, its owner fetches exactly what
/// was stored and sees the request ready; anyone else is refused; every
/// other request reads as before.
pub proof fn law_stored_export_read_back(
    before: Seq<ExportRequest>,
    after: Seq<ExportRequest>,
    q: ExportRequest,
    salt: [u8; 32],
    key_verification_hash: [u8; 32],
    data: Vec<u8>,
    data_hash: [u8; 32],
    later: u64,
    asker: Seq<char>,
    other: u64,
)
    requires
        request_with_id(after, q.request_id) == Some(
            ExportRequest {
                encrypted_export: EncryptedExport {
                    salt,
                    key_verification_hash,
                    data,
                    data_hash,
                    encryption_version: ENCRYPTION_VERSION,
                },
                has_hash: true,
                status: ExportStatus::Ready,
                ..q
            },
        ),
        forall|m: u64| m != q.request_id ==> request_with_id(after, m) == request_with_id(before, m),
        data@.len() > 0,
    ensures
        export_fetch_error(after, q.user@, q.request_id, later) is None,
        request_with_id(after, q.request_id)->0.encrypted_export == (EncryptedExport {
            salt,
            key_verification_hash,
            data,
            data_hash,
            encryption_version: ENCRYPTION_VERSION,
        }),
        export_status_outcome(after, q.user@, q.request_id, later) == Ok::<ExportStatus, GdprError>(
            ExportStatus::Ready,
        ),
        asker != q.user@ ==> export_fetch_error(after, asker, q.request_id, later) == Some(GdprError::Unauthorized),
        other != q.request_id ==> export_fetch_error(after, asker, other, later) == export_fetch_error(
            before,
            asker,
            other,
            later,
        ),
{
}


/// Once a document is created its identifier is taken, so a second create
/// with the same identifier is refused with `AlreadyExists` and changes
/// nothing, as the create contract says of a taken identifier.
pub proof fn law_second_create_refused(
    documents: Map<Seq<char>, Document>,
    doc_id: Seq<char>,
    d: Document,
)
    ensures
        documents.insert(doc_id, d).contains_key(doc_id),
{
}


/// An error-rate spike is reported only when the latest error rate is above
/// 10 percent and above three times the average, and then exactly one
/// anomaly is reported, an error-rate spike.
pub proof fn law_error_spike_needs_ten_percent(s: Seq<PerformanceMetrics>, now: u64, v: Seq<AnomalyEvent>)
    requires
        error_spike_output(s, now, v),
    ensures
        s.len() > 0 && s.last().error_rate <= 10 ==> v.len() == 0,
        s.len() > 0 && s.last().error_rate <= 3 * average(s, SampleField::ErrorRate) ==> v.len() == 0,
        s.len() < 2 ==> v.len() == 0,
        s.len() >= 2 && s.last().error_rate > 10 && s.last().error_rate > 3 * average(s, SampleField::ErrorRate)
            ==> v.len() == 1 && v[0].anomaly_type == AnomalyType::ErrorRateSpike,
        v.len() == 1 ==> (v[0].severity == RiskLevel::Critical <==> s.last().error_rate > 25),
        v.len() == 1 ==> (v[0].severity == RiskLevel::Critical || v[0].severity == RiskLevel::High),
{
}

/// A gas spike is reported exactly when there are at least two samples and
/// the latest gas use exceeds three times the average of those before it;
/// it is critical exactly above five times that average.
pub proof fn law_gas_spike_threshold(s: Seq<PerformanceMetrics>, now: u64, v: Seq<AnomalyEvent>)
    requires
        gas_spike_output(s, now, v),
    ensures
        v.len() <= 1,
        v.len() == 1 <==> s.len() >= 2 && s.last().gas_used > 3 * head_average(s, 1, SampleField::Gas),
        v.len() == 1 ==> v[0].anomaly_type == AnomalyType::GasSpike,
        v.len() == 1 ==> (v[0].severity == RiskLevel::Critical <==> s.last().gas_used > 5 * head_average(
            s,
            1,
            SampleField::Gas,
        )),
        v.len() == 1 ==> v[0].severity != RiskLevel::Low && v[0].severity != RiskLevel::Medium,
{
}

/// A latency increase is reported exactly when there are at least two
/// samples and the latest latency exceeds two and a half times the average;
/// it is of high severity above five times the average, medium otherwise.
pub proof fn law_latency_increase_threshold(s: Seq<PerformanceMetrics>, now: u64, v: Seq<AnomalyEvent>)
    requires
        latency_increase_output(s, now, v),
    ensures
        v.len() <= 1,
        v.len() == 1 <==> s.len() >= 2 && 2 * s.last().network_latency > 5 * average(s, SampleField::NetworkLatency)
            - (5 * average(s, SampleField::NetworkLatency)) % 2,
        v.len() == 1 ==> v[0].anomaly_type == AnomalyType::LatencyIncrease,
        v.len() == 1 ==> (v[0].severity == RiskLevel::High <==> s.last().network_latency > 5 * average(
            s,
            SampleField::NetworkLatency,
        )),
        v.len() == 1 ==> v[0].severity == RiskLevel::High || v[0].severity == RiskLevel::Medium,
{
    let a = average(s, SampleField::NetworkLatency);
    assert(a * 25 / 10 == (5 * a - (5 * a) % 2) / 2);
}

/// A throughput drop is reported exactly when there are at least three
/// samples and the last three average below 70 percent of the overall
/// average; it is critical below half of that average.
pub proof fn law_throughput_drop_threshold(s: Seq<PerformanceMetrics>, now: u64, v: Seq<AnomalyEvent>)
    requires
        throughput_drop_output(s, now, v),
    ensures
        v.len() <= 1,
        v.len() == 1 <==> s.len() >= 3 && 10 * tail_average(s, 3, SampleField::Transactions) < 7 * average(
            s,
            SampleField::Transactions,
        ) - (7 * average(s, SampleField::Transactions)) % 10,
        v.len() == 1 ==> v[0].anomaly_type == AnomalyType::ThroughputDrop,
        v.len() == 1 ==> v[0].severity == RiskLevel::Critical || v[0].severity == RiskLevel::High,
{
    let a = average(s, SampleField::Transactions);
    let t = tail_average(s, 3, SampleField::Transactions);
    assert(t < a * 7 / 10 <==> 10 * t < 7 * a - (7 * a) % 10);
}

/// A performance degradation is reported exactly when there are more than
/// three samples and the last three take more than one and a half times as
/// long as those before them; it is critical above twice as long.
pub proof fn law_degradation_threshold(s: Seq<PerformanceMetrics>, now: u64, v: Seq<AnomalyEvent>)
    requires
        degradation_output(s, now, v),
    ensures
        v.len() <= 1,
        v.len() == 1 <==> s.len() > 3 && 10 * tail_average(s, 3, SampleField::ExecutionTime) >= 15 * head_average(
            s,
            3,
            SampleField::ExecutionTime,
        ) - (15 * head_average(s, 3, SampleField::ExecutionTime)) % 10 + 10,
        v.len() == 1 ==> v[0].anomaly_type == AnomalyType::PerformanceDegradation,
        v.len() == 1 ==> (v[0].severity == RiskLevel::Critical <==> tail_average(s, 3, SampleField::ExecutionTime) > 2
            * head_average(s, 3, SampleField::ExecutionTime)),
{
    let h = head_average(s, 3, SampleField::ExecutionTime);
    let t = tail_average(s, 3, SampleField::ExecutionTime);
    assert(t > h * 15 / 10 <==> 10 * t >= 15 * h - (15 * h) % 10 + 10);
}

/// Only successful interactions count as completions: a run of successful
/// interactions counts them all and gives a completion rate of 100 percent,
/// and one more interaction adds one exactly when it succeeded.
pub proof fn law_successes_count_successful_interactions(s: Seq<UserInteraction>, x: UserInteraction)
    ensures
        (forall|i: int| 0 <= i < s.len() ==> (#[trigger] s[i]).success) ==> success_count(s) == s.len(),
        (forall|i: int| 0 <= i < s.len() ==> !(#[trigger] s[i]).success) ==> success_count(s) == 0,
        (forall|i: int| 0 <= i < s.len() ==> (#[trigger] s[i]).success) && s.len() > 0 ==> percent_of(
            success_count(s),
            s,
        ) == 100,
        success_count(s.push(x)) == success_count(s) + (if x.success { 1int } else { 0int }),
        success_count(s) <= s.len(),
        (forall|i: int| 0 <= i < s.len() ==> (#[trigger] s[i]).success) && s.len() > 0
            ==> engagement_spec(s).completion_velocity == ((s.len() * 7) as u32 / (span_units(s, 86400) as u32)) as u32,
    decreases s.len(),
{
    assert(s.push(x).drop_last() =~= s);
    if s.len() > 0 {
        law_successes_count_successful_interactions(s.drop_last(), s.last());
        assert forall|i: int| 0 <= i < s.drop_last().len() implies s.drop_last()[i] == s[i] by {}
    }
    if s.len() > 0 && (forall|i: int| 0 <= i < s.len() ==> (#[trigger] s[i]).success) {
        assert(success_count(s) == s.len());
        assert(success_count(s) * 100 / s.len() == 100) by (nonlinear_arith)
            requires
                success_count(s) == s.len(),
                s.len() > 0,
        ;
    }
}

/// A high saturation risk calls for the same capacity advice as a critical
/// one: two pieces led by horizontal scaling; a medium risk calls for one,
/// closer monitoring, and a low risk adds nothing of its own.
pub proof fn law_high_risk_advice_matches_critical(b: Seq<BottleneckPrediction>)
    ensures
        capacity_advice(RiskLevel::High, b) == capacity_advice(RiskLevel::Critical, b),
        capacity_advice(RiskLevel::High, b)[0] == "Consider horizontal scaling to handle increased load".spec_bytes(),
        capacity_advice(RiskLevel::High, b).len() == capacity_advice(RiskLevel::Low, b).len() + 2,
        capacity_advice(RiskLevel::Medium, b).len() == capacity_advice(RiskLevel::Low, b).len() + 1,
        capacity_advice(RiskLevel::Medium, b)[0] == "Monitor resource usage closely".spec_bytes(),
{
}

/// Benchmark advice to optimize performance is given exactly when the
/// average scenario score is below 70, and error-handling advice exactly
/// when some call failed: a run whose scenarios all score at least 70
/// without errors gets no advice.
pub proof fn law_benchmark_advice_follows_scores(s: Seq<ScenarioResult>)
    requires
        s.len() > 0,
    ensures
        recommendations_spec(s).len() == (if score_sum(s) < 70 * s.len() { 1int } else { 0int }) + (if error_sum(
            s,
        ) > 0 {
            1int
        } else {
            0int
        }),
        score_sum(s) < 70 * s.len() ==> recommendations_spec(s)[0]
            == "Consider optimizing critical performance paths".spec_bytes(),
        error_sum(s) > 0 ==> recommendations_spec(s).last() == "Implement better error handling and recovery".spec_bytes(),
        (forall|i: int| 0 <= i < s.len() ==> (#[trigger] s[i]).performance_score >= 70 && s[i].error_count == 0)
            ==> recommendations_spec(s).len() == 0,
{
    let n = s.len();
    assert(score_sum(s) / n < 70 <==> score_sum(s) < 70 * n) by (nonlinear_arith)
        requires
            n > 0,
    ;
    if forall|i: int| 0 <= i < s.len() ==> (#[trigger] s[i]).performance_score >= 70 && s[i].error_count == 0 {
        lemma_scores_at_least(s);
    }
}

/// Scenarios that each score at least 70 without errors sum to at least 70
/// each and to no errors.
proof fn lemma_scores_at_least(s: Seq<ScenarioResult>)
    requires
        forall|i: int| 0 <= i < s.len() ==> (#[trigger] s[i]).performance_score >= 70 && s[i].error_count == 0,
    ensures
        score_sum(s) >= 70 * s.len(),
        error_sum(s) == 0,
    decreases s.len(),
{
    if s.len() > 0 {
        assert forall|i: int| 0 <= i < s.drop_last().len() implies (#[trigger] s.drop_last()[i]).performance_score >= 70
            && s.drop_last()[i].error_count == 0 by {
            assert(s.drop_last()[i] == s[i]);
        }
        lemma_scores_at_least(s.drop_last());
        assert(s.last() == s[s.len() - 1]);
    }
}

/// A credential issued after the current ledger time has a timestamp
/// anomaly, so its timestamp confidence is at least 70; with timestamp
/// analysis on and a threshold of at most 70 the detector's strongest score
/// reaches the threshold, so the credential is flagged.
pub proof fn law_future_issue_is_anomalous(c: FraudDetectionConfig, cred: Credential, now: u64)
    ensures
        cred.issue_date > now ==> timestamp_anomalies(cred.issue_date, cred.student_data.completion_date, now) >= 1,
        cred.issue_date > now ==> timestamp_confidence(
            timestamp_anomalies(cred.issue_date, cred.student_data.completion_date, now),
        ) >= 70,
        cred.issue_date > now && c.timestamp_analysis_enabled && c.detection_threshold <= 70 ==> strongest(c, cred, now).0
            >= 70 && strongest(c, cred, now).0 >= c.detection_threshold,
        timestamp_anomalies(cred.issue_date, cred.student_data.completion_date, now) <= 3,
        cred.student_data.completion_date > cred.issue_date ==> timestamp_anomalies(
            cred.issue_date,
            cred.student_data.completion_date,
            now,
        ) >= 1,
        cred.issue_date < 946684800 || cred.student_data.completion_date < 946684800 ==> timestamp_anomalies(
            cred.issue_date,
            cred.student_data.completion_date,
            now,
        ) >= 1,
        cred.issue_date <= now && cred.student_data.completion_date <= cred.issue_date && cred.issue_date >= 946684800
            && cred.student_data.completion_date >= 946684800 ==> timestamp_anomalies(
            cred.issue_date,
            cred.student_data.completion_date,
            now,
        ) == 0 && timestamp_confidence(0) == 10,
        cred.issue_date > now && cred.student_data.completion_date > cred.issue_date ==> timestamp_confidence(
            timestamp_anomalies(cred.issue_date, cred.student_data.completion_date, now),
        ) == 90,
{
}


/// No event of the list has kind `t`.
pub open spec fn none_of_kind(v: Seq<AnomalyEvent>, t: AnomalyType) -> bool {
    forall|i: int| 0 <= i < v.len() ==> (#[trigger] v[i]).anomaly_type != t
}

/// A full anomaly scan reports an error-rate spike only when the latest
/// error rate is above 10 percent: below that, the only error-rate spikes it
/// can hold are ones among the findings the caller supplied.
pub proof fn law_scan_reports_error_spikes_only_above_ten(
    contract: Seq<char>,
    s: Seq<PerformanceMetrics>,
    now: u64,
    memory: Seq<AnomalyEvent>,
    unusual: Seq<AnomalyEvent>,
    v: Seq<AnomalyEvent>,
)
    requires
        detection_output(contract, s, now, memory, unusual, v),
        none_of_kind(memory, AnomalyType::ErrorRateSpike),
        none_of_kind(unusual, AnomalyType::ErrorRateSpike),
        s.len() > 0,
        s.last().error_rate <= 10,
    ensures
        none_of_kind(v, AnomalyType::ErrorRateSpike),
{
    let (d1, d2, d3, d4, d5, d6, d7) = choose|
        d1: Seq<AnomalyEvent>,
        d2: Seq<AnomalyEvent>,
        d3: Seq<AnomalyEvent>,
        d4: Seq<AnomalyEvent>,
        d5: Seq<AnomalyEvent>,
        d6: Seq<AnomalyEvent>,
        d7: Seq<AnomalyEvent>,
    |
        degradation_output(s, now, d1) && gas_spike_output(s, now, d2) && error_spike_output(s, now, d3)
            && throughput_drop_output(s, now, d4) && latency_increase_output(s, now, d5)
            && state_inconsistency_output(contract, s, now, d6) && resource_exhaustion_output(s, now, d7) && v == d1
            + memory + d2 + d3 + d4 + d5 + unusual + d6 + d7;
    law_error_spike_needs_ten_percent(s, now, d3);
    law_gas_spike_threshold(s, now, d2);
    law_latency_increase_threshold(s, now, d5);
    law_throughput_drop_threshold(s, now, d4);
    law_degradation_threshold(s, now, d1);
    let t = AnomalyType::ErrorRateSpike;
    assert(none_of_kind(d1, t));
    assert(none_of_kind(d2, t));
    assert(none_of_kind(d3, t));
    assert(none_of_kind(d4, t));
    assert(none_of_kind(d5, t));
    assert(none_of_kind(d6, t));
    assert(none_of_kind(d7, t));
    lemma_none_of_kind_concat(d1, memory, t);
    lemma_none_of_kind_concat(d1 + memory, d2, t);
    lemma_none_of_kind_concat(d1 + memory + d2, d3, t);
    lemma_none_of_kind_concat(d1 + memory + d2 + d3, d4, t);
    lemma_none_of_kind_concat(d1 + memory + d2 + d3 + d4, d5, t);
    lemma_none_of_kind_concat(d1 + memory + d2 + d3 + d4 + d5, unusual, t);
    lemma_none_of_kind_concat(d1 + memory + d2 + d3 + d4 + d5 + unusual, d6, t);
    lemma_none_of_kind_concat(d1 + memory + d2 + d3 + d4 + d5 + unusual + d6, d7, t);
}

/// Joining two lists without events of a kind gives none either.
proof fn lemma_none_of_kind_concat(a: Seq<AnomalyEvent>, b: Seq<AnomalyEvent>, t: AnomalyType)
    requires
        none_of_kind(a, t),
        none_of_kind(b, t),
    ensures
        none_of_kind(a + b, t),
{
    assert forall|i: int| 0 <= i < (a + b).len() implies (#[trigger] (a + b)[i]).anomaly_type != t by {
        if i < a.len() {
            assert((a + b)[i] == a[i]);
        } else {
            assert((a + b)[i] == b[i - a.len()]);
        }
    }
}

} // verus!
