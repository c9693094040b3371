//! Credential fraud detection: four analyzers score a credential, the strongest
//! score at or above the threshold decides between a clean verdict, an alert and
//! a confirmed detection. Account addresses are held as their text form; the
//! caller's authorization and the ledger time come from the host.
use vstd::prelude::*;
use vstd::utf8::valid_utf8;
use crate::text::{decimal_digits, text_bytes, labelled, copy_bytes};
use vstd::string::StringSliceAdditionalSpecFns;

verus! {

/// Seconds in the window in which issuances count as recent.
pub const ISSUANCE_WINDOW: u64 = 3600u64;

/// Unix time of 2000-01-01, before which credential dates are suspicious.
pub const YEAR_2000: u64 = 946684800u64;

/// Confidence from which a detection is confirmed rather than only alerted.
pub const CONFIRMED_CONFIDENCE: u32 = 90u32;

/// Whether `bytes` is well-formed UTF-8.
#[verifier::external_body]
fn is_utf8(bytes: &[u8]) -> (r: bool)
    ensures
        r == valid_utf8(bytes@),
{
    std::str::from_utf8(bytes).is_ok()
}

/// Switches and threshold of the detector.
#[derive(Clone, Copy, Debug, PartialEq, Eq, Structural)]
pub struct FraudDetectionConfig {
    pub detection_threshold: u32,
    pub alert_cooldown: u64,
    pub pattern_analysis_enabled: bool,
    pub signature_verification_enabled: bool,
    pub data_validation_enabled: bool,
    pub timestamp_analysis_enabled: bool,
}

/// A credential submitted for checking.
#[derive(Clone, Debug, PartialEq, Eq)]
pub struct Credential {
    pub id: [u8; 32],
    pub student_id: [u8; 32],
    pub issuer: String,
    pub issue_date: u64,
    pub signature: Vec<u8>,
    pub student_data: StudentData,
}

/// Data about the student that a credential names.
#[derive(Clone, Debug, PartialEq, Eq)]
pub struct StudentData {
    pub name: Vec<u8>,
    pub email: Vec<u8>,
    pub institution: Vec<u8>,
    pub course: Vec<u8>,
    pub grade: Vec<u8>,
    pub completion_date: u64,
}

/// A confirmed detection.
#[derive(Clone, Debug, PartialEq, Eq)]
pub struct DetectionEvent {
    pub credential_id: [u8; 32],
    pub fraud_type: FraudType,
    pub confidence_score: u32,
    pub timestamp: u64,
    pub detected_by: String,
    pub details: Vec<u8>,
}

/// What an analyzer looks for.
#[derive(Clone, Copy, Debug, PartialEq, Eq, Structural)]
pub enum FraudType {
    UnusualIssuancePattern,
    ForgedSignature,
    InvalidStudentData,
    TimestampAnomaly,
}

/// Verdict on a credential.
#[derive(Clone, Copy, Debug, PartialEq, Eq, Structural)]
pub enum DetectionResult {
    Clean,
    Suspicious { alert_id: u64, confidence: u32 },
    Confirmed { event_id: u64, fraud_type: FraudType },
}

/// An alert raised on a suspicious credential.
#[derive(Clone, Debug, PartialEq, Eq)]
pub struct Alert {
    pub id: u64,
    pub credential_id: [u8; 32],
    pub fraud_type: FraudType,
    pub severity: AlertSeverity,
    pub confidence_score: u32,
    pub timestamp: u64,
    pub acknowledged: bool,
    pub details: Vec<u8>,
}

impl Alert {
    /// Two alerts agree field by field, their details byte by byte.
    pub open spec fn same_as(&self, other: &Alert) -> bool {
        &&& self.id == other.id
        &&& self.credential_id == other.credential_id
        &&& self.fraud_type == other.fraud_type
        &&& self.severity == other.severity
        &&& self.confidence_score == other.confidence_score
        &&& self.timestamp == other.timestamp
        &&& self.acknowledged == other.acknowledged
        &&& self.details@ == other.details@
    }
}

/// How serious an alert is.
#[derive(Clone, Copy, Debug, PartialEq, Eq, Structural)]
pub enum AlertSeverity {
    Low,
    Medium,
    High,
    Critical,
}

/// Running totals of the detector.
#[derive(Clone, Copy, Debug, PartialEq, Eq, Structural)]
pub struct FraudStatistics {
    pub total_credentials_checked: u64,
    pub fraud_detected: u64,
    pub false_positives: u64,
    pub accuracy_rate: u32,
    pub false_positive_rate: u32,
}

/// What can go wrong in fraud detection.
#[derive(Clone, Copy, Debug, PartialEq, Eq, Structural)]
pub enum FraudDetectionError {
    InvalidCredential,
    InvalidSignature,
    InvalidTimestamp,
    InvalidStudentData,
    DetectionFailed,
    UnauthorizedAccess,
    AlertNotFound,
    ModelNotInitialized,
}

/// The persisted state of the fraud-detection contract.
pub struct FraudDetectionState {
    pub admin: Option<String>,
    pub config: Option<FraudDetectionConfig>,
    pub statistics: Option<FraudStatistics>,
    pub events: Vec<DetectionEvent>,
    pub alerts: Vec<Alert>,
    pub model: Vec<u8>,
}

impl FraudDetectionState {
    /// A contract with nothing stored yet.
    pub fn new() -> (st: FraudDetectionState)
        ensures
            st.admin is None,
            st.config is None,
            st.statistics is None,
            st.events@.len() == 0,
            st.alerts@.len() == 0,
            st.model@.len() == 0,
    {
        FraudDetectionState {
            admin: None,
            config: None,
            statistics: None,
            events: Vec::new(),
            alerts: Vec::new(),
            model: Vec::new(),
        }
    }
}

/// `who` holds the admin role.
pub open spec fn has_admin_role(st: FraudDetectionState, who: String) -> bool {
    st.admin matches Some(a) && a@ == who@
}

/// The statistics before any credential is checked.
pub open spec fn zero_statistics() -> FraudStatistics {
    FraudStatistics {
        total_credentials_checked: 0,
        fraud_detected: 0,
        false_positives: 0,
        accuracy_rate: 0,
        false_positive_rate: 0,
    }
}

/// The statistics after one more credential is checked.
pub open spec fn counted(st: FraudStatistics, fraud: bool) -> FraudStatistics {
    let total = st.total_credentials_checked + 1;
    let detected: int = if fraud { st.fraud_detected + 1 } else { st.fraud_detected as int };
    FraudStatistics {
        total_credentials_checked: total as u64,
        fraud_detected: detected as u64,
        false_positives: st.false_positives,
        accuracy_rate: (((total - st.false_positives) * 100) / total) as u32,
        false_positive_rate: ((st.false_positives * 100) / total) as u32,
    }
}

/// Statistics can be counted once more without overflow.
pub open spec fn can_count(st: FraudStatistics) -> bool {
    &&& st.total_credentials_checked < u64::MAX / 100
    &&& st.fraud_detected < u64::MAX
    &&& st.false_positives <= st.total_credentials_checked
}

/// Confidence from the burst-issuance analyzer.
pub open spec fn issuance_recent(now: u64, issue_date: u64) -> u32 {
    if issue_date <= now && now - issue_date < ISSUANCE_WINDOW { 1 } else { 0 }
}

/// Confidence given a number of recent issuances.
pub open spec fn issuance_confidence(recent: u32) -> u32 {
    if recent > 10 { 95 } else if recent > 5 { 75 } else { 25 }
}

/// Confidence from the signature analyzer.
pub open spec fn signature_confidence(signature: Seq<u8>) -> u32 {
    if signature.len() > 0 { 20 } else { 95 }
}

/// The email is readable text with an `@` in it.
pub open spec fn email_well_formed(email: Seq<u8>) -> bool {
    valid_utf8(email) && email.contains(64u8)
}

/// Number of problems the student-data analyzer finds.
pub open spec fn student_data_issues(data: StudentData, now: u64) -> u32 {
    ((if email_well_formed(data.email@) { 0u32 } else { 1u32 }) + (if data.completion_date > now {
        1u32
    } else {
        0u32
    }) + (if data.name@.len() == 0 { 1u32 } else { 0u32 })) as u32
}

/// Confidence given a number of student-data problems.
pub open spec fn student_data_confidence(issues: u32) -> u32 {
    if issues >= 2 { 85 } else if issues == 1 { 60 } else { 15 }
}

/// Number of timestamp anomalies of a credential.
pub open spec fn timestamp_anomalies(issue: u64, completion: u64, now: u64) -> u32 {
    ((if issue > now { 1u32 } else { 0u32 }) + (if completion > issue { 1u32 } else { 0u32 }) + (if issue
        < YEAR_2000 || completion < YEAR_2000 {
        1u32
    } else {
        0u32
    })) as u32
}

/// Confidence given a number of timestamp anomalies.
pub open spec fn timestamp_confidence(anomalies: u32) -> u32 {
    if anomalies >= 2 { 90 } else if anomalies == 1 { 70 } else { 10 }
}

/// The strongest enabled score at or above the threshold, with its kind; earlier
/// analyzers win ties.
pub open spec fn strongest(c: FraudDetectionConfig, cred: Credential, now: u64) -> (u32, Option<FraudType>) {
    let s0 = (0u32, None::<FraudType>);
    let p = issuance_confidence(issuance_recent(now, cred.issue_date));
    let s1 = if c.pattern_analysis_enabled && p > s0.0 && p >= c.detection_threshold {
        (p, Some(FraudType::UnusualIssuancePattern))
    } else {
        s0
    };
    let g = signature_confidence(cred.signature@);
    let s2 = if c.signature_verification_enabled && g > s1.0 && g >= c.detection_threshold {
        (g, Some(FraudType::ForgedSignature))
    } else {
        s1
    };
    let d = student_data_confidence(student_data_issues(cred.student_data, now));
    let s3 = if c.data_validation_enabled && d > s2.0 && d >= c.detection_threshold {
        (d, Some(FraudType::InvalidStudentData))
    } else {
        s2
    };
    let t = timestamp_confidence(timestamp_anomalies(cred.issue_date, cred.student_data.completion_date, now));
    if c.timestamp_analysis_enabled && t > s3.0 && t >= c.detection_threshold {
        (t, Some(FraudType::TimestampAnomaly))
    } else {
        s3
    }
}

/// The first failed structural check of a credential, if any.
pub open spec fn credential_problem(cred: Credential) -> Option<FraudDetectionError> {
    if all_zero(cred.id@) || all_zero(cred.student_id@) {
        Some(FraudDetectionError::InvalidCredential)
    } else if cred.signature@.len() == 0 {
        Some(FraudDetectionError::InvalidSignature)
    } else if cred.issue_date == 0 {
        Some(FraudDetectionError::InvalidTimestamp)
    } else {
        None
    }
}

/// Every byte is zero: an identifier that was never filled in.
pub open spec fn all_zero(b: Seq<u8>) -> bool {
    forall|i: int| 0 <= i < b.len() ==> b[i] == 0
}

/// Severity of an alert with this confidence.
pub open spec fn severity_for(confidence: u32) -> AlertSeverity {
    if confidence >= 80 {
        AlertSeverity::High
    } else if confidence >= 60 {
        AlertSeverity::Medium
    } else {
        AlertSeverity::Low
    }
}

/// Whether an identifier was never filled in.
fn id_is_blank(id: &[u8; 32]) -> (r: bool)
    ensures
        r == all_zero(id@),
{
    let mut i: usize = 0;
    while i < 32
        invariant
            i <= 32,
            id@.len() == 32,
            forall|j: int| 0 <= j < i ==> id@[j] == 0,
        decreases 32 - i,
    {
        if id[i] != 0 {
            return false;
        }
        i += 1;
    }
    true
}

/// Whether `b` holds the byte `x`.
fn has_byte(b: &Vec<u8>, x: u8) -> (r: bool)
    ensures
        r == b@.contains(x),
{
    let mut i: usize = 0;
    while i < b.len()
        invariant
            i <= b@.len(),
            forall|j: int| 0 <= j < i ==> b@[j] != x,
        decreases b@.len() - i,
    {
        if b[i] == x {
            return true;
        }
        i += 1;
    }
    false
}

/// Entry points of the fraud-detection contract.
pub struct FraudDetectionContract;

impl FraudDetectionContract {
    /// Sets the admin, a configuration with every analyzer on, zero statistics,
    /// empty event and alert lists and the placeholder model.
    pub fn __init__(
        st: &mut FraudDetectionState,
        admin: String,
        detection_threshold: u32,
        alert_cooldown: u64,
    ) -> (r: Result<(), FraudDetectionError>)
        ensures
            r is Ok,
            final(st).admin == Some(admin),
            final(st).config == Some(
                FraudDetectionConfig {
                    detection_threshold,
                    alert_cooldown,
                    pattern_analysis_enabled: true,
                    signature_verification_enabled: true,
                    data_validation_enabled: true,
                    timestamp_analysis_enabled: true,
                },
            ),
            final(st).statistics == Some(zero_statistics()),
            final(st).events@ == Seq::<DetectionEvent>::empty(),
            final(st).alerts@ == Seq::<Alert>::empty(),
            final(st).model@ == seq![1u8, 2u8, 3u8, 4u8, 5u8],
    {
        st.admin = Some(admin);
        st.config = Some(
            FraudDetectionConfig {
                detection_threshold,
                alert_cooldown,
                pattern_analysis_enabled: true,
                signature_verification_enabled: true,
                data_validation_enabled: true,
                timestamp_analysis_enabled: true,
            },
        );
        st.statistics = Some(
            FraudStatistics {
                total_credentials_checked: 0,
                fraud_detected: 0,
                false_positives: 0,
                accuracy_rate: 0,
                false_positive_rate: 0,
            },
        );
        st.events = Vec::new();
        st.alerts = Vec::new();
        let mut model: Vec<u8> = Vec::new();
        model.push(1);
        model.push(2);
        model.push(3);
        model.push(4);
        model.push(5);
        st.model = model;
        Ok(())
    }

    /// Scores a credential with every enabled analyzer and records the verdict.
    pub fn detect_fraud(
        st: &mut FraudDetectionState,
        credential: Credential,
        now: u64,
        contract: &String,
    ) -> (r: Result<DetectionResult, FraudDetectionError>)
        requires
            old(st).statistics matches Some(s) ==> can_count(s),
            old(st).events@.len() < u64::MAX,
            old(st).alerts@.len() < u64::MAX,
        ensures
            credential_problem(credential) matches Some(e) ==> r == Err::<DetectionResult, FraudDetectionError>(e)
                && *final(st) == *old(st),
            credential_problem(credential) is None && old(st).config is None ==> r == Err::<
                DetectionResult,
                FraudDetectionError,
            >(FraudDetectionError::ModelNotInitialized) && *final(st) == *old(st),
            credential_problem(credential) is None && old(st).config is Some ==> {
                let c = old(st).config.unwrap();
                let (best, kind) = strongest(c, credential, now);
                let fraud = best >= c.detection_threshold;
                let prior = match old(st).statistics {
                    Some(s) => s,
                    None => zero_statistics(),
                };
                &&& final(st).statistics == Some(counted(prior, fraud))
                &&& final(st).admin == old(st).admin
                &&& final(st).config == old(st).config
                &&& final(st).model == old(st).model
                &&& !fraud ==> r == Ok::<DetectionResult, FraudDetectionError>(DetectionResult::Clean)
                    && final(st).events == old(st).events && final(st).alerts == old(st).alerts
                &&& fraud && kind is None ==> r == Err::<DetectionResult, FraudDetectionError>(
                    FraudDetectionError::DetectionFailed,
                ) && final(st).events == old(st).events && final(st).alerts == old(st).alerts
                &&& fraud && best >= CONFIRMED_CONFIDENCE && kind is Some ==> {
                    &&& r == Ok::<DetectionResult, FraudDetectionError>(
                        DetectionResult::Confirmed { event_id: old(st).events@.len() as u64, fraud_type: kind.unwrap() },
                    )
                    &&& final(st).events@.len() == old(st).events@.len() + 1
                    &&& final(st).events@.drop_last() == old(st).events@
                    &&& final(st).events@.last().credential_id == credential.id
                    &&& final(st).events@.last().fraud_type == kind.unwrap()
                    &&& final(st).events@.last().confidence_score == best
                    &&& final(st).events@.last().timestamp == now
                    &&& final(st).events@.last().detected_by == *contract
                    &&& final(st).events@.last().details@ == "Fraud detected".spec_bytes()
                    &&& final(st).alerts == old(st).alerts
                }
                &&& fraud && best < CONFIRMED_CONFIDENCE && kind is Some ==> {
                    &&& r == Ok::<DetectionResult, FraudDetectionError>(
                        DetectionResult::Suspicious { alert_id: old(st).alerts@.len() as u64, confidence: best },
                    )
                    &&& final(st).alerts@.len() == old(st).alerts@.len() + 1
                    &&& final(st).alerts@.drop_last() == old(st).alerts@
                    &&& final(st).alerts@.last().id == old(st).alerts@.len()
                    &&& final(st).alerts@.last().credential_id == credential.id
                    &&& final(st).alerts@.last().fraud_type == kind.unwrap()
                    &&& final(st).alerts@.last().severity == severity_for(best)
                    &&& final(st).alerts@.last().confidence_score == best
                    &&& final(st).alerts@.last().timestamp == now
                    &&& !final(st).alerts@.last().acknowledged
                    &&& final(st).alerts@.last().details@ == "Suspicious activity detected".spec_bytes()
                    &&& final(st).events == old(st).events
                }
            },
    {
        Self::validate_credential(&credential)?;
        let config = match st.config {
            Some(c) => c,
            None => {
                return Err(FraudDetectionError::ModelNotInitialized);
            },
        };
        let mut max_confidence: u32 = 0;
        let mut detected: Option<FraudType> = None;
        if config.pattern_analysis_enabled {
            let (confidence, _) = Self::analyze_issuance_pattern(&credential, now);
            if confidence > max_confidence && confidence >= config.detection_threshold {
                max_confidence = confidence;
                detected = Some(FraudType::UnusualIssuancePattern);
            }
        }
        if config.signature_verification_enabled {
            let (confidence, _) = Self::verify_signature(&credential);
            if confidence > max_confidence && confidence >= config.detection_threshold {
                max_confidence = confidence;
                detected = Some(FraudType::ForgedSignature);
            }
        }
        if config.data_validation_enabled {
            let (confidence, _) = Self::validate_student_data(&credential, now);
            if confidence > max_confidence && confidence >= config.detection_threshold {
                max_confidence = confidence;
                detected = Some(FraudType::InvalidStudentData);
            }
        }
        if config.timestamp_analysis_enabled {
            let (confidence, _) = Self::analyze_timestamp(&credential, now);
            if confidence > max_confidence && confidence >= config.detection_threshold {
                max_confidence = confidence;
                detected = Some(FraudType::TimestampAnomaly);
            }
        }
        let fraud = max_confidence >= config.detection_threshold;
        Self::update_statistics(st, fraud);
        if fraud {
            let fraud_type = match detected {
                Some(t) => t,
                None => {
                    return Err(FraudDetectionError::DetectionFailed);
                },
            };
            if max_confidence >= CONFIRMED_CONFIDENCE {
                let event_id = Self::create_detection_event(st, &credential, fraud_type, max_confidence, now, contract);
                Ok(DetectionResult::Confirmed { event_id, fraud_type })
            } else {
                let alert_id = Self::create_alert(st, &credential, fraud_type, max_confidence, now);
                Ok(DetectionResult::Suspicious { alert_id, confidence: max_confidence })
            }
        } else {
            Ok(DetectionResult::Clean)
        }
    }

    /// Burst-issuance analysis: a credential issued within the last hour counts as recent.
    pub fn analyze_issuance_pattern(credential: &Credential, now: u64) -> (r: (u32, Vec<u8>))
        ensures
            r.0 == issuance_confidence(issuance_recent(now, credential.issue_date)),
            r.1@ == "Recent credentials: ".spec_bytes() + decimal_digits(
                issuance_recent(now, credential.issue_date) as nat,
            ),
    {
        let issue_time = credential.issue_date;
        let mut recent_credentials: u32 = 0;
        if issue_time <= now && now - issue_time < ISSUANCE_WINDOW {
            recent_credentials = recent_credentials + 1;
        }
        let confidence = if recent_credentials > 10 {
            95
        } else if recent_credentials > 5 {
            75
        } else {
            25
        };
        (confidence, labelled("Recent credentials: ", recent_credentials as u64))
    }

    /// Signature analysis: an empty signature is a strong sign of forgery.
    pub fn verify_signature(credential: &Credential) -> (r: (u32, Vec<u8>))
        ensures
            r.0 == signature_confidence(credential.signature@),
            r.1@ == (if credential.signature@.len() > 0 {
                "Signature appears valid".spec_bytes()
            } else {
                "Signature verification failed".spec_bytes()
            }),
    {
        let signature_valid = credential.signature.len() > 0;
        if signature_valid {
            (20, text_bytes("Signature appears valid"))
        } else {
            (95, text_bytes("Signature verification failed"))
        }
    }

    /// Student-data analysis: malformed email, completion in the future, empty name.
    pub fn validate_student_data(credential: &Credential, now: u64) -> (r: (u32, Vec<u8>))
        ensures
            r.0 == student_data_confidence(student_data_issues(credential.student_data, now)),
            r.1@ == "Data issues found: ".spec_bytes() + decimal_digits(
                student_data_issues(credential.student_data, now) as nat,
            ),
    {
        let data = &credential.student_data;
        let mut issues: u32 = 0;
        let readable = is_utf8(data.email.as_slice());
        if !(readable && has_byte(&data.email, 64)) {
            issues = issues + 1;
        }
        if data.completion_date > now {
            issues = issues + 1;
        }
        if data.name.len() == 0 {
            issues = issues + 1;
        }
        let confidence = if issues >= 2 {
            85
        } else if issues == 1 {
            60
        } else {
            15
        };
        (confidence, labelled("Data issues found: ", issues as u64))
    }

    /// Timestamp analysis: issue in the future, completion after issue, dates before 2000.
    pub fn analyze_timestamp(credential: &Credential, now: u64) -> (r: (u32, Vec<u8>))
        ensures
            r.0 == timestamp_confidence(
                timestamp_anomalies(credential.issue_date, credential.student_data.completion_date, now),
            ),
            r.1@ == "Timestamp anomalies: ".spec_bytes() + decimal_digits(
                timestamp_anomalies(credential.issue_date, credential.student_data.completion_date, now) as nat,
            ),
    {
        let issue_time = credential.issue_date;
        let completion_time = credential.student_data.completion_date;
        let mut anomalies: u32 = 0;
        if issue_time > now {
            anomalies = anomalies + 1;
        }
        if completion_time > issue_time {
            anomalies = anomalies + 1;
        }
        if issue_time < YEAR_2000 || completion_time < YEAR_2000 {
            anomalies = anomalies + 1;
        }
        let confidence = if anomalies >= 2 {
            90
        } else if anomalies == 1 {
            70
        } else {
            10
        };
        (confidence, labelled("Timestamp anomalies: ", anomalies as u64))
    }

    /// Appends a confirmed detection and returns its index.
    fn create_detection_event(
        st: &mut FraudDetectionState,
        credential: &Credential,
        fraud_type: FraudType,
        confidence: u32,
        now: u64,
        contract: &String,
    ) -> (r: u64)
        requires
            old(st).events@.len() < u64::MAX,
        ensures
            r == old(st).events@.len(),
            final(st).events@.len() == old(st).events@.len() + 1,
            final(st).events@.drop_last() == old(st).events@,
            final(st).events@.last().credential_id == credential.id,
            final(st).events@.last().fraud_type == fraud_type,
            final(st).events@.last().confidence_score == confidence,
            final(st).events@.last().timestamp == now,
            final(st).events@.last().detected_by == *contract,
            final(st).events@.last().details@ == "Fraud detected".spec_bytes(),
            final(st).admin == old(st).admin,
            final(st).config == old(st).config,
            final(st).statistics == old(st).statistics,
            final(st).alerts == old(st).alerts,
            final(st).model == old(st).model,
    {
        let event_id = st.events.len() as u64;
        let event = DetectionEvent {
            credential_id: credential.id,
            fraud_type,
            confidence_score: confidence,
            timestamp: now,
            detected_by: contract.clone(),
            details: text_bytes("Fraud detected"),
        };
        st.events.push(event);
        assert(st.events@.drop_last() =~= old(st).events@);
        event_id
    }

    /// Appends an alert and returns its id.
    fn create_alert(
        st: &mut FraudDetectionState,
        credential: &Credential,
        fraud_type: FraudType,
        confidence: u32,
        now: u64,
    ) -> (r: u64)
        requires
            old(st).alerts@.len() < u64::MAX,
        ensures
            r == old(st).alerts@.len(),
            final(st).alerts@.len() == old(st).alerts@.len() + 1,
            final(st).alerts@.drop_last() == old(st).alerts@,
            final(st).alerts@.last().id == r,
            final(st).alerts@.last().credential_id == credential.id,
            final(st).alerts@.last().fraud_type == fraud_type,
            final(st).alerts@.last().severity == severity_for(confidence),
            final(st).alerts@.last().confidence_score == confidence,
            final(st).alerts@.last().timestamp == now,
            !final(st).alerts@.last().acknowledged,
            final(st).alerts@.last().details@ == "Suspicious activity detected".spec_bytes(),
            final(st).admin == old(st).admin,
            final(st).config == old(st).config,
            final(st).statistics == old(st).statistics,
            final(st).events == old(st).events,
            final(st).model == old(st).model,
    {
        let alert_id = st.alerts.len() as u64;
        let severity = if confidence >= 80 {
            AlertSeverity::High
        } else if confidence >= 60 {
            AlertSeverity::Medium
        } else {
            AlertSeverity::Low
        };
        let alert = Alert {
            id: alert_id,
            credential_id: credential.id,
            fraud_type,
            severity,
            confidence_score: confidence,
            timestamp: now,
            acknowledged: false,
            details: text_bytes("Suspicious activity detected"),
        };
        st.alerts.push(alert);
        assert(st.alerts@.drop_last() =~= old(st).alerts@);
        alert_id
    }

    /// Counts one more checked credential and recomputes the rates.
    fn update_statistics(st: &mut FraudDetectionState, fraud_detected: bool)
        requires
            old(st).statistics matches Some(s) ==> can_count(s),
        ensures
            final(st).statistics == Some(
                counted(
                    match old(st).statistics {
                        Some(s) => s,
                        None => zero_statistics(),
                    },
                    fraud_detected,
                ),
            ),
            final(st).admin == old(st).admin,
            final(st).config == old(st).config,
            final(st).events == old(st).events,
            final(st).alerts == old(st).alerts,
            final(st).model == old(st).model,
    {
        let mut stats = match st.statistics {
            Some(s) => s,
            None => FraudStatistics {
                total_credentials_checked: 0,
                fraud_detected: 0,
                false_positives: 0,
                accuracy_rate: 0,
                false_positive_rate: 0,
            },
        };
        stats.total_credentials_checked = stats.total_credentials_checked + 1;
        if fraud_detected {
            stats.fraud_detected = stats.fraud_detected + 1;
        }
        if stats.total_credentials_checked > 0 {
            stats.accuracy_rate = ((stats.total_credentials_checked - stats.false_positives) * 100
                / stats.total_credentials_checked) as u32;
            stats.false_positive_rate = (stats.false_positives * 100 / stats.total_credentials_checked) as u32;
        }
        st.statistics = Some(stats);
    }

    /// Structural checks of a credential.
    fn validate_credential(credential: &Credential) -> (r: Result<(), FraudDetectionError>)
        ensures
            match credential_problem(*credential) {
                Some(e) => r == Err::<(), FraudDetectionError>(e),
                None => r is Ok,
            },
    {
        if id_is_blank(&credential.id) {
            return Err(FraudDetectionError::InvalidCredential);
        }
        if id_is_blank(&credential.student_id) {
            return Err(FraudDetectionError::InvalidCredential);
        }
        if credential.signature.len() == 0 {
            return Err(FraudDetectionError::InvalidSignature);
        }
        if credential.issue_date == 0 {
            return Err(FraudDetectionError::InvalidTimestamp);
        }
        Ok(())
    }

    /// The last `limit` alerts, oldest first.
    pub fn get_recent_alerts(st: &FraudDetectionState, limit: u32) -> (r: Result<Vec<Alert>, FraudDetectionError>)
        ensures
            r matches Ok(v) && {
                let start = if st.alerts@.len() > limit { st.alerts@.len() - limit } else { 0 };
                &&& v@.len() == st.alerts@.len() - start
                &&& forall|i: int| 0 <= i < v@.len() ==> #[trigger] v@[i].same_as(&st.alerts@[start + i])
            },
    {
        let n = st.alerts.len();
        let start: usize = if n > limit as usize { n - limit as usize } else { 0 };
        let mut recent: Vec<Alert> = Vec::new();
        let mut i = start;
        while i < n
            invariant
                start <= i <= n,
                n == st.alerts@.len(),
                recent@.len() == i - start,
                forall|j: int| 0 <= j < recent@.len() ==> #[trigger] recent@[j].same_as(&st.alerts@[start + j]),
            decreases n - i,
        {
            let a = &st.alerts[i];
            let copy = Alert {
                id: a.id,
                credential_id: a.credential_id,
                fraud_type: a.fraud_type,
                severity: a.severity,
                confidence_score: a.confidence_score,
                timestamp: a.timestamp,
                acknowledged: a.acknowledged,
                details: copy_bytes(&a.details),
            };
            recent.push(copy);
            i += 1;
        }
        Ok(recent)
    }

    /// Marks alert `alert_id` acknowledged.
    pub fn acknowledge_alert(st: &mut FraudDetectionState, alert_id: u64) -> (r: Result<(), FraudDetectionError>)
        ensures
            alert_id >= old(st).alerts@.len() ==> r == Err::<(), FraudDetectionError>(
                FraudDetectionError::AlertNotFound,
            ) && *final(st) == *old(st),
            alert_id < old(st).alerts@.len() ==> {
                &&& r is Ok
                &&& final(st).alerts@ == old(st).alerts@.update(
                    alert_id as int,
                    Alert { acknowledged: true, ..old(st).alerts@[alert_id as int] },
                )
                &&& final(st).admin == old(st).admin
                &&& final(st).config == old(st).config
                &&& final(st).statistics == old(st).statistics
                &&& final(st).events == old(st).events
                &&& final(st).model == old(st).model
            },
    {
        if alert_id >= st.alerts.len() as u64 {
            return Err(FraudDetectionError::AlertNotFound);
        }
        let i = alert_id as usize;
        let mut alert = st.alerts.remove(i);
        alert.acknowledged = true;
        st.alerts.insert(i, alert);
        assert(st.alerts@ =~= old(st).alerts@.update(
            alert_id as int,
            Alert { acknowledged: true, ..old(st).alerts@[alert_id as int] },
        ));
        Ok(())
    }

    /// The statistics, once initialized.
    pub fn get_fraud_statistics(st: &FraudDetectionState) -> (r: Result<FraudStatistics, FraudDetectionError>)
        ensures
            match st.statistics {
                Some(s) => r == Ok::<FraudStatistics, FraudDetectionError>(s),
                None => r == Err::<FraudStatistics, FraudDetectionError>(FraudDetectionError::ModelNotInitialized),
            },
    {
        match st.statistics {
            Some(s) => Ok(s),
            None => Err(FraudDetectionError::ModelNotInitialized),
        }
    }

    /// Replaces the configuration; only the admin may.
    pub fn update_config(
        st: &mut FraudDetectionState,
        admin: &String,
        config: FraudDetectionConfig,
    ) -> (r: Result<(), FraudDetectionError>)
        ensures
            !has_admin_role(*old(st), *admin) ==> r == Err::<(), FraudDetectionError>(
                FraudDetectionError::UnauthorizedAccess,
            ) && *final(st) == *old(st),
            has_admin_role(*old(st), *admin) ==> {
                &&& r is Ok
                &&& final(st).config == Some(config)
                &&& final(st).admin == old(st).admin
                &&& final(st).statistics == old(st).statistics
                &&& final(st).events == old(st).events
                &&& final(st).alerts == old(st).alerts
                &&& final(st).model == old(st).model
            },
    {
        let authorized = match &st.admin {
            Some(a) => *a == *admin,
            None => false,
        };
        if !authorized {
            return Err(FraudDetectionError::UnauthorizedAccess);
        }
        st.config = Some(config);
        Ok(())
    }

    /// The configuration, once initialized.
    pub fn get_config(st: &FraudDetectionState) -> (r: Result<FraudDetectionConfig, FraudDetectionError>)
        ensures
            match st.config {
                Some(c) => r == Ok::<FraudDetectionConfig, FraudDetectionError>(c),
                None => r == Err::<FraudDetectionConfig, FraudDetectionError>(
                    FraudDetectionError::ModelNotInitialized,
                ),
            },
    {
        match st.config {
            Some(c) => Ok(c),
            None => Err(FraudDetectionError::ModelNotInitialized),
        }
    }
}

} // verus!
