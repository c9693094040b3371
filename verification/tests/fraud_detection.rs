use edu_contracts::fraud_detection::{
    AlertSeverity, Credential, DetectionResult, FraudDetectionConfig, FraudDetectionContract,
    FraudDetectionError, FraudDetectionState, FraudType, StudentData,
};

const ADMIN: &str = "GADMIN";
const CONTRACT: &str = "CFRAUD";

fn bytes(t: &str) -> Vec<u8> {
    t.as_bytes().to_vec()
}

fn create_test_credential() -> Credential {
    Credential {
        id: [1u8; 32],
        student_id: [2u8; 32],
        issuer: "GISSUER".to_string(),
        issue_date: 1640995200,
        signature: bytes("test_signature"),
        student_data: StudentData {
            name: bytes("John Doe"),
            email: bytes("john.doe@example.com"),
            institution: bytes("Test University"),
            course: bytes("Computer Science"),
            grade: bytes("A"),
            completion_date: 1640995200,
        },
    }
}

fn init(threshold: u32, cooldown: u64) -> FraudDetectionState {
    let mut st = FraudDetectionState::new();
    FraudDetectionContract::__init__(&mut st, ADMIN.to_string(), threshold, cooldown).unwrap();
    st
}

fn detect(st: &mut FraudDetectionState, c: Credential, now: u64) -> Result<DetectionResult, FraudDetectionError> {
    FraudDetectionContract::detect_fraud(st, c, now, &CONTRACT.to_string())
}

#[test]
fn test_fraud_detection_initialization() {
    let mut st = FraudDetectionState::new();
    let result = FraudDetectionContract::__init__(&mut st, ADMIN.to_string(), 80, 3600);
    assert!(result.is_ok());
    let config = FraudDetectionContract::get_config(&st).unwrap();
    assert_eq!(config.detection_threshold, 80);
    assert_eq!(config.alert_cooldown, 3600);
    assert!(config.pattern_analysis_enabled);
    assert!(config.signature_verification_enabled);
    assert!(config.data_validation_enabled);
    assert!(config.timestamp_analysis_enabled);
}

#[test]
fn test_clean_credential_detection() {
    let mut st = init(80, 3600);
    let result = detect(&mut st, create_test_credential(), 0).unwrap();
    assert_eq!(result, DetectionResult::Clean);
}

#[test]
fn test_issuance_pattern_analysis() {
    let credential = create_test_credential();
    let (confidence, details) = FraudDetectionContract::analyze_issuance_pattern(&credential, 0);
    assert!(confidence <= 100);
    assert!(!details.is_empty());
}

#[test]
fn test_signature_verification() {
    let credential = create_test_credential();
    let (confidence, details) = FraudDetectionContract::verify_signature(&credential);
    assert!(confidence <= 100);
    assert!(!details.is_empty());
    let mut fraudulent = credential.clone();
    fraudulent.signature = Vec::new();
    let (confidence, _) = FraudDetectionContract::verify_signature(&fraudulent);
    assert!(confidence >= 90);
}

#[test]
fn test_student_data_validation() {
    let credential = create_test_credential();
    let (confidence, details) = FraudDetectionContract::validate_student_data(&credential, 0);
    assert!(confidence <= 100);
    assert!(!details.is_empty());
    let mut fraudulent = credential.clone();
    fraudulent.student_data.email = bytes("invalid_email");
    fraudulent.student_data.name = Vec::new();
    let (confidence, _) = FraudDetectionContract::validate_student_data(&fraudulent, 0);
    assert!(confidence >= 60);
}

#[test]
fn test_timestamp_analysis() {
    let credential = create_test_credential();
    let (confidence, details) = FraudDetectionContract::analyze_timestamp(&credential, 0);
    assert!(confidence <= 100);
    assert!(!details.is_empty());
    let mut fraudulent = credential.clone();
    fraudulent.issue_date = 86400;
    let (confidence, _) = FraudDetectionContract::analyze_timestamp(&fraudulent, 0);
    assert!(confidence >= 70);
}

#[test]
fn test_configuration_update() {
    let mut st = init(80, 3600);
    let new_config = FraudDetectionConfig {
        detection_threshold: 90,
        alert_cooldown: 7200,
        pattern_analysis_enabled: false,
        signature_verification_enabled: true,
        data_validation_enabled: true,
        timestamp_analysis_enabled: false,
    };
    let result = FraudDetectionContract::update_config(&mut st, &"GINTRUDER".to_string(), new_config);
    assert!(matches!(result, Err(FraudDetectionError::UnauthorizedAccess)));
    let result = FraudDetectionContract::update_config(&mut st, &ADMIN.to_string(), new_config);
    assert!(result.is_ok());
    let config = FraudDetectionContract::get_config(&st).unwrap();
    assert_eq!(config.detection_threshold, 90);
    assert_eq!(config.alert_cooldown, 7200);
    assert!(!config.pattern_analysis_enabled);
    assert!(!config.timestamp_analysis_enabled);
}

#[test]
fn test_invalid_credential_validation() {
    let mut st = init(80, 3600);
    let mut invalid = create_test_credential();
    invalid.id = [0u8; 32];
    assert!(matches!(detect(&mut st, invalid, 0), Err(FraudDetectionError::InvalidCredential)));
    let mut invalid = create_test_credential();
    invalid.signature = Vec::new();
    assert!(matches!(detect(&mut st, invalid, 0), Err(FraudDetectionError::InvalidSignature)));
    let mut invalid = create_test_credential();
    invalid.issue_date = 0;
    assert!(matches!(detect(&mut st, invalid, 0), Err(FraudDetectionError::InvalidTimestamp)));
}

#[test]
fn test_false_positive_rate() {
    let mut st = init(95, 3600);
    let mut total_tests = 0;
    let mut false_positives = 0;
    for i in 0..10u8 {
        let mut credential = create_test_credential();
        credential.id = [i + 10; 32];
        let result = detect(&mut st, credential, 0).unwrap();
        total_tests += 1;
        match result {
            DetectionResult::Clean => {}
            DetectionResult::Suspicious { .. } | DetectionResult::Confirmed { .. } => {
                false_positives += 1;
            }
        }
    }
    let false_positive_rate = (false_positives * 100) / total_tests;
    assert!(false_positive_rate <= 2, "False positive rate should be <= 2%, got {}%", false_positive_rate);
}

#[test]
fn suspicious_student_data_raises_an_alert_that_can_be_acknowledged() {
    let mut st = init(50, 3600);
    let mut credential = create_test_credential();
    credential.student_data.name = Vec::new();
    credential.student_data.email = bytes("invalid_email");
    let result = detect(&mut st, credential, 1_700_000_000).unwrap();
    assert_eq!(
        result,
        DetectionResult::Suspicious { alert_id: 0, confidence: 85 }
    );
    let alerts = FraudDetectionContract::get_recent_alerts(&st, 10).unwrap();
    assert_eq!(alerts.len(), 1);
    assert_eq!(alerts[0].fraud_type, FraudType::InvalidStudentData);
    assert_eq!(alerts[0].severity, AlertSeverity::High);
    assert!(!alerts[0].acknowledged);
    FraudDetectionContract::acknowledge_alert(&mut st, 0).unwrap();
    assert!(FraudDetectionContract::get_recent_alerts(&st, 10).unwrap()[0].acknowledged);
    assert_eq!(
        FraudDetectionContract::acknowledge_alert(&mut st, 7),
        Err(FraudDetectionError::AlertNotFound)
    );
    let stats = FraudDetectionContract::get_fraud_statistics(&st).unwrap();
    assert_eq!(stats.total_credentials_checked, 1);
    assert_eq!(stats.fraud_detected, 1);
}

#[test]
fn old_timestamps_are_confirmed_fraud() {
    let mut st = init(50, 3600);
    let mut credential = create_test_credential();
    credential.issue_date = 86400;
    credential.student_data.completion_date = 172800;
    let result = detect(&mut st, credential, 1_700_000_000).unwrap();
    assert_eq!(
        result,
        DetectionResult::Confirmed { event_id: 0, fraud_type: FraudType::TimestampAnomaly }
    );
    let stats = FraudDetectionContract::get_fraud_statistics(&st).unwrap();
    assert_eq!(stats.total_credentials_checked, 1);
    assert_eq!(stats.fraud_detected, 1);
    assert_eq!(stats.accuracy_rate, 100);
}

#[test]
fn email_check_reads_the_bytes_as_text() {
    let mut credential = create_test_credential();
    credential.student_data.email = vec![0xff, b'@', 0xfe];
    let (confidence, details) = FraudDetectionContract::validate_student_data(&credential, 1_700_000_000);
    assert_eq!(confidence, 60);
    assert_eq!(details, bytes("Data issues found: 1"));
    let (confidence, details) = FraudDetectionContract::validate_student_data(&create_test_credential(), 1_700_000_000);
    assert_eq!(confidence, 15);
    assert_eq!(details, bytes("Data issues found: 0"));
}

#[test]
fn detection_before_initialization_is_refused() {
    let mut st = FraudDetectionState::new();
    assert_eq!(detect(&mut st, create_test_credential(), 0), Err(FraudDetectionError::ModelNotInitialized));
    assert_eq!(FraudDetectionContract::get_config(&st), Err(FraudDetectionError::ModelNotInitialized));
}
