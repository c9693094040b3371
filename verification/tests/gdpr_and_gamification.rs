use edu_contracts::gamification::{Gamification, GamificationError};
use edu_contracts::gdpr::{ExportStatus, GdprContract, GdprError, EXPORT_EXPIRATION_SECONDS};

const ABC_DIGEST: [u8; 32] = [
    0xba, 0x78, 0x16, 0xbf, 0x8f, 0x01, 0xcf, 0xea, 0x41, 0x41, 0x40, 0xde, 0x5d, 0xae, 0x22, 0x23, 0xb0, 0x03,
    0x61, 0xa3, 0x96, 0x17, 0x7a, 0x9c, 0xb4, 0x10, 0xff, 0x61, 0xf2, 0x00, 0x15, 0xad,
];

#[test]
fn gdpr_initializes_once() {
    let mut st = GdprContract::new_state();
    GdprContract::initialize(&mut st, "GADMIN".to_string()).unwrap();
    assert_eq!(GdprContract::initialize(&mut st, "GADMIN".to_string()), Err(GdprError::AlreadyInitialized));
}

#[test]
fn export_request_ids_are_sequential() {
    let mut st = GdprContract::new_state();
    let user = "GUSER".to_string();
    assert_eq!(GdprContract::request_export(&mut st, &user, 100), Ok(1));
    assert_eq!(GdprContract::request_export(&mut st, &user, 200), Ok(2));
    assert_eq!(GdprContract::request_export(&mut st, &"GOTHER".to_string(), 300), Ok(3));
    let trail = GdprContract::get_audit_trail(&st, &user, 400).unwrap();
    assert_eq!(trail.len(), 2);
    assert_eq!(trail[0].request_id, 1);
    assert_eq!(trail[1].requested_at, 200);
}

#[test]
fn stored_export_is_read_back_and_verified() {
    let mut st = GdprContract::new_state();
    let user = "GUSER".to_string();
    let id = GdprContract::request_export(&mut st, &user, 1000).unwrap();
    assert_eq!(GdprContract::get_export_status(&st, &user, id, 1001), Ok(ExportStatus::Processing));
    assert_eq!(GdprContract::get_encrypted_export(&st, &user, id, 1001), Err(GdprError::ExportNotReady));
    GdprContract::store_encrypted_export(&mut st, id, [7u8; 32], [8u8; 32], b"abc".to_vec(), ABC_DIGEST, 1002)
        .unwrap();
    assert_eq!(GdprContract::get_export_status(&st, &user, id, 1003), Ok(ExportStatus::Ready));
    let export = GdprContract::get_encrypted_export(&st, &user, id, 1003).unwrap();
    assert_eq!(export.data, b"abc".to_vec());
    assert_eq!(export.salt, [7u8; 32]);
    assert_eq!(export.encryption_version, 1);
    assert_eq!(GdprContract::verify_export_integrity(&st, &user, id), Ok(true));
    assert_eq!(GdprContract::get_export_salt(&st, &user, id), Ok([7u8; 32]));
    assert_eq!(
        GdprContract::get_encrypted_export(&st, &"GOTHER".to_string(), id, 1003),
        Err(GdprError::Unauthorized)
    );
    assert_eq!(GdprContract::get_export_status(&st, &user, 99, 1003), Err(GdprError::ExportRequestNotFound));
    let trail = GdprContract::get_audit_trail(&st, &user, 2000).unwrap();
    assert_eq!(trail[0].data_hash, ABC_DIGEST);
}

#[test]
fn tampered_export_fails_integrity_check() {
    let mut st = GdprContract::new_state();
    let user = "GUSER".to_string();
    let id = GdprContract::request_export(&mut st, &user, 0).unwrap();
    GdprContract::store_encrypted_export(&mut st, id, [0u8; 32], [0u8; 32], b"abd".to_vec(), ABC_DIGEST, 1).unwrap();
    assert_eq!(GdprContract::verify_export_integrity(&st, &user, id), Ok(false));
}

#[test]
fn unfinished_export_expires() {
    let mut st = GdprContract::new_state();
    let user = "GUSER".to_string();
    let id = GdprContract::request_export(&mut st, &user, 10).unwrap();
    let late = 10 + EXPORT_EXPIRATION_SECONDS + 1;
    assert_eq!(GdprContract::get_export_status(&st, &user, id, late), Ok(ExportStatus::Expired));
    assert_eq!(GdprContract::get_encrypted_export(&st, &user, id, late), Err(GdprError::ExportExpired));
    assert_eq!(
        GdprContract::store_encrypted_export(&mut st, id, [0u8; 32], [0u8; 32], b"x".to_vec(), [0u8; 32], late),
        Err(GdprError::ExportExpired)
    );
    assert_eq!(GdprContract::get_export_status(&st, &user, id, 11), Ok(ExportStatus::Expired));
    assert_eq!(GdprContract::verify_export_integrity(&st, &user, id), Err(GdprError::DataRetrievalFailed));
}

#[test]
fn old_audit_records_drop_out_of_the_trail() {
    let mut st = GdprContract::new_state();
    let user = "GUSER".to_string();
    GdprContract::request_export(&mut st, &user, 5).unwrap();
    GdprContract::request_export(&mut st, &user, 40_000_000).unwrap();
    let trail = GdprContract::get_audit_trail(&st, &user, 40_000_001).unwrap();
    assert_eq!(trail.len(), 1);
    assert_eq!(trail[0].request_id, 2);
    assert!(GdprContract::get_audit_trail(&st, &"GNOBODY".to_string(), 0).unwrap().is_empty());
}

#[test]
fn gamification_initializes_once_with_defaults() {
    let mut st = Gamification::new_state();
    assert_eq!(Gamification::get_admin(&st), None);
    Gamification::initialize(&mut st, "GADMIN".to_string()).unwrap();
    assert_eq!(Gamification::get_admin(&st), Some("GADMIN".to_string()));
    let config = st.config.unwrap();
    assert_eq!(config.base_module_xp, 50);
    assert_eq!(config.base_course_xp, 500);
    assert_eq!(config.max_endorsements_per_day, 5);
    assert_eq!(config.guild_max_members, 50);
    let again = Gamification::initialize(&mut st, "GOTHER".to_string());
    assert_eq!(again, Err(GamificationError::AlreadyInitialized));
    assert_eq!(again.unwrap_err().code(), 1);
    assert_eq!(Gamification::get_admin(&st), Some("GADMIN".to_string()));
}

#[test]
fn gamification_error_codes() {
    assert_eq!(GamificationError::NotInitialized.code(), 2);
    assert_eq!(GamificationError::GuildNameTooLong.code(), 23);
    assert_eq!(GamificationError::InsufficientXP.code(), 25);
}
