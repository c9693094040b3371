use edu_contracts::documentation::contract::DocumentationContract;
use edu_contracts::documentation::documents::DocumentManager;
use edu_contracts::documentation::errors::DocumentationError;
use edu_contracts::documentation::storage::{Counter, Storage};
use edu_contracts::documentation::types::{DocumentStatus, DocumentType};
use edu_contracts::documentation::versions::VersionManager;

#[test]
fn creation_before_initialization_is_refused() {
    let mut st = Storage::new();
    let r = DocumentationContract::create_document(
        &mut st,
        &"GUSER".to_string(),
        "d".to_string(),
        "T".to_string(),
        "C".to_string(),
        DocumentType::Guide,
        "cat".to_string(),
        Vec::new(),
        "en".to_string(),
        0,
    );
    assert_eq!(r.unwrap_err(), DocumentationError::NotInitialized);
    assert_eq!(DocumentationContract::get_config(&st).unwrap_err(), DocumentationError::NotInitialized);
    assert_eq!(st.get_counter(Counter::TotalDocuments), 0);
}

#[test]
fn oversized_content_is_refused() {
    let mut st = Storage::new();
    DocumentationContract::initialize(&mut st, "GADMIN".to_string()).unwrap();
    let big = "x".repeat(100_001);
    let r = DocumentationContract::create_document(
        &mut st,
        &"GUSER".to_string(),
        "big".to_string(),
        "T".to_string(),
        big,
        DocumentType::Guide,
        "cat".to_string(),
        Vec::new(),
        "en".to_string(),
        0,
    );
    assert_eq!(r.unwrap_err(), DocumentationError::DocumentTooLarge);
    let fits = "x".repeat(100_000);
    assert!(DocumentationContract::create_document(
        &mut st,
        &"GUSER".to_string(),
        "fits".to_string(),
        "T".to_string(),
        fits,
        DocumentType::Guide,
        "cat".to_string(),
        Vec::new(),
        "en".to_string(),
        0,
    )
    .is_ok());
    assert!(DocumentManager::get_document(&st, &"big".to_string()).is_none());
}

#[test]
fn a_refused_duplicate_leaves_the_first_document() {
    let mut st = Storage::new();
    DocumentationContract::initialize(&mut st, "GADMIN".to_string()).unwrap();
    for title in ["First", "Second"] {
        let _ = DocumentationContract::create_document(
            &mut st,
            &"GUSER".to_string(),
            "same".to_string(),
            title.to_string(),
            "C".to_string(),
            DocumentType::Guide,
            "cat".to_string(),
            Vec::new(),
            "en".to_string(),
            0,
        );
    }
    let doc = DocumentManager::get_document(&st, &"same".to_string()).unwrap();
    assert_eq!(doc.title, "First".to_string());
    assert_eq!(st.get_counter(Counter::TotalDocuments), 1);
}

#[test]
fn missing_documents_are_reported() {
    let mut st = Storage::new();
    assert_eq!(
        DocumentManager::publish_document(&mut st, "nope".to_string(), 0),
        Err(DocumentationError::DocumentNotFound)
    );
    assert_eq!(
        DocumentManager::increment_view_count(&mut st, "nope".to_string()),
        Err(DocumentationError::DocumentNotFound)
    );
    assert_eq!(
        DocumentManager::mark_helpful(&mut st, "nope".to_string()),
        Err(DocumentationError::DocumentNotFound)
    );
    assert!(VersionManager::get_current_version(&st, "nope".to_string()).is_none());
}

#[test]
fn status_update_is_kept() {
    let mut st = Storage::new();
    DocumentationContract::initialize(&mut st, "GADMIN".to_string()).unwrap();
    DocumentationContract::create_document(
        &mut st,
        &"GUSER".to_string(),
        "d".to_string(),
        "T".to_string(),
        "C".to_string(),
        DocumentType::Reference,
        "cat".to_string(),
        Vec::new(),
        "en".to_string(),
        5,
    )
    .unwrap();
    let d = DocumentManager::update_document(&mut st, "d".to_string(), None, None, Some(DocumentStatus::Archived), None, 9)
        .unwrap();
    assert_eq!(d.status, DocumentStatus::Archived);
    assert_eq!(d.updated_at, 9);
    assert_eq!(d.created_at, 5);
}

#[test]
fn error_codes_and_actions() {
    assert_eq!(DocumentationError::NotInitialized.code(), "DOC-001");
    assert_eq!(DocumentationError::AlreadyExists.code(), "DOC-013");
    assert_eq!(DocumentationError::RateLimitExceeded.code(), "DOC-014");
    assert_eq!(
        DocumentationError::DocumentTooLarge.action(),
        "Reduce the document size to the configured limit and retry"
    );
    assert_eq!(
        DocumentationError::VersionNotFound.action(),
        "Verify the referenced documentation resource exists before retrying"
    );
}
