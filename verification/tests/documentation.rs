use edu_contracts::documentation::analytics::AnalyticsManager;
use edu_contracts::documentation::api_docs::ApiDocManager;
use edu_contracts::documentation::contract::DocumentationContract;
use edu_contracts::documentation::contributions::ContributionManager;
use edu_contracts::documentation::documents::DocumentManager;
use edu_contracts::documentation::errors::DocumentationError;
use edu_contracts::documentation::knowledge::KnowledgeManager;
use edu_contracts::documentation::storage::{Counter, Storage};
use edu_contracts::documentation::translations::TranslationManager;
use edu_contracts::documentation::tutorials::TutorialManager;
use edu_contracts::documentation::types::{
    ApiParameter, CodeExample, ContributionStatus, ContributionType, DifficultyLevel, Document,
    DocumentStatus, DocumentType, TranslationStatus, Tutorial, TutorialStep,
};
use edu_contracts::documentation::versions::VersionManager;

const ADMIN: &str = "GADMIN";
const USER1: &str = "GUSER1";
const USER2: &str = "GUSER2";

fn s(t: &str) -> String {
    t.to_string()
}

fn setup() -> Storage {
    let mut st = Storage::new();
    DocumentationContract::initialize(&mut st, s(ADMIN)).unwrap();
    st
}

fn create_doc(
    st: &mut Storage,
    author: &str,
    id: &str,
    title: &str,
    content: &str,
    doc_type: DocumentType,
    category: &str,
    tags: Vec<String>,
) -> Result<Document, DocumentationError> {
    DocumentationContract::create_document(
        st,
        &s(author),
        s(id),
        s(title),
        s(content),
        doc_type,
        s(category),
        tags,
        s("en"),
        0,
    )
}

fn create_article(st: &mut Storage, author: &str, id: &str, title: &str, content: &str, tags: Vec<String>) {
    KnowledgeManager::create_article(st, s(id), s(title), s(content), s("cat"), &s(author), tags, 0).unwrap();
}

fn create_endpoint(st: &mut Storage, id: &str, params: Vec<ApiParameter>) {
    ApiDocManager::create_endpoint(
        st,
        s(id),
        s("N"),
        s("D"),
        s("GET"),
        s("/p"),
        params,
        s("{}"),
        s("1.0"),
    )
    .unwrap();
}

fn create_tutorial(
    st: &mut Storage,
    author: &str,
    id: &str,
    difficulty: DifficultyLevel,
    time: u32,
    steps: Vec<TutorialStep>,
    prereqs: Vec<String>,
) -> Tutorial {
    TutorialManager::create_tutorial(st, s(id), s("T"), s("D"), difficulty, time, &s(author), steps, prereqs, 0)
        .unwrap()
}

fn submit(st: &mut Storage, user: &str, id: &str, doc: &str, ct: ContributionType, content: &str) {
    DocumentationContract::submit_contribution(st, &s(user), s(id), s(doc), ct, s(content), 0).unwrap();
}

fn translate(st: &mut Storage, user: &str, id: &str, doc: &str, lang: &str) {
    TranslationManager::create_translation(st, s(id), s(doc), s(lang), s("T"), s("C"), &s(user), 0).unwrap();
}

#[test]
fn test_initialize() {
    let st = setup();
    let config = DocumentationContract::get_config(&st).unwrap();
    assert_eq!(config.admin, s(ADMIN));
    assert_eq!(config.max_doc_size, 100_000);
    assert!(config.require_review);
    assert!(config.enable_contributions);
    assert!(config.enable_analytics);
}

#[test]
#[should_panic(expected = "AlreadyInitialized")]
fn test_double_initialize() {
    let mut st = setup();
    DocumentationContract::initialize(&mut st, s(ADMIN)).unwrap();
}

#[test]
fn test_initial_counters_are_zero() {
    let st = setup();
    assert_eq!(st.get_counter(Counter::TotalDocuments), 0);
    assert_eq!(st.get_counter(Counter::TotalViews), 0);
    assert_eq!(st.get_counter(Counter::TotalContributions), 0);
}

#[test]
fn test_create_document() {
    let mut st = setup();
    let doc = create_doc(
        &mut st,
        USER1,
        "doc-1",
        "Getting Started",
        "Welcome to the guide",
        DocumentType::Guide,
        "tutorials",
        vec![s("soroban")],
    )
    .unwrap();
    assert_eq!(doc.doc_id, s("doc-1"));
    assert_eq!(doc.title, s("Getting Started"));
    assert_eq!(doc.author, s(USER1));
    assert_eq!(doc.version, 1);
    assert_eq!(doc.status, DocumentStatus::Draft);
    assert_eq!(doc.view_count, 0);
    assert_eq!(doc.helpful_count, 0);
    assert_eq!(st.get_counter(Counter::TotalDocuments), 1);
}

#[test]
#[should_panic(expected = "AlreadyExists")]
fn test_create_duplicate_document() {
    let mut st = setup();
    create_doc(&mut st, USER1, "doc-dup", "Title", "Content", DocumentType::Guide, "cat", vec![]).unwrap();
    create_doc(&mut st, USER1, "doc-dup", "Title", "Content", DocumentType::Guide, "cat", vec![]).unwrap();
}

#[test]
fn test_get_document() {
    let mut st = setup();
    create_doc(&mut st, USER1, "doc-get", "Title", "Content", DocumentType::Article, "general", vec![]).unwrap();
    let fetched = DocumentManager::get_document(&st, &s("doc-get"));
    assert!(fetched.is_some());
    assert_eq!(fetched.unwrap().doc_id, s("doc-get"));
}

#[test]
fn test_get_nonexistent_document() {
    let st = setup();
    assert!(DocumentManager::get_document(&st, &s("no-exist")).is_none());
}

#[test]
fn test_update_document_title() {
    let mut st = setup();
    create_doc(&mut st, USER1, "doc-upd", "Old Title", "Content", DocumentType::Guide, "cat", vec![]).unwrap();
    let updated =
        DocumentManager::update_document(&mut st, s("doc-upd"), Some(s("New Title")), None, None, None, 0).unwrap();
    assert_eq!(updated.title, s("New Title"));
    assert_eq!(updated.version, 1);
}

#[test]
fn test_update_document_content_bumps_version() {
    let mut st = setup();
    create_doc(&mut st, USER1, "doc-ver", "Title", "Old content", DocumentType::Guide, "cat", vec![]).unwrap();
    let updated =
        DocumentManager::update_document(&mut st, s("doc-ver"), None, Some(s("New content")), None, None, 0).unwrap();
    assert_eq!(updated.version, 2);
    assert_eq!(updated.content, s("New content"));
}

#[test]
fn test_publish_document() {
    let mut st = setup();
    create_doc(&mut st, USER1, "doc-pub", "Title", "Content", DocumentType::Guide, "cat", vec![]).unwrap();
    DocumentManager::publish_document(&mut st, s("doc-pub"), 0).unwrap();
    let doc = DocumentManager::get_document(&st, &s("doc-pub")).unwrap();
    assert_eq!(doc.status, DocumentStatus::Published);
}

#[test]
fn test_view_document_increments_count() {
    let mut st = setup();
    create_doc(&mut st, USER1, "doc-view", "Title", "Content", DocumentType::Guide, "cat", vec![]).unwrap();
    DocumentManager::increment_view_count(&mut st, s("doc-view")).unwrap();
    DocumentManager::increment_view_count(&mut st, s("doc-view")).unwrap();
    DocumentManager::increment_view_count(&mut st, s("doc-view")).unwrap();
    let doc = DocumentManager::get_document(&st, &s("doc-view")).unwrap();
    assert_eq!(doc.view_count, 3);
    assert_eq!(st.get_counter(Counter::TotalViews), 3);
}

#[test]
fn test_mark_helpful() {
    let mut st = setup();
    create_doc(&mut st, USER1, "doc-help", "Title", "Content", DocumentType::Guide, "cat", vec![]).unwrap();
    DocumentManager::mark_helpful(&mut st, s("doc-help")).unwrap();
    let doc = DocumentManager::get_document(&st, &s("doc-help")).unwrap();
    assert_eq!(doc.helpful_count, 1);
}

#[test]
fn test_get_documents_by_category() {
    let mut st = setup();
    create_doc(&mut st, USER1, "d1", "T1", "C1", DocumentType::Guide, "blockchain", vec![]).unwrap();
    create_doc(&mut st, USER1, "d2", "T2", "C2", DocumentType::Article, "blockchain", vec![]).unwrap();
    let docs = DocumentManager::get_documents_by_category(&st, &s("blockchain"));
    assert_eq!(docs.len(), 2);
}

#[test]
fn test_get_documents_by_author() {
    let mut st = setup();
    create_doc(&mut st, USER1, "a1", "T", "C", DocumentType::Guide, "cat", vec![]).unwrap();
    create_doc(&mut st, USER2, "a2", "T", "C", DocumentType::Guide, "cat", vec![]).unwrap();
    assert_eq!(DocumentManager::get_documents_by_author(&st, &s(USER1)).len(), 1);
    assert_eq!(DocumentManager::get_documents_by_author(&st, &s(USER2)).len(), 1);
}

#[test]
fn test_create_version() {
    let mut st = setup();
    create_doc(&mut st, USER1, "doc-v", "Title", "V1 content", DocumentType::Guide, "cat", vec![]).unwrap();
    let version = VersionManager::create_version(
        &mut st,
        s("doc-v"),
        1,
        s("Version 1 content"),
        &s(USER1),
        s("Initial release"),
        0,
    )
    .unwrap();
    assert_eq!(version.version_number, 1);
    assert!(version.is_current);
    assert_eq!(version.changelog, s("Initial release"));
}

#[test]
fn test_create_multiple_versions() {
    let mut st = setup();
    create_doc(&mut st, USER1, "doc-mv", "Title", "Content", DocumentType::Guide, "cat", vec![]).unwrap();
    VersionManager::create_version(&mut st, s("doc-mv"), 1, s("V1"), &s(USER1), s("First"), 0).unwrap();
    let v2 = VersionManager::create_version(&mut st, s("doc-mv"), 2, s("V2"), &s(USER1), s("Second"), 0).unwrap();
    assert!(v2.is_current);
    let v1 = VersionManager::get_version(&st, s("doc-mv"), 1).unwrap();
    assert!(!v1.is_current);
}

#[test]
fn test_get_version() {
    let mut st = setup();
    create_doc(&mut st, USER1, "doc-gv", "Title", "Content", DocumentType::Guide, "cat", vec![]).unwrap();
    VersionManager::create_version(&mut st, s("doc-gv"), 1, s("V1 content"), &s(USER1), s("changelog"), 0).unwrap();
    assert!(VersionManager::get_version(&st, s("doc-gv"), 1).is_some());
    assert!(VersionManager::get_version(&st, s("doc-gv"), 99).is_none());
}

#[test]
fn test_get_current_version() {
    let mut st = setup();
    create_doc(&mut st, USER1, "doc-cv", "Title", "Content", DocumentType::Guide, "cat", vec![]).unwrap();
    VersionManager::create_version(&mut st, s("doc-cv"), 1, s("V1"), &s(USER1), s("Log"), 0).unwrap();
    let current = VersionManager::get_current_version(&st, s("doc-cv"));
    assert!(current.is_some());
    assert_eq!(current.unwrap().version_number, 1);
}

#[test]
fn test_create_article() {
    let mut st = setup();
    let article = KnowledgeManager::create_article(
        &mut st,
        s("art-1"),
        s("Stellar Basics"),
        s("Learn about Stellar"),
        s("blockchain"),
        &s(USER1),
        vec![s("stellar")],
        0,
    )
    .unwrap();
    assert_eq!(article.article_id, s("art-1"));
    assert_eq!(article.author, s(USER1));
    assert_eq!(article.helpful_votes, 0);
    assert_eq!(article.not_helpful_votes, 0);
}

#[test]
#[should_panic(expected = "AlreadyExists")]
fn test_create_duplicate_article() {
    let mut st = setup();
    create_article(&mut st, USER1, "art-dup", "T", "C", vec![]);
    create_article(&mut st, USER1, "art-dup", "T", "C", vec![]);
}

#[test]
fn test_create_faq() {
    let mut st = setup();
    let faq = KnowledgeManager::create_faq(
        &mut st,
        s("faq-1"),
        s("What is Soroban?"),
        s("Soroban is a smart contract platform"),
        s("general"),
        &s(USER1),
        1,
        0,
    )
    .unwrap();
    assert_eq!(faq.faq_id, s("faq-1"));
    assert_eq!(faq.order_index, 1);
    assert_eq!(faq.view_count, 0);
}

#[test]
#[should_panic(expected = "AlreadyExists")]
fn test_create_duplicate_faq() {
    let mut st = setup();
    KnowledgeManager::create_faq(&mut st, s("faq-dup"), s("Q"), s("A"), s("cat"), &s(USER1), 1, 0).unwrap();
    KnowledgeManager::create_faq(&mut st, s("faq-dup"), s("Q"), s("A"), s("cat"), &s(USER1), 2, 0).unwrap();
}

#[test]
fn test_vote_article_helpful() {
    let mut st = setup();
    create_article(&mut st, USER1, "art-vote", "T", "C", vec![]);
    KnowledgeManager::vote_article(&mut st, s("art-vote"), true).unwrap();
    let article = KnowledgeManager::get_article(&st, &s("art-vote")).unwrap();
    assert_eq!(article.helpful_votes, 1);
    assert_eq!(article.not_helpful_votes, 0);
}

#[test]
fn test_vote_article_not_helpful() {
    let mut st = setup();
    create_article(&mut st, USER1, "art-down", "T", "C", vec![]);
    KnowledgeManager::vote_article(&mut st, s("art-down"), false).unwrap();
    let article = KnowledgeManager::get_article(&st, &s("art-down")).unwrap();
    assert_eq!(article.helpful_votes, 0);
    assert_eq!(article.not_helpful_votes, 1);
}

#[test]
fn test_get_article() {
    let mut st = setup();
    create_article(&mut st, USER1, "art-get", "Title", "Content", vec![]);
    assert!(KnowledgeManager::get_article(&st, &s("art-get")).is_some());
    assert!(KnowledgeManager::get_article(&st, &s("nope")).is_none());
}

#[test]
fn test_get_faq() {
    let mut st = setup();
    KnowledgeManager::create_faq(&mut st, s("faq-get"), s("Q?"), s("A."), s("cat"), &s(USER1), 0, 0).unwrap();
    assert!(KnowledgeManager::get_faq(&st, &s("faq-get")).is_some());
    assert!(KnowledgeManager::get_faq(&st, &s("nope")).is_none());
}

#[test]
fn test_create_api_endpoint() {
    let mut st = setup();
    let params = vec![ApiParameter {
        name: s("course_id"),
        param_type: s("string"),
        required: true,
        description: s("The course identifier"),
        default_value: None,
    }];
    let endpoint = ApiDocManager::create_endpoint(
        &mut st,
        s("ep-1"),
        s("Get Course"),
        s("Retrieve a course by ID"),
        s("GET"),
        s("/api/v1/courses/{id}"),
        params,
        s("{\"id\":\"string\",\"title\":\"string\"}"),
        s("1.0.0"),
    )
    .unwrap();
    assert_eq!(endpoint.endpoint_id, s("ep-1"));
    assert_eq!(endpoint.code_examples.len(), 0);
}

#[test]
#[should_panic(expected = "AlreadyExists")]
fn test_create_duplicate_api_endpoint() {
    let mut st = setup();
    create_endpoint(&mut st, "ep-dup", vec![]);
    create_endpoint(&mut st, "ep-dup", vec![]);
}

#[test]
fn test_add_code_example_to_endpoint() {
    let mut st = setup();
    create_endpoint(&mut st, "ep-ex", vec![]);
    let example = CodeExample {
        example_id: s("ex-1"),
        title: s("cURL Example"),
        code: s("curl -X POST /api/data"),
        language: s("bash"),
        description: s("Using cURL"),
    };
    ApiDocManager::add_code_example(&mut st, s("ep-ex"), example).unwrap();
    let ep = ApiDocManager::get_endpoint(&st, &s("ep-ex")).unwrap();
    assert_eq!(ep.code_examples.len(), 1);
}

#[test]
fn test_get_api_endpoint() {
    let mut st = setup();
    create_endpoint(&mut st, "ep-get", vec![]);
    assert!(ApiDocManager::get_endpoint(&st, &s("ep-get")).is_some());
    assert!(ApiDocManager::get_endpoint(&st, &s("nope")).is_none());
}

#[test]
fn test_create_tutorial() {
    let mut st = setup();
    let steps = vec![
        TutorialStep {
            step_number: 1,
            title: s("Setup"),
            content: s("Install Soroban CLI"),
            code_snippet: Some(s("cargo install soroban-cli")),
            validation_criteria: None,
        },
        TutorialStep {
            step_number: 2,
            title: s("Create Project"),
            content: s("Initialize a new project"),
            code_snippet: Some(s("soroban init my-project")),
            validation_criteria: Some(s("Project directory created")),
        },
    ];
    let tutorial = TutorialManager::create_tutorial(
        &mut st,
        s("tut-1"),
        s("Build Your First Contract"),
        s("Learn to build Soroban contracts"),
        DifficultyLevel::Beginner,
        30,
        &s(USER1),
        steps,
        vec![s("Rust basics")],
        0,
    )
    .unwrap();
    assert_eq!(tutorial.tutorial_id, s("tut-1"));
    assert_eq!(tutorial.difficulty, DifficultyLevel::Beginner);
    assert_eq!(tutorial.estimated_time, 30);
    assert_eq!(tutorial.steps.len(), 2);
    assert_eq!(tutorial.prerequisites.len(), 1);
    assert_eq!(tutorial.completion_count, 0);
}

#[test]
#[should_panic(expected = "AlreadyExists")]
fn test_create_duplicate_tutorial() {
    let mut st = setup();
    create_tutorial(&mut st, USER1, "tut-dup", DifficultyLevel::Beginner, 10, vec![], vec![]);
    create_tutorial(&mut st, USER1, "tut-dup", DifficultyLevel::Beginner, 10, vec![], vec![]);
}

#[test]
fn test_complete_tutorial() {
    let mut st = setup();
    create_tutorial(&mut st, USER1, "tut-comp", DifficultyLevel::Intermediate, 60, vec![], vec![]);
    TutorialManager::complete_tutorial(&mut st, s("tut-comp")).unwrap();
    TutorialManager::complete_tutorial(&mut st, s("tut-comp")).unwrap();
    let tut = TutorialManager::get_tutorial(&st, &s("tut-comp")).unwrap();
    assert_eq!(tut.completion_count, 2);
}

#[test]
fn test_get_tutorial() {
    let mut st = setup();
    create_tutorial(&mut st, USER1, "tut-get", DifficultyLevel::Advanced, 120, vec![], vec![]);
    assert!(TutorialManager::get_tutorial(&st, &s("tut-get")).is_some());
    assert!(TutorialManager::get_tutorial(&st, &s("nope")).is_none());
}

#[test]
fn test_submit_contribution() {
    let mut st = setup();
    let contribution = DocumentationContract::submit_contribution(
        &mut st,
        &s(USER1),
        s("contrib-1"),
        s("doc-1"),
        ContributionType::NewDocument,
        s("New guide for beginners"),
        0,
    )
    .unwrap();
    assert_eq!(contribution.contribution_id, s("contrib-1"));
    assert_eq!(contribution.contributor, s(USER1));
    assert_eq!(contribution.status, ContributionStatus::Pending);
    assert!(contribution.reviewed_by.is_none());
    assert_eq!(st.get_counter(Counter::TotalContributions), 1);
}

#[test]
#[should_panic(expected = "AlreadyExists")]
fn test_submit_duplicate_contribution() {
    let mut st = setup();
    submit(&mut st, USER1, "contrib-dup", "doc", ContributionType::Edit, "content");
    submit(&mut st, USER1, "contrib-dup", "doc", ContributionType::Edit, "content");
}

#[test]
fn test_review_contribution_approve() {
    let mut st = setup();
    submit(&mut st, USER1, "contrib-rev", "doc", ContributionType::Correction, "Fix typo");
    ContributionManager::review_contribution(
        &mut st,
        s("contrib-rev"),
        &s(ADMIN),
        ContributionStatus::Approved,
        Some(s("Looks good!")),
    )
    .unwrap();
    let c = ContributionManager::get_contribution(&st, &s("contrib-rev")).unwrap();
    assert_eq!(c.status, ContributionStatus::Approved);
    assert_eq!(c.reviewed_by, Some(s(ADMIN)));
    assert!(c.review_notes.is_some());
}

#[test]
fn test_review_contribution_reject() {
    let mut st = setup();
    submit(&mut st, USER1, "contrib-rej", "doc", ContributionType::Translation, "Bad translation");
    ContributionManager::review_contribution(
        &mut st,
        s("contrib-rej"),
        &s(ADMIN),
        ContributionStatus::Rejected,
        Some(s("Inaccurate")),
    )
    .unwrap();
    let c = ContributionManager::get_contribution(&st, &s("contrib-rej")).unwrap();
    assert_eq!(c.status, ContributionStatus::Rejected);
}

#[test]
fn test_review_contribution_needs_revision() {
    let mut st = setup();
    submit(&mut st, USER1, "contrib-nr", "doc", ContributionType::CodeExample, "Sample code");
    ContributionManager::review_contribution(
        &mut st,
        s("contrib-nr"),
        &s(ADMIN),
        ContributionStatus::NeedsRevision,
        Some(s("Add error handling")),
    )
    .unwrap();
    let c = ContributionManager::get_contribution(&st, &s("contrib-nr")).unwrap();
    assert_eq!(c.status, ContributionStatus::NeedsRevision);
}

#[test]
fn test_review_with_no_notes() {
    let mut st = setup();
    submit(&mut st, USER1, "contrib-nn", "doc", ContributionType::Edit, "content");
    ContributionManager::review_contribution(&mut st, s("contrib-nn"), &s(ADMIN), ContributionStatus::Approved, None)
        .unwrap();
    let c = ContributionManager::get_contribution(&st, &s("contrib-nn")).unwrap();
    assert_eq!(c.status, ContributionStatus::Approved);
    assert!(c.review_notes.is_none());
}

#[test]
fn test_get_contribution() {
    let mut st = setup();
    submit(&mut st, USER1, "contrib-g", "doc", ContributionType::NewDocument, "c");
    assert!(ContributionManager::get_contribution(&st, &s("contrib-g")).is_some());
    assert!(ContributionManager::get_contribution(&st, &s("nope")).is_none());
}

#[test]
fn test_create_translation() {
    let mut st = setup();
    let translation = TranslationManager::create_translation(
        &mut st,
        s("trans-1"),
        s("doc-1"),
        s("es"),
        s("Primeros Pasos"),
        s("Bienvenido a la guia"),
        &s(USER1),
        0,
    )
    .unwrap();
    assert_eq!(translation.translation_id, s("trans-1"));
    assert_eq!(translation.language, s("es"));
    assert_eq!(translation.status, TranslationStatus::InProgress);
    assert_eq!(translation.translator, s(USER1));
}

#[test]
#[should_panic(expected = "AlreadyExists")]
fn test_create_duplicate_translation() {
    let mut st = setup();
    translate(&mut st, USER1, "trans-dup", "doc", "fr");
    translate(&mut st, USER1, "trans-dup", "doc", "fr");
}

#[test]
fn test_update_translation_status_to_review() {
    let mut st = setup();
    translate(&mut st, USER1, "trans-rev", "doc", "de");
    TranslationManager::update_translation_status(&mut st, s("trans-rev"), TranslationStatus::Review).unwrap();
    let t = TranslationManager::get_translation(&st, &s("trans-rev")).unwrap();
    assert_eq!(t.status, TranslationStatus::Review);
}

#[test]
fn test_update_translation_status_to_published() {
    let mut st = setup();
    translate(&mut st, USER1, "trans-pub", "doc", "ja");
    TranslationManager::update_translation_status(&mut st, s("trans-pub"), TranslationStatus::Published).unwrap();
    let t = TranslationManager::get_translation(&st, &s("trans-pub")).unwrap();
    assert_eq!(t.status, TranslationStatus::Published);
}

#[test]
fn test_update_translation_status_to_outdated() {
    let mut st = setup();
    translate(&mut st, USER1, "trans-out", "doc", "pt");
    TranslationManager::update_translation_status(&mut st, s("trans-out"), TranslationStatus::Outdated).unwrap();
    let t = TranslationManager::get_translation(&st, &s("trans-out")).unwrap();
    assert_eq!(t.status, TranslationStatus::Outdated);
}

#[test]
fn test_get_translation() {
    let mut st = setup();
    translate(&mut st, USER1, "trans-g", "doc", "zh");
    assert!(TranslationManager::get_translation(&st, &s("trans-g")).is_some());
    assert!(TranslationManager::get_translation(&st, &s("nope")).is_none());
}

#[test]
fn test_track_search() {
    let mut st = setup();
    let search = AnalyticsManager::track_search(&mut st, s("sq-1"), s("how to deploy"), &s(USER1), 5, 0).unwrap();
    assert_eq!(search.query_id, s("sq-1"));
    assert_eq!(search.query_text, s("how to deploy"));
    assert_eq!(search.results_count, 5);
    assert!(search.clicked_result.is_none());
}

#[test]
fn test_get_document_analytics() {
    let st = setup();
    assert!(AnalyticsManager::get_document_analytics(&st, &s("doc-x")).is_none());
}

#[test]
fn test_total_counters_increment() {
    let mut st = setup();
    for id in ["ctr-0", "ctr-1", "ctr-2"] {
        create_doc(&mut st, USER1, id, "T", "C", DocumentType::Article, "cat", vec![]).unwrap();
    }
    assert_eq!(st.get_counter(Counter::TotalDocuments), 3);
    for id in ["cnt-0", "cnt-1"] {
        submit(&mut st, USER1, id, "doc", ContributionType::Edit, "c");
    }
    assert_eq!(st.get_counter(Counter::TotalContributions), 2);
}

#[test]
fn test_all_document_types() {
    let mut st = setup();
    let types = [
        ("dt-guide", DocumentType::Guide),
        ("dt-tut", DocumentType::Tutorial),
        ("dt-api", DocumentType::ApiDoc),
        ("dt-ref", DocumentType::Reference),
        ("dt-faq", DocumentType::FAQ),
        ("dt-art", DocumentType::Article),
        ("dt-vid", DocumentType::Video),
        ("dt-code", DocumentType::CodeExample),
    ];
    for (id, doc_type) in types.iter() {
        let doc = create_doc(&mut st, USER1, id, "Title", "Content", *doc_type, "cat", vec![]).unwrap();
        assert_eq!(doc.doc_type, *doc_type);
    }
    assert_eq!(st.get_counter(Counter::TotalDocuments), 8);
}

#[test]
fn test_all_difficulty_levels() {
    let mut st = setup();
    let levels = [
        ("dl-beg", DifficultyLevel::Beginner),
        ("dl-int", DifficultyLevel::Intermediate),
        ("dl-adv", DifficultyLevel::Advanced),
        ("dl-exp", DifficultyLevel::Expert),
    ];
    for (id, level) in levels.iter() {
        let tut = create_tutorial(&mut st, USER1, id, *level, 60, vec![], vec![]);
        assert_eq!(tut.difficulty, *level);
    }
}

#[test]
fn test_full_document_lifecycle() {
    let mut st = setup();
    let doc = create_doc(
        &mut st,
        USER1,
        "lifecycle",
        "Draft Guide",
        "Initial content",
        DocumentType::Guide,
        "guides",
        vec![],
    )
    .unwrap();
    assert_eq!(doc.status, DocumentStatus::Draft);
    let updated = DocumentManager::update_document(
        &mut st,
        s("lifecycle"),
        Some(s("Polished Guide")),
        Some(s("Better content")),
        None,
        None,
        0,
    )
    .unwrap();
    assert_eq!(updated.version, 2);
    VersionManager::create_version(&mut st, s("lifecycle"), 1, s("V1"), &s(USER1), s("Initial"), 0).unwrap();
    DocumentManager::publish_document(&mut st, s("lifecycle"), 0).unwrap();
    let published = DocumentManager::get_document(&st, &s("lifecycle")).unwrap();
    assert_eq!(published.status, DocumentStatus::Published);
    DocumentManager::increment_view_count(&mut st, s("lifecycle")).unwrap();
    DocumentManager::increment_view_count(&mut st, s("lifecycle")).unwrap();
    DocumentManager::mark_helpful(&mut st, s("lifecycle")).unwrap();
    let final_doc = DocumentManager::get_document(&st, &s("lifecycle")).unwrap();
    assert_eq!(final_doc.view_count, 2);
    assert_eq!(final_doc.helpful_count, 1);
    translate(&mut st, USER2, "t-lifecycle", "lifecycle", "es");
    submit(&mut st, USER2, "c-lifecycle", "lifecycle", ContributionType::Correction, "Fixed grammar");
    ContributionManager::review_contribution(
        &mut st,
        s("c-lifecycle"),
        &s(ADMIN),
        ContributionStatus::Approved,
        None,
    )
    .unwrap();
    assert_eq!(st.get_counter(Counter::TotalDocuments), 1);
    assert_eq!(st.get_counter(Counter::TotalViews), 2);
    assert_eq!(st.get_counter(Counter::TotalContributions), 1);
}

#[test]
fn test_multi_language_documentation() {
    let mut st = setup();
    create_doc(&mut st, USER1, "ml-doc", "Getting Started", "Welcome", DocumentType::Guide, "onboarding", vec![])
        .unwrap();
    let es = TranslationManager::create_translation(
        &mut st,
        s("ml-es"),
        s("ml-doc"),
        s("es"),
        s("Primeros Pasos"),
        s("Bienvenido"),
        &s(USER2),
        0,
    )
    .unwrap();
    assert_eq!(es.status, TranslationStatus::InProgress);
    let fr = TranslationManager::create_translation(
        &mut st,
        s("ml-fr"),
        s("ml-doc"),
        s("fr"),
        s("Pour Commencer"),
        s("Bienvenue"),
        &s(USER2),
        0,
    )
    .unwrap();
    assert_eq!(fr.language, s("fr"));
    TranslationManager::update_translation_status(&mut st, s("ml-es"), TranslationStatus::Published).unwrap();
    let published_es = TranslationManager::get_translation(&st, &s("ml-es")).unwrap();
    assert_eq!(published_es.status, TranslationStatus::Published);
}

#[test]
fn test_contribution_types_coverage() {
    let mut st = setup();
    let types = [
        ("ct-new", ContributionType::NewDocument),
        ("ct-edit", ContributionType::Edit),
        ("ct-trans", ContributionType::Translation),
        ("ct-code", ContributionType::CodeExample),
        ("ct-corr", ContributionType::Correction),
    ];
    for (id, ct) in types.iter() {
        let c = DocumentationContract::submit_contribution(&mut st, &s(USER1), s(id), s("doc"), *ct, s("content"), 0)
            .unwrap();
        assert_eq!(c.contribution_type, *ct);
        assert_eq!(c.status, ContributionStatus::Pending);
    }
    assert_eq!(st.get_counter(Counter::TotalContributions), 5);
}

#[test]
fn a_version_needs_its_document() {
    let mut st = setup();
    let r = VersionManager::create_version(&mut st, s("no-doc"), 1, s("C"), &s(USER1), s("Log"), 0);
    assert_eq!(r.unwrap_err(), DocumentationError::DocumentNotFound);
    assert!(VersionManager::get_version(&st, s("no-doc"), 1).is_none());
}

#[test]
fn a_search_id_is_recorded_once() {
    let mut st = setup();
    AnalyticsManager::track_search(&mut st, s("sq-dup"), s("first"), &s(USER1), 1, 0).unwrap();
    let r = AnalyticsManager::track_search(&mut st, s("sq-dup"), s("second"), &s(USER2), 9, 5);
    assert_eq!(r.unwrap_err(), DocumentationError::AlreadyExists);
    AnalyticsManager::track_click(&mut st, s("sq-dup"), s("doc-1")).unwrap();
}
