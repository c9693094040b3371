//! Records kept by the documentation contract. Account addresses are held
//! as their text form.
use vstd::prelude::*;
pub use crate::dup::{Dup, dup_vec};

verus! {

/// Kind of a document.
#[derive(Clone, Copy, Debug, PartialEq, Eq, Structural)]
pub enum DocumentType {
    Guide,
    Tutorial,
    ApiDoc,
    Reference,
    FAQ,
    Article,
    Video,
    CodeExample,
}

/// Publication state of a document.
#[derive(Clone, Copy, Debug, PartialEq, Eq, Structural)]
pub enum DocumentStatus {
    Draft,
    Review,
    Published,
    Archived,
    Deprecated,
}

/// Difficulty of a tutorial.
#[derive(Clone, Copy, Debug, PartialEq, Eq, Structural)]
pub enum DifficultyLevel {
    Beginner,
    Intermediate,
    Advanced,
    Expert,
}

/// Kind of a community contribution.
#[derive(Clone, Copy, Debug, PartialEq, Eq, Structural)]
pub enum ContributionType {
    NewDocument,
    Edit,
    Translation,
    CodeExample,
    Correction,
}

/// Review state of a community contribution.
#[derive(Clone, Copy, Debug, PartialEq, Eq, Structural)]
pub enum ContributionStatus {
    Pending,
    Approved,
    Rejected,
    NeedsRevision,
}

/// Review state of a translation.
#[derive(Clone, Copy, Debug, PartialEq, Eq, Structural)]
pub enum TranslationStatus {
    InProgress,
    Review,
    Published,
    Outdated,
}

/// A documentation document.
#[derive(Clone, Debug, PartialEq, Eq)]
pub struct Document {
    pub doc_id: String,
    pub title: String,
    pub content: String,
    pub doc_type: DocumentType,
    pub category: String,
    pub author: String,
    pub version: u32,
    pub status: DocumentStatus,
    pub created_at: u64,
    pub updated_at: u64,
    pub tags: Vec<String>,
    pub language: String,
    pub parent_id: Option<String>,
    pub view_count: u32,
    pub helpful_count: u32,
}

/// A numbered snapshot of a document's content.
#[derive(Clone, Debug, PartialEq, Eq)]
pub struct DocumentVersion {
    pub version_id: String,
    pub doc_id: String,
    pub version_number: u32,
    pub content: String,
    pub author: String,
    pub created_at: u64,
    pub changelog: String,
    pub is_current: bool,
}

/// A knowledge-base article.
#[derive(Clone, Debug, PartialEq, Eq)]
pub struct KnowledgeArticle {
    pub article_id: String,
    pub title: String,
    pub content: String,
    pub category: String,
    pub author: String,
    pub created_at: u64,
    pub updated_at: u64,
    pub view_count: u32,
    pub helpful_votes: u32,
    pub not_helpful_votes: u32,
    pub related_articles: Vec<String>,
    pub tags: Vec<String>,
}

/// A frequently asked question.
#[derive(Clone, Debug, PartialEq, Eq)]
pub struct FAQ {
    pub faq_id: String,
    pub question: String,
    pub answer: String,
    pub category: String,
    pub author: String,
    pub created_at: u64,
    pub view_count: u32,
    pub helpful_count: u32,
    pub order_index: u32,
}

/// A documented API endpoint.
#[derive(Clone, Debug, PartialEq, Eq)]
pub struct ApiEndpoint {
    pub endpoint_id: String,
    pub name: String,
    pub description: String,
    pub method: String,
    pub path: String,
    pub parameters: Vec<ApiParameter>,
    pub response_schema: String,
    pub code_examples: Vec<CodeExample>,
    pub version: String,
}

/// A parameter of an API endpoint.
#[derive(Clone, Debug, PartialEq, Eq)]
pub struct ApiParameter {
    pub name: String,
    pub param_type: String,
    pub required: bool,
    pub description: String,
    pub default_value: Option<String>,
}

/// A code example attached to an API endpoint.
#[derive(Clone, Debug, PartialEq, Eq)]
pub struct CodeExample {
    pub example_id: String,
    pub title: String,
    pub code: String,
    pub language: String,
    pub description: String,
}

/// A step-by-step tutorial.
#[derive(Clone, Debug, PartialEq, Eq)]
pub struct Tutorial {
    pub tutorial_id: String,
    pub title: String,
    pub description: String,
    pub difficulty: DifficultyLevel,
    pub estimated_time: u32,
    pub author: String,
    pub steps: Vec<TutorialStep>,
    pub prerequisites: Vec<String>,
    pub created_at: u64,
    pub completion_count: u32,
}

/// One step of a tutorial.
#[derive(Clone, Debug, PartialEq, Eq)]
pub struct TutorialStep {
    pub step_number: u32,
    pub title: String,
    pub content: String,
    pub code_snippet: Option<String>,
    pub validation_criteria: Option<String>,
}

/// A community contribution awaiting or after review.
#[derive(Clone, Debug, PartialEq, Eq)]
pub struct Contribution {
    pub contribution_id: String,
    pub contributor: String,
    pub doc_id: String,
    pub contribution_type: ContributionType,
    pub content: String,
    pub status: ContributionStatus,
    pub created_at: u64,
    pub reviewed_by: Option<String>,
    pub review_notes: Option<String>,
}

/// Aggregated analytics of a document.
#[derive(Clone, Debug, PartialEq, Eq)]
pub struct DocumentAnalytics {
    pub doc_id: String,
    pub total_views: u32,
    pub unique_viewers: u32,
    pub avg_time_spent: u32,
    pub helpful_votes: u32,
    pub not_helpful_votes: u32,
    pub completion_rate: u32,
    pub search_appearances: u32,
}

/// A recorded search.
#[derive(Clone, Debug, PartialEq, Eq)]
pub struct SearchQuery {
    pub query_id: String,
    pub query_text: String,
    pub user: String,
    pub timestamp: u64,
    pub results_count: u32,
    pub clicked_result: Option<String>,
}

/// A translation of a document.
#[derive(Clone, Debug, PartialEq, Eq)]
pub struct Translation {
    pub translation_id: String,
    pub original_doc_id: String,
    pub language: String,
    pub title: String,
    pub content: String,
    pub translator: String,
    pub status: TranslationStatus,
    pub created_at: u64,
}

/// Contract-wide settings.
#[derive(Clone, Debug, PartialEq, Eq)]
pub struct DocumentationConfig {
    pub admin: String,
    pub moderators: Vec<String>,
    pub supported_languages: Vec<String>,
    pub max_doc_size: u32,
    pub require_review: bool,
    pub enable_contributions: bool,
    pub enable_analytics: bool,
}

impl Dup for ApiParameter {
    fn dup(&self) -> (r: Self) {
        ApiParameter {
            name: self.name.dup(),
            param_type: self.param_type.dup(),
            required: self.required,
            description: self.description.dup(),
            default_value: self.default_value.dup(),
        }
    }
}

impl Dup for CodeExample {
    fn dup(&self) -> (r: Self) {
        CodeExample {
            example_id: self.example_id.dup(),
            title: self.title.dup(),
            code: self.code.dup(),
            language: self.language.dup(),
            description: self.description.dup(),
        }
    }
}

impl Dup for TutorialStep {
    fn dup(&self) -> (r: Self) {
        TutorialStep {
            step_number: self.step_number,
            title: self.title.dup(),
            content: self.content.dup(),
            code_snippet: self.code_snippet.dup(),
            validation_criteria: self.validation_criteria.dup(),
        }
    }
}

impl Dup for DocumentVersion {
    fn dup(&self) -> (r: Self) {
        DocumentVersion {
            version_id: self.version_id.dup(),
            doc_id: self.doc_id.dup(),
            version_number: self.version_number,
            content: self.content.dup(),
            author: self.author.dup(),
            created_at: self.created_at,
            changelog: self.changelog.dup(),
            is_current: self.is_current,
        }
    }
}

impl Dup for FAQ {
    fn dup(&self) -> (r: Self) {
        FAQ {
            faq_id: self.faq_id.dup(),
            question: self.question.dup(),
            answer: self.answer.dup(),
            category: self.category.dup(),
            author: self.author.dup(),
            created_at: self.created_at,
            view_count: self.view_count,
            helpful_count: self.helpful_count,
            order_index: self.order_index,
        }
    }
}

impl Dup for Contribution {
    fn dup(&self) -> (r: Self) {
        Contribution {
            contribution_id: self.contribution_id.dup(),
            contributor: self.contributor.dup(),
            doc_id: self.doc_id.dup(),
            contribution_type: self.contribution_type,
            content: self.content.dup(),
            status: self.status,
            created_at: self.created_at,
            reviewed_by: self.reviewed_by.dup(),
            review_notes: self.review_notes.dup(),
        }
    }
}

impl Dup for Translation {
    fn dup(&self) -> (r: Self) {
        Translation {
            translation_id: self.translation_id.dup(),
            original_doc_id: self.original_doc_id.dup(),
            language: self.language.dup(),
            title: self.title.dup(),
            content: self.content.dup(),
            translator: self.translator.dup(),
            status: self.status,
            created_at: self.created_at,
        }
    }
}

impl Dup for SearchQuery {
    fn dup(&self) -> (r: Self) {
        SearchQuery {
            query_id: self.query_id.dup(),
            query_text: self.query_text.dup(),
            user: self.user.dup(),
            timestamp: self.timestamp,
            results_count: self.results_count,
            clicked_result: self.clicked_result.dup(),
        }
    }
}

impl Dup for DocumentAnalytics {
    fn dup(&self) -> (r: Self) {
        DocumentAnalytics {
            doc_id: self.doc_id.dup(),
            total_views: self.total_views,
            unique_viewers: self.unique_viewers,
            avg_time_spent: self.avg_time_spent,
            helpful_votes: self.helpful_votes,
            not_helpful_votes: self.not_helpful_votes,
            completion_rate: self.completion_rate,
            search_appearances: self.search_appearances,
        }
    }
}

impl Document {
    /// Two documents agree field by field, their lists item by item.
    pub open spec fn same_as(&self, other: &Document) -> bool {
        &&& self.doc_id == other.doc_id
        &&& self.title == other.title
        &&& self.content == other.content
        &&& self.doc_type == other.doc_type
        &&& self.category == other.category
        &&& self.author == other.author
        &&& self.version == other.version
        &&& self.status == other.status
        &&& self.created_at == other.created_at
        &&& self.updated_at == other.updated_at
        &&& self.tags@ == other.tags@
        &&& self.language == other.language
        &&& self.parent_id == other.parent_id
        &&& self.view_count == other.view_count
        &&& self.helpful_count == other.helpful_count
    }

    /// A copy of this document.
    pub fn copied(&self) -> (r: Document)
        ensures
            r.same_as(self),
    {
        Document {
            doc_id: self.doc_id.dup(),
            title: self.title.dup(),
            content: self.content.dup(),
            doc_type: self.doc_type,
            category: self.category.dup(),
            author: self.author.dup(),
            version: self.version,
            status: self.status,
            created_at: self.created_at,
            updated_at: self.updated_at,
            tags: dup_vec(&self.tags),
            language: self.language.dup(),
            parent_id: self.parent_id.dup(),
            view_count: self.view_count,
            helpful_count: self.helpful_count,
        }
    }
}

impl KnowledgeArticle {
    /// Two articles agree field by field, their lists item by item.
    pub open spec fn same_as(&self, other: &KnowledgeArticle) -> bool {
        &&& self.article_id == other.article_id
        &&& self.title == other.title
        &&& self.content == other.content
        &&& self.category == other.category
        &&& self.author == other.author
        &&& self.created_at == other.created_at
        &&& self.updated_at == other.updated_at
        &&& self.view_count == other.view_count
        &&& self.helpful_votes == other.helpful_votes
        &&& self.not_helpful_votes == other.not_helpful_votes
        &&& self.related_articles@ == other.related_articles@
        &&& self.tags@ == other.tags@
    }

    /// A copy of this article.
    pub fn copied(&self) -> (r: KnowledgeArticle)
        ensures
            r.same_as(self),
    {
        KnowledgeArticle {
            article_id: self.article_id.dup(),
            title: self.title.dup(),
            content: self.content.dup(),
            category: self.category.dup(),
            author: self.author.dup(),
            created_at: self.created_at,
            updated_at: self.updated_at,
            view_count: self.view_count,
            helpful_votes: self.helpful_votes,
            not_helpful_votes: self.not_helpful_votes,
            related_articles: dup_vec(&self.related_articles),
            tags: dup_vec(&self.tags),
        }
    }
}

impl ApiEndpoint {
    /// Two endpoints agree field by field, their lists item by item.
    pub open spec fn same_as(&self, other: &ApiEndpoint) -> bool {
        &&& self.endpoint_id == other.endpoint_id
        &&& self.name == other.name
        &&& self.description == other.description
        &&& self.method == other.method
        &&& self.path == other.path
        &&& self.parameters@ == other.parameters@
        &&& self.response_schema == other.response_schema
        &&& self.code_examples@ == other.code_examples@
        &&& self.version == other.version
    }

    /// A copy of this endpoint.
    pub fn copied(&self) -> (r: ApiEndpoint)
        ensures
            r.same_as(self),
    {
        ApiEndpoint {
            endpoint_id: self.endpoint_id.dup(),
            name: self.name.dup(),
            description: self.description.dup(),
            method: self.method.dup(),
            path: self.path.dup(),
            parameters: dup_vec(&self.parameters),
            response_schema: self.response_schema.dup(),
            code_examples: dup_vec(&self.code_examples),
            version: self.version.dup(),
        }
    }
}

impl Tutorial {
    /// Two tutorials agree field by field, their lists item by item.
    pub open spec fn same_as(&self, other: &Tutorial) -> bool {
        &&& self.tutorial_id == other.tutorial_id
        &&& self.title == other.title
        &&& self.description == other.description
        &&& self.difficulty == other.difficulty
        &&& self.estimated_time == other.estimated_time
        &&& self.author == other.author
        &&& self.steps@ == other.steps@
        &&& self.prerequisites@ == other.prerequisites@
        &&& self.created_at == other.created_at
        &&& self.completion_count == other.completion_count
    }

    /// A copy of this tutorial.
    pub fn copied(&self) -> (r: Tutorial)
        ensures
            r.same_as(self),
    {
        Tutorial {
            tutorial_id: self.tutorial_id.dup(),
            title: self.title.dup(),
            description: self.description.dup(),
            difficulty: self.difficulty,
            estimated_time: self.estimated_time,
            author: self.author.dup(),
            steps: dup_vec(&self.steps),
            prerequisites: dup_vec(&self.prerequisites),
            created_at: self.created_at,
            completion_count: self.completion_count,
        }
    }
}

impl DocumentationConfig {
    /// Two configurations agree field by field, their lists item by item.
    pub open spec fn same_as(&self, other: &DocumentationConfig) -> bool {
        &&& self.admin == other.admin
        &&& self.moderators@ == other.moderators@
        &&& self.supported_languages@ == other.supported_languages@
        &&& self.max_doc_size == other.max_doc_size
        &&& self.require_review == other.require_review
        &&& self.enable_contributions == other.enable_contributions
        &&& self.enable_analytics == other.enable_analytics
    }

    /// A copy of this configuration.
    pub fn copied(&self) -> (r: DocumentationConfig)
        ensures
            r.same_as(self),
    {
        DocumentationConfig {
            admin: self.admin.dup(),
            moderators: dup_vec(&self.moderators),
            supported_languages: dup_vec(&self.supported_languages),
            max_doc_size: self.max_doc_size,
            require_review: self.require_review,
            enable_contributions: self.enable_contributions,
            enable_analytics: self.enable_analytics,
        }
    }
}

/// The documentation contract's first thirteen error kinds, in the order of
/// their numbers on the host.
#[derive(Clone, Copy, Debug, PartialEq, Eq, Structural)]
pub enum Error {
    NotInitialized,
    AlreadyInitialized,
    Unauthorized,
    DocumentNotFound,
    InvalidDocument,
    VersionNotFound,
    ContributionNotFound,
    InvalidContribution,
    TranslationNotFound,
    InvalidLanguage,
    DocumentTooLarge,
    InvalidStatus,
    AlreadyExists,
}

} // verus!
