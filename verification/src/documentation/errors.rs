//! Errors of the documentation contract, with their stable codes and suggested actions.
use vstd::prelude::*;

verus! {

/// What can go wrong in a documentation operation.
#[derive(Clone, Copy, Debug, PartialEq, Eq, Structural)]
pub enum DocumentationError {
    /// Contract has not been initialized yet.
    NotInitialized,
    /// Contract has already been initialized and cannot be re-initialized.
    AlreadyInitialized,
    /// Caller does not have the required permissions to perform this action.
    Unauthorized,
    /// The requested document was not found in storage.
    DocumentNotFound,
    /// The document data is malformed or fails validation.
    InvalidDocument,
    /// The requested document version was not found.
    VersionNotFound,
    /// The requested community contribution was not found.
    ContributionNotFound,
    /// The contribution data is malformed or fails validation.
    InvalidContribution,
    /// The requested translation was not found.
    TranslationNotFound,
    /// The specified language code is not recognized or supported.
    InvalidLanguage,
    /// The document content exceeds the configured maximum size limit.
    DocumentTooLarge,
    /// The provided status transition is not valid for the current state.
    InvalidStatus,
    /// A document, translation, or contribution with this ID already exists.
    AlreadyExists,
    /// Too many calls inside the rate-limit window.
    RateLimitExceeded,
}

/// Name used by the contract's managers.
pub type Error = DocumentationError;

/// The stable code of each error.
pub open spec fn error_code_spec(e: DocumentationError) -> &'static str {
    match e {
        DocumentationError::NotInitialized => "DOC-001",
        DocumentationError::AlreadyInitialized => "DOC-002",
        DocumentationError::Unauthorized => "DOC-003",
        DocumentationError::DocumentNotFound => "DOC-004",
        DocumentationError::InvalidDocument => "DOC-005",
        DocumentationError::VersionNotFound => "DOC-006",
        DocumentationError::ContributionNotFound => "DOC-007",
        DocumentationError::InvalidContribution => "DOC-008",
        DocumentationError::TranslationNotFound => "DOC-009",
        DocumentationError::InvalidLanguage => "DOC-010",
        DocumentationError::DocumentTooLarge => "DOC-011",
        DocumentationError::InvalidStatus => "DOC-012",
        DocumentationError::AlreadyExists => "DOC-013",
        DocumentationError::RateLimitExceeded => "DOC-014",
    }
}

/// The action suggested to the caller for each error.
pub open spec fn error_action_spec(e: DocumentationError) -> &'static str {
    match e {
        DocumentationError::Unauthorized => "Retry with an authorized documentation administrator or contributor",
        DocumentationError::DocumentNotFound
        | DocumentationError::VersionNotFound
        | DocumentationError::ContributionNotFound
        | DocumentationError::TranslationNotFound => "Verify the referenced documentation resource exists before retrying",
        DocumentationError::InvalidDocument
        | DocumentationError::InvalidContribution
        | DocumentationError::InvalidLanguage
        | DocumentationError::InvalidStatus => "Correct the request data and retry the documentation operation",
        DocumentationError::DocumentTooLarge => "Reduce the document size to the configured limit and retry",
        DocumentationError::NotInitialized => "Initialize the documentation contract before calling this function",
        DocumentationError::AlreadyInitialized
        | DocumentationError::AlreadyExists => "Reuse the existing resource instead of creating a duplicate",
        DocumentationError::RateLimitExceeded => "Wait for the rate limit window to reset before retrying",
    }
}

impl DocumentationError {
    /// The stable code of this error, such as `DOC-004`.
    pub fn code(&self) -> (r: &'static str)
        ensures
            r == error_code_spec(*self),
    {
        match self {
            Self::NotInitialized => "DOC-001",
            Self::AlreadyInitialized => "DOC-002",
            Self::Unauthorized => "DOC-003",
            Self::DocumentNotFound => "DOC-004",
            Self::InvalidDocument => "DOC-005",
            Self::VersionNotFound => "DOC-006",
            Self::ContributionNotFound => "DOC-007",
            Self::InvalidContribution => "DOC-008",
            Self::TranslationNotFound => "DOC-009",
            Self::InvalidLanguage => "DOC-010",
            Self::DocumentTooLarge => "DOC-011",
            Self::InvalidStatus => "DOC-012",
            Self::AlreadyExists => "DOC-013",
            Self::RateLimitExceeded => "DOC-014",
        }
    }

    /// What the caller should do about this error.
    pub fn action(&self) -> (r: &'static str)
        ensures
            r == error_action_spec(*self),
    {
        match self {
            Self::Unauthorized => "Retry with an authorized documentation administrator or contributor",
            Self::DocumentNotFound
            | Self::VersionNotFound
            | Self::ContributionNotFound
            | Self::TranslationNotFound => "Verify the referenced documentation resource exists before retrying",
            Self::InvalidDocument
            | Self::InvalidContribution
            | Self::InvalidLanguage
            | Self::InvalidStatus => "Correct the request data and retry the documentation operation",
            Self::DocumentTooLarge => "Reduce the document size to the configured limit and retry",
            Self::NotInitialized => "Initialize the documentation contract before calling this function",
            Self::AlreadyInitialized | Self::AlreadyExists => "Reuse the existing resource instead of creating a duplicate",
            Self::RateLimitExceeded => "Wait for the rate limit window to reset before retrying",
        }
    }
}

} // verus!
