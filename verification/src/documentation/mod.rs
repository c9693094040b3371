//! The documentation contract: documents, versions, knowledge base, API docs,
//! tutorials, community contributions, translations and analytics.
pub mod errors;
pub mod types;
pub mod storage;
pub mod documents;
pub mod versions;
pub mod knowledge;
pub mod api_docs;
pub mod tutorials;
pub mod contributions;
pub mod translations;
pub mod analytics;
pub mod contract;
