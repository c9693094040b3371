//! Verified core of a family of learning-platform smart contracts: documentation,
//! fraud detection, data-export requests, gamification and platform diagnostics.
pub mod text;
pub mod dup;
pub mod table;
pub mod documentation;
pub mod fraud_detection;
pub mod gdpr;
pub mod gamification;
pub mod diagnostics;
pub mod laws;
