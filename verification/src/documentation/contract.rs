//! Entry points of the documentation contract that add checks of their own to
//! the managers' operations. The caller's authorization is checked by the host
//! before these run; `now` is the ledger time.
use vstd::prelude::*;
use super::errors::Error;
use super::storage::{Storage, ids_under};
use super::types::{Document, DocumentType, DocumentationConfig, Contribution, ContributionType};
use super::documents::{DocumentManager, spec_new_document};
use super::contributions::{ContributionManager, spec_new_contribution};

verus! {

/// Largest document content, in bytes, that the default configuration accepts.
pub const DEFAULT_MAX_DOC_SIZE: u32 = 100_000u32;

/// The configuration set up at initialization for `admin`.
pub open spec fn is_default_config(c: DocumentationConfig, admin: String) -> bool {
    &&& c.admin == admin
    &&& c.moderators@ == Seq::<String>::empty()
    &&& c.supported_languages@ == Seq::<String>::empty()
    &&& c.max_doc_size == DEFAULT_MAX_DOC_SIZE
    &&& c.require_review
    &&& c.enable_contributions
    &&& c.enable_analytics
}

/// Size of a text in bytes, as the platform's length reports it.
pub open spec fn byte_len(t: String) -> usize {
    vstd::utf8::encode_utf8(t@).len() as usize
}

/// Entry points of the documentation contract.
pub struct DocumentationContract;

impl DocumentationContract {
    /// Sets up the contract once: admin, default configuration and zeroed counters.
    pub fn initialize(s: &mut Storage, admin: String) -> (r: Result<(), Error>)
        ensures
            old(s).initialized ==> r == Err::<(), Error>(Error::AlreadyInitialized) && *final(s) == *old(s),
            !old(s).initialized ==> {
                &&& r is Ok
                &&& final(s).admin == Some(admin)
                &&& final(s).config matches Some(c) && is_default_config(c, admin)
                &&& *final(s) == (Storage {
                    admin: final(s).admin,
                    config: final(s).config,
                    initialized: true,
                    total_documents: 0,
                    total_views: 0,
                    total_contributions: 0,
                    ..*old(s)
                })
            },
    {
        if s.initialized {
            return Err(Error::AlreadyInitialized);
        }
        let config = DocumentationConfig {
            admin: admin.clone(),
            moderators: Vec::new(),
            supported_languages: Vec::new(),
            max_doc_size: DEFAULT_MAX_DOC_SIZE,
            require_review: true,
            enable_contributions: true,
            enable_analytics: true,
        };
        s.admin = Some(admin);
        s.config = Some(config);
        s.initialized = true;
        s.total_documents = 0;
        s.total_views = 0;
        s.total_contributions = 0;
        Ok(())
    }

    /// A copy of the configuration.
    pub fn get_config(s: &Storage) -> (r: Result<DocumentationConfig, Error>)
        ensures
            s.config is None ==> r == Err::<DocumentationConfig, Error>(Error::NotInitialized),
            s.config matches Some(c) ==> r matches Ok(rc) && rc.same_as(&c),
    {
        match &s.config {
            Some(c) => Ok(c.copied()),
            None => Err(Error::NotInitialized),
        }
    }

    /// Creates a document, refusing it before initialization and when its content
    /// is larger than the configured limit.
    pub fn create_document(
        s: &mut Storage,
        author: &String,
        doc_id: String,
        title: String,
        content: String,
        doc_type: DocumentType,
        category: String,
        tags: Vec<String>,
        language: String,
        now: u64,
    ) -> (r: Result<Document, Error>)
        requires
            old(s).wf(),
            old(s).total_documents < u64::MAX,
        ensures
            final(s).wf(),
            old(s).config is None ==> r == Err::<Document, Error>(Error::NotInitialized) && *final(s) == *old(s),
            old(s).config matches Some(c) && byte_len(content) > c.max_doc_size ==> r == Err::<Document, Error>(
                Error::DocumentTooLarge,
            ) && *final(s) == *old(s),
            old(s).config matches Some(c) && byte_len(content) <= c.max_doc_size && old(
                s,
            ).documents@.contains_key(doc_id@) ==> r == Err::<Document, Error>(Error::AlreadyExists) && *final(s)
                == *old(s),
            old(s).config matches Some(c) && byte_len(content) <= c.max_doc_size && !old(
                s,
            ).documents@.contains_key(doc_id@) ==> {
                let d = spec_new_document(doc_id, title, content, doc_type, category, *author, tags, language, now);
                &&& r matches Ok(rd) && rd.same_as(&d)
                &&& final(s).documents@ == old(s).documents@.insert(doc_id@, d)
                &&& final(s).total_documents == old(s).total_documents + 1
                &&& final(s).category_docs@.remove(category@) == old(s).category_docs@.remove(category@)
                &&& final(s).category_docs@.contains_key(category@)
                &&& final(s).category_docs@[category@]@ == ids_under(old(s).category_docs@, category@).push(doc_id)
                &&& final(s).author_docs@.remove(author@) == old(s).author_docs@.remove(author@)
                &&& final(s).author_docs@.contains_key(author@)
                &&& final(s).author_docs@[author@]@ == ids_under(old(s).author_docs@, author@).push(doc_id)
                &&& *final(s) == (Storage {
                    documents: final(s).documents,
                    category_docs: final(s).category_docs,
                    author_docs: final(s).author_docs,
                    total_documents: final(s).total_documents,
                    ..*old(s)
                })
            },
    {
        let max = match &s.config {
            Some(c) => c.max_doc_size,
            None => {
                return Err(Error::NotInitialized);
            },
        };
        let text = content.as_str();
        let size = text.len();
        assert(size == byte_len(content));
        if size > max as usize {
            return Err(Error::DocumentTooLarge);
        }
        DocumentManager::create_document(s, doc_id, title, content, doc_type, category, author, tags, language, now)
    }

    /// Submits a contribution; refused before initialization.
    pub fn submit_contribution(
        s: &mut Storage,
        contributor: &String,
        contribution_id: String,
        doc_id: String,
        contribution_type: ContributionType,
        content: String,
        now: u64,
    ) -> (r: Result<Contribution, Error>)
        requires
            old(s).wf(),
            old(s).total_contributions < u64::MAX,
        ensures
            final(s).wf(),
            old(s).config is None ==> r == Err::<Contribution, Error>(Error::NotInitialized) && *final(s)
                == *old(s),
            old(s).config is Some && old(s).contributions@.contains_key(contribution_id@) ==> r == Err::<
                Contribution,
                Error,
            >(Error::AlreadyExists) && *final(s) == *old(s),
            old(s).config is Some && !old(s).contributions@.contains_key(contribution_id@) ==> {
                let c = spec_new_contribution(contribution_id, *contributor, doc_id, contribution_type, content, now);
                &&& r == Ok::<Contribution, Error>(c)
                &&& final(s).contributions@ == old(s).contributions@.insert(contribution_id@, c)
                &&& final(s).total_contributions == old(s).total_contributions + 1
                &&& final(s).user_contributions@.remove(contributor@) == old(s).user_contributions@.remove(contributor@)
                &&& final(s).user_contributions@.contains_key(contributor@)
                &&& final(s).user_contributions@[contributor@]@ == ids_under(
                    old(s).user_contributions@,
                    contributor@,
                ).push(contribution_id)
                &&& *final(s) == (Storage {
                    contributions: final(s).contributions,
                    user_contributions: final(s).user_contributions,
                    total_contributions: final(s).total_contributions,
                    ..*old(s)
                })
            },
    {
        if s.config.is_none() {
            return Err(Error::NotInitialized);
        }
        ContributionManager::submit_contribution(s, contribution_id, contributor, doc_id, contribution_type, content, now)
    }
}

} // verus!
