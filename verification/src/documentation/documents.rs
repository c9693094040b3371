//! Creation, update, publication and counting of documents.
use vstd::prelude::*;
use super::errors::Error;
use super::storage::{Storage, Counter, ids_under, ids_listed};
use super::types::{Document, DocumentType, DocumentStatus};

verus! {

/// The document that `create_document` stores.
pub open spec fn spec_new_document(
    doc_id: String,
    title: String,
    content: String,
    doc_type: DocumentType,
    category: String,
    author: String,
    tags: Vec<String>,
    language: String,
    now: u64,
) -> Document {
    Document {
        doc_id,
        title,
        content,
        doc_type,
        category,
        author,
        version: 1,
        status: DocumentStatus::Draft,
        created_at: now,
        updated_at: now,
        tags,
        language,
        parent_id: None,
        view_count: 0,
        helpful_count: 0,
    }
}

/// The document that `update_document` makes of `d`: given fields replace the old ones,
/// new content raises the version by one, and the update time is `now`.
pub open spec fn spec_updated_document(
    d: Document,
    title: Option<String>,
    content: Option<String>,
    status: Option<DocumentStatus>,
    tags: Option<Vec<String>>,
    now: u64,
) -> Document {
    Document {
        title: match title {
            Some(t) => t,
            None => d.title,
        },
        content: match content {
            Some(c) => c,
            None => d.content,
        },
        version: if content is Some {
            (d.version + 1) as u32
        } else {
            d.version
        },
        status: match status {
            Some(st) => st,
            None => d.status,
        },
        tags: match tags {
            Some(t) => t,
            None => d.tags,
        },
        updated_at: now,
        ..d
    }
}

/// Manages documents.
pub struct DocumentManager;

impl DocumentManager {
    /// Stores a new draft document and lists it under its category and author.
    pub fn create_document(
        s: &mut Storage,
        doc_id: String,
        title: String,
        content: String,
        doc_type: DocumentType,
        category: String,
        author: &String,
        tags: Vec<String>,
        language: String,
        now: u64,
    ) -> (r: Result<Document, Error>)
        requires
            old(s).wf(),
            old(s).total_documents < u64::MAX,
        ensures
            final(s).wf(),
            old(s).documents@.contains_key(doc_id@) ==> r == Err::<Document, Error>(Error::AlreadyExists)
                && *final(s) == *old(s),
            !old(s).documents@.contains_key(doc_id@) ==> {
                let d = spec_new_document(doc_id, title, content, doc_type, category, *author, tags, language, now);
                &&& r matches Ok(rd) && rd.same_as(&d)
                &&& final(s).documents@ == old(s).documents@.insert(doc_id@, d)
                &&& final(s).category_docs@.remove(category@) == old(s).category_docs@.remove(category@)
                &&& final(s).category_docs@.contains_key(category@)
                &&& final(s).category_docs@[category@]@ == ids_under(old(s).category_docs@, category@).push(doc_id)
                &&& final(s).author_docs@.remove(author@) == old(s).author_docs@.remove(author@)
                &&& final(s).author_docs@.contains_key(author@)
                &&& final(s).author_docs@[author@]@ == ids_under(old(s).author_docs@, author@).push(doc_id)
                &&& final(s).total_documents == old(s).total_documents + 1
                &&& *final(s) == (Storage {
                    documents: final(s).documents,
                    category_docs: final(s).category_docs,
                    author_docs: final(s).author_docs,
                    total_documents: final(s).total_documents,
                    ..*old(s)
                })
            },
    {
        if s.documents.contains_key(&doc_id) {
            return Err(Error::AlreadyExists);
        }
        let document = Document {
            doc_id: doc_id.clone(),
            title,
            content,
            doc_type,
            category: category.clone(),
            author: author.clone(),
            version: 1,
            status: DocumentStatus::Draft,
            created_at: now,
            updated_at: now,
            tags,
            language,
            parent_id: None,
            view_count: 0,
            helpful_count: 0,
        };
        let result = document.copied();
        s.documents.insert(doc_id.clone(), document);
        s.add_to_category(&category, &doc_id);
        s.add_to_author_docs(author, &doc_id);
        s.increment_counter(Counter::TotalDocuments);
        Ok(result)
    }

    /// Replaces the given fields of a document; new content bumps its version.
    pub fn update_document(
        s: &mut Storage,
        doc_id: String,
        title: Option<String>,
        content: Option<String>,
        status: Option<DocumentStatus>,
        tags: Option<Vec<String>>,
        now: u64,
    ) -> (r: Result<Document, Error>)
        requires
            old(s).wf(),
            old(s).documents@.contains_key(doc_id@) && content is Some
                ==> old(s).documents@[doc_id@].version < u32::MAX,
        ensures
            final(s).wf(),
            !old(s).documents@.contains_key(doc_id@) ==> r == Err::<Document, Error>(Error::DocumentNotFound)
                && *final(s) == *old(s),
            old(s).documents@.contains_key(doc_id@) ==> {
                let d = spec_updated_document(old(s).documents@[doc_id@], title, content, status, tags, now);
                &&& r matches Ok(rd) && rd.same_as(&d)
                &&& final(s).documents@ == old(s).documents@.insert(doc_id@, d)
                &&& *final(s) == (Storage { documents: final(s).documents, ..*old(s) })
            },
    {
        let mut doc = match s.documents.take(&doc_id) {
            Some(d) => d,
            None => {
                return Err(Error::DocumentNotFound);
            },
        };
        if let Some(t) = title {
            doc.title = t;
        }
        if let Some(c) = content {
            doc.content = c;
            doc.version = doc.version + 1;
        }
        if let Some(st) = status {
            doc.status = st;
        }
        if let Some(t) = tags {
            doc.tags = t;
        }
        doc.updated_at = now;
        let result = doc.copied();
        s.documents.insert(doc_id, doc);
        assert(s.documents@ =~= old(s).documents@.insert(doc_id@, spec_updated_document(old(s).documents@[doc_id@], title, content, status, tags, now)));
        Ok(result)
    }

    /// Marks a document published.
    pub fn publish_document(s: &mut Storage, doc_id: String, now: u64) -> (r: Result<(), Error>)
        requires
            old(s).wf(),
        ensures
            final(s).wf(),
            !old(s).documents@.contains_key(doc_id@) ==> r == Err::<(), Error>(Error::DocumentNotFound)
                && *final(s) == *old(s),
            old(s).documents@.contains_key(doc_id@) ==> {
                &&& r is Ok
                &&& final(s).documents@ == old(s).documents@.insert(
                    doc_id@,
                    Document { status: DocumentStatus::Published, updated_at: now, ..old(s).documents@[doc_id@] },
                )
                &&& *final(s) == (Storage { documents: final(s).documents, ..*old(s) })
            },
    {
        let mut doc = match s.documents.take(&doc_id) {
            Some(d) => d,
            None => {
                return Err(Error::DocumentNotFound);
            },
        };
        doc.status = DocumentStatus::Published;
        doc.updated_at = now;
        let ghost d = doc;
        s.documents.insert(doc_id, doc);
        assert(s.documents@ =~= old(s).documents@.insert(doc_id@, d));
        Ok(())
    }

    /// A copy of the document stored under `doc_id`.
    pub fn get_document(s: &Storage, doc_id: &String) -> (r: Option<Document>)
        requires
            s.wf(),
        ensures
            r is Some <==> s.documents@.contains_key(doc_id@),
            r matches Some(d) ==> d.same_as(&s.documents@[doc_id@]),
    {
        match s.documents.get(doc_id) {
            Some(d) => Some(d.copied()),
            None => None,
        }
    }

    /// Counts one more view of a document, and one more view in total.
    pub fn increment_view_count(s: &mut Storage, doc_id: String) -> (r: Result<(), Error>)
        requires
            old(s).wf(),
            old(s).documents@.contains_key(doc_id@) ==> old(s).documents@[doc_id@].view_count < u32::MAX
                && old(s).total_views < u64::MAX,
        ensures
            final(s).wf(),
            !old(s).documents@.contains_key(doc_id@) ==> r == Err::<(), Error>(Error::DocumentNotFound)
                && *final(s) == *old(s),
            old(s).documents@.contains_key(doc_id@) ==> {
                let d = old(s).documents@[doc_id@];
                &&& r is Ok
                &&& final(s).documents@ == old(s).documents@.insert(
                    doc_id@,
                    Document { view_count: (d.view_count + 1) as u32, ..d },
                )
                &&& final(s).total_views == old(s).total_views + 1
                &&& *final(s) == (Storage {
                    documents: final(s).documents,
                    total_views: final(s).total_views,
                    ..*old(s)
                })
            },
    {
        let mut doc = match s.documents.take(&doc_id) {
            Some(d) => d,
            None => {
                return Err(Error::DocumentNotFound);
            },
        };
        doc.view_count = doc.view_count + 1;
        let ghost d = doc;
        s.documents.insert(doc_id, doc);
        assert(s.documents@ =~= old(s).documents@.insert(doc_id@, d));
        s.increment_counter(Counter::TotalViews);
        Ok(())
    }

    /// Counts one more helpful mark on a document.
    pub fn mark_helpful(s: &mut Storage, doc_id: String) -> (r: Result<(), Error>)
        requires
            old(s).wf(),
            old(s).documents@.contains_key(doc_id@) ==> old(s).documents@[doc_id@].helpful_count < u32::MAX,
        ensures
            final(s).wf(),
            !old(s).documents@.contains_key(doc_id@) ==> r == Err::<(), Error>(Error::DocumentNotFound)
                && *final(s) == *old(s),
            old(s).documents@.contains_key(doc_id@) ==> {
                let d = old(s).documents@[doc_id@];
                &&& r is Ok
                &&& final(s).documents@ == old(s).documents@.insert(
                    doc_id@,
                    Document { helpful_count: (d.helpful_count + 1) as u32, ..d },
                )
                &&& *final(s) == (Storage { documents: final(s).documents, ..*old(s) })
            },
    {
        let mut doc = match s.documents.take(&doc_id) {
            Some(d) => d,
            None => {
                return Err(Error::DocumentNotFound);
            },
        };
        doc.helpful_count = doc.helpful_count + 1;
        let ghost d = doc;
        s.documents.insert(doc_id, doc);
        assert(s.documents@ =~= old(s).documents@.insert(doc_id@, d));
        Ok(())
    }

    /// Ids of the documents listed under a category, in creation order.
    pub fn get_documents_by_category(s: &Storage, category: &String) -> (r: Vec<String>)
        requires
            s.wf(),
        ensures
            r@ == ids_under(s.category_docs@, category@),
    {
        ids_listed(&s.category_docs, category)
    }

    /// Ids of the documents written by an author, in creation order.
    pub fn get_documents_by_author(s: &Storage, author: &String) -> (r: Vec<String>)
        requires
            s.wf(),
        ensures
            r@ == ids_under(s.author_docs@, author@),
    {
        ids_listed(&s.author_docs, author)
    }
}

} // verus!
