//! Search tracking and per-document analytics.
use vstd::prelude::*;
use super::errors::Error;
use super::storage::Storage;
use super::types::{SearchQuery, DocumentAnalytics, Dup};

verus! {

/// The search record that `track_search` stores.
pub open spec fn spec_new_search(
    query_id: String,
    query_text: String,
    user: String,
    results_count: u32,
    now: u64,
) -> SearchQuery {
    SearchQuery { query_id, query_text, user, timestamp: now, results_count, clicked_result: None }
}

/// Analytics of a document before anything was recorded for it.
pub open spec fn spec_empty_analytics(doc_id: String) -> DocumentAnalytics {
    DocumentAnalytics {
        doc_id,
        total_views: 0,
        unique_viewers: 0,
        avg_time_spent: 0,
        helpful_votes: 0,
        not_helpful_votes: 0,
        completion_rate: 0,
        search_appearances: 0,
    }
}

/// The analytics recorded for `doc_id`, or the empty record.
pub open spec fn analytics_or_empty(t: Map<Seq<char>, DocumentAnalytics>, doc_id: String) -> DocumentAnalytics {
    if t.contains_key(doc_id@) {
        t[doc_id@]
    } else {
        spec_empty_analytics(doc_id)
    }
}

/// Manages search records and document analytics.
pub struct AnalyticsManager;

impl AnalyticsManager {
    /// Records a search under a new id; `AlreadyExists` when the id is taken.
    pub fn track_search(
        s: &mut Storage,
        query_id: String,
        query_text: String,
        user: &String,
        results_count: u32,
        now: u64,
    ) -> (r: Result<SearchQuery, Error>)
        requires
            old(s).wf(),
        ensures
            final(s).wf(),
            old(s).searches@.contains_key(query_id@) ==> r == Err::<SearchQuery, Error>(Error::AlreadyExists)
                && *final(s) == *old(s),
            !old(s).searches@.contains_key(query_id@) ==> ({
                let q = spec_new_search(query_id, query_text, *user, results_count, now);
                &&& r == Ok::<SearchQuery, Error>(q)
                &&& final(s).searches@ == old(s).searches@.insert(query_id@, q)
                &&& *final(s) == (Storage { searches: final(s).searches, ..*old(s) })
            }),
    {
        if s.searches.contains_key(&query_id) {
            return Err(Error::AlreadyExists);
        }
        let search = SearchQuery {
            query_id: query_id.clone(),
            query_text,
            user: user.clone(),
            timestamp: now,
            results_count,
            clicked_result: None,
        };
        let result = search.dup();
        s.searches.insert(query_id, search);
        Ok(result)
    }

    /// Records which document a search led to.
    pub fn track_click(s: &mut Storage, query_id: String, doc_id: String) -> (r: Result<(), Error>)
        requires
            old(s).wf(),
        ensures
            final(s).wf(),
            !old(s).searches@.contains_key(query_id@) ==> r == Err::<(), Error>(Error::DocumentNotFound)
                && *final(s) == *old(s),
            old(s).searches@.contains_key(query_id@) ==> {
                &&& r is Ok
                &&& final(s).searches@ == old(s).searches@.insert(
                    query_id@,
                    SearchQuery { clicked_result: Some(doc_id), ..old(s).searches@[query_id@] },
                )
                &&& *final(s) == (Storage { searches: final(s).searches, ..*old(s) })
            },
    {
        let mut search = match s.searches.take(&query_id) {
            Some(q) => q,
            None => {
                return Err(Error::DocumentNotFound);
            },
        };
        search.clicked_result = Some(doc_id);
        let ghost q = search;
        s.searches.insert(query_id, search);
        assert(s.searches@ =~= old(s).searches@.insert(query_id@, q));
        Ok(())
    }

    /// A copy of the analytics recorded for a document.
    pub fn get_document_analytics(s: &Storage, doc_id: &String) -> (r: Option<DocumentAnalytics>)
        requires
            s.wf(),
        ensures
            r == s.analytics@.get(doc_id@),
    {
        match s.analytics.get(doc_id) {
            Some(a) => Some(a.dup()),
            None => None,
        }
    }

    /// Adds views and votes to a document's analytics, starting from the empty record.
    pub fn update_analytics(
        s: &mut Storage,
        doc_id: String,
        views: u32,
        helpful: u32,
        not_helpful: u32,
    ) -> (r: Result<(), Error>)
        requires
            old(s).wf(),
            analytics_or_empty(old(s).analytics@, doc_id).total_views + views <= u32::MAX,
            analytics_or_empty(old(s).analytics@, doc_id).helpful_votes + helpful <= u32::MAX,
            analytics_or_empty(old(s).analytics@, doc_id).not_helpful_votes + not_helpful <= u32::MAX,
        ensures
            final(s).wf(),
            ({
                let a = analytics_or_empty(old(s).analytics@, doc_id);
                &&& r is Ok
                &&& final(s).analytics@ == old(s).analytics@.insert(
                    doc_id@,
                    DocumentAnalytics {
                        total_views: (a.total_views + views) as u32,
                        helpful_votes: (a.helpful_votes + helpful) as u32,
                        not_helpful_votes: (a.not_helpful_votes + not_helpful) as u32,
                        ..a
                    },
                )
                &&& *final(s) == (Storage { analytics: final(s).analytics, ..*old(s) })
            }),
    {
        let mut analytics = match s.analytics.take(&doc_id) {
            Some(a) => a,
            None => DocumentAnalytics {
                doc_id: doc_id.clone(),
                total_views: 0,
                unique_viewers: 0,
                avg_time_spent: 0,
                helpful_votes: 0,
                not_helpful_votes: 0,
                completion_rate: 0,
                search_appearances: 0,
            },
        };
        analytics.total_views = analytics.total_views + views;
        analytics.helpful_votes = analytics.helpful_votes + helpful;
        analytics.not_helpful_votes = analytics.not_helpful_votes + not_helpful;
        let ghost a = analytics;
        s.analytics.insert(doc_id, analytics);
        assert(s.analytics@ =~= old(s).analytics@.insert(doc_id@, a));
        Ok(())
    }
}

} // verus!
