//! Everything the documentation contract keeps between calls.
use vstd::prelude::*;
use crate::table::Table;
use super::types::{Document, DocumentVersion, KnowledgeArticle, FAQ, ApiEndpoint, Tutorial, Contribution, Translation, DocumentAnalytics, SearchQuery, DocumentationConfig, dup_vec};

verus! {

/// The ids listed under `key`, or none when nothing is listed there.
pub open spec fn ids_under(t: Map<Seq<char>, Vec<String>>, key: Seq<char>) -> Seq<String> {
    if t.contains_key(key) {
        t[key]@
    } else {
        Seq::empty()
    }
}

/// The contract-wide counters.
#[derive(Clone, Copy, Debug, PartialEq, Eq, Structural)]
pub enum Counter {
    TotalDocuments,
    TotalViews,
    TotalContributions,
}

/// The persisted state of the documentation contract.
pub struct Storage {
    pub admin: Option<String>,
    pub config: Option<DocumentationConfig>,
    pub initialized: bool,
    pub documents: Table<Document>,
    pub versions: Table<Vec<DocumentVersion>>,
    pub articles: Table<KnowledgeArticle>,
    pub faqs: Table<FAQ>,
    pub endpoints: Table<ApiEndpoint>,
    pub tutorials: Table<Tutorial>,
    pub contributions: Table<Contribution>,
    pub translations: Table<Translation>,
    pub analytics: Table<DocumentAnalytics>,
    pub searches: Table<SearchQuery>,
    pub category_docs: Table<Vec<String>>,
    pub user_contributions: Table<Vec<String>>,
    pub author_docs: Table<Vec<String>>,
    pub total_documents: u64,
    pub total_views: u64,
    pub total_contributions: u64,
}

impl Storage {
    /// Every table is well formed.
    pub open spec fn wf(&self) -> bool {
        &&& self.documents.wf()
        &&& self.versions.wf()
        &&& self.articles.wf()
        &&& self.faqs.wf()
        &&& self.endpoints.wf()
        &&& self.tutorials.wf()
        &&& self.contributions.wf()
        &&& self.translations.wf()
        &&& self.analytics.wf()
        &&& self.searches.wf()
        &&& self.category_docs.wf()
        &&& self.user_contributions.wf()
        &&& self.author_docs.wf()
    }

    /// The value of a counter.
    pub open spec fn counter(&self, c: Counter) -> u64 {
        match c {
            Counter::TotalDocuments => self.total_documents,
            Counter::TotalViews => self.total_views,
            Counter::TotalContributions => self.total_contributions,
        }
    }

    /// The same state with one counter set to `v`.
    pub open spec fn with_counter(self, c: Counter, v: u64) -> Storage {
        match c {
            Counter::TotalDocuments => Storage { total_documents: v, ..self },
            Counter::TotalViews => Storage { total_views: v, ..self },
            Counter::TotalContributions => Storage { total_contributions: v, ..self },
        }
    }

    /// A state in which nothing has been stored yet.
    pub fn new() -> (s: Storage)
        ensures
            s.wf(),
            s.admin is None,
            s.config is None,
            !s.initialized,
            s.documents@ == Map::<Seq<char>, Document>::empty(),
            s.versions@ == Map::<Seq<char>, Vec<DocumentVersion>>::empty(),
            s.articles@ == Map::<Seq<char>, KnowledgeArticle>::empty(),
            s.faqs@ == Map::<Seq<char>, FAQ>::empty(),
            s.endpoints@ == Map::<Seq<char>, ApiEndpoint>::empty(),
            s.tutorials@ == Map::<Seq<char>, Tutorial>::empty(),
            s.contributions@ == Map::<Seq<char>, Contribution>::empty(),
            s.translations@ == Map::<Seq<char>, Translation>::empty(),
            s.analytics@ == Map::<Seq<char>, DocumentAnalytics>::empty(),
            s.searches@ == Map::<Seq<char>, SearchQuery>::empty(),
            s.category_docs@ == Map::<Seq<char>, Vec<String>>::empty(),
            s.user_contributions@ == Map::<Seq<char>, Vec<String>>::empty(),
            s.author_docs@ == Map::<Seq<char>, Vec<String>>::empty(),
            s.total_documents == 0,
            s.total_views == 0,
            s.total_contributions == 0,
    {
        Storage {
            admin: None,
            config: None,
            initialized: false,
            documents: Table::new(),
            versions: Table::new(),
            articles: Table::new(),
            faqs: Table::new(),
            endpoints: Table::new(),
            tutorials: Table::new(),
            contributions: Table::new(),
            translations: Table::new(),
            analytics: Table::new(),
            searches: Table::new(),
            category_docs: Table::new(),
            user_contributions: Table::new(),
            author_docs: Table::new(),
            total_documents: 0,
            total_views: 0,
            total_contributions: 0,
        }
    }

    /// Adds one to a counter and returns its new value.
    pub fn increment_counter(&mut self, c: Counter) -> (r: u64)
        requires
            old(self).counter(c) < u64::MAX,
        ensures
            r == old(self).counter(c) + 1,
            *final(self) == old(self).with_counter(c, r),
    {
        match c {
            Counter::TotalDocuments => {
                self.total_documents = self.total_documents + 1;
                self.total_documents
            },
            Counter::TotalViews => {
                self.total_views = self.total_views + 1;
                self.total_views
            },
            Counter::TotalContributions => {
                self.total_contributions = self.total_contributions + 1;
                self.total_contributions
            },
        }
    }

    /// The value of a counter.
    pub fn get_counter(&self, c: Counter) -> (r: u64)
        ensures
            r == self.counter(c),
    {
        match c {
            Counter::TotalDocuments => self.total_documents,
            Counter::TotalViews => self.total_views,
            Counter::TotalContributions => self.total_contributions,
        }
    }

    /// Appends `doc_id` to the documents listed under `category`.
    pub fn add_to_category(&mut self, category: &String, doc_id: &String)
        requires
            old(self).wf(),
        ensures
            final(self).wf(),
            *final(self) == (Storage { category_docs: final(self).category_docs, ..*old(self) }),
            final(self).category_docs@.remove(category@) == old(self).category_docs@.remove(category@),
            final(self).category_docs@.contains_key(category@),
            final(self).category_docs@[category@]@ == ids_under(old(self).category_docs@, category@).push(*doc_id),
    {
        append_id(&mut self.category_docs, category, doc_id);
    }

    /// Appends `contribution_id` to the contributions listed under `user`.
    pub fn add_to_user_contributions(&mut self, user: &String, contribution_id: &String)
        requires
            old(self).wf(),
        ensures
            final(self).wf(),
            *final(self) == (Storage { user_contributions: final(self).user_contributions, ..*old(self) }),
            final(self).user_contributions@.remove(user@) == old(self).user_contributions@.remove(user@),
            final(self).user_contributions@.contains_key(user@),
            final(self).user_contributions@[user@]@ == ids_under(old(self).user_contributions@, user@).push(*contribution_id),
    {
        append_id(&mut self.user_contributions, user, contribution_id);
    }

    /// Appends `doc_id` to the documents listed under `author`.
    pub fn add_to_author_docs(&mut self, author: &String, doc_id: &String)
        requires
            old(self).wf(),
        ensures
            final(self).wf(),
            *final(self) == (Storage { author_docs: final(self).author_docs, ..*old(self) }),
            final(self).author_docs@.remove(author@) == old(self).author_docs@.remove(author@),
            final(self).author_docs@.contains_key(author@),
            final(self).author_docs@[author@]@ == ids_under(old(self).author_docs@, author@).push(*doc_id),
    {
        append_id(&mut self.author_docs, author, doc_id);
    }
}

/// Appends `id` to the list kept under `key`.
fn append_id(t: &mut Table<Vec<String>>, key: &String, id: &String)
    requires
        old(t).wf(),
    ensures
        final(t).wf(),
        final(t)@.remove(key@) == old(t)@.remove(key@),
        final(t)@.contains_key(key@),
        final(t)@[key@]@ == ids_under(old(t)@, key@).push(*id),
{
    let mut list = match t.take(key) {
        Some(l) => l,
        None => Vec::new(),
    };
    list.push(id.clone());
    let ghost l = list;
    t.insert(key.clone(), list);
    assert(t@.remove(key@) =~= old(t)@.remove(key@));
}

/// A copy of the ids listed under `key`, empty when nothing is listed.
pub fn ids_listed(t: &Table<Vec<String>>, key: &String) -> (r: Vec<String>)
    requires
        t.wf(),
    ensures
        r@ == ids_under(t@, key@),
{
    match t.get(key) {
        Some(l) => dup_vec(l),
        None => Vec::new(),
    }
}

} // verus!
