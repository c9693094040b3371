//! Knowledge-base articles and frequently asked questions.
use vstd::prelude::*;
use super::errors::Error;
use super::storage::Storage;
use super::types::{KnowledgeArticle, FAQ, Dup};

verus! {

/// `a` is the article that `create_article` makes from these arguments.
pub open spec fn is_new_article(
    a: KnowledgeArticle,
    article_id: String,
    title: String,
    content: String,
    category: String,
    author: String,
    tags: Vec<String>,
    now: u64,
) -> bool {
    &&& a.article_id == article_id
    &&& a.title == title
    &&& a.content == content
    &&& a.category == category
    &&& a.author == author
    &&& a.created_at == now
    &&& a.updated_at == now
    &&& a.view_count == 0
    &&& a.helpful_votes == 0
    &&& a.not_helpful_votes == 0
    &&& a.related_articles@ == Seq::<String>::empty()
    &&& a.tags == tags
}

/// The question that `create_faq` stores.
pub open spec fn spec_new_faq(
    faq_id: String,
    question: String,
    answer: String,
    category: String,
    author: String,
    order_index: u32,
    now: u64,
) -> FAQ {
    FAQ { faq_id, question, answer, category, author, created_at: now, view_count: 0, helpful_count: 0, order_index }
}

/// Manages the knowledge base.
pub struct KnowledgeManager;

impl KnowledgeManager {
    /// Stores a new article.
    pub fn create_article(
        s: &mut Storage,
        article_id: String,
        title: String,
        content: String,
        category: String,
        author: &String,
        tags: Vec<String>,
        now: u64,
    ) -> (r: Result<KnowledgeArticle, Error>)
        requires
            old(s).wf(),
        ensures
            final(s).wf(),
            old(s).articles@.contains_key(article_id@) ==> (r matches Err(e) && e == Error::AlreadyExists)
                && *final(s) == *old(s),
            !old(s).articles@.contains_key(article_id@) ==> {
                &&& final(s).articles@.remove(article_id@) == old(s).articles@.remove(article_id@)
                &&& final(s).articles@.contains_key(article_id@)
                &&& is_new_article(final(s).articles@[article_id@], article_id, title, content, category, *author, tags, now)
                &&& r matches Ok(a) && a.same_as(&final(s).articles@[article_id@])
                &&& *final(s) == (Storage { articles: final(s).articles, ..*old(s) })
            },
    {
        if s.articles.contains_key(&article_id) {
            return Err(Error::AlreadyExists);
        }
        let article = KnowledgeArticle {
            article_id: article_id.clone(),
            title,
            content,
            category,
            author: author.clone(),
            created_at: now,
            updated_at: now,
            view_count: 0,
            helpful_votes: 0,
            not_helpful_votes: 0,
            related_articles: Vec::new(),
            tags,
        };
        let result = article.copied();
        let ghost a = article;
        s.articles.insert(article_id, article);
        assert(s.articles@.remove(article_id@) =~= old(s).articles@.remove(article_id@));
        Ok(result)
    }

    /// Stores a new question.
    pub fn create_faq(
        s: &mut Storage,
        faq_id: String,
        question: String,
        answer: String,
        category: String,
        author: &String,
        order_index: u32,
        now: u64,
    ) -> (r: Result<FAQ, Error>)
        requires
            old(s).wf(),
        ensures
            final(s).wf(),
            old(s).faqs@.contains_key(faq_id@) ==> r == Err::<FAQ, Error>(Error::AlreadyExists)
                && *final(s) == *old(s),
            !old(s).faqs@.contains_key(faq_id@) ==> {
                let f = spec_new_faq(faq_id, question, answer, category, *author, order_index, now);
                &&& r == Ok::<FAQ, Error>(f)
                &&& final(s).faqs@ == old(s).faqs@.insert(faq_id@, f)
                &&& *final(s) == (Storage { faqs: final(s).faqs, ..*old(s) })
            },
    {
        if s.faqs.contains_key(&faq_id) {
            return Err(Error::AlreadyExists);
        }
        let faq = FAQ {
            faq_id: faq_id.clone(),
            question,
            answer,
            category,
            author: author.clone(),
            created_at: now,
            view_count: 0,
            helpful_count: 0,
            order_index,
        };
        let result = faq.dup();
        s.faqs.insert(faq_id, faq);
        Ok(result)
    }

    /// Counts one helpful or one not-helpful vote on an article.
    pub fn vote_article(s: &mut Storage, article_id: String, is_helpful: bool) -> (r: Result<(), Error>)
        requires
            old(s).wf(),
            old(s).articles@.contains_key(article_id@) ==> if is_helpful {
                old(s).articles@[article_id@].helpful_votes < u32::MAX
            } else {
                old(s).articles@[article_id@].not_helpful_votes < u32::MAX
            },
        ensures
            final(s).wf(),
            !old(s).articles@.contains_key(article_id@) ==> r == Err::<(), Error>(Error::DocumentNotFound)
                && *final(s) == *old(s),
            old(s).articles@.contains_key(article_id@) ==> {
                let a = old(s).articles@[article_id@];
                &&& r is Ok
                &&& final(s).articles@ == old(s).articles@.insert(
                    article_id@,
                    if is_helpful {
                        KnowledgeArticle { helpful_votes: (a.helpful_votes + 1) as u32, ..a }
                    } else {
                        KnowledgeArticle { not_helpful_votes: (a.not_helpful_votes + 1) as u32, ..a }
                    },
                )
                &&& *final(s) == (Storage { articles: final(s).articles, ..*old(s) })
            },
    {
        let mut article = match s.articles.take(&article_id) {
            Some(a) => a,
            None => {
                return Err(Error::DocumentNotFound);
            },
        };
        if is_helpful {
            article.helpful_votes = article.helpful_votes + 1;
        } else {
            article.not_helpful_votes = article.not_helpful_votes + 1;
        }
        let ghost a = article;
        s.articles.insert(article_id, article);
        assert(s.articles@ =~= old(s).articles@.insert(article_id@, a));
        Ok(())
    }

    /// A copy of the article stored under `article_id`.
    pub fn get_article(s: &Storage, article_id: &String) -> (r: Option<KnowledgeArticle>)
        requires
            s.wf(),
        ensures
            r is Some <==> s.articles@.contains_key(article_id@),
            r matches Some(a) ==> a.same_as(&s.articles@[article_id@]),
    {
        match s.articles.get(article_id) {
            Some(a) => Some(a.copied()),
            None => None,
        }
    }

    /// A copy of the question stored under `faq_id`.
    pub fn get_faq(s: &Storage, faq_id: &String) -> (r: Option<FAQ>)
        requires
            s.wf(),
        ensures
            r == s.faqs@.get(faq_id@),
    {
        match s.faqs.get(faq_id) {
            Some(f) => Some(f.dup()),
            None => None,
        }
    }
}

} // verus!
