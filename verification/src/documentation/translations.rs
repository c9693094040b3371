//! Translations of documents.
use vstd::prelude::*;
use super::errors::Error;
use super::storage::Storage;
use super::types::{Translation, TranslationStatus, Dup};

verus! {

/// The translation that `create_translation` stores.
pub open spec fn spec_new_translation(
    translation_id: String,
    original_doc_id: String,
    language: String,
    title: String,
    content: String,
    translator: String,
    now: u64,
) -> Translation {
    Translation {
        translation_id,
        original_doc_id,
        language,
        title,
        content,
        translator,
        status: TranslationStatus::InProgress,
        created_at: now,
    }
}

/// Manages translations.
pub struct TranslationManager;

impl TranslationManager {
    /// Stores a translation in progress.
    pub fn create_translation(
        s: &mut Storage,
        translation_id: String,
        original_doc_id: String,
        language: String,
        title: String,
        content: String,
        translator: &String,
        now: u64,
    ) -> (r: Result<Translation, Error>)
        requires
            old(s).wf(),
        ensures
            final(s).wf(),
            old(s).translations@.contains_key(translation_id@) ==> r == Err::<Translation, Error>(
                Error::AlreadyExists,
            ) && *final(s) == *old(s),
            !old(s).translations@.contains_key(translation_id@) ==> {
                let t = spec_new_translation(translation_id, original_doc_id, language, title, content, *translator, now);
                &&& r == Ok::<Translation, Error>(t)
                &&& final(s).translations@ == old(s).translations@.insert(translation_id@, t)
                &&& *final(s) == (Storage { translations: final(s).translations, ..*old(s) })
            },
    {
        if s.translations.contains_key(&translation_id) {
            return Err(Error::AlreadyExists);
        }
        let translation = Translation {
            translation_id: translation_id.clone(),
            original_doc_id,
            language,
            title,
            content,
            translator: translator.clone(),
            status: TranslationStatus::InProgress,
            created_at: now,
        };
        let result = translation.dup();
        s.translations.insert(translation_id, translation);
        Ok(result)
    }

    /// Sets the status of a translation.
    pub fn update_translation_status(
        s: &mut Storage,
        translation_id: String,
        status: TranslationStatus,
    ) -> (r: Result<(), Error>)
        requires
            old(s).wf(),
        ensures
            final(s).wf(),
            !old(s).translations@.contains_key(translation_id@) ==> r == Err::<(), Error>(
                Error::TranslationNotFound,
            ) && *final(s) == *old(s),
            old(s).translations@.contains_key(translation_id@) ==> {
                &&& r is Ok
                &&& final(s).translations@ == old(s).translations@.insert(
                    translation_id@,
                    Translation { status, ..old(s).translations@[translation_id@] },
                )
                &&& *final(s) == (Storage { translations: final(s).translations, ..*old(s) })
            },
    {
        let mut translation = match s.translations.take(&translation_id) {
            Some(t) => t,
            None => {
                return Err(Error::TranslationNotFound);
            },
        };
        translation.status = status;
        let ghost t = translation;
        s.translations.insert(translation_id, translation);
        assert(s.translations@ =~= old(s).translations@.insert(translation_id@, t));
        Ok(())
    }

    /// A copy of the translation stored under `translation_id`.
    pub fn get_translation(s: &Storage, translation_id: &String) -> (r: Option<Translation>)
        requires
            s.wf(),
        ensures
            r == s.translations@.get(translation_id@),
    {
        match s.translations.get(translation_id) {
            Some(t) => Some(t.dup()),
            None => None,
        }
    }
}

} // verus!
