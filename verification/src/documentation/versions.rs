//! Numbered snapshots of documents.
use vstd::prelude::*;
use super::errors::Error;
use super::storage::Storage;
use super::types::{DocumentVersion, Dup};

verus! {

/// The snapshots kept for a document, oldest first.
pub open spec fn versions_of(t: Map<Seq<char>, Vec<DocumentVersion>>, doc_id: Seq<char>) -> Seq<DocumentVersion> {
    if t.contains_key(doc_id) {
        t[doc_id]@
    } else {
        Seq::empty()
    }
}

/// The snapshot numbered `n` in a list; the latest one wins.
pub open spec fn version_numbered(l: Seq<DocumentVersion>, n: u32) -> Option<DocumentVersion>
    decreases l.len(),
{
    if l.len() == 0 {
        None
    } else if l.last().version_number == n {
        Some(l.last())
    } else {
        version_numbered(l.drop_last(), n)
    }
}

/// A snapshot as it stands once snapshot `n` is added: those numbered from 1 below `n`
/// are no longer current.
pub open spec fn demoted(v: DocumentVersion, n: u32) -> DocumentVersion {
    if 1 <= v.version_number < n {
        DocumentVersion { is_current: false, ..v }
    } else {
        v
    }
}

/// The snapshot that `create_version` adds.
pub open spec fn spec_new_version(
    doc_id: String,
    version_number: u32,
    content: String,
    author: String,
    changelog: String,
    now: u64,
) -> DocumentVersion {
    DocumentVersion {
        version_id: doc_id,
        doc_id,
        version_number,
        content,
        author,
        created_at: now,
        changelog,
        is_current: true,
    }
}

/// Demoting every snapshot of a list demotes the one found under each number.
pub proof fn lemma_version_numbered_demoted(l: Seq<DocumentVersion>, n: u32, m: u32)
    ensures
        version_numbered(l.map_values(|v: DocumentVersion| demoted(v, n)), m) == match version_numbered(l, m) {
            Some(v) => Some(demoted(v, n)),
            None => None,
        },
    decreases l.len(),
{
    let f = |v: DocumentVersion| demoted(v, n);
    if l.len() > 0 {
        assert(l.map_values(f).drop_last() =~= l.drop_last().map_values(f));
        lemma_version_numbered_demoted(l.drop_last(), n, m);
    }
}

/// Manages document snapshots.
pub struct VersionManager;

impl VersionManager {
    /// Adds snapshot `version_number` of a document; earlier-numbered snapshots stop being current.
    pub fn create_version(
        s: &mut Storage,
        doc_id: String,
        version_number: u32,
        content: String,
        author: &String,
        changelog: String,
        now: u64,
    ) -> (r: Result<DocumentVersion, Error>)
        requires
            old(s).wf(),
        ensures
            final(s).wf(),
            !old(s).documents@.contains_key(doc_id@) ==> r == Err::<DocumentVersion, Error>(Error::DocumentNotFound)
                && *final(s) == *old(s),
            old(s).documents@.contains_key(doc_id@) ==> ({
                let v = spec_new_version(doc_id, version_number, content, *author, changelog, now);
                &&& r == Ok::<DocumentVersion, Error>(v)
                &&& final(s).versions@.remove(doc_id@) == old(s).versions@.remove(doc_id@)
                &&& final(s).versions@.contains_key(doc_id@)
                &&& final(s).versions@[doc_id@]@ == versions_of(old(s).versions@, doc_id@).map_values(
                    |x: DocumentVersion| demoted(x, version_number),
                ).push(v)
                &&& *final(s) == (Storage { versions: final(s).versions, ..*old(s) })
            }),
    {
        if !s.documents.contains_key(&doc_id) {
            return Err(Error::DocumentNotFound);
        }
        let old_list = match s.versions.take(&doc_id) {
            Some(l) => l,
            None => Vec::new(),
        };
        let ghost ol = old_list@;
        let mut list: Vec<DocumentVersion> = Vec::new();
        let mut i: usize = 0;
        while i < old_list.len()
            invariant
                i <= ol.len(),
                old_list@ == ol,
                list@ == ol.subrange(0, i as int).map_values(|x: DocumentVersion| demoted(x, version_number)),
            decreases ol.len() - i,
        {
            let mut v = old_list[i].dup();
            if 1 <= v.version_number && v.version_number < version_number {
                v.is_current = false;
            }
            assert(v == demoted(ol[i as int], version_number));
            list.push(v);
            i += 1;
            assert(list@ =~= ol.subrange(0, i as int).map_values(|x: DocumentVersion| demoted(x, version_number)));
        }
        assert(ol.subrange(0, ol.len() as int) =~= ol);
        let version = DocumentVersion {
            version_id: doc_id.clone(),
            doc_id: doc_id.clone(),
            version_number,
            content,
            author: author.clone(),
            created_at: now,
            changelog,
            is_current: true,
        };
        let result = version.dup();
        list.push(version);
        s.versions.insert(doc_id, list);
        assert(s.versions@.remove(doc_id@) =~= old(s).versions@.remove(doc_id@));
        Ok(result)
    }

    /// Snapshot `version_number` of a document.
    pub fn get_version(s: &Storage, doc_id: String, version_number: u32) -> (r: Option<DocumentVersion>)
        requires
            s.wf(),
        ensures
            r == version_numbered(versions_of(s.versions@, doc_id@), version_number),
    {
        match s.versions.get(&doc_id) {
            None => None,
            Some(list) => {
                let mut i: usize = list.len();
                assert(list@ == versions_of(s.versions@, doc_id@));
                assert(list@.subrange(0, i as int) =~= list@);
                while i > 0
                    invariant
                        i <= list@.len(),
                        list@ == versions_of(s.versions@, doc_id@),
                        version_numbered(list@.subrange(0, i as int), version_number)
                            == version_numbered(list@, version_number),
                    decreases i,
                {
                    assert(list@.subrange(0, i as int).drop_last() =~= list@.subrange(0, i - 1));
                    if list[i - 1].version_number == version_number {
                        assert(list@.subrange(0, i as int).last() == list@[i - 1]);
                        assert(version_numbered(list@.subrange(0, i as int), version_number) == Some(list@[i - 1]));
                        return Some(list[i - 1].dup());
                    }
                    i -= 1;
                }
                None
            },
        }
    }

    /// The snapshot whose number is the document's current version.
    pub fn get_current_version(s: &Storage, doc_id: String) -> (r: Option<DocumentVersion>)
        requires
            s.wf(),
        ensures
            r == if s.documents@.contains_key(doc_id@) {
                version_numbered(versions_of(s.versions@, doc_id@), s.documents@[doc_id@].version)
            } else {
                None
            },
    {
        let n = match s.documents.get(&doc_id) {
            Some(d) => d.version,
            None => {
                return None;
            },
        };
        Self::get_version(s, doc_id, n)
    }
}

} // verus!
