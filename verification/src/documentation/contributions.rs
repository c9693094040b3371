//! Community contributions and their review.
use vstd::prelude::*;
use super::errors::Error;
use super::storage::{Storage, Counter, ids_under};
use super::types::{Contribution, ContributionType, ContributionStatus, Dup};

verus! {

/// The contribution that `submit_contribution` stores.
pub open spec fn spec_new_contribution(
    contribution_id: String,
    contributor: String,
    doc_id: String,
    contribution_type: ContributionType,
    content: String,
    now: u64,
) -> Contribution {
    Contribution {
        contribution_id,
        contributor,
        doc_id,
        contribution_type,
        content,
        status: ContributionStatus::Pending,
        created_at: now,
        reviewed_by: None,
        review_notes: None,
    }
}

/// Manages community contributions.
pub struct ContributionManager;

impl ContributionManager {
    /// Stores a pending contribution, lists it under its contributor and counts it.
    pub fn submit_contribution(
        s: &mut Storage,
        contribution_id: String,
        contributor: &String,
        doc_id: String,
        contribution_type: ContributionType,
        content: String,
        now: u64,
    ) -> (r: Result<Contribution, Error>)
        requires
            old(s).wf(),
            old(s).total_contributions < u64::MAX,
        ensures
            final(s).wf(),
            old(s).contributions@.contains_key(contribution_id@) ==> r == Err::<Contribution, Error>(
                Error::AlreadyExists,
            ) && *final(s) == *old(s),
            !old(s).contributions@.contains_key(contribution_id@) ==> {
                let c = spec_new_contribution(contribution_id, *contributor, doc_id, contribution_type, content, now);
                &&& r == Ok::<Contribution, Error>(c)
                &&& final(s).contributions@ == old(s).contributions@.insert(contribution_id@, c)
                &&& final(s).user_contributions@.remove(contributor@) == old(s).user_contributions@.remove(contributor@)
                &&& final(s).user_contributions@.contains_key(contributor@)
                &&& final(s).user_contributions@[contributor@]@ == ids_under(
                    old(s).user_contributions@,
                    contributor@,
                ).push(contribution_id)
                &&& final(s).total_contributions == old(s).total_contributions + 1
                &&& *final(s) == (Storage {
                    contributions: final(s).contributions,
                    user_contributions: final(s).user_contributions,
                    total_contributions: final(s).total_contributions,
                    ..*old(s)
                })
            },
    {
        if s.contributions.contains_key(&contribution_id) {
            return Err(Error::AlreadyExists);
        }
        let contribution = Contribution {
            contribution_id: contribution_id.clone(),
            contributor: contributor.clone(),
            doc_id,
            contribution_type,
            content,
            status: ContributionStatus::Pending,
            created_at: now,
            reviewed_by: None,
            review_notes: None,
        };
        let result = contribution.dup();
        s.contributions.insert(contribution_id.clone(), contribution);
        s.add_to_user_contributions(contributor, &contribution_id);
        s.increment_counter(Counter::TotalContributions);
        Ok(result)
    }

    /// Records the outcome of a review.
    pub fn review_contribution(
        s: &mut Storage,
        contribution_id: String,
        reviewer: &String,
        status: ContributionStatus,
        notes: Option<String>,
    ) -> (r: Result<(), Error>)
        requires
            old(s).wf(),
        ensures
            final(s).wf(),
            !old(s).contributions@.contains_key(contribution_id@) ==> r == Err::<(), Error>(
                Error::ContributionNotFound,
            ) && *final(s) == *old(s),
            old(s).contributions@.contains_key(contribution_id@) ==> {
                &&& r is Ok
                &&& final(s).contributions@ == old(s).contributions@.insert(
                    contribution_id@,
                    Contribution {
                        status,
                        reviewed_by: Some(*reviewer),
                        review_notes: notes,
                        ..old(s).contributions@[contribution_id@]
                    },
                )
                &&& *final(s) == (Storage { contributions: final(s).contributions, ..*old(s) })
            },
    {
        let mut contribution = match s.contributions.take(&contribution_id) {
            Some(c) => c,
            None => {
                return Err(Error::ContributionNotFound);
            },
        };
        contribution.status = status;
        contribution.reviewed_by = Some(reviewer.clone());
        contribution.review_notes = notes;
        let ghost c = contribution;
        s.contributions.insert(contribution_id, contribution);
        assert(s.contributions@ =~= old(s).contributions@.insert(contribution_id@, c));
        Ok(())
    }

    /// A copy of the contribution stored under `contribution_id`.
    pub fn get_contribution(s: &Storage, contribution_id: &String) -> (r: Option<Contribution>)
        requires
            s.wf(),
        ensures
            r == s.contributions@.get(contribution_id@),
    {
        match s.contributions.get(contribution_id) {
            Some(c) => Some(c.dup()),
            None => None,
        }
    }
}

} // verus!
