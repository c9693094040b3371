//! Step-by-step tutorials.
use vstd::prelude::*;
use super::errors::Error;
use super::storage::Storage;
use super::types::{Tutorial, TutorialStep, DifficultyLevel};

verus! {

/// The tutorial that `create_tutorial` stores.
pub open spec fn spec_new_tutorial(
    tutorial_id: String,
    title: String,
    description: String,
    difficulty: DifficultyLevel,
    estimated_time: u32,
    author: String,
    steps: Vec<TutorialStep>,
    prerequisites: Vec<String>,
    now: u64,
) -> Tutorial {
    Tutorial {
        tutorial_id,
        title,
        description,
        difficulty,
        estimated_time,
        author,
        steps,
        prerequisites,
        created_at: now,
        completion_count: 0,
    }
}

/// Manages tutorials.
pub struct TutorialManager;

impl TutorialManager {
    /// Stores a new tutorial.
    pub fn create_tutorial(
        s: &mut Storage,
        tutorial_id: String,
        title: String,
        description: String,
        difficulty: DifficultyLevel,
        estimated_time: u32,
        author: &String,
        steps: Vec<TutorialStep>,
        prerequisites: Vec<String>,
        now: u64,
    ) -> (r: Result<Tutorial, Error>)
        requires
            old(s).wf(),
        ensures
            final(s).wf(),
            old(s).tutorials@.contains_key(tutorial_id@) ==> (r matches Err(e) && e == Error::AlreadyExists)
                && *final(s) == *old(s),
            !old(s).tutorials@.contains_key(tutorial_id@) ==> {
                let t = spec_new_tutorial(tutorial_id, title, description, difficulty, estimated_time, *author, steps, prerequisites, now);
                &&& r matches Ok(rt) && rt.same_as(&t)
                &&& final(s).tutorials@ == old(s).tutorials@.insert(tutorial_id@, t)
                &&& *final(s) == (Storage { tutorials: final(s).tutorials, ..*old(s) })
            },
    {
        if s.tutorials.contains_key(&tutorial_id) {
            return Err(Error::AlreadyExists);
        }
        let tutorial = Tutorial {
            tutorial_id: tutorial_id.clone(),
            title,
            description,
            difficulty,
            estimated_time,
            author: author.clone(),
            steps,
            prerequisites,
            created_at: now,
            completion_count: 0,
        };
        let result = tutorial.copied();
        s.tutorials.insert(tutorial_id, tutorial);
        Ok(result)
    }

    /// Counts one more completion of a tutorial.
    pub fn complete_tutorial(s: &mut Storage, tutorial_id: String) -> (r: Result<(), Error>)
        requires
            old(s).wf(),
            old(s).tutorials@.contains_key(tutorial_id@) ==> old(s).tutorials@[tutorial_id@].completion_count
                < u32::MAX,
        ensures
            final(s).wf(),
            !old(s).tutorials@.contains_key(tutorial_id@) ==> r == Err::<(), Error>(Error::DocumentNotFound)
                && *final(s) == *old(s),
            old(s).tutorials@.contains_key(tutorial_id@) ==> {
                let t = old(s).tutorials@[tutorial_id@];
                &&& r is Ok
                &&& final(s).tutorials@ == old(s).tutorials@.insert(
                    tutorial_id@,
                    Tutorial { completion_count: (t.completion_count + 1) as u32, ..t },
                )
                &&& *final(s) == (Storage { tutorials: final(s).tutorials, ..*old(s) })
            },
    {
        let mut tutorial = match s.tutorials.take(&tutorial_id) {
            Some(t) => t,
            None => {
                return Err(Error::DocumentNotFound);
            },
        };
        tutorial.completion_count = tutorial.completion_count + 1;
        let ghost t = tutorial;
        s.tutorials.insert(tutorial_id, tutorial);
        assert(s.tutorials@ =~= old(s).tutorials@.insert(tutorial_id@, t));
        Ok(())
    }

    /// A copy of the tutorial stored under `tutorial_id`.
    pub fn get_tutorial(s: &Storage, tutorial_id: &String) -> (r: Option<Tutorial>)
        requires
            s.wf(),
        ensures
            r is Some <==> s.tutorials@.contains_key(tutorial_id@),
            r matches Some(t) ==> t.same_as(&s.tutorials@[tutorial_id@]),
    {
        match s.tutorials.get(tutorial_id) {
            Some(t) => Some(t.copied()),
            None => None,
        }
    }
}

} // verus!
