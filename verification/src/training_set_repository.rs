//! The training-set store capability: persists assembled training sets.
//! The trait carries the store contract; an in-memory implementation and an
//! unconfigured placeholder are provided.

use vstd::prelude::*;

use crate::errors::RepoError;
use crate::types::{
    PuzzleId, RatingRange, ThemeChoice, TrainingSet, TrainingSetId, TrainingSetView,
};

verus! {

/// Request to persist one training set; the store assigns the identifier.
pub struct CreateTrainingSet {
    pub puzzle_ids: Vec<PuzzleId>,
    pub name: String,
    pub rating: RatingRange,
    pub themes: ThemeChoice,
    pub current_progress: u32,
    pub cycles_done: u32,
}

/// The training set a successful create must return: every requested field
/// kept, only the identifier chosen by the store.
pub open spec fn set_created_from(t: TrainingSetView, request: CreateTrainingSet) -> bool {
    &&& t.puzzle_ids == request.puzzle_ids@
    &&& t.name == request.name@
    &&& t.rating == request.rating
    &&& t.themes == request.themes@
    &&& t.current_progress == request.current_progress
    &&& t.cycles_done == request.cycles_done
}

/// Persists training sets. `sets` is the store's contents in insertion
/// order.
pub trait TrainingSetRepository: Sized {
    spec fn sets(&self) -> Seq<TrainingSetView>;

    /// Whether the store refuses requests in its present state. A store
    /// that does not owes success; one that does may still answer.
    spec fn refuses_requests(&self) -> bool;

    /// Persist one training set. A store that does not refuse requests
    /// succeeds. On success the store has grown by exactly the returned
    /// set, which keeps every requested field; on failure the store is
    /// unchanged.
    fn create(&mut self, training_set: CreateTrainingSet) -> (r: Result<TrainingSet, RepoError>)
        ensures
            !old(self).refuses_requests() ==> r matches Ok(_),
            r matches Ok(t) ==> {
                &&& set_created_from(t@, training_set)
                &&& final(self).sets() == old(self).sets().push(t@)
            },
            r matches Err(_) ==> final(self).sets() == old(self).sets(),
    ;
}

/// Placeholder store for wiring that is not yet configured: it holds
/// nothing and refuses every request.
pub struct DummyTrainingSetRepository;

impl TrainingSetRepository for DummyTrainingSetRepository {
    open spec fn sets(&self) -> Seq<TrainingSetView> {
        Seq::empty()
    }

    open spec fn refuses_requests(&self) -> bool {
        true
    }

    fn create(&mut self, _training_set: CreateTrainingSet) -> (r: Result<TrainingSet, RepoError>) {
        Err(RepoError { message: "training set store is not configured".to_owned() })
    }
}

/// Copy of a training set, field by field; the copy has the same model.
fn clone_training_set(t: &TrainingSet) -> (r: TrainingSet)
    ensures
        r@ == t@,
{
    let r = TrainingSet {
        id: t.id,
        puzzle_ids: crate::types::copy_items(&t.puzzle_ids),
        name: t.name.clone(),
        rating: t.rating,
        themes: crate::types::clone_theme_choice(&t.themes),
        current_progress: t.current_progress,
        cycles_done: t.cycles_done,
    };
    proof {
        assert(r@ =~= t@);
    }
    r
}

/// In-memory training-set store: a growing list with a monotonic
/// identifier counter.
pub struct InMemoryTrainingSetRepository {
    sets: Vec<TrainingSet>,
    next_id: TrainingSetId,
}

impl InMemoryTrainingSetRepository {
    /// An empty store.
    pub fn new() -> (r: InMemoryTrainingSetRepository)
        ensures
            r.sets() == Seq::<TrainingSetView>::empty(),
            !r.refuses_requests(),
    {
        let r = InMemoryTrainingSetRepository { sets: Vec::new(), next_id: 0 };
        proof {
            assert(r.sets.deep_view() =~= Seq::<TrainingSetView>::empty());
        }
        r
    }
}

impl TrainingSetRepository for InMemoryTrainingSetRepository {
    closed spec fn sets(&self) -> Seq<TrainingSetView> {
        self.sets.deep_view()
    }

    closed spec fn refuses_requests(&self) -> bool {
        self.next_id == u64::MAX
    }

    fn create(&mut self, training_set: CreateTrainingSet) -> (r: Result<TrainingSet, RepoError>) {
        if self.next_id == u64::MAX {
            return Err(
                RepoError { message: "training set store identifiers exhausted".to_owned() },
            );
        }
        let id = self.next_id;
        let t = TrainingSet {
            id,
            puzzle_ids: training_set.puzzle_ids,
            name: training_set.name,
            rating: training_set.rating,
            themes: training_set.themes,
            current_progress: training_set.current_progress,
            cycles_done: training_set.cycles_done,
        };
        let stored = clone_training_set(&t);
        let ghost sv0 = self.sets.deep_view();
        self.sets.push(stored);
        self.next_id = id + 1;
        proof {
            assert(self.sets.deep_view() =~= sv0.push(t@));
        }
        Ok(t)
    }
}

} // verus!
