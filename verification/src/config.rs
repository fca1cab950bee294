//! Default wiring of the service to its stores.

use vstd::prelude::*;

use crate::puzzle_repository::DummyPuzzleRepository;
use crate::service::{PuzzleService, PuzzleServiceImpl};
use crate::training_set_repository::DummyTrainingSetRepository;

verus! {

/// A service over unconfigured placeholder stores, as the default wiring
/// has it: every store round-trip reports a repository failure.
pub fn make_service() -> (r: PuzzleServiceImpl<DummyPuzzleRepository, DummyTrainingSetRepository>)
    ensures
        r.spec_puzzles() == Seq::<crate::types::PuzzleView>::empty(),
        r.spec_sets() == Seq::<crate::types::TrainingSetView>::empty(),
        r.puzzle_store_refuses(),
        r.set_store_refuses(),
{
    let puzzle_repository = DummyPuzzleRepository;
    let training_set_repository = DummyTrainingSetRepository;
    PuzzleServiceImpl::new(puzzle_repository, training_set_repository)
}

} // verus!
