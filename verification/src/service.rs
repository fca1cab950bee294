//! The training-set assembly service: validates set-creation parameters in
//! a fixed order, samples the puzzle store, and persists the assembled set
//! all-or-nothing; and the puzzle import pipeline that feeds the store.

use vstd::prelude::*;

use crate::consts::{MAX_SET_NAME_LENGTH, MAX_SET_SIZE, MIN_SET_SIZE};
use crate::errors::{CreateTrainingSetError, ImportError};
use crate::puzzle_repository::{
    matching_puzzles, puzzle_matches, CreatePuzzle, PuzzleRepository,
};
use crate::training_set_repository::{CreateTrainingSet, TrainingSetRepository};
use crate::types::{
    CreateTrainingSetOptions, LichessPuzzleImport, Puzzle, PuzzleId, PuzzleView, RatingRange,
    ThemeChoiceView, TrainingSet, TrainingSetView,
};

verus! {

/// Popularity is a percentile-like score; only `[-100, 100]` is lawful.
pub open spec fn popularity_in_range(popularity: i8) -> bool {
    -100 <= popularity && popularity <= 100
}

/// The puzzle an import must produce: every field of the record kept, only
/// the identifier assigned by the store.
pub open spec fn import_matches(p: PuzzleView, record: LichessPuzzleImport) -> bool {
    &&& p.fen == record.fen@
    &&& p.moves == record.moves@
    &&& p.lichess_id == record.puzzle_id@
    &&& p.lichess_rating == record.rating
    &&& p.lichess_rating_deviation == record.rating_deviation
    &&& p.lichess_popularity == record.popularity
    &&& p.lichess_play_count == record.play_count
    &&& p.themes == record.themes@
    &&& p.lichess_game_url == record.game_url@
}

/// The parametric validation rules of set creation, all together.
pub open spec fn options_valid(options: CreateTrainingSetOptions) -> bool {
    &&& 0 < options.name@.len() <= MAX_SET_NAME_LENGTH
    &&& MIN_SET_SIZE <= options.size <= MAX_SET_SIZE
}

/// How many stored puzzles satisfy the requested filters.
pub open spec fn matching_count(
    puzzles: Seq<PuzzleView>,
    rating: RatingRange,
    choice: ThemeChoiceView,
) -> int {
    matching_puzzles(puzzles, rating, choice).len() as int
}

/// Some stored puzzle satisfies the filters and carries this identifier.
pub open spec fn id_of_matching_puzzle(
    puzzles: Seq<PuzzleView>,
    rating: RatingRange,
    choice: ThemeChoiceView,
    id: PuzzleId,
) -> bool {
    exists|p: PuzzleView| #[trigger] puzzles.contains(p) && puzzle_matches(p, rating, choice) && p.id == id
}

/// The puzzle/training-set domain service: imports puzzles, lists them,
/// and assembles training sets. `spec_puzzles` and `spec_sets` are the
/// contents of its two stores.
pub trait PuzzleService: Sized {
    spec fn spec_puzzles(&self) -> Seq<PuzzleView>;

    spec fn spec_sets(&self) -> Seq<TrainingSetView>;

    /// Whether the puzzle store refuses requests in its present state.
    spec fn puzzle_store_refuses(&self) -> bool;

    /// Whether the training-set store refuses requests in its present
    /// state.
    spec fn set_store_refuses(&self) -> bool;

    /// Validate one externally-sourced record and persist it as a puzzle.
    /// A popularity outside `[-100, 100]` is rejected, naming the record
    /// and the value seen, and nothing is written; on success the store
    /// has grown by exactly the returned puzzle, which keeps every field
    /// of the record. With a lawful popularity and a puzzle store that
    /// does not refuse requests, the import succeeds.
    fn import_puzzle(&mut self, lichess_puzzle: LichessPuzzleImport) -> (r: Result<
        Puzzle,
        ImportError,
    >)
        ensures
            popularity_in_range(lichess_puzzle.popularity) && !old(self).puzzle_store_refuses()
                ==> r matches Ok(_),
            (r matches Err(ImportError::PopularityOutOfRange { .. })) <==> !popularity_in_range(
                lichess_puzzle.popularity,
            ),
            r matches Err(ImportError::PopularityOutOfRange { puzzle_id, popularity }) ==> {
                &&& puzzle_id@ == lichess_puzzle.puzzle_id@
                &&& popularity == lichess_puzzle.popularity
                &&& final(self).spec_puzzles() == old(self).spec_puzzles()
            },
            r matches Ok(p) ==> {
                &&& import_matches(p@, lichess_puzzle)
                &&& final(self).spec_puzzles() == old(self).spec_puzzles().push(p@)
            },
            r matches Err(ImportError::RepositoryError { .. }) ==> final(self).spec_puzzles()
                == old(self).spec_puzzles(),
            final(self).spec_sets() == old(self).spec_sets(),
    ;

    /// All stored puzzles, in store order.
    fn list_puzzles(&self) -> (r: Vec<Puzzle>)
        ensures
            r.deep_view() == self.spec_puzzles(),
    ;

    /// Assemble and persist a training set. The checks run in a fixed
    /// order — empty name, name length, minimum size, maximum size, then
    /// the store round-trip — and the first violated one names the error.
    /// A set is never created partially filled: with fewer matching
    /// puzzles than requested the answer is `CriteriaUnmet` and nothing is
    /// written. With valid options, enough matching puzzles and stores
    /// that do not refuse requests, creation succeeds. The name length is
    /// counted in characters.
    fn create_set(&mut self, options: CreateTrainingSetOptions) -> (r: Result<
        TrainingSet,
        CreateTrainingSetError,
    >)
        ensures
            options_valid(options) && matching_count(
                old(self).spec_puzzles(),
                options.rating,
                options.themes@,
            ) >= options.size && !old(self).puzzle_store_refuses() && !old(
                self,
            ).set_store_refuses() ==> r matches Ok(_),
            options_valid(options) && matching_count(
                old(self).spec_puzzles(),
                options.rating,
                options.themes@,
            ) < options.size && !old(self).puzzle_store_refuses() ==> r matches Err(
                CreateTrainingSetError::CriteriaUnmet,
            ),
            (r matches Err(CreateTrainingSetError::EmptyName)) <==> options.name@.len() == 0,
            (r matches Err(CreateTrainingSetError::NameLengthLimitExceeded)) <==> options.name@.len()
                > MAX_SET_NAME_LENGTH,
            (r matches Err(CreateTrainingSetError::SizeTooSmall)) <==> (0 < options.name@.len()
                <= MAX_SET_NAME_LENGTH && options.size < MIN_SET_SIZE),
            (r matches Err(CreateTrainingSetError::SizeLimitExceeded)) <==> (0 < options.name@.len()
                <= MAX_SET_NAME_LENGTH && options.size > MAX_SET_SIZE),
            (r matches Err(CreateTrainingSetError::CriteriaUnmet)) ==> options_valid(options)
                && matching_count(old(self).spec_puzzles(), options.rating, options.themes@)
                < options.size,
            options_valid(options) && matching_count(
                old(self).spec_puzzles(),
                options.rating,
                options.themes@,
            ) < options.size ==> (r matches Err(CreateTrainingSetError::CriteriaUnmet)) || (
            r matches Err(CreateTrainingSetError::RepositoryError { .. })),
            options_valid(options) && matching_count(
                old(self).spec_puzzles(),
                options.rating,
                options.themes@,
            ) >= options.size ==> (r matches Ok(_)) || (
            r matches Err(CreateTrainingSetError::RepositoryError { .. })),
            r matches Ok(ts) ==> {
                &&& options_valid(options)
                &&& ts@.puzzle_ids.len() == options.size
                &&& forall|i: int, j: int|
                    0 <= i < j < ts@.puzzle_ids.len() ==> ts@.puzzle_ids[i] != ts@.puzzle_ids[j]
                &&& forall|i: int|
                    0 <= i < ts@.puzzle_ids.len() ==> id_of_matching_puzzle(
                        old(self).spec_puzzles(),
                        options.rating,
                        options.themes@,
                        #[trigger] ts@.puzzle_ids[i],
                    )
                &&& ts@.name == options.name@
                &&& ts@.rating == options.rating
                &&& ts@.themes == options.themes@
                &&& ts@.current_progress == 0
                &&& ts@.cycles_done == 0
                &&& final(self).spec_sets() == old(self).spec_sets().push(ts@)
            },
            !(r matches Ok(_)) ==> final(self).spec_sets() == old(self).spec_sets(),
            final(self).spec_puzzles() == old(self).spec_puzzles(),
    ;
}

/// All-or-nothing gate between sampling and persistence: with exactly the
/// requested number of puzzles, the creation request lists their
/// identifiers in the sampled order and starts both progress counters at
/// zero; with any other number, nothing is built and the criteria are
/// unmet.
pub fn build_create_request(options: CreateTrainingSetOptions, puzzles: Vec<Puzzle>) -> (r: Result<
    CreateTrainingSet,
    CreateTrainingSetError,
>)
    ensures
        puzzles@.len() == options.size ==> (r matches Ok(request) && {
            &&& request.puzzle_ids@ == puzzles.deep_view().map_values(|p: PuzzleView| p.id)
            &&& request.name == options.name
            &&& request.rating == options.rating
            &&& request.themes == options.themes
            &&& request.current_progress == 0
            &&& request.cycles_done == 0
        }),
        puzzles@.len() != options.size ==> r matches Err(CreateTrainingSetError::CriteriaUnmet),
{
    if puzzles.len() != options.size {
        return Err(CreateTrainingSetError::CriteriaUnmet);
    }
    let mut puzzle_ids: Vec<PuzzleId> = Vec::new();
    let mut i: usize = 0;
    while i < puzzles.len()
        invariant
            i <= puzzles@.len(),
            puzzle_ids@.len() == i,
            forall|k: int|
                0 <= k < i ==> puzzle_ids@[k] == #[trigger] puzzles.deep_view()[k].id,
        decreases puzzles@.len() - i,
    {
        let p = &puzzles[i];
        puzzle_ids.push(p.id);
        i += 1;
    }
    proof {
        assert(puzzle_ids@ =~= puzzles.deep_view().map_values(|p: PuzzleView| p.id));
    }
    Ok(
        CreateTrainingSet {
            puzzle_ids,
            name: options.name,
            rating: options.rating,
            themes: options.themes,
            current_progress: 0,
            cycles_done: 0,
        },
    )
}

/// The service over its two store capabilities; substituting fakes for the
/// stores is how the service is tested.
pub struct PuzzleServiceImpl<P, T> where P: PuzzleRepository, T: TrainingSetRepository {
    puzzle_repository: P,
    training_set_repository: T,
}

impl<P, T> PuzzleServiceImpl<P, T> where P: PuzzleRepository, T: TrainingSetRepository {
    /// Wire the service to its stores.
    pub fn new(puzzle_repository: P, training_set_repository: T) -> (r: PuzzleServiceImpl<P, T>)
        ensures
            r.spec_puzzles() == puzzle_repository.puzzles(),
            r.spec_sets() == training_set_repository.sets(),
            r.puzzle_store_refuses() == puzzle_repository.refuses_requests(),
            r.set_store_refuses() == training_set_repository.refuses_requests(),
    {
        PuzzleServiceImpl { puzzle_repository, training_set_repository }
    }
}

impl<P, T> PuzzleService for PuzzleServiceImpl<P, T> where
    P: PuzzleRepository,
    T: TrainingSetRepository,
 {
    closed spec fn spec_puzzles(&self) -> Seq<PuzzleView> {
        self.puzzle_repository.puzzles()
    }

    closed spec fn spec_sets(&self) -> Seq<TrainingSetView> {
        self.training_set_repository.sets()
    }

    closed spec fn puzzle_store_refuses(&self) -> bool {
        self.puzzle_repository.refuses_requests()
    }

    closed spec fn set_store_refuses(&self) -> bool {
        self.training_set_repository.refuses_requests()
    }

    fn import_puzzle(&mut self, lichess_puzzle: LichessPuzzleImport) -> (r: Result<
        Puzzle,
        ImportError,
    >) {
        let popularity = lichess_puzzle.popularity;
        if popularity < -100 || popularity > 100 {
            return Err(
                ImportError::PopularityOutOfRange {
                    puzzle_id: lichess_puzzle.puzzle_id,
                    popularity,
                },
            );
        }
        match self.puzzle_repository.create(CreatePuzzle::from(lichess_puzzle)) {
            Ok(p) => Ok(p),
            Err(source) => Err(ImportError::RepositoryError { source }),
        }
    }

    fn list_puzzles(&self) -> (r: Vec<Puzzle>) {
        self.puzzle_repository.find()
    }

    #[verifier::loop_isolation(false)]
    fn create_set(&mut self, options: CreateTrainingSetOptions) -> (r: Result<
        TrainingSet,
        CreateTrainingSetError,
    >) {
        let name_len = options.name.unicode_len();
        if name_len == 0 {
            return Err(CreateTrainingSetError::EmptyName);
        }
        if name_len > MAX_SET_NAME_LENGTH {
            return Err(CreateTrainingSetError::NameLengthLimitExceeded);
        }
        if options.size < MIN_SET_SIZE {
            return Err(CreateTrainingSetError::SizeTooSmall);
        }
        if options.size > MAX_SET_SIZE {
            return Err(CreateTrainingSetError::SizeLimitExceeded);
        }
        let ghost opts = options;
        let ghost puzzles_before = self.puzzle_repository.puzzles();
        let puzzles = match self.puzzle_repository.find_random(
            options.size,
            &options.rating,
            &options.themes,
        ) {
            Ok(puzzles) => puzzles,
            Err(source) => {
                return Err(CreateTrainingSetError::RepositoryError { source });
            },
        };
        let ghost sampled = puzzles.deep_view();
        let request = match build_create_request(options, puzzles) {
            Ok(request) => request,
            Err(e) => {
                return Err(e);
            },
        };
        match self.training_set_repository.create(request) {
            Ok(ts) => {
                proof {
                    assert forall|i: int| 0 <= i < ts@.puzzle_ids.len() implies id_of_matching_puzzle(
                        puzzles_before,
                        opts.rating,
                        opts.themes@,
                        #[trigger] ts@.puzzle_ids[i],
                    ) by {
                        let p = sampled[i];
                        assert(ts@.puzzle_ids[i] == sampled.map_values(
                            |q: PuzzleView| q.id,
                        )[i]);
                        assert(puzzles_before.contains(p) && puzzle_matches(
                            p,
                            opts.rating,
                            opts.themes@,
                        ) && p.id == ts@.puzzle_ids[i]);
                    }
                    assert forall|i: int, j: int| 0 <= i < j < ts@.puzzle_ids.len() implies ts@.puzzle_ids[i]
                        != ts@.puzzle_ids[j] by {
                        assert(sampled[i].id != sampled[j].id);
                        assert(ts@.puzzle_ids[i] == sampled.map_values(|q: PuzzleView| q.id)[i]);
                        assert(ts@.puzzle_ids[j] == sampled.map_values(|q: PuzzleView| q.id)[j]);
                    }
                }
                Ok(ts)
            },
            Err(source) => Err(CreateTrainingSetError::RepositoryError { source }),
        }
    }
}

/// Round-trip law: a record accepted by the import stands in the puzzle
/// list afterwards, with exactly the record's fields and only the
/// identifier chosen by the store.
pub proof fn lemma_import_round_trip<S: PuzzleService>(
    before: S,
    after: S,
    record: LichessPuzzleImport,
    p: Puzzle,
)
    requires
        after.spec_puzzles() == before.spec_puzzles().push(p@),
        import_matches(p@, record),
    ensures
        after.spec_puzzles().contains(p@),
        import_matches(after.spec_puzzles().last(), record),
{
    assert(after.spec_puzzles()[after.spec_puzzles().len() - 1] == p@);
}

} // verus!
