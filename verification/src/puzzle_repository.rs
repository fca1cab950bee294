//! The puzzle store capability: persists puzzles and answers exact and
//! criteria-filtered retrieval. The trait carries the store contract; an
//! in-memory implementation and an unconfigured placeholder are provided.

use vstd::prelude::*;

use crate::errors::RepoError;
use crate::types::{Puzzle, PuzzleId, PuzzleView, RatingRange, Theme, ThemeChoice, ThemeChoiceView};

verus! {

/// Request to persist one puzzle; the store assigns the identifier.
#[derive(Debug, PartialEq, Eq)]
pub struct CreatePuzzle {
    pub fen: String,
    pub moves: String,
    pub lichess_id: String,
    pub lichess_rating: u16,
    pub lichess_rating_deviation: u16,
    pub lichess_popularity: i8,
    pub lichess_play_count: u32,
    pub themes: Vec<Theme>,
    pub lichess_game_url: String,
}

/// The puzzle a successful create must return: every requested field kept,
/// only the identifier chosen by the store.
pub open spec fn created_from(p: PuzzleView, request: CreatePuzzle) -> bool {
    &&& p.fen == request.fen@
    &&& p.moves == request.moves@
    &&& p.lichess_id == request.lichess_id@
    &&& p.lichess_rating == request.lichess_rating
    &&& p.lichess_rating_deviation == request.lichess_rating_deviation
    &&& p.lichess_popularity == request.lichess_popularity
    &&& p.lichess_play_count == request.lichess_play_count
    &&& p.themes == request.themes@
    &&& p.lichess_game_url == request.lichess_game_url@
}

/// Whether a puzzle carries at least one of the wanted themes; the balanced
/// mix accepts every puzzle.
pub open spec fn theme_choice_matches(choice: ThemeChoiceView, themes: Seq<Theme>) -> bool {
    match choice {
        ThemeChoiceView::HealthyMix => true,
        ThemeChoiceView::Themes(wanted) => exists|i: int|
            0 <= i < wanted.len() && themes.contains(#[trigger] wanted[i]),
    }
}

/// A single wanted theme carried by the puzzle witnesses an explicit match.
proof fn lemma_theme_choice_witness(themes: Seq<Theme>, wanted: Seq<Theme>, i: int)
    requires
        0 <= i < wanted.len(),
        themes.contains(wanted[i]),
    ensures
        theme_choice_matches(ThemeChoiceView::Themes(wanted), themes),
{
    assert(exists|j: int| 0 <= j < wanted.len() && themes.contains(#[trigger] wanted[j]));
    assert(ThemeChoiceView::Themes(wanted) matches ThemeChoiceView::Themes(w) && w == wanted);
}

/// Whether a puzzle satisfies both sampling filters.
pub open spec fn puzzle_matches(p: PuzzleView, rating: RatingRange, choice: ThemeChoiceView) -> bool {
    rating.spec_contains(p.lichess_rating) && theme_choice_matches(choice, p.themes)
}

/// The puzzles of `s` that satisfy both filters, in store order.
pub open spec fn matching_puzzles(
    s: Seq<PuzzleView>,
    rating: RatingRange,
    choice: ThemeChoiceView,
) -> Seq<PuzzleView>
    decreases s.len(),
{
    if s.len() == 0 {
        Seq::empty()
    } else {
        let rest = matching_puzzles(s.drop_last(), rating, choice);
        if puzzle_matches(s.last(), rating, choice) {
            rest.push(s.last())
        } else {
            rest
        }
    }
}

/// Persists puzzles and answers exact and random criteria-filtered queries.
/// `puzzles` is the store's contents in insertion order.
pub trait PuzzleRepository: Sized {
    spec fn puzzles(&self) -> Seq<PuzzleView>;

    /// Whether the store refuses requests in its present state. A store
    /// that does not owes success; one that does may still answer.
    spec fn refuses_requests(&self) -> bool;

    /// Persist one puzzle. A store that does not refuse requests succeeds.
    /// On success the store has grown by exactly the returned puzzle,
    /// which keeps every requested field; on failure the store is
    /// unchanged.
    fn create(&mut self, puzzle: CreatePuzzle) -> (r: Result<Puzzle, RepoError>)
        ensures
            !old(self).refuses_requests() ==> r matches Ok(_),
            r matches Ok(p) ==> {
                &&& created_from(p@, puzzle)
                &&& final(self).puzzles() == old(self).puzzles().push(p@)
            },
            r matches Err(_) ==> final(self).puzzles() == old(self).puzzles(),
    ;

    /// All puzzles, in store order.
    fn find(&self) -> (r: Vec<Puzzle>)
        ensures
            r.deep_view() == self.puzzles(),
    ;

    /// Up to `count` stored puzzles whose rating lies in `rating` and whose
    /// themes satisfy `choice`, selected without replacement: as many as
    /// requested when enough match, every matching one otherwise, each
    /// returned at most once. A store that does not refuse requests
    /// succeeds.
    fn find_random(&self, count: usize, rating: &RatingRange, choice: &ThemeChoice) -> (r: Result<
        Vec<Puzzle>,
        RepoError,
    >)
        ensures
            !self.refuses_requests() ==> r matches Ok(_),
            r matches Ok(v) ==> {
                let m = matching_puzzles(self.puzzles(), *rating, choice@);
                &&& v@.len() == vstd::math::min(count as int, m.len() as int)
                &&& forall|i: int|
                    0 <= i < v@.len() ==> self.puzzles().contains(#[trigger] v.deep_view()[i])
                        && puzzle_matches(v.deep_view()[i], *rating, choice@)
                &&& forall|i: int, j: int|
                    0 <= i < j < v@.len() ==> v.deep_view()[i].id != v.deep_view()[j].id
            },
    ;
}

/// Placeholder store for wiring that is not yet configured: it holds
/// nothing and refuses every request.
pub struct DummyPuzzleRepository;

impl PuzzleRepository for DummyPuzzleRepository {
    open spec fn puzzles(&self) -> Seq<PuzzleView> {
        Seq::empty()
    }

    open spec fn refuses_requests(&self) -> bool {
        true
    }

    fn create(&mut self, _puzzle: CreatePuzzle) -> (r: Result<Puzzle, RepoError>) {
        Err(RepoError { message: "puzzle store is not configured".to_owned() })
    }

    fn find(&self) -> (r: Vec<Puzzle>) {
        let r: Vec<Puzzle> = Vec::new();
        assert(r.deep_view() =~= Seq::<PuzzleView>::empty());
        r
    }

    fn find_random(&self, _count: usize, _rating: &RatingRange, _choice: &ThemeChoice) -> (r: Result<
        Vec<Puzzle>,
        RepoError,
    >) {
        Err(RepoError { message: "puzzle store is not configured".to_owned() })
    }
}


/// Copy of a puzzle, field by field; the copy has the same model.
fn clone_puzzle(p: &Puzzle) -> (r: Puzzle)
    ensures
        r@ == p@,
{
    let r = Puzzle {
        id: p.id,
        fen: p.fen.clone(),
        moves: p.moves.clone(),
        lichess_id: p.lichess_id.clone(),
        lichess_rating: p.lichess_rating,
        lichess_rating_deviation: p.lichess_rating_deviation,
        lichess_popularity: p.lichess_popularity,
        lichess_play_count: p.lichess_play_count,
        themes: crate::types::copy_items(&p.themes),
        lichess_game_url: p.lichess_game_url.clone(),
    };
    proof {
        assert(r@ =~= p@);
    }
    r
}

/// Whether a theme list of a stored puzzle is accepted by a choice.
#[verifier::loop_isolation(false)]
fn theme_choice_allows(choice: &ThemeChoice, themes: &Vec<Theme>) -> (r: bool)
    ensures
        r == theme_choice_matches(choice@, themes@),
{
    match choice {
        ThemeChoice::HealthyMix => true,
        ThemeChoice::Themes(wanted) => {
            let mut i: usize = 0;
            while i < wanted.len()
                invariant
                    i <= wanted@.len(),
                    forall|k: int| 0 <= k < i ==> !themes@.contains(#[trigger] wanted@[k]),
                decreases wanted@.len() - i,
            {
                if contains_theme(themes, wanted[i]) {
                    proof {
                        assert(choice@ == ThemeChoiceView::Themes(wanted@));
                        lemma_theme_choice_witness(themes@, wanted@, i as int);
                    }
                    return true;
                }
                i += 1;
            }
            false
        },
    }
}

fn contains_theme(v: &Vec<Theme>, t: Theme) -> (r: bool)
    ensures
        r == v@.contains(t),
{
    let mut i: usize = 0;
    while i < v.len()
        invariant
            i <= v@.len(),
            forall|k: int| 0 <= k < i ==> v@[k] != t,
        decreases v@.len() - i,
    {
        if v[i] == t {
            return true;
        }
        i += 1;
    }
    false
}

/// A prefix of the store never matches more puzzles than the whole store.
proof fn lemma_matching_take_len(
    s: Seq<PuzzleView>,
    i: int,
    rating: RatingRange,
    choice: ThemeChoiceView,
)
    requires
        0 <= i <= s.len(),
    ensures
        matching_puzzles(s.take(i), rating, choice).len() <= matching_puzzles(s, rating, choice).len(),
    decreases s.len() - i,
{
    if i == s.len() {
        assert(s.take(i) =~= s);
    } else {
        assert(s.take(i + 1).drop_last() =~= s.take(i));
        lemma_matching_take_len(s, i + 1, rating, choice);
    }
}

/// In-memory puzzle store: a growing list with a monotonic identifier
/// counter, so identifiers are unique.
pub struct InMemoryPuzzleRepository {
    puzzles: Vec<Puzzle>,
    next_id: PuzzleId,
}

impl InMemoryPuzzleRepository {
    #[verifier::type_invariant]
    spec fn wf(self) -> bool {
        let pv = self.puzzles.deep_view();
        &&& forall|i: int, j: int|
            0 <= i < j < pv.len() ==> #[trigger] pv[i].id != #[trigger] pv[j].id
        &&& forall|i: int| 0 <= i < pv.len() ==> #[trigger] pv[i].id < self.next_id
    }

    /// An empty store.
    pub fn new() -> (r: InMemoryPuzzleRepository)
        ensures
            r.puzzles() == Seq::<PuzzleView>::empty(),
            !r.refuses_requests(),
    {
        let r = InMemoryPuzzleRepository { puzzles: Vec::new(), next_id: 0 };
        proof {
            assert(r.puzzles.deep_view() =~= Seq::<PuzzleView>::empty());
        }
        r
    }
}

impl PuzzleRepository for InMemoryPuzzleRepository {
    closed spec fn puzzles(&self) -> Seq<PuzzleView> {
        self.puzzles.deep_view()
    }

    closed spec fn refuses_requests(&self) -> bool {
        self.next_id == u64::MAX
    }

    fn create(&mut self, puzzle: CreatePuzzle) -> (r: Result<Puzzle, RepoError>) {
        proof {
            use_type_invariant(&*self);
        }
        if self.next_id == u64::MAX {
            return Err(RepoError { message: "puzzle store identifiers exhausted".to_owned() });
        }
        let id = self.next_id;
        let p = Puzzle {
            id,
            fen: puzzle.fen,
            moves: puzzle.moves,
            lichess_id: puzzle.lichess_id,
            lichess_rating: puzzle.lichess_rating,
            lichess_rating_deviation: puzzle.lichess_rating_deviation,
            lichess_popularity: puzzle.lichess_popularity,
            lichess_play_count: puzzle.lichess_play_count,
            themes: puzzle.themes,
            lichess_game_url: puzzle.lichess_game_url,
        };
        let stored = clone_puzzle(&p);
        let ghost pv0 = self.puzzles.deep_view();
        let mut local: Vec<Puzzle> = Vec::new();
        core::mem::swap(&mut local, &mut self.puzzles);
        local.push(stored);
        self.next_id = id + 1;
        proof {
            assert(local.deep_view() =~= pv0.push(p@));
        }
        core::mem::swap(&mut self.puzzles, &mut local);
        Ok(p)
    }

    fn find(&self) -> (r: Vec<Puzzle>) {
        let mut r: Vec<Puzzle> = Vec::new();
        let mut i: usize = 0;
        while i < self.puzzles.len()
            invariant
                i <= self.puzzles@.len(),
                r.deep_view() == self.puzzles.deep_view().take(i as int),
            decreases self.puzzles@.len() - i,
        {
            let ghost prev = r.deep_view();
            r.push(clone_puzzle(&self.puzzles[i]));
            proof {
                assert(r.deep_view() =~= prev.push(self.puzzles.deep_view()[i as int]));
                assert(r.deep_view() =~= self.puzzles.deep_view().take(i + 1));
            }
            i += 1;
        }
        proof {
            assert(r.deep_view() =~= self.puzzles.deep_view());
        }
        r
    }

    fn find_random(&self, count: usize, rating: &RatingRange, choice: &ThemeChoice) -> (r: Result<
        Vec<Puzzle>,
        RepoError,
    >) {
        proof {
            use_type_invariant(&*self);
        }
        let ghost pv = self.puzzles.deep_view();
        let ghost m = matching_puzzles(pv, *rating, choice@);
        let n = self.puzzles.len();
        let mut out: Vec<Puzzle> = Vec::new();
        let mut i: usize = 0;
        while i < n && out.len() < count
            invariant
                i <= n,
                n == self.puzzles@.len(),
                pv == self.puzzles.deep_view(),
                m == matching_puzzles(pv, *rating, choice@),
                out@.len() <= count,
                out.deep_view() == matching_puzzles(pv.take(i as int), *rating, choice@),
                forall|i0: int, j0: int|
                    0 <= i0 < j0 < pv.len() ==> #[trigger] pv[i0].id != #[trigger] pv[j0].id,
                forall|k: int|
                    0 <= k < out@.len() ==> exists|j: int|
                        0 <= j < i && pv[j] == #[trigger] out.deep_view()[k],
            decreases n - i,
        {
            let ghost out0 = out.deep_view();
            let p = &self.puzzles[i];
            if rating.contains(p.lichess_rating) && theme_choice_allows(choice, &p.themes) {
                out.push(clone_puzzle(p));
                proof {
                    assert(pv.take(i + 1).drop_last() =~= pv.take(i as int));
                    assert(pv.take(i + 1).last() == pv[i as int]);
                    assert(out.deep_view() =~= out0.push(pv[i as int]));
                }
            } else {
                proof {
                    assert(pv.take(i + 1).drop_last() =~= pv.take(i as int));
                    assert(out.deep_view() =~= out0);
                }
            }
            i += 1;
        }
        proof {
            if i == n {
                assert(pv.take(i as int) =~= pv);
            } else {
                lemma_matching_take_len(pv, i as int, *rating, choice@);
            }
            assert forall|k: int| 0 <= k < out@.len() implies pv.contains(
                #[trigger] out.deep_view()[k],
            ) && puzzle_matches(out.deep_view()[k], *rating, choice@) by {
                let j = choose|j: int| 0 <= j < i && pv[j] == out.deep_view()[k];
                assert(pv[j] == out.deep_view()[k]);
                lemma_matching_contains_matches(pv.take(i as int), *rating, choice@, k);
            }
            assert forall|k1: int, k2: int| 0 <= k1 < k2 < out@.len() implies out.deep_view()[k1].id
                != out.deep_view()[k2].id by {
                let j1 = choose|j: int| 0 <= j < i && pv[j] == out.deep_view()[k1];
                let j2 = choose|j: int| 0 <= j < i && pv[j] == out.deep_view()[k2];
                lemma_matching_distinct(pv.take(i as int), *rating, choice@, k1, k2);
            }
        }
        Ok(out)
    }
}

/// Every element of the matching selection satisfies the filters and comes
/// from the scanned sequence.
proof fn lemma_matching_contains_matches(
    s: Seq<PuzzleView>,
    rating: RatingRange,
    choice: ThemeChoiceView,
    k: int,
)
    requires
        0 <= k < matching_puzzles(s, rating, choice).len(),
    ensures
        s.contains(matching_puzzles(s, rating, choice)[k]),
        puzzle_matches(matching_puzzles(s, rating, choice)[k], rating, choice),
    decreases s.len(),
{
    if s.len() > 0 {
        let rest = matching_puzzles(s.drop_last(), rating, choice);
        if k < rest.len() {
            lemma_matching_contains_matches(s.drop_last(), rating, choice, k);
            let j = choose|j: int| 0 <= j < s.drop_last().len() && s.drop_last()[j] == rest[k];
            assert(s[j] == rest[k]);
        } else {
            assert(s[s.len() - 1] == s.last());
        }
    }
}

/// Two positions of the matching selection hold puzzles with distinct
/// identifiers, provided the scanned sequence has them distinct.
proof fn lemma_matching_distinct(
    s: Seq<PuzzleView>,
    rating: RatingRange,
    choice: ThemeChoiceView,
    k1: int,
    k2: int,
)
    requires
        forall|i: int, j: int| 0 <= i < j < s.len() ==> #[trigger] s[i].id != #[trigger] s[j].id,
        0 <= k1 < k2 < matching_puzzles(s, rating, choice).len(),
    ensures
        matching_puzzles(s, rating, choice)[k1].id != matching_puzzles(s, rating, choice)[k2].id,
    decreases s.len(),
{
    let s0 = s.drop_last();
    let rest = matching_puzzles(s0, rating, choice);
    assert forall|i: int, j: int| 0 <= i < j < s0.len() implies #[trigger] s0[i].id
        != #[trigger] s0[j].id by {
        assert(s0[i] == s[i]);
        assert(s0[j] == s[j]);
    }
    if k2 < rest.len() {
        lemma_matching_distinct(s0, rating, choice, k1, k2);
    } else {
        lemma_matching_contains_matches(s0, rating, choice, k1);
        let j = choose|j: int| 0 <= j < s0.len() && s0[j] == rest[k1];
        assert(s0[j] == s[j]);
        assert(s[j].id != s[s.len() - 1].id);
    }
}

} // verus!
