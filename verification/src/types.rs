//! Domain data: puzzles, themes, training sets, and the requests that
//! create them. Each type that the store contracts speak about has a view
//! (a mathematical model) over which all specifications are stated.

use vstd::prelude::*;

use crate::puzzle_repository::CreatePuzzle;

verus! {

/// Store-assigned identifier of a puzzle.
pub type PuzzleId = u64;

/// Store-assigned identifier of a training set.
pub type TrainingSetId = u64;

/// Inclusive rating band `[low, high]`. When `low > high` the band is empty.
#[derive(Debug, Clone, Copy, PartialEq, Eq, Structural)]
pub struct RatingRange {
    pub low: u16,
    pub high: u16,
}

impl RatingRange {
    /// Whether `rating` lies in the band.
    pub open spec fn spec_contains(self, rating: u16) -> bool {
        self.low <= rating && rating <= self.high
    }

    pub fn contains(&self, rating: u16) -> (r: bool)
        ensures
            r == self.spec_contains(rating),
    {
        self.low <= rating && rating <= self.high
    }
}

/// Closed vocabulary of puzzle motifs. Adding a theme is a schema change.
#[derive(Debug, Clone, Copy, PartialEq, Eq, Structural)]
pub enum Theme {
    AdvancedPawn,
    Advantage,
    AnastasiaMate,
    ArabianMate,
    AttackingF2F7,
    Attraction,
    BackRankMate,
    BishopEndgame,
    BodenMate,
    CapturingDefender,
    Castling,
    Clearance,
    Crushing,
    DefensiveMove,
    Deflection,
    DiscoveredAttack,
    DoubleBishopMate,
    DoubleCheck,
    DovetailMate,
    EnPassant,
    Endgame,
    Equality,
    ExposedKing,
    Fork,
    HangingPiece,
    HookMate,
    Interference,
    Intermezzo,
    KingsideAttack,
    KnightEndgame,
    Long,
    Master,
    MasterVsMaster,
    Mate,
    MateIn1,
    MateIn2,
    MateIn3,
    MateIn4,
    MateIn5,
    Middlegame,
    OneMove,
    Opening,
    PawnEndgame,
    Pin,
    Promotion,
    QueenEndgame,
    QueenRookEndgame,
    QueensideAttack,
    QuietMove,
    RookEndgame,
    Sacrifice,
    Short,
    Skewer,
    SmotheredMate,
    SuperGM,
    TrappedPiece,
    UnderPromotion,
    VeryLong,
    XRayAttack,
    Zugzwang,
}

/// Sampling criterion: an explicit set of themes (a puzzle must carry at
/// least one of them), or no thematic restriction at all, leaving the store
/// free to pick a balanced mix.
#[derive(Debug, PartialEq, Eq)]
pub enum ThemeChoice {
    Themes(Vec<Theme>),
    HealthyMix,
}

/// Model of a [`ThemeChoice`].
pub enum ThemeChoiceView {
    Themes(Seq<Theme>),
    HealthyMix,
}

impl View for ThemeChoice {
    type V = ThemeChoiceView;

    open spec fn view(&self) -> ThemeChoiceView {
        match self {
            ThemeChoice::Themes(themes) => ThemeChoiceView::Themes(themes@),
            ThemeChoice::HealthyMix => ThemeChoiceView::HealthyMix,
        }
    }
}

impl DeepView for ThemeChoice {
    type V = ThemeChoiceView;

    open spec fn deep_view(&self) -> ThemeChoiceView {
        self.view()
    }
}

/// A single tactical position with its best continuation; immutable once
/// created, keyed by a store-assigned identifier.
#[derive(Debug, PartialEq, Eq)]
pub struct Puzzle {
    pub id: PuzzleId,
    pub fen: String,
    pub moves: String,
    pub lichess_id: String,
    pub lichess_rating: u16,
    pub lichess_rating_deviation: u16,
    pub lichess_popularity: i8,
    pub lichess_play_count: u32,
    pub themes: Vec<Theme>,
    pub lichess_game_url: String,
}

/// Model of a [`Puzzle`].
#[verifier::ext_equal]
pub struct PuzzleView {
    pub id: PuzzleId,
    pub fen: Seq<char>,
    pub moves: Seq<char>,
    pub lichess_id: Seq<char>,
    pub lichess_rating: u16,
    pub lichess_rating_deviation: u16,
    pub lichess_popularity: i8,
    pub lichess_play_count: u32,
    pub themes: Seq<Theme>,
    pub lichess_game_url: Seq<char>,
}

impl View for Puzzle {
    type V = PuzzleView;

    open spec fn view(&self) -> PuzzleView {
        PuzzleView {
            id: self.id,
            fen: self.fen@,
            moves: self.moves@,
            lichess_id: self.lichess_id@,
            lichess_rating: self.lichess_rating,
            lichess_rating_deviation: self.lichess_rating_deviation,
            lichess_popularity: self.lichess_popularity,
            lichess_play_count: self.lichess_play_count,
            themes: self.themes@,
            lichess_game_url: self.lichess_game_url@,
        }
    }
}

impl DeepView for Puzzle {
    type V = PuzzleView;

    open spec fn deep_view(&self) -> PuzzleView {
        self.view()
    }
}

/// One row of the external dataset, already structurally parsed: plain
/// numbers, strings, and the theme tags decoded from their tokens.
#[derive(Debug)]
pub struct LichessPuzzleImport {
    pub puzzle_id: String,
    pub fen: String,
    pub moves: String,
    pub rating: u16,
    pub rating_deviation: u16,
    pub popularity: i8,
    pub play_count: u32,
    pub themes: Vec<Theme>,
    pub game_url: String,
}

impl From<LichessPuzzleImport> for CreatePuzzle {
    fn from(value: LichessPuzzleImport) -> (r: Self) {
        CreatePuzzle {
            fen: value.fen,
            moves: value.moves,
            lichess_id: value.puzzle_id,
            lichess_rating: value.rating,
            lichess_rating_deviation: value.rating_deviation,
            lichess_popularity: value.popularity,
            lichess_play_count: value.play_count,
            themes: value.themes,
            lichess_game_url: value.game_url,
        }
    }
}

impl vstd::std_specs::convert::FromSpecImpl<LichessPuzzleImport> for CreatePuzzle {
    open spec fn obeys_from_spec() -> bool {
        true
    }

    open spec fn from_spec(value: LichessPuzzleImport) -> CreatePuzzle {
        CreatePuzzle {
            fen: value.fen,
            moves: value.moves,
            lichess_id: value.puzzle_id,
            lichess_rating: value.rating,
            lichess_rating_deviation: value.rating_deviation,
            lichess_popularity: value.popularity,
            lichess_play_count: value.play_count,
            themes: value.themes,
            lichess_game_url: value.game_url,
        }
    }
}

/// A persisted training set: a fixed-size, ordered selection of puzzle
/// references, the criteria it was built from, and two progress counters
/// that start at zero.
#[derive(Debug, PartialEq, Eq)]
pub struct TrainingSet {
    pub id: TrainingSetId,
    pub puzzle_ids: Vec<PuzzleId>,
    pub name: String,
    pub rating: RatingRange,
    pub themes: ThemeChoice,
    pub current_progress: u32,
    pub cycles_done: u32,
}

/// Model of a [`TrainingSet`].
#[verifier::ext_equal]
pub struct TrainingSetView {
    pub id: TrainingSetId,
    pub puzzle_ids: Seq<PuzzleId>,
    pub name: Seq<char>,
    pub rating: RatingRange,
    pub themes: ThemeChoiceView,
    pub current_progress: u32,
    pub cycles_done: u32,
}

impl View for TrainingSet {
    type V = TrainingSetView;

    open spec fn view(&self) -> TrainingSetView {
        TrainingSetView {
            id: self.id,
            puzzle_ids: self.puzzle_ids@,
            name: self.name@,
            rating: self.rating,
            themes: self.themes@,
            current_progress: self.current_progress,
            cycles_done: self.cycles_done,
        }
    }
}

impl DeepView for TrainingSet {
    type V = TrainingSetView;

    open spec fn deep_view(&self) -> TrainingSetView {
        self.view()
    }
}

/// Copy of a list of plain values, element by element.
pub(crate) fn copy_items<T: Copy>(v: &Vec<T>) -> (r: Vec<T>)
    ensures
        r@ == v@,
{
    let mut r: Vec<T> = Vec::new();
    let mut i: usize = 0;
    while i < v.len()
        invariant
            i <= v@.len(),
            r@ =~= v@.take(i as int),
        decreases v@.len() - i,
    {
        r.push(v[i]);
        i += 1;
    }
    proof {
        assert(r@ =~= v@);
    }
    r
}

/// Copy of a theme choice; the copy has the same model.
pub(crate) fn clone_theme_choice(c: &ThemeChoice) -> (r: ThemeChoice)
    ensures
        r@ == c@,
{
    match c {
        ThemeChoice::HealthyMix => ThemeChoice::HealthyMix,
        ThemeChoice::Themes(wanted) => {
            let r = ThemeChoice::Themes(copy_items(wanted));
            proof {
                assert(c@ == ThemeChoiceView::Themes(wanted@));
            }
            r
        },
    }
}

/// Transient request to assemble a training set; never persisted as-is.
#[derive(Debug)]
pub struct CreateTrainingSetOptions {
    pub name: String,
    pub size: usize,
    pub rating: RatingRange,
    pub themes: ThemeChoice,
}

} // verus!
