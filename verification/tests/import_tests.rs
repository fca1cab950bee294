use chess_trainer::errors::ImportError;
use chess_trainer::puzzle_repository::InMemoryPuzzleRepository;
use chess_trainer::service::{PuzzleService, PuzzleServiceImpl};
use chess_trainer::training_set_repository::InMemoryTrainingSetRepository;
use chess_trainer::types::{LichessPuzzleImport, Puzzle, Theme};

fn sample_lichess_puzzle() -> LichessPuzzleImport {
    LichessPuzzleImport {
        puzzle_id: "sample-lichess-id".to_string(),
        fen: "sample-fen".to_string(),
        moves: "sample-moves".to_string(),
        rating: 1500,
        rating_deviation: 50,
        popularity: 50,
        play_count: 1000,
        themes: vec![Theme::DiscoveredAttack, Theme::MateIn2],
        game_url: "sample-lichess-game-url".to_string(),
    }
}

fn in_memory_service() -> PuzzleServiceImpl<InMemoryPuzzleRepository, InMemoryTrainingSetRepository>
{
    PuzzleServiceImpl::new(InMemoryPuzzleRepository::new(), InMemoryTrainingSetRepository::new())
}

#[test]
fn should_import_lichess_puzzle() {
    // given Lichess puzzle:
    let lichess_puzzle = sample_lichess_puzzle();

    // when Lichess puzzle is imported:
    let mut service = in_memory_service();
    let imported_puzzle = service.import_puzzle(lichess_puzzle).unwrap();

    // then it has correct data:
    let expected_puzzle = Puzzle {
        id: 0,
        fen: "sample-fen".to_string(),
        moves: "sample-moves".to_string(),
        lichess_id: "sample-lichess-id".to_string(),
        lichess_rating: 1500,
        lichess_rating_deviation: 50,
        lichess_popularity: 50,
        lichess_play_count: 1000,
        themes: vec![Theme::DiscoveredAttack, Theme::MateIn2],
        lichess_game_url: "sample-lichess-game-url".to_string(),
    };
    assert_eq!(imported_puzzle, expected_puzzle);
}

#[test]
fn import_rejects_popularity_above_range() {
    let mut record = sample_lichess_puzzle();
    record.popularity = 101;

    let mut service = in_memory_service();
    let result = service.import_puzzle(record);

    match result {
        Err(ImportError::PopularityOutOfRange { puzzle_id, popularity }) => {
            assert_eq!(puzzle_id, "sample-lichess-id");
            assert_eq!(popularity, 101);
        },
        _ => panic!("expected a popularity validation failure"),
    }
    // nothing was written:
    assert_eq!(service.list_puzzles().len(), 0);
}

#[test]
fn import_rejects_popularity_below_range() {
    let mut record = sample_lichess_puzzle();
    record.popularity = -101;

    let mut service = in_memory_service();
    let result = service.import_puzzle(record);
    assert!(matches!(result, Err(ImportError::PopularityOutOfRange { .. })));
    assert_eq!(service.list_puzzles().len(), 0);
}

#[test]
fn import_accepts_popularity_at_the_bounds() {
    let mut service = in_memory_service();

    let mut record = sample_lichess_puzzle();
    record.popularity = 100;
    let imported = service.import_puzzle(record).unwrap();
    assert_eq!(imported.lichess_popularity, 100);

    let mut record = sample_lichess_puzzle();
    record.popularity = -100;
    let imported = service.import_puzzle(record).unwrap();
    assert_eq!(imported.lichess_popularity, -100);
}

#[test]
fn imported_puzzle_appears_in_the_listing() {
    // round trip: importing a record and then listing the puzzles shows a
    // puzzle whose fields equal the imported ones, except the identifier.
    let record = sample_lichess_puzzle();

    let mut service = in_memory_service();
    let imported = service.import_puzzle(record).unwrap();
    let listed = service.list_puzzles();

    assert_eq!(listed.len(), 1);
    let p = &listed[0];
    assert_eq!(p, &imported);
    assert_eq!(p.fen, "sample-fen");
    assert_eq!(p.moves, "sample-moves");
    assert_eq!(p.lichess_id, "sample-lichess-id");
    assert_eq!(p.lichess_rating, 1500);
    assert_eq!(p.lichess_rating_deviation, 50);
    assert_eq!(p.lichess_popularity, 50);
    assert_eq!(p.lichess_play_count, 1000);
    assert_eq!(p.themes, vec![Theme::DiscoveredAttack, Theme::MateIn2]);
    assert_eq!(p.lichess_game_url, "sample-lichess-game-url");
}

#[test]
fn imports_assign_distinct_identifiers() {
    let mut service = in_memory_service();
    let first = service.import_puzzle(sample_lichess_puzzle()).unwrap();
    let second = service.import_puzzle(sample_lichess_puzzle()).unwrap();
    assert_eq!(first.id, 0);
    assert_eq!(second.id, 1);
    assert_eq!(service.list_puzzles().len(), 2);
}

#[test]
fn import_surfaces_store_failures() {
    // the default wiring has an unconfigured puzzle store: a lawful record
    // passes validation and the store's refusal is surfaced.
    let mut service = chess_trainer::config::make_service();
    let result = service.import_puzzle(sample_lichess_puzzle());
    assert!(matches!(result, Err(ImportError::RepositoryError { .. })));
}
