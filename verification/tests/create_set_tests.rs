use chess_trainer::config::make_service;
use chess_trainer::errors::CreateTrainingSetError;
use chess_trainer::puzzle_repository::{CreatePuzzle, InMemoryPuzzleRepository, PuzzleRepository};
use chess_trainer::service::{PuzzleService, PuzzleServiceImpl};
use chess_trainer::training_set_repository::InMemoryTrainingSetRepository;
use chess_trainer::types::{
    CreateTrainingSetOptions, RatingRange, Theme, ThemeChoice, TrainingSet,
};

fn sample_options() -> CreateTrainingSetOptions {
    CreateTrainingSetOptions {
        name: "sample-training-set-name".to_string(),
        size: 10,
        rating: RatingRange { low: 1500, high: 1600 },
        themes: ThemeChoice::HealthyMix,
    }
}

fn sample_create_puzzle() -> CreatePuzzle {
    CreatePuzzle {
        fen: "sample-fen".to_string(),
        moves: "sample-moves".to_string(),
        lichess_id: "sample-lichess-id".to_string(),
        lichess_rating: 1500,
        lichess_rating_deviation: 50,
        lichess_popularity: 50,
        lichess_play_count: 1000,
        themes: vec![Theme::DiscoveredAttack, Theme::MateIn2],
        lichess_game_url: "sample-lichess-game-url".to_string(),
    }
}

fn store_with_puzzles(count: u64) -> InMemoryPuzzleRepository {
    let mut repo = InMemoryPuzzleRepository::new();
    let mut i: u64 = 0;
    while i < count {
        repo.create(sample_create_puzzle()).unwrap();
        i += 1;
    }
    repo
}

#[test]
fn should_create_set() {
    // given set options:
    let name = "My training set";
    let options = CreateTrainingSetOptions {
        name: name.to_string(),
        size: 10,
        rating: RatingRange { low: 1500, high: 1600 },
        themes: ThemeChoice::HealthyMix,
    };

    // and a store that holds enough matching puzzles:
    let puzzle_repository = store_with_puzzles(10);
    let training_set_repository = InMemoryTrainingSetRepository::new();

    // when set is created:
    let mut service = PuzzleServiceImpl::new(puzzle_repository, training_set_repository);
    let set = service.create_set(options).unwrap();

    // then it has correct data:
    let expected = TrainingSet {
        id: 0,
        puzzle_ids: vec![0, 1, 2, 3, 4, 5, 6, 7, 8, 9],
        name: name.to_string(),
        rating: RatingRange { low: 1500, high: 1600 },
        themes: ThemeChoice::HealthyMix,
        current_progress: 0,
        cycles_done: 0,
    };
    assert_eq!(set, expected);
}

#[test]
fn should_disallow_creating_sets_with_name_empty() {
    // given an empty name:
    let mut options = sample_options();
    options.name = "".to_string();

    // when set is created:
    let mut service = make_service();
    let create_set_result = service.create_set(options);

    // then error is returned:
    assert!(matches!(create_set_result, Err(CreateTrainingSetError::EmptyName)));
}

#[test]
fn should_disallow_creating_sets_with_name_too_long() {
    // given too long name:
    let mut options = sample_options();
    options.name = "a".repeat(101);

    // when set is created:
    let mut service = make_service();
    let create_set_result = service.create_set(options);

    // then error is returned:
    assert!(matches!(create_set_result, Err(CreateTrainingSetError::NameLengthLimitExceeded)));
}

#[test]
fn should_disallow_creating_sets_with_size_too_small() {
    // given too small size:
    let mut options = sample_options();
    options.size = 4;

    // when set is created:
    let mut service = make_service();
    let create_set_result = service.create_set(options);

    // then error is returned:
    assert!(matches!(create_set_result, Err(CreateTrainingSetError::SizeTooSmall)));
}

#[test]
fn should_disallow_creating_sets_with_size_too_large() {
    // given too large size:
    let mut options = sample_options();
    options.size = 1001;

    // when set is created:
    let mut service = make_service();
    let create_set_result = service.create_set(options);

    // then error is returned:
    assert!(matches!(create_set_result, Err(CreateTrainingSetError::SizeLimitExceeded)));
}

#[test]
fn should_fail_when_creating_set_with_unmet_criteria() {
    // given valid criteria:
    let mut options = sample_options();
    options.size = 20;

    // and a store that holds fewer than the requested puzzles:
    let puzzle_repository = store_with_puzzles(10);
    let training_set_repository = InMemoryTrainingSetRepository::new();

    // when set is created:
    let mut service = PuzzleServiceImpl::new(puzzle_repository, training_set_repository);
    let create_set_result = service.create_set(options);

    // then error is returned:
    assert!(matches!(create_set_result, Err(CreateTrainingSetError::CriteriaUnmet)));
}

#[test]
fn name_of_exactly_max_length_is_accepted() {
    let mut options = sample_options();
    options.name = "a".repeat(100);

    let puzzle_repository = store_with_puzzles(10);
    let mut service =
        PuzzleServiceImpl::new(puzzle_repository, InMemoryTrainingSetRepository::new());
    let set = service.create_set(options).unwrap();
    assert_eq!(set.name, "a".repeat(100));
}

#[test]
fn sizes_at_the_bounds_are_accepted() {
    let puzzle_repository = store_with_puzzles(5);
    let mut service =
        PuzzleServiceImpl::new(puzzle_repository, InMemoryTrainingSetRepository::new());
    let mut options = sample_options();
    options.size = 5;
    let set = service.create_set(options).unwrap();
    assert_eq!(set.puzzle_ids.len(), 5);
}

#[test]
fn empty_name_wins_over_too_small_size() {
    // the checks run in order: an empty name is reported even when the
    // size is wrong too.
    let mut options = sample_options();
    options.name = "".to_string();
    options.size = 1;

    let mut service = make_service();
    let create_set_result = service.create_set(options);
    assert!(matches!(create_set_result, Err(CreateTrainingSetError::EmptyName)));
}

#[test]
fn repository_failure_maps_to_repository_error() {
    // the default wiring has unconfigured stores: a valid request reaches
    // the store round-trip and surfaces its failure.
    let options = sample_options();
    let mut service = make_service();
    let create_set_result = service.create_set(options);
    assert!(matches!(
        create_set_result,
        Err(CreateTrainingSetError::RepositoryError { .. })
    ));
}
