use chess_trainer::puzzle_repository::{
    CreatePuzzle, DummyPuzzleRepository, InMemoryPuzzleRepository, PuzzleRepository,
};
use chess_trainer::service::{PuzzleService, PuzzleServiceImpl};
use chess_trainer::training_set_repository::InMemoryTrainingSetRepository;
use chess_trainer::types::{CreateTrainingSetOptions, RatingRange, Theme, ThemeChoice};

fn puzzle_with(rating: u16, themes: Vec<Theme>) -> CreatePuzzle {
    CreatePuzzle {
        fen: "sample-fen".to_string(),
        moves: "sample-moves".to_string(),
        lichess_id: "sample-lichess-id".to_string(),
        lichess_rating: rating,
        lichess_rating_deviation: 50,
        lichess_popularity: 50,
        lichess_play_count: 1000,
        themes,
        lichess_game_url: "sample-lichess-game-url".to_string(),
    }
}

fn store_with_matching(count: u64) -> InMemoryPuzzleRepository {
    let mut repo = InMemoryPuzzleRepository::new();
    let mut i: u64 = 0;
    while i < count {
        repo.create(puzzle_with(1550, vec![Theme::Fork])).unwrap();
        i += 1;
    }
    repo
}

#[test]
fn find_random_filters_by_rating() {
    let mut repo = InMemoryPuzzleRepository::new();
    repo.create(puzzle_with(1400, vec![Theme::Fork])).unwrap();
    repo.create(puzzle_with(1550, vec![Theme::Fork])).unwrap();
    repo.create(puzzle_with(1700, vec![Theme::Fork])).unwrap();

    let rating = RatingRange { low: 1500, high: 1600 };
    let found = repo.find_random(10, &rating, &ThemeChoice::HealthyMix).unwrap();
    assert_eq!(found.len(), 1);
    assert_eq!(found[0].lichess_rating, 1550);
}

#[test]
fn find_random_filters_by_theme() {
    let mut repo = InMemoryPuzzleRepository::new();
    repo.create(puzzle_with(1550, vec![Theme::Fork])).unwrap();
    repo.create(puzzle_with(1550, vec![Theme::Pin, Theme::Endgame])).unwrap();
    repo.create(puzzle_with(1550, vec![Theme::Skewer])).unwrap();

    let rating = RatingRange { low: 1500, high: 1600 };
    let wanted = ThemeChoice::Themes(vec![Theme::Pin, Theme::Skewer]);
    let found = repo.find_random(10, &rating, &wanted).unwrap();
    assert_eq!(found.len(), 2);
    assert!(found[0].themes.contains(&Theme::Pin));
    assert!(found[1].themes.contains(&Theme::Skewer));
}

#[test]
fn find_random_returns_at_most_the_requested_count() {
    let repo = store_with_matching(8);
    let rating = RatingRange { low: 1500, high: 1600 };
    let found = repo.find_random(3, &rating, &ThemeChoice::HealthyMix).unwrap();
    assert_eq!(found.len(), 3);
}

#[test]
fn find_lists_all_created_puzzles() {
    let repo = store_with_matching(4);
    let found = repo.find();
    assert_eq!(found.len(), 4);
    let mut expected_id: u64 = 0;
    for p in &found {
        assert_eq!(p.id, expected_id);
        expected_id += 1;
    }
}

#[test]
fn dummy_store_refuses_requests() {
    let mut repo = DummyPuzzleRepository;
    assert!(repo.create(puzzle_with(1550, vec![Theme::Fork])).is_err());
    assert_eq!(repo.find().len(), 0);
    let rating = RatingRange { low: 1500, high: 1600 };
    assert!(repo.find_random(10, &rating, &ThemeChoice::HealthyMix).is_err());
}

#[test]
fn enough_matching_puzzles_make_a_full_distinct_set() {
    // options against a store with at least ten matching puzzles yield a
    // set of ten distinct puzzle references and the echoed criteria.
    let options = CreateTrainingSetOptions {
        name: "My set".to_string(),
        size: 10,
        rating: RatingRange { low: 1500, high: 1600 },
        themes: ThemeChoice::HealthyMix,
    };
    let mut service =
        PuzzleServiceImpl::new(store_with_matching(12), InMemoryTrainingSetRepository::new());

    let set = service.create_set(options).unwrap();

    assert_eq!(set.puzzle_ids.len(), 10);
    let mut seen = set.puzzle_ids.clone();
    seen.sort();
    seen.dedup();
    assert_eq!(seen.len(), 10, "puzzle references must be distinct");
    assert_eq!(set.name, "My set");
    assert_eq!(set.rating, RatingRange { low: 1500, high: 1600 });
    assert_eq!(set.themes, ThemeChoice::HealthyMix);
    assert_eq!(set.current_progress, 0);
    assert_eq!(set.cycles_done, 0);
}

#[test]
fn too_few_matching_puzzles_leave_criteria_unmet() {
    // the same options against a store with only seven matching puzzles
    // must not create a partially filled set.
    let options = CreateTrainingSetOptions {
        name: "My set".to_string(),
        size: 10,
        rating: RatingRange { low: 1500, high: 1600 },
        themes: ThemeChoice::HealthyMix,
    };
    let mut service =
        PuzzleServiceImpl::new(store_with_matching(7), InMemoryTrainingSetRepository::new());

    let result = service.create_set(options);
    assert!(matches!(
        result,
        Err(chess_trainer::errors::CreateTrainingSetError::CriteriaUnmet)
    ));
}

#[test]
fn created_set_preserves_the_sampled_order() {
    let options = CreateTrainingSetOptions {
        name: "Ordered set".to_string(),
        size: 5,
        rating: RatingRange { low: 1500, high: 1600 },
        themes: ThemeChoice::HealthyMix,
    };
    let mut service =
        PuzzleServiceImpl::new(store_with_matching(5), InMemoryTrainingSetRepository::new());
    let set = service.create_set(options).unwrap();
    assert_eq!(set.puzzle_ids, vec![0, 1, 2, 3, 4]);
}
