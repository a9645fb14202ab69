use rust_media_server::assets::AssetError;
use rust_media_server::movie_data::{Cast, CreditsMovie, Crew, Genre, MovieData};
use rust_media_server::pipeline::{Action, EnrichError, MovieUnit, PersistError, ProviderError, Stage};
use rust_media_server::search::{MovieGenres, MovieSearchResult, SearchedMovie};

fn searched(id: i64, popularity: f32) -> SearchedMovie {
    SearchedMovie {
        id,
        original_title: "Up".to_string(),
        title: "Up".to_string(),
        genre_ids: vec![],
        popularity: popularity.to_bits(),
        vote_average: 8.0f32.to_bits(),
        release_date: "2009-05-29".to_string(),
        overview: "House".to_string(),
        backdrop_path: None,
        poster_path: Some("/p.jpg".to_string()),
    }
}

#[test]
fn full_run_of_one_movie() {
    let mut unit = MovieUnit::new(MovieData::new("Up (2009).mkv").ok().unwrap());
    match unit.next_action() {
        Action::Search { title, year } => {
            assert_eq!(title, "up");
            assert_eq!(year, Some(2009));
        }
        _ => panic!("search expected"),
    }
    let found = MovieSearchResult { results: vec![searched(1, 1.0), searched(14160, 50.0)] };
    assert_eq!(unit.on_search(Ok(found)), Ok(()));
    assert!(matches!(unit.next_action(), Action::FetchGenres { tmdb_id: 14160 }));
    assert_eq!(unit.on_genres(Ok(MovieGenres { genres: vec![Genre::new(16, "Animation")] })), Ok(()));
    assert_eq!(unit.movie.genres().len(), 1);
    assert!(matches!(unit.next_action(), Action::FetchCredits { tmdb_id: 14160 }));
    let credits = CreditsMovie::from_parts(
        vec![Cast::new(1, "A", None, "Carl", 0), Cast::new(2, "B", None, "Dog (uncredited)", 1)],
        vec![Crew::new(3, "C", None, "Directing", "Director"), Crew::new(4, "D", None, "Crew", "Driver")],
    );
    assert_eq!(unit.on_credits(Ok(credits)), Ok(()));
    assert_eq!(unit.credits.credits_cast().len(), 1);
    assert_eq!(unit.credits.credits_crew().len(), 1);
    assert!(matches!(unit.next_action(), Action::FetchAssets));
    unit.on_assets(None, Some(Ok("local/p".to_string())), Some(Err(AssetError::Transfer)), vec![], vec![]);
    assert_eq!(unit.movie.poster_large().as_deref(), Some("local/p"));
    assert_eq!(unit.movie.poster_snapshot().as_deref(), Some("/p.jpg"));
    assert!(matches!(unit.next_action(), Action::Persist));
    unit.on_persisted(Ok(()));
    assert_eq!(unit.stage, Stage::Persisted);
    assert!(matches!(unit.next_action(), Action::Finished));
}

#[test]
fn no_match_keeps_file_data_and_goes_to_images() {
    let mut unit = MovieUnit::new(MovieData::new("Nothing (1900).mkv").ok().unwrap());
    assert_eq!(unit.on_search(Ok(MovieSearchResult { results: vec![] })), Err(EnrichError::NotFound));
    assert_eq!(unit.stage, Stage::FetchingAssets);
    assert_eq!(unit.movie.tmdb_id(), 0);
    assert_eq!(unit.movie.file_title(), "nothing");
}

#[test]
fn provider_failures_degrade() {
    let mut unit = MovieUnit::new(MovieData::new("Up (2009).mkv").ok().unwrap());
    assert_eq!(unit.on_search(Err(ProviderError)), Err(EnrichError::Provider));
    assert_eq!(unit.stage, Stage::FetchingAssets);

    let mut unit = MovieUnit::new(MovieData::new("Up (2009).mkv").ok().unwrap());
    unit.on_search(Ok(MovieSearchResult { results: vec![searched(9, 1.0)] })).ok();
    assert_eq!(unit.on_genres(Err(ProviderError)), Err(EnrichError::Provider));
    assert!(unit.movie.genres().is_empty());
    assert_eq!(unit.stage, Stage::FetchingCredits);
    assert_eq!(unit.on_credits(Err(ProviderError)), Err(EnrichError::Provider));
    assert!(unit.credits.credits_cast().is_empty());
    assert_eq!(unit.stage, Stage::FetchingAssets);
    unit.on_assets(None, None, None, vec![], vec![]);
    unit.on_persisted(Err(PersistError));
    assert_eq!(unit.stage, Stage::Failed);
}

#[test]
fn events_out_of_stage_change_nothing() {
    let mut unit = MovieUnit::new(MovieData::new("Up (2009).mkv").ok().unwrap());
    assert_eq!(unit.on_genres(Err(ProviderError)), Ok(()));
    unit.on_persisted(Ok(()));
    assert_eq!(unit.stage, Stage::Searching);
}
