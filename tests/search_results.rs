use rust_media_server::movie_data::MovieData;
use rust_media_server::search::{parse_year, popularity_rank, MovieSearchResult, SearchedMovie};

fn searched(id: i64, popularity: f32) -> SearchedMovie {
    SearchedMovie {
        id,
        original_title: format!("Original {}", id),
        title: format!("Title {}", id),
        genre_ids: vec![28],
        popularity: popularity.to_bits(),
        vote_average: 7.5f32.to_bits(),
        release_date: "2001-01-01".to_string(),
        overview: "Overview".to_string(),
        backdrop_path: Some("/b.jpg".to_string()),
        poster_path: Some("/p.jpg".to_string()),
    }
}

#[test]
fn most_popular_is_first_of_the_maximum() {
    let r = MovieSearchResult { results: vec![searched(1, 5.0), searched(2, 9.2), searched(3, 9.2)] };
    assert_eq!(r.most_popular_index(), Some(1));
    assert_eq!(r.get_most_popular().unwrap().id(), 2);
}

#[test]
fn most_popular_of_nothing() {
    let r = MovieSearchResult { results: vec![] };
    assert_eq!(r.most_popular_index(), None);
    assert!(r.get_most_popular().is_none());
}

#[test]
fn most_popular_ignores_nan_and_orders_negatives() {
    let r = MovieSearchResult { results: vec![searched(1, f32::NAN), searched(2, -3.0), searched(3, -1.0)] };
    assert_eq!(r.most_popular_index(), Some(2));
    let r = MovieSearchResult { results: vec![searched(1, 0.0), searched(2, -0.0)] };
    assert_eq!(r.most_popular_index(), Some(0));
}

#[test]
fn rank_follows_float_order() {
    let values = [f32::NEG_INFINITY, -2.5, -0.0, 0.0, 1e-30, 1.0, 9.2, 1e30, f32::INFINITY];
    for w in values.windows(2) {
        assert!(popularity_rank(w[0].to_bits()) <= popularity_rank(w[1].to_bits()));
    }
    assert_eq!(popularity_rank((-0.0f32).to_bits()), popularity_rank(0.0f32.to_bits()));
    assert!(popularity_rank(f32::NAN.to_bits()) < popularity_rank(f32::NEG_INFINITY.to_bits()));
    assert_eq!(popularity_rank(1.0f32.to_bits()), 0x3f80_0000);
}

#[test]
fn years() {
    assert_eq!(parse_year("1999"), Some(1999));
    assert_eq!(parse_year("+2001"), Some(2001));
    assert_eq!(parse_year(""), None);
    assert_eq!(parse_year("+"), None);
    assert_eq!(parse_year("19a9"), None);
    assert_eq!(parse_year("-1"), None);
    assert_eq!(parse_year("4294967295"), Some(u32::MAX));
    assert_eq!(parse_year("4294967296"), None);
    assert_eq!(parse_year("99999999999999999999x"), None);
}

#[test]
fn apply_search_result_copies_the_match() {
    let mut m = MovieData::new("Memento (2000).mkv").ok().unwrap();
    m.apply_search_result(&searched(77, 3.0));
    assert_eq!(m.tmdb_id(), 77);
    assert_eq!(m.title(), "Title 77");
    assert_eq!(m.original_title(), "Original 77");
    assert_eq!(f32::from_bits(m.vote_average()), 7.5);
    assert_eq!(m.poster_large().as_deref(), Some("/p.jpg"));
    assert_eq!(m.poster_snapshot().as_deref(), Some("/p.jpg"));
    assert_eq!(m.backdrop().as_deref(), Some("/b.jpg"));
    assert_eq!(m.file_title(), "memento");
}
