use rust_media_server::movie_data::{Cast, CreditsMovie, Crew, Genre, MovieData};
use rust_media_server::persist::{
    child_writes, create_index, movie_id_query, movie_write, schema_statements, SqlValue, Write, INSERT_GENRE,
    INSERT_MOVIE, INSERT_MOVIE_GENRE, INSERT_PERSON, SELECT_MOVIE_ID,
};

fn movie(path: &str, genres: Vec<Genre>) -> MovieData {
    let mut m = MovieData::new(path).ok().unwrap();
    m.set_genres(genres);
    m
}

#[test]
fn index_statement() {
    assert_eq!(create_index("Movie", "Title"), "CREATE INDEX IF NOT EXISTS idx_movie_title ON Movie(Title)");
}

#[test]
fn schema_has_every_table_and_index() {
    let s = schema_statements();
    assert_eq!(s.len(), 12);
    assert!(s[0].contains("file_path TEXT NOT NULL UNIQUE"));
    assert_eq!(s[1], "CREATE INDEX IF NOT EXISTS idx_movie_title ON Movie(title)");
    assert!(s[7].contains("ON Person (tmdb_id, movie_id, character, job_name)"));
    assert!(s[11].contains("ON Movie_Genre (movie_id, genre_id)"));
}

#[test]
fn movie_row_conflicts_on_its_path() {
    let m = movie("Up (2009).mkv", vec![]);
    let st = movie_write(&m).to_statement();
    assert_eq!(st.sql, INSERT_MOVIE);
    assert!(st.sql.contains("ON CONFLICT(file_path) DO NOTHING"));
    assert_eq!(st.params.len(), 11);
    assert!(matches!(&st.params[1], SqlValue::Text(p) if p == "up (2009).mkv"));
    assert!(matches!(st.params[8], SqlValue::Null));
    let again = movie_write(&m).to_statement();
    assert!(matches!(&again.params[1], SqlValue::Text(p) if p == "up (2009).mkv"));
    let q = movie_id_query(&m);
    assert_eq!(q.sql, SELECT_MOVIE_ID);
    assert!(matches!(&q.params[0], SqlValue::Text(p) if p == "up (2009).mkv"));
}

#[test]
fn two_movies_of_one_genre_share_the_genre_row() {
    let m1 = movie("Up (2009).mkv", vec![Genre::new(16, "Animation")]);
    let m2 = movie("Cars (2006).mkv", vec![Genre::new(16, "Animation")]);
    let w1 = child_writes(1, &m1, &CreditsMovie::new());
    let w2 = child_writes(2, &m2, &CreditsMovie::new());
    assert_eq!(w1.len(), 2);
    assert_eq!(w2.len(), 2);
    assert!(matches!(&w1[0], Write::Genre { id: 16, name } if name == "Animation"));
    assert!(matches!(&w2[0], Write::Genre { id: 16, .. }));
    assert!(matches!(w1[1], Write::MovieGenre { movie_id: 1, genre_id: 16 }));
    assert!(matches!(w2[1], Write::MovieGenre { movie_id: 2, genre_id: 16 }));
    assert_eq!(w1[0].to_statement().sql, INSERT_GENRE);
    assert!(INSERT_GENRE.contains("ON CONFLICT(id) DO NOTHING"));
    assert_eq!(w1[1].to_statement().sql, INSERT_MOVIE_GENRE);
}

#[test]
fn people_rows_carry_their_keys() {
    let m = movie("Up (2009).mkv", vec![]);
    let credits = CreditsMovie::from_parts(
        vec![Cast::new(5, "Ed Asner", Some("local/ed".to_string()), "Carl", 0)],
        vec![Crew::new(7, "Pete Docter", None, "Directing", "Director")],
    );
    let w = child_writes(3, &m, &credits);
    assert_eq!(w.len(), 2);
    match &w[0] {
        Write::Person { tmdb_id, movie_id, name, job_name, character, picture_path } => {
            assert_eq!((*tmdb_id, *movie_id), (5, 3));
            assert_eq!(name, "Ed Asner");
            assert_eq!(job_name, "actor");
            assert_eq!(character, "Carl");
            assert_eq!(picture_path.as_deref(), Some("local/ed"));
        }
        _ => panic!("cast row expected"),
    }
    match &w[1] {
        Write::Person { job_name, character, .. } => {
            assert_eq!(job_name, "Director");
            assert_eq!(character, "N/A");
        }
        _ => panic!("crew row expected"),
    }
    let st = w[0].to_statement();
    assert_eq!(st.sql, INSERT_PERSON);
    assert_eq!(st.params.len(), 6);
}
