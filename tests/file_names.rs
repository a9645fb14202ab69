use rust_media_server::movie_data::{MovieData, ParseError};
use rust_media_server::text::trim;

#[test]
fn parses_title_year_and_tag() {
    let m = MovieData::new("Movies/The Matrix (1999)/The Matrix (1999) [Remastered].mkv").ok().unwrap();
    assert_eq!(m.file_title(), "the matrix");
    assert_eq!(m.file_year(), "1999");
    assert_eq!(m.file_optional_info(), "remastered");
    assert_eq!(m.file_path(), "movies/the matrix (1999)/the matrix (1999) [remastered].mkv");
    assert_eq!(m.tmdb_id(), 0);
    assert_eq!(m.title(), "");
    assert!(m.genres().is_empty());
    assert!(m.poster_large().is_none());
}

#[test]
fn title_is_trimmed_and_lower_cased() {
    let m = MovieData::new("A/  Blade RUNNER   ( 1982 ).mp4").ok().unwrap();
    assert_eq!(m.file_title(), "blade runner");
    assert_eq!(m.file_year(), "1982");
    assert_eq!(m.file_optional_info(), "");
}

#[test]
fn name_without_year_is_malformed() {
    match MovieData::new("Movies/Heat.mkv") {
        Err(ParseError::MalformedName(p)) => assert_eq!(p, "Movies/Heat.mkv"),
        Ok(_) => panic!("a name without a year must be refused"),
    }
}

#[test]
fn closing_parenthesis_before_opening_is_malformed() {
    assert!(MovieData::new("x) y (1999.mkv").is_err());
}

#[test]
fn only_the_file_name_is_parsed() {
    let m = MovieData::new("Dir (2000)/Sub/Alien.mkv");
    assert!(m.is_err());
    let m = MovieData::new("Dir/Alien (1979).mkv").ok().unwrap();
    assert_eq!(m.file_title(), "alien");
    assert_eq!(m.file_year(), "1979");
}

#[test]
fn year_at_the_start_gives_an_empty_title() {
    let m = MovieData::new("(2010).mkv").ok().unwrap();
    assert_eq!(m.file_title(), "");
    assert_eq!(m.file_year(), "2010");
}

#[test]
fn parse_file_name_returns_three_parts() {
    let (t, y, x) = MovieData::parse_file_name("Up (2009) [Director's Cut].avi").ok().unwrap();
    assert_eq!(t, "up");
    assert_eq!(y, "2009");
    assert_eq!(x, "director's cut");
}

#[test]
fn setters_chain() {
    let mut m = MovieData::new("Up (2009).avi").ok().unwrap();
    m.set_tmdb_id(14160).set_title("Up").set_summary("Balloons");
    assert_eq!(m.tmdb_id(), 14160);
    assert_eq!(m.title(), "Up");
    assert_eq!(m.summary(), "Balloons");
    assert_eq!(m.file_title(), "up");
}

#[test]
fn unicode_white_space_is_trimmed() {
    let m = MovieData::new("\u{3000}Ran\u{a0} (\t1985\u{2009}).mkv").ok().unwrap();
    assert_eq!(m.file_title(), "ran");
    assert_eq!(m.file_year(), "1985");
}

#[test]
fn trim_matches_std() {
    for s in ["", "   ", " a b ", "\u{85}x\u{205f}", "\u{200b}y", "tab\t"] {
        assert_eq!(trim(s), s.trim());
    }
}
