use std::collections::HashSet;

use rust_media_server::assets::{
    asset_path, backdrop_job, cast_image_job, check_image_response, plan_fetch, poster_job, poster_snapshot_job,
    AssetError, FetchPlan,
};
use rust_media_server::movie_data::{Cast, CreditsMovie, Crew, MovieData};

#[test]
fn layout_of_local_files() {
    assert_eq!(asset_path("/srv", "person", "Jane Doe", "Jane Doe"), "/srv/images/person/Jane Doe/Jane Doe");
    let cast = Cast::new(1, "Jane Doe", Some("/jd.jpg".to_string()), "Hero", 0);
    let job = cast_image_job("/srv", &cast).unwrap();
    assert_eq!(job.dir, "/srv/images/person/Jane Doe");
    assert_eq!(job.target, "/srv/images/person/Jane Doe/Jane Doe");
    assert_eq!(job.url, "https://image.tmdb.org/t/p/w185//jd.jpg");
    let without = Cast::new(2, "No Face", None, "Extra", 1);
    assert!(cast_image_job("/srv", &without).is_none());
    let empty = Cast::new(3, "Blank", Some(String::new()), "Extra", 2);
    assert!(cast_image_job("/srv", &empty).is_none());
}

#[test]
fn movie_image_jobs_use_role_sizes() {
    let mut m = MovieData::new("Up (2009).mkv").ok().unwrap();
    m.set_title("Up").set_poster_large(Some("/p.jpg".to_string())).set_backdrop(Some("/b.jpg".to_string()));
    let p = poster_job("r", &m).unwrap();
    assert_eq!(p.target, "r/images/movie/Up/poster_large");
    assert_eq!(p.url, "https://image.tmdb.org/t/p/w780//p.jpg");
    let b = backdrop_job("r", &m).unwrap();
    assert_eq!(b.target, "r/images/movie/Up/backdrop");
    assert_eq!(b.url, "https://image.tmdb.org/t/p/w1280//b.jpg");
    assert!(poster_snapshot_job("r", &m).is_none());
}

#[test]
fn second_fetch_of_the_same_target_downloads_nothing() {
    let cast = Cast::new(1, "Jane Doe", Some("/jd.jpg".to_string()), "Hero", 0);
    let mut disk: HashSet<String> = HashSet::new();
    let mut downloads = 0;
    for _ in 0..2 {
        let job = cast_image_job("/srv", &cast).unwrap();
        match plan_fetch(disk.contains(&job.target)) {
            FetchPlan::Download => {
                downloads += 1;
                disk.insert(job.target.clone());
            }
            FetchPlan::Reuse => {}
        }
    }
    assert_eq!(downloads, 1);
}

#[test]
fn image_answers_are_checked() {
    assert_eq!(check_image_response(200, Some("image/jpeg")), Ok(()));
    assert_eq!(check_image_response(404, Some("image/jpeg")), Err(AssetError::HttpStatus(404)));
    assert_eq!(check_image_response(200, Some("text/html")), Err(AssetError::NotAnImage));
    assert_eq!(check_image_response(204, None), Err(AssetError::NotAnImage));
    assert_eq!(check_image_response(199, None), Err(AssetError::HttpStatus(199)));
}

#[test]
fn image_outcomes_land_on_their_index() {
    let mut credits = CreditsMovie::from_parts(
        vec![
            Cast::new(1, "A", Some("/a.jpg".to_string()), "X", 0),
            Cast::new(2, "B", Some("/b.jpg".to_string()), "Y", 1),
        ],
        vec![Crew::new(3, "C", Some("/c.jpg".to_string()), "Directing", "Director")],
    );
    credits.apply_cast_images(vec![(1, Ok("local/b".to_string())), (0, Err(AssetError::Transfer)), (9, Ok("z".to_string()))]);
    credits.apply_crew_images(vec![(0, Ok("local/c".to_string()))]);
    assert_eq!(credits.credits_cast()[0].picture_path().map(|s| s.as_str()), Some("/a.jpg"));
    assert_eq!(credits.credits_cast()[1].picture_path().map(|s| s.as_str()), Some("local/b"));
    assert_eq!(credits.credits_crew()[0].picture_path().map(|s| s.as_str()), Some("local/c"));
}

#[test]
fn poster_outcomes() {
    let mut m = MovieData::new("Up (2009).mkv").ok().unwrap();
    m.set_poster_large(Some("/p.jpg".to_string())).set_poster_snapshot(Some("/p.jpg".to_string()));
    m.apply_poster_outcomes(None, Some(Ok("local/poster".to_string())), Some(Err(AssetError::NotAnImage)));
    assert_eq!(m.poster_large().as_deref(), Some("local/poster"));
    assert_eq!(m.poster_snapshot().as_deref(), Some("/p.jpg"));
    assert!(m.backdrop().is_none());
}
