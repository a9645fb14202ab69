use rust_media_server::credits::{filter_credits, is_credited_cast, is_important_art, is_important_writing, is_principal};
use rust_media_server::movie_data::{Cast, CreditsMovie, Crew};

#[test]
fn principal_roles() {
    assert!(!is_principal("Directing", "Best Boy"));
    assert!(is_principal("Directing", "Director"));
    assert!(is_principal("Directing", "Co-Director"));
    assert!(is_principal("Camera", "Director of Photography"));
    assert!(is_principal("Costume & Make-Up", "Makeup Designer"));
    assert!(!is_principal("Camera", "Director"));
}

#[test]
fn unknown_department_is_never_principal() {
    assert!(!is_principal("Catering", "Director"));
    assert!(!is_principal("Lighting", "Gaffer"));
    assert!(!is_principal("directing", "Director"));
    assert!(!is_principal("", ""));
}

#[test]
fn department_tables() {
    assert!(is_important_writing("Screenplay"));
    assert!(!is_important_writing("Novel"));
    assert!(is_important_art("Property Master"));
    assert!(!is_important_art("Art Department Coordinator"));
}

#[test]
fn uncredited_cast_is_dropped() {
    let henchman = Cast::new(1, "A", None, "Henchman (uncredited)", 3);
    let kept = Cast::new(2, "B", None, "Henchman", 4);
    assert!(!is_credited_cast(&henchman));
    assert!(is_credited_cast(&kept));
    let upper = Cast::new(3, "C", None, "Guard (Uncredited)", 5);
    assert!(is_credited_cast(&upper));
}

#[test]
fn filter_keeps_credited_cast_and_principal_crew_in_order() {
    let cast = vec![
        Cast::new(1, "A", None, "Hero", 0),
        Cast::new(2, "B", None, "Henchman (uncredited)", 1),
        Cast::new(3, "C", None, "Henchman", 2),
    ];
    let crew = vec![
        Crew::new(10, "D", None, "Directing", "Director"),
        Crew::new(11, "E", None, "Directing", "Best Boy"),
        Crew::new(12, "F", None, "Sound", "Sound Designer"),
        Crew::new(13, "G", None, "Catering", "Chef"),
    ];
    let mut credits = CreditsMovie::from_parts(cast, crew);
    filter_credits(&mut credits);
    let cast_ids: Vec<i64> = credits.credits_cast().iter().map(|c| c.tmdb_id()).collect();
    let crew_ids: Vec<i64> = credits.credits_crew().iter().map(|c| c.tmdb_id()).collect();
    assert_eq!(cast_ids, vec![1, 3]);
    assert_eq!(crew_ids, vec![10, 12]);
}

#[test]
fn set_images_by_index() {
    let mut credits = CreditsMovie::from_parts(
        vec![Cast::new(1, "A", Some("/a.jpg".to_string()), "Hero", 0)],
        vec![Crew::new(2, "B", None, "Directing", "Director")],
    );
    assert!(credits.set_cast_image(0, "images/person/A/A").is_ok());
    assert_eq!(credits.credits_cast()[0].picture_path().map(|s| s.as_str()), Some("images/person/A/A"));
    assert!(credits.set_cast_image(1, "x").is_err());
    assert!(credits.set_crew_image(0, "images/person/B/B").is_ok());
    assert!(credits.set_crew_image(5, "y").is_err());
    let mut empty = CreditsMovie::new();
    assert!(empty.set_cast_image(0, "z").is_err());
}
