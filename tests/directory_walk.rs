use rust_media_server::movie_data::MovieData;
use rust_media_server::walker::{
    is_featurette_text, is_not_featurette, is_video_extension_text, is_video_file, join, DirEntry, DirectoryWalker,
};

fn listing(path: &str) -> Vec<DirEntry> {
    match path {
        "" => vec![
            DirEntry::new(".", true),
            DirEntry::new("..", true),
            DirEntry::new("A (2001)", true),
            DirEntry::new("B.txt", false),
        ],
        "A (2001)" => vec![
            DirEntry::new(".", true),
            DirEntry::new("A (2001).mkv", false),
            DirEntry::new("featurette", true),
        ],
        "A (2001)/featurette" => vec![DirEntry::new("bonus.mkv", false), DirEntry::new("deeper", true)],
        "A (2001)/featurette/deeper" => vec![DirEntry::new("Deep (2002).mkv", false)],
        _ => vec![],
    }
}

#[test]
fn walk_skips_featurettes_and_non_video_files() {
    let mut walker = DirectoryWalker::new("");
    let mut found: Vec<MovieData> = Vec::new();
    let mut listed: Vec<String> = Vec::new();
    while let Some(dir) = walker.next_directory() {
        let entries = listing(&dir);
        listed.push(dir.clone());
        for r in walker.visit(&dir, &entries) {
            found.push(r.ok().unwrap());
        }
    }
    assert!(walker.is_done());
    assert_eq!(found.len(), 1);
    assert_eq!(found[0].file_path(), "a (2001)/a (2001).mkv");
    assert_eq!(found[0].file_title(), "a");
    assert_eq!(found[0].file_year(), "2001");
    assert!(!listed.iter().any(|d| d.contains("featurette")));
}

#[test]
fn unparsable_video_file_is_an_error_element() {
    let mut walker = DirectoryWalker::new("root");
    let dir = walker.next_directory().unwrap();
    let entries = vec![DirEntry::new("Heat.mkv", false), DirEntry::new("Alien (1979).AVI", false)];
    let out = walker.visit(&dir, &entries);
    assert_eq!(out.len(), 2);
    assert!(out[0].is_err());
    assert_eq!(out[1].as_ref().ok().unwrap().file_path(), "root/alien (1979).avi");
}

#[test]
fn video_extensions() {
    assert!(is_video_file("a.MKV"));
    assert!(is_video_file("a.b.webm"));
    assert!(!is_video_file("a.txt"));
    assert!(!is_video_file("mkv"));
    assert!(!is_video_file("a.mkv.srt"));
}

#[test]
fn featurette_names() {
    assert!(!is_not_featurette("Featurettes"));
    assert!(!is_not_featurette("FEAT"));
    assert!(is_not_featurette("Extras"));
    assert!(is_not_featurette("featured"));
    assert!(!is_not_featurette("A (2001)/Featurette"));
    assert!(is_not_featurette("Featurette/A (2001)"));
    assert!(is_not_featurette("A (2001)"));
    assert!(is_not_featurette(""));
}

#[test]
fn lower_case_lists() {
    assert!(is_video_extension_text("webm"));
    assert!(!is_video_extension_text("MKV"));
    assert!(!is_video_extension_text("txt"));
    assert!(is_featurette_text("featurettes"));
    assert!(!is_featurette_text("Feat"));
    assert!(!is_featurette_text("extras"));
}

#[test]
fn join_paths() {
    assert_eq!(join("", "a"), "a");
    assert_eq!(join("a", "b"), "a/b");
}
