use askpass_watch::{BranchListing, Branches, Color, FileListing, Line};

fn line(indent: usize, text: &str, color: Color) -> Line {
    Line { indent, text: text.to_string(), color }
}

#[test]
fn empty_listing_has_no_lines() {
    assert!(Branches {}.lines(&Vec::new()).is_empty());
}

#[test]
fn listing_shows_ids_names_paths_and_hunks() {
    let branches = vec![
        BranchListing {
            id: "id-1".to_string(),
            name: "feature".to_string(),
            files: vec![FileListing {
                path: "src/a.rs".to_string(),
                hunks: vec!["+a".to_string(), "-b".to_string()],
            }],
        },
        BranchListing { id: "id-2".to_string(), name: "empty".to_string(), files: vec![] },
    ];
    let expected = vec![
        line(0, "id-1", Color::Red),
        line(0, "feature", Color::Red),
        line(2, "src/a.rs", Color::Blue),
        line(0, "--", Color::Plain),
        line(4, "+a", Color::Green),
        line(0, "--", Color::Plain),
        line(0, "--", Color::Plain),
        line(4, "-b", Color::Green),
        line(0, "--", Color::Plain),
        line(0, "id-2", Color::Red),
        line(0, "empty", Color::Red),
    ];
    assert_eq!(Branches {}.lines(&branches), expected);
}
