use file_organizer::dates::{FileTimes, Timestamp};
use file_organizer::entry::{classifier_extension, FileEntry};
use file_organizer::paths::extension_of;
use std::path::Path;

fn text(s: &str) -> Option<String> {
    Some(s.to_string())
}

#[test]
fn from_path_takes_the_path_apart() {
    let entry = FileEntry::from_path("/tmp/inbox/photo.JPG", None);
    assert_eq!(entry.path, "/tmp/inbox/photo.JPG");
    assert_eq!(entry.parent, text("/tmp/inbox"));
    assert_eq!(entry.base_name, text("photo.JPG"));
    assert_eq!(entry.extension, "jpg");
    assert_eq!(entry.times, None);
}

#[test]
fn from_path_keeps_the_timestamps() {
    let times = FileTimes {
        created: Timestamp::new(10, 1).unwrap(),
        modified: Timestamp::new(20, 2).unwrap(),
    };
    let entry = FileEntry::from_path("/tmp/inbox/a.txt", Some(times));
    assert_eq!(entry.times, Some(times));
}

#[test]
fn from_path_lowers_the_extension() {
    assert_eq!(FileEntry::from_path("/d/Report.PDF", None).extension, "pdf");
    assert_eq!(FileEntry::from_path("/d/song.Mp3", None).extension, "mp3");
    assert_eq!(FileEntry::from_path("/d/notes.txt", None).extension, "txt");
    assert_eq!(FileEntry::from_path("/d/straße.ÄÖ", None).extension, "äö");
}

#[test]
fn from_path_extension_is_what_follows_the_last_dot() {
    assert_eq!(FileEntry::from_path("/d/archive.tar.gz", None).extension, "gz");
    assert_eq!(FileEntry::from_path("/d/..a", None).extension, "a");
    assert_eq!(FileEntry::from_path("/d/.config.toml", None).extension, "toml");
    assert_eq!(FileEntry::from_path("/d.v2/name.x", None).extension, "x");
}

#[test]
fn from_path_empty_extension() {
    let entry = FileEntry::from_path("/d/name.", None);
    assert_eq!(entry.extension, "");
    assert_eq!(entry.base_name, text("name."));
}

#[test]
fn from_path_without_extension() {
    assert_eq!(FileEntry::from_path("/d/Makefile", None).extension, "no_ext");
    assert_eq!(FileEntry::from_path("/d/.bashrc", None).extension, "no_ext");
    assert_eq!(FileEntry::from_path("/d.v2/name", None).extension, "no_ext");
}

#[test]
fn from_path_without_file_name() {
    let entry = FileEntry::from_path("/tmp/inbox/..", None);
    assert_eq!(entry.base_name, None);
    assert_eq!(entry.parent, text("/tmp/inbox"));
    assert_eq!(entry.extension, "no_ext");
}

#[test]
fn from_path_without_parent() {
    let entry = FileEntry::from_path("/", None);
    assert_eq!(entry.parent, None);
    assert_eq!(entry.base_name, None);
    let entry = FileEntry::from_path("", None);
    assert_eq!(entry.parent, None);
    assert_eq!(entry.base_name, None);
}

#[test]
fn from_path_bare_name_has_the_empty_parent() {
    let entry = FileEntry::from_path("photo.png", None);
    assert_eq!(entry.parent, text(""));
    assert_eq!(entry.base_name, text("photo.png"));
    assert_eq!(entry.extension, "png");
}

#[test]
fn from_path_agrees_with_the_standard_library() {
    for path in [
        "/a/b/c.txt", "/a/b/c", "/a/b/.c", "/a/b/c.", "/a/b/c.d.e", "/a/b/", "/a/b/.", "/a/b/..",
        "/", "", "c.txt", "./c.txt", "../c.TXT", "a//b///c.x", "/a/b.c/d", "/a/b/...", "/a/b/..x.y",
    ] {
        let entry = FileEntry::from_path(path, None);
        let std_path = Path::new(path);
        assert_eq!(entry.parent, std_path.parent().map(|p| p.to_str().unwrap().to_string()));
        assert_eq!(entry.base_name, std_path.file_name().map(|p| p.to_str().unwrap().to_string()));
        let expected = match std_path.extension() {
            Some(e) => e.to_str().unwrap().to_lowercase(),
            None => "no_ext".to_string(),
        };
        assert_eq!(entry.extension, expected);
    }
}

#[test]
fn from_parts_holds_what_it_is_given() {
    let entry = FileEntry::from_parts("p".to_string(), text("q"), text("Notes.TXT"), None);
    assert_eq!(
        entry,
        FileEntry {
            path: "p".to_string(),
            parent: text("q"),
            base_name: text("Notes.TXT"),
            extension: "txt".to_string(),
            times: None,
        }
    );
    let entry = FileEntry::from_parts("p".to_string(), None, text("n"), None);
    assert_eq!(entry.extension, "no_ext");
    assert_eq!(entry.parent, None);
    assert_eq!(entry.base_name, text("n"));
    let entry = FileEntry::from_parts("p".to_string(), text("q"), None, None);
    assert_eq!(entry.extension, "no_ext");
    assert_eq!(entry.base_name, None);
}

#[test]
fn classifier_extension_lowers_or_marks() {
    assert_eq!(classifier_extension(Some("JPG")), "jpg");
    assert_eq!(classifier_extension(Some("jpg")), "jpg");
    assert_eq!(classifier_extension(Some("")), "");
    assert_eq!(classifier_extension(None), "no_ext");
}

#[test]
fn extension_of_a_name() {
    assert_eq!(extension_of("photo.JPG"), text("JPG"));
    assert_eq!(extension_of("archive.tar.gz"), text("gz"));
    assert_eq!(extension_of("name."), text(""));
    assert_eq!(extension_of("a.b"), text("b"));
    assert_eq!(extension_of("..a"), text("a"));
    assert_eq!(extension_of(".a.b"), text("b"));
    assert_eq!(extension_of("é.ü"), text("ü"));
    assert_eq!(extension_of("日本語.テキスト"), text("テキスト"));
}

#[test]
fn extension_of_a_name_without_one() {
    assert_eq!(extension_of(""), None);
    assert_eq!(extension_of("Makefile"), None);
    assert_eq!(extension_of(".bashrc"), None);
    assert_eq!(extension_of("."), None);
    assert_eq!(extension_of(".."), None);
    assert_eq!(extension_of("é"), None);
}

#[test]
fn extension_of_agrees_with_the_standard_library() {
    for name in [
        "", ".", "..", "a", "a.b", "a.b.c", ".a", ".a.b", "a.", "a..", "a..b", "..a", "...", "..x.y", "x.", ".x.",
        "name with spaces.txt", "UPPER.CASE", "ünï.cödé", "no_ext", "tar.gz.", "-.-", "a.b.c.d.e.f",
    ] {
        let expected = Path::new(name).extension().map(|e| e.to_str().unwrap().to_string());
        assert_eq!(extension_of(name), expected);
    }
}
