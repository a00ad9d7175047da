use file_organizer::entry::FileEntry;
use file_organizer::plan::{plan, PlanError, RelocationPlan};

fn text(s: &str) -> Option<String> {
    Some(s.to_string())
}

#[test]
fn plan_puts_the_folder_under_the_parent() {
    let entry = FileEntry::from_path("/tmp/inbox/photo.JPG", None);
    let planned = plan(&entry, "images").unwrap();
    assert_eq!(planned.source, "/tmp/inbox/photo.JPG");
    assert_eq!(planned.destination_dir, "/tmp/inbox/images");
    assert_eq!(planned.destination, "/tmp/inbox/images/photo.JPG");
}

#[test]
fn plan_for_a_bare_name() {
    let entry = FileEntry::from_path("notes.txt", None);
    let planned = plan(&entry, "documents").unwrap();
    assert_eq!(planned.source, "notes.txt");
    assert_eq!(planned.destination_dir, "documents");
    assert_eq!(planned.destination, "documents/notes.txt");
}

#[test]
fn plan_for_a_year() {
    let entry = FileEntry::from_path("/data/in/a.bin", None);
    let planned = plan(&entry, "2022").unwrap();
    assert_eq!(planned.destination_dir, "/data/in/2022");
    assert_eq!(planned.destination, "/data/in/2022/a.bin");
}

#[test]
fn plan_without_parent() {
    let entry = FileEntry::from_path("/", None);
    assert_eq!(plan(&entry, "images"), Err(PlanError::NoParentDirectory));
    let entry = FileEntry {
        path: "x".to_string(),
        parent: None,
        base_name: text("x"),
        extension: "no_ext".to_string(),
        times: None,
    };
    assert_eq!(plan(&entry, "other"), Err(PlanError::NoParentDirectory));
}

#[test]
fn plan_without_file_name() {
    let entry = FileEntry::from_path("/tmp/inbox/..", None);
    assert_eq!(plan(&entry, "other"), Err(PlanError::NoFileName));
    let entry = FileEntry {
        path: "/d/".to_string(),
        parent: text("/d"),
        base_name: None,
        extension: "no_ext".to_string(),
        times: None,
    };
    assert_eq!(plan(&entry, "other"), Err(PlanError::NoFileName));
}

#[test]
fn plan_keeps_the_file_name_as_it_is() {
    let entry = FileEntry::from_path("/d/My Photo.JPEG", None);
    let planned = plan(&entry, "images").unwrap();
    assert_eq!(planned.destination, "/d/images/My Photo.JPEG");
}

#[test]
fn plan_new_holds_the_three_paths() {
    let made = RelocationPlan::new("a".to_string(), "b".to_string(), "c".to_string());
    assert_eq!(
        made,
        RelocationPlan {
            source: "a".to_string(),
            destination_dir: "b".to_string(),
            destination: "c".to_string(),
        }
    );
}

#[test]
fn files_of_one_directory_share_the_destination_directory() {
    let mut directories = Vec::new();
    for i in 0..100 {
        let entry = FileEntry::from_path(&format!("/tmp/inbox/file{}.png", i), None);
        let planned = plan(&entry, "images").unwrap();
        assert_eq!(planned.destination, format!("/tmp/inbox/images/file{}.png", i));
        directories.push(planned.destination_dir);
    }
    directories.dedup();
    assert_eq!(directories, vec!["/tmp/inbox/images".to_string()]);
}
