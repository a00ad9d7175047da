use file_organizer::classify::{classify, resolve, ClassifierKey, ClassifyError, OrganizeMode};
use file_organizer::dates::{FileTimes, Timestamp};
use file_organizer::entry::FileEntry;
use file_organizer::rules::{FolderRule, RuleConfig};

fn times(created: i64, modified: i64) -> Option<FileTimes> {
    Some(FileTimes {
        created: Timestamp::new(created, 0).unwrap(),
        modified: Timestamp::new(modified, 0).unwrap(),
    })
}

fn pictures() -> RuleConfig {
    RuleConfig::from_folders(&vec![FolderRule {
        folder: "pictures".to_string(),
        extensions: vec!["jpg".to_string(), "2022".to_string()],
    }])
    .unwrap()
}

#[test]
fn mode_from_the_switch() {
    assert_eq!(OrganizeMode::from_by_date(true), OrganizeMode::ByDate);
    assert_eq!(OrganizeMode::from_by_date(false), OrganizeMode::ByExtension);
}

#[test]
fn classify_by_extension() {
    let entry = FileEntry::from_path("/d/photo.JPG", None);
    assert_eq!(
        classify(&entry, OrganizeMode::ByExtension),
        Ok(ClassifierKey::Extension("jpg".to_string()))
    );
    let entry = FileEntry::from_path("/d/Makefile", times(0, 0));
    assert_eq!(
        classify(&entry, OrganizeMode::ByExtension),
        Ok(ClassifierKey::Extension("no_ext".to_string()))
    );
}

#[test]
fn classify_by_date() {
    let entry = FileEntry::from_path("/d/photo.JPG", times(1_640_995_200, 1_685_577_600));
    assert_eq!(classify(&entry, OrganizeMode::ByDate), Ok(ClassifierKey::Year(2022)));
    let entry = FileEntry::from_path("/d/photo.JPG", times(1_685_577_600, 1_640_995_200));
    assert_eq!(classify(&entry, OrganizeMode::ByDate), Ok(ClassifierKey::Year(2022)));
}

#[test]
fn classify_by_date_without_timestamps() {
    let entry = FileEntry::from_path("/d/photo.JPG", None);
    assert_eq!(classify(&entry, OrganizeMode::ByDate), Err(ClassifyError::MetadataUnavailable));
}

#[test]
fn classify_by_date_outside_the_calendar() {
    let entry = FileEntry::from_path("/d/photo.JPG", times(i64::MIN, 0));
    assert_eq!(classify(&entry, OrganizeMode::ByDate), Err(ClassifyError::DateOutOfRange));
}

#[test]
fn resolve_an_extension() {
    let config = pictures();
    let key = ClassifierKey::Extension("jpg".to_string());
    assert_eq!(resolve(&key, None), "images");
    assert_eq!(resolve(&key, Some(&config)), "pictures");
    let key = ClassifierKey::Extension("zip".to_string());
    assert_eq!(resolve(&key, None), "other");
    assert_eq!(resolve(&key, Some(&config)), "other");
}

#[test]
fn resolve_a_year_ignores_the_rules() {
    let config = pictures();
    let key = ClassifierKey::Year(2022);
    assert_eq!(resolve(&key, None), "2022");
    assert_eq!(resolve(&key, Some(&config)), "2022");
    assert_eq!(resolve(&ClassifierKey::Year(-3), Some(&config)), "-3");
}
