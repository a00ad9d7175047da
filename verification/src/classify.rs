//! Choosing the folder for a file: by its extension and the rules, or by the
//! year of its timestamps.

use vstd::prelude::*;
use crate::dates::year_folder;
use crate::entry::{FileEntry, FileEntryView};
use crate::rules::{folder_for_extension, resolved_folder, rules_of, RuleConfig};
use crate::text::decimal_text;

verus! {

/// How the files are sorted.
#[derive(Debug, Clone, Copy, PartialEq, Eq, Structural)]
pub enum OrganizeMode {
    /// By extension: the rule set decides, then the built-in table.
    ByExtension,
    /// By year; rule sets and extensions play no part.
    ByDate,
}

/// What a file is sorted by.
#[derive(Debug, Clone, PartialEq, Eq)]
pub enum ClassifierKey {
    /// Its extension, in lower case.
    Extension(String),
    /// The year of the earlier of its timestamps.
    Year(i32),
}

/// A classifier key as plain values.
pub enum ClassifierKeyView {
    Extension(Seq<char>),
    Year(i32),
}

impl View for ClassifierKey {
    type V = ClassifierKeyView;

    open spec fn view(&self) -> ClassifierKeyView {
        match self {
            ClassifierKey::Extension(extension) => ClassifierKeyView::Extension(extension@),
            ClassifierKey::Year(year) => ClassifierKeyView::Year(*year),
        }
    }
}

/// Why a file has no classifier key.
#[derive(Debug, Clone, Copy, PartialEq, Eq, Structural)]
pub enum ClassifyError {
    /// Sorting by date was asked for, and the file's timestamps are not known.
    MetadataUnavailable,
    /// The earlier timestamp lies outside the calendar.
    DateOutOfRange,
}

impl OrganizeMode {
    /// The mode that the `by date` switch selects.
    pub fn from_by_date(by_date: bool) -> (mode: OrganizeMode)
        ensures
            mode == if by_date {
                OrganizeMode::ByDate
            } else {
                OrganizeMode::ByExtension
            },
    {
        if by_date {
            OrganizeMode::ByDate
        } else {
            OrganizeMode::ByExtension
        }
    }
}

/// What `entry` is sorted by under `mode`.
pub open spec fn key_of(entry: FileEntryView, mode: OrganizeMode) -> Result<ClassifierKeyView, ClassifyError> {
    match mode {
        OrganizeMode::ByExtension => Ok(ClassifierKeyView::Extension(entry.extension)),
        OrganizeMode::ByDate => match entry.times {
            None => Err(ClassifyError::MetadataUnavailable),
            Some(times) => match times.effective_year_spec() {
                None => Err(ClassifyError::DateOutOfRange),
                Some(year) => Ok(ClassifierKeyView::Year(year)),
            },
        },
    }
}

/// The folder for a key: for an extension what the rules say, for a year the
/// year in decimal.
pub open spec fn folder_of_key(key: ClassifierKeyView, rules: Option<Map<Seq<char>, Seq<char>>>) -> Seq<char> {
    match key {
        ClassifierKeyView::Extension(extension) => resolved_folder(extension, rules),
        ClassifierKeyView::Year(year) => decimal_text(year as int),
    }
}

/// A key as its view, or the error.
pub open spec fn key_result_view(result: Result<ClassifierKey, ClassifyError>) -> Result<
    ClassifierKeyView,
    ClassifyError,
> {
    match result {
        Ok(key) => Ok(key@),
        Err(error) => Err(error),
    }
}

/// Finds what `entry` is sorted by under `mode`.
///
/// By extension this always succeeds. By date it needs the timestamps, and a
/// calendar date for the earlier of them.
pub fn classify(entry: &FileEntry, mode: OrganizeMode) -> (result: Result<ClassifierKey, ClassifyError>)
    ensures
        key_result_view(result) == key_of(entry@, mode),
{
    match mode {
        OrganizeMode::ByExtension => Ok(ClassifierKey::Extension(entry.extension.clone())),
        OrganizeMode::ByDate => match &entry.times {
            None => Err(ClassifyError::MetadataUnavailable),
            Some(times) => match times.effective_year() {
                None => Err(ClassifyError::DateOutOfRange),
                Some(year) => Ok(ClassifierKey::Year(year)),
            },
        },
    }
}

/// Names the folder for `key`. A year ignores the rule set. The name is never
/// empty.
pub fn resolve(key: &ClassifierKey, config: Option<&RuleConfig>) -> (folder: String)
    requires
        config matches Some(c) ==> c.wf(),
    ensures
        folder@ == folder_of_key(key@, rules_of(config)),
        folder@.len() > 0,
{
    match key {
        ClassifierKey::Extension(extension) => folder_for_extension(extension.as_str(), config).to_owned(),
        ClassifierKey::Year(year) => year_folder(*year),
    }
}

} // verus!
