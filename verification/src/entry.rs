//! A file found in the directory, with what the sorting reads of it.

use vstd::prelude::*;
use crate::dates::FileTimes;
use crate::paths::{
    extension_of, extension_of_name, path_file_name, path_file_name_of, path_parent, path_parent_of,
    text_of,
};
use crate::text::{lowercase_of, to_lowercase};

verus! {

/// A file found in the directory.
#[derive(Debug, Clone, PartialEq, Eq)]
pub struct FileEntry {
    /// Where the file is.
    pub path: String,
    /// The directory that holds it, if the path names one.
    pub parent: Option<String>,
    /// Its name within that directory, if the path ends in one.
    pub base_name: Option<String>,
    /// Its extension in lower case, or `no_ext` where it has none.
    pub extension: String,
    /// Its timestamps, where they were read.
    pub times: Option<FileTimes>,
}

/// What a file entry holds, as plain values.
pub struct FileEntryView {
    pub path: Seq<char>,
    pub parent: Option<Seq<char>>,
    pub base_name: Option<Seq<char>>,
    pub extension: Seq<char>,
    pub times: Option<FileTimes>,
}

impl View for FileEntry {
    type V = FileEntryView;

    open spec fn view(&self) -> FileEntryView {
        FileEntryView {
            path: self.path@,
            parent: text_of(self.parent),
            base_name: text_of(self.base_name),
            extension: self.extension@,
            times: self.times,
        }
    }
}

/// The extension under which a file is looked up in the rules: its own in
/// lower case, or `no_ext` where the file has none.
pub open spec fn extension_key(raw: Option<Seq<char>>) -> Seq<char> {
    match raw {
        Some(extension) => lowercase_of(extension),
        None => "no_ext"@,
    }
}

/// The extension of a file with this name, if it has a name and the name has
/// an extension.
pub open spec fn raw_extension_of(base_name: Option<Seq<char>>) -> Option<Seq<char>> {
    match base_name {
        Some(name) => extension_of_name(name),
        None => None,
    }
}

/// The entry for a file of which the parent directory and the name are
/// known.
pub open spec fn entry_of_parts(
    path: Seq<char>,
    parent: Option<Seq<char>>,
    base_name: Option<Seq<char>>,
    times: Option<FileTimes>,
) -> FileEntryView {
    FileEntryView { path, parent, base_name, extension: extension_key(raw_extension_of(base_name)), times }
}

/// The entry for the file at `path`.
pub open spec fn entry_of_path(path: Seq<char>, times: Option<FileTimes>) -> FileEntryView {
    entry_of_parts(path, path_parent_of(path), path_file_name_of(path), times)
}

/// Turns a file's extension into the one it is looked up under.
pub fn classifier_extension(raw: Option<&str>) -> (key: String)
    ensures
        key@ == extension_key(
            match raw {
                Some(extension) => Some(extension@),
                None => None,
            },
        ),
{
    match raw {
        Some(extension) => to_lowercase(extension),
        None => "no_ext".to_owned(),
    }
}

impl FileEntry {
    /// The entry for a file whose path has already been taken apart.
    pub fn from_parts(
        path: String,
        parent: Option<String>,
        base_name: Option<String>,
        times: Option<FileTimes>,
    ) -> (entry: FileEntry)
        ensures
            entry@ == entry_of_parts(path@, text_of(parent), text_of(base_name), times),
    {
        let raw_extension = match &base_name {
            Some(name) => extension_of(name.as_str()),
            None => None,
        };
        let extension = match &raw_extension {
            Some(raw) => classifier_extension(Some(raw.as_str())),
            None => classifier_extension(None),
        };
        FileEntry { path, parent, base_name, extension, times }
    }

    /// The entry for the file at `path`, with its timestamps where they were
    /// read.
    pub fn from_path(path: &str, times: Option<FileTimes>) -> (entry: FileEntry)
        ensures
            entry@ == entry_of_path(path@, times),
    {
        let parent = path_parent(path);
        let base_name = path_file_name(path);
        FileEntry::from_parts(path.to_owned(), parent, base_name, times)
    }
}

} // verus!
