//! Sorting the files of a directory into subfolders, by extension or by year.

pub mod classify;
pub mod dates;
pub mod entry;
pub mod organize;
pub mod paths;
pub mod plan;
pub mod relocate;
pub mod rules;
pub mod text;
