//! Where a file is to go: the folder under its parent directory, and the
//! file's place in that folder.

use vstd::prelude::*;
use crate::entry::{FileEntry, FileEntryView};
use crate::paths::{path_join, path_join_of};

verus! {

/// The move of one file, worked out and not yet made.
#[derive(Debug, Clone, PartialEq, Eq)]
pub struct RelocationPlan {
    /// Where the file is.
    pub source: String,
    /// The directory that it goes to.
    pub destination_dir: String,
    /// Where the file will be.
    pub destination: String,
}

/// A plan as plain values.
pub struct RelocationPlanView {
    pub source: Seq<char>,
    pub destination_dir: Seq<char>,
    pub destination: Seq<char>,
}

impl View for RelocationPlan {
    type V = RelocationPlanView;

    open spec fn view(&self) -> RelocationPlanView {
        RelocationPlanView {
            source: self.source@,
            destination_dir: self.destination_dir@,
            destination: self.destination@,
        }
    }
}

/// Why a file has no plan.
#[derive(Debug, Clone, Copy, PartialEq, Eq, Structural)]
pub enum PlanError {
    /// The file's path names no directory that holds it.
    NoParentDirectory,
    /// The file's path does not end in a name.
    NoFileName,
}

/// The plan for moving `entry` into `folder`: the folder lies in the file's
/// parent directory, and the file keeps its name.
pub open spec fn plan_of(entry: FileEntryView, folder: Seq<char>) -> Result<RelocationPlanView, PlanError> {
    match entry.parent {
        None => Err(PlanError::NoParentDirectory),
        Some(parent) => match entry.base_name {
            None => Err(PlanError::NoFileName),
            Some(name) => Ok(
                RelocationPlanView {
                    source: entry.path,
                    destination_dir: path_join_of(parent, folder),
                    destination: path_join_of(path_join_of(parent, folder), name),
                },
            ),
        },
    }
}

/// A plan as its view, or the error.
pub open spec fn plan_result_view(result: Result<RelocationPlan, PlanError>) -> Result<
    RelocationPlanView,
    PlanError,
> {
    match result {
        Ok(plan) => Ok(plan@),
        Err(error) => Err(error),
    }
}

impl RelocationPlan {
    /// The plan with these three paths.
    pub fn new(source: String, destination_dir: String, destination: String) -> (plan: RelocationPlan)
        ensures
            plan@ == (RelocationPlanView {
                source: source@,
                destination_dir: destination_dir@,
                destination: destination@,
            }),
    {
        RelocationPlan { source, destination_dir, destination }
    }
}

/// Works out where `entry` goes when it is sorted into `folder_name`.
///
/// There is no plan for a path without a parent directory, nor for one
/// without a file name; the first is reported where both are missing. A file
/// that already lies at the destination is not looked for.
pub fn plan(entry: &FileEntry, folder_name: &str) -> (result: Result<RelocationPlan, PlanError>)
    ensures
        plan_result_view(result) == plan_of(entry@, folder_name@),
{
    match &entry.parent {
        None => Err(PlanError::NoParentDirectory),
        Some(parent) => match &entry.base_name {
            None => Err(PlanError::NoFileName),
            Some(name) => {
                let destination_dir = path_join(parent.as_str(), folder_name);
                let destination = path_join(destination_dir.as_str(), name.as_str());
                Ok(RelocationPlan::new(entry.path.clone(), destination_dir, destination))
            },
        },
    }
}

/// Files of one directory that are sorted into one folder go to one
/// destination directory.
pub proof fn law_same_folder_same_directory(a: FileEntryView, b: FileEntryView, folder: Seq<char>)
    requires
        a.parent == b.parent,
        plan_of(a, folder) is Ok,
        plan_of(b, folder) is Ok,
    ensures
        plan_of(a, folder)->Ok_0.destination_dir == plan_of(b, folder)->Ok_0.destination_dir,
{
}

} // verus!
