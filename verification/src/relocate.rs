//! Moving one file, step by step. The library decides what is to be done
//! next; whoever drives it touches the file system and reports back.

use vstd::prelude::*;
use crate::plan::{RelocationPlan, RelocationPlanView};

verus! {

/// How the move of one file ended.
#[derive(Debug, Clone, PartialEq, Eq)]
pub enum RelocationOutcome {
    /// The file is at its destination.
    Moved,
    /// A dry run: the file would have been moved.
    WouldMove,
    /// The file stays where it was, for the reason given.
    Failed(String),
}

/// An outcome as plain values.
pub enum RelocationOutcomeView {
    Moved,
    WouldMove,
    Failed(Seq<char>),
}

impl View for RelocationOutcome {
    type V = RelocationOutcomeView;

    open spec fn view(&self) -> RelocationOutcomeView {
        match self {
            RelocationOutcome::Moved => RelocationOutcomeView::Moved,
            RelocationOutcome::WouldMove => RelocationOutcomeView::WouldMove,
            RelocationOutcome::Failed(reason) => RelocationOutcomeView::Failed(reason@),
        }
    }
}

/// How far the move of one file has come.
#[derive(Debug, Clone, Copy, PartialEq, Eq, Structural)]
pub enum RelocationState {
    /// Nothing has been done yet.
    Planned,
    /// The destination directory has been asked for.
    CreatingDirectory,
    /// The rename has been asked for.
    Renaming,
    /// The outcome has been reported.
    Finished,
}

/// What the driver tells the relocator.
#[derive(Debug, Clone, PartialEq, Eq)]
pub enum FsEvent {
    /// Go ahead.
    Start,
    /// What was asked for last has been done.
    Succeeded,
    /// What was asked for last could not be done, for the reason given.
    Failed(String),
}

/// An event as plain values.
pub enum FsEventView {
    Start,
    Succeeded,
    Failed(Seq<char>),
}

impl View for FsEvent {
    type V = FsEventView;

    open spec fn view(&self) -> FsEventView {
        match self {
            FsEvent::Start => FsEventView::Start,
            FsEvent::Succeeded => FsEventView::Succeeded,
            FsEvent::Failed(reason) => FsEventView::Failed(reason@),
        }
    }
}

/// What the relocator asks of the driver.
#[derive(Debug, Clone, PartialEq, Eq)]
pub enum Command {
    /// Create this directory and those above it; one that exists is fine.
    CreateDirectory(String),
    /// Rename the first path to the second.
    Rename(String, String),
    /// The move is over, with this outcome.
    Report(RelocationOutcome),
    /// The event was not expected: nothing is asked for.
    Nothing,
}

/// A command as plain values.
pub enum CommandView {
    CreateDirectory(Seq<char>),
    Rename(Seq<char>, Seq<char>),
    Report(RelocationOutcomeView),
    Nothing,
}

impl View for Command {
    type V = CommandView;

    open spec fn view(&self) -> CommandView {
        match self {
            Command::CreateDirectory(directory) => CommandView::CreateDirectory(directory@),
            Command::Rename(from, to) => CommandView::Rename(from@, to@),
            Command::Report(outcome) => CommandView::Report(outcome@),
            Command::Nothing => CommandView::Nothing,
        }
    }
}

impl CommandView {
    /// Whether carrying the command out changes the file system.
    pub open spec fn touches_file_system(self) -> bool {
        self is CreateDirectory || self is Rename
    }
}

/// One step of a move: the state after `event`, and what is asked for.
///
/// A dry run ends at once, with the report that the file would be moved, and
/// asks for nothing else in any state. A real run asks for the destination
/// directory, then for the rename, and reports the file as moved; a failure
/// of either ends it, with the failure's reason as the outcome. An event that
/// the state does not expect changes nothing.
pub open spec fn step_of(
    plan: RelocationPlanView,
    dry_run: bool,
    state: RelocationState,
    event: FsEventView,
) -> (RelocationState, CommandView) {
    if dry_run {
        match (state, event) {
            (RelocationState::Planned, FsEventView::Start) => (
                RelocationState::Finished,
                CommandView::Report(RelocationOutcomeView::WouldMove),
            ),
            _ => (state, CommandView::Nothing),
        }
    } else {
        match (state, event) {
            (RelocationState::Planned, FsEventView::Start) => (
                RelocationState::CreatingDirectory,
                CommandView::CreateDirectory(plan.destination_dir),
            ),
            (RelocationState::CreatingDirectory, FsEventView::Succeeded) => (
                RelocationState::Renaming,
                CommandView::Rename(plan.source, plan.destination),
            ),
            (RelocationState::Renaming, FsEventView::Succeeded) => (
                RelocationState::Finished,
                CommandView::Report(RelocationOutcomeView::Moved),
            ),
            (RelocationState::CreatingDirectory, FsEventView::Failed(reason)) => (
                RelocationState::Finished,
                CommandView::Report(RelocationOutcomeView::Failed(reason)),
            ),
            (RelocationState::Renaming, FsEventView::Failed(reason)) => (
                RelocationState::Finished,
                CommandView::Report(RelocationOutcomeView::Failed(reason)),
            ),
            _ => (state, CommandView::Nothing),
        }
    }
}

/// Takes one step of the move of `plan`.
pub fn step(plan: &RelocationPlan, dry_run: bool, state: RelocationState, event: FsEvent) -> (next: (
    RelocationState,
    Command,
))
    ensures
        (next.0, next.1@) == step_of(plan@, dry_run, state, event@),
{
    if dry_run {
        return match (state, event) {
            (RelocationState::Planned, FsEvent::Start) => (
                RelocationState::Finished,
                Command::Report(RelocationOutcome::WouldMove),
            ),
            _ => (state, Command::Nothing),
        };
    }
    match (state, event) {
        (RelocationState::Planned, FsEvent::Start) => (
            RelocationState::CreatingDirectory,
            Command::CreateDirectory(plan.destination_dir.clone()),
        ),
        (RelocationState::CreatingDirectory, FsEvent::Succeeded) => (
            RelocationState::Renaming,
            Command::Rename(plan.source.clone(), plan.destination.clone()),
        ),
        (RelocationState::Renaming, FsEvent::Succeeded) => (
            RelocationState::Finished,
            Command::Report(RelocationOutcome::Moved),
        ),
        (RelocationState::CreatingDirectory, FsEvent::Failed(reason)) => (
            RelocationState::Finished,
            Command::Report(RelocationOutcome::Failed(reason)),
        ),
        (RelocationState::Renaming, FsEvent::Failed(reason)) => (
            RelocationState::Finished,
            Command::Report(RelocationOutcome::Failed(reason)),
        ),
        _ => (state, Command::Nothing),
    }
}

/// A dry run never asks for a directory or a rename, in whatever state and
/// after whatever event; it comes to its end without having asked for
/// anything, and its first step reports that the file would be moved.
pub proof fn law_dry_run_touches_nothing(plan: RelocationPlanView, state: RelocationState, event: FsEventView)
    ensures
        !step_of(plan, true, state, event).1.touches_file_system(),
        step_of(plan, true, RelocationState::Planned, FsEventView::Start) == (
            RelocationState::Finished,
            CommandView::Report(RelocationOutcomeView::WouldMove),
        ),
        observation_of(plan, RelocationOutcomeView::WouldMove) == (ObservationView::WouldMove {
            source: plan.source,
            destination: plan.destination,
        }),
{
}

/// A move that is over stays over: nothing is asked for after the report.
pub proof fn law_finished_move_is_over(plan: RelocationPlanView, dry_run: bool, event: FsEventView)
    ensures
        step_of(plan, dry_run, RelocationState::Finished, event) == (
            RelocationState::Finished,
            CommandView::Nothing,
        ),
{
}

/// What is said of one file when its move is over.
#[derive(Debug, Clone, PartialEq, Eq)]
pub enum Observation {
    /// A dry run: the file at `source` would go to `destination`.
    WouldMove { source: String, destination: String },
    /// The file at `source` is now at `destination`.
    Moved { source: String, destination: String },
    /// The file at `source` stays there, for the reason given.
    Failed { source: String, reason: String },
}

/// An observation as plain values.
pub enum ObservationView {
    WouldMove { source: Seq<char>, destination: Seq<char> },
    Moved { source: Seq<char>, destination: Seq<char> },
    Failed { source: Seq<char>, reason: Seq<char> },
}

impl View for Observation {
    type V = ObservationView;

    open spec fn view(&self) -> ObservationView {
        match self {
            Observation::WouldMove { source, destination } => ObservationView::WouldMove {
                source: source@,
                destination: destination@,
            },
            Observation::Moved { source, destination } => ObservationView::Moved {
                source: source@,
                destination: destination@,
            },
            Observation::Failed { source, reason } => ObservationView::Failed { source: source@, reason: reason@ },
        }
    }
}

/// What is said of the move of `plan` that ended with `outcome`: every move
/// is reported with its source, and with its destination or with the reason
/// why it failed.
pub open spec fn observation_of(plan: RelocationPlanView, outcome: RelocationOutcomeView) -> ObservationView {
    match outcome {
        RelocationOutcomeView::WouldMove => ObservationView::WouldMove {
            source: plan.source,
            destination: plan.destination,
        },
        RelocationOutcomeView::Moved => ObservationView::Moved {
            source: plan.source,
            destination: plan.destination,
        },
        RelocationOutcomeView::Failed(reason) => ObservationView::Failed { source: plan.source, reason },
    }
}

/// Says what became of the move of `plan`.
pub fn observe(plan: &RelocationPlan, outcome: &RelocationOutcome) -> (said: Observation)
    ensures
        said@ == observation_of(plan@, outcome@),
{
    match outcome {
        RelocationOutcome::WouldMove => Observation::WouldMove {
            source: plan.source.clone(),
            destination: plan.destination.clone(),
        },
        RelocationOutcome::Moved => Observation::Moved {
            source: plan.source.clone(),
            destination: plan.destination.clone(),
        },
        RelocationOutcome::Failed(reason) => Observation::Failed {
            source: plan.source.clone(),
            reason: reason.clone(),
        },
    }
}

} // verus!
