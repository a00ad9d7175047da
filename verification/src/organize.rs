//! Sorting a whole directory: which of its entries are worked on, what is
//! done for each, and how the run ends.

use vstd::prelude::*;
use crate::classify::{classify, folder_of_key, key_of, resolve, ClassifyError, OrganizeMode};
use crate::dates::FileTimes;
use crate::entry::{entry_of_path, FileEntry, FileEntryView};
use crate::plan::{plan, plan_of, PlanError, RelocationPlan, RelocationPlanView};
use crate::relocate::{
    observation_of, observe, step, Command, FsEvent, Observation, ObservationView, RelocationOutcome,
    RelocationOutcomeView, RelocationState,
};
use crate::rules::{rules_of, RuleConfig};

verus! {

/// An entry of the directory as the listing gave it.
#[derive(Debug, Clone, PartialEq, Eq)]
pub struct ScannedEntry {
    /// Where the entry is.
    pub path: String,
    /// Whether it is a regular file.
    pub is_file: bool,
    /// Its timestamps, where they were read.
    pub times: Option<FileTimes>,
}

/// Why nothing is done for a file.
#[derive(Debug, Clone, Copy, PartialEq, Eq, Structural)]
pub enum TaskError {
    /// The file cannot be sorted.
    Classify(ClassifyError),
    /// The file has nowhere to go.
    Plan(PlanError),
}

impl TaskError {
    /// The error in words.
    pub open spec fn message_text(self) -> Seq<char> {
        match self {
            TaskError::Classify(ClassifyError::MetadataUnavailable) => "File timestamps are not available"@,
            TaskError::Classify(ClassifyError::DateOutOfRange) => "File date is outside the calendar"@,
            TaskError::Plan(PlanError::NoParentDirectory) => "File has no parent directory"@,
            TaskError::Plan(PlanError::NoFileName) => "File has no name"@,
        }
    }

    /// The error in words, for the outcome of the file.
    pub fn message(&self) -> (text: String)
        ensures
            text@ == self.message_text(),
    {
        match self {
            TaskError::Classify(ClassifyError::MetadataUnavailable) => "File timestamps are not available".to_owned(),
            TaskError::Classify(ClassifyError::DateOutOfRange) => "File date is outside the calendar".to_owned(),
            TaskError::Plan(PlanError::NoParentDirectory) => "File has no parent directory".to_owned(),
            TaskError::Plan(PlanError::NoFileName) => "File has no name".to_owned(),
        }
    }
}

/// What is to be done for `entry`: it is classified, the folder is named,
/// and the move is planned. The first of these that fails decides.
pub open spec fn prepared(entry: FileEntryView, mode: OrganizeMode, rules: Option<Map<Seq<char>, Seq<char>>>) -> Result<
    RelocationPlanView,
    TaskError,
> {
    match key_of(entry, mode) {
        Err(error) => Err(TaskError::Classify(error)),
        Ok(key) => match plan_of(entry, folder_of_key(key, rules)) {
            Err(error) => Err(TaskError::Plan(error)),
            Ok(plan) => Ok(plan),
        },
    }
}

/// A prepared plan as its view, or the error.
pub open spec fn prepared_view(result: Result<RelocationPlan, TaskError>) -> Result<
    RelocationPlanView,
    TaskError,
> {
    match result {
        Ok(plan) => Ok(plan@),
        Err(error) => Err(error),
    }
}

/// Works out what is to be done for `entry`.
pub fn prepare(entry: &FileEntry, mode: OrganizeMode, config: Option<&RuleConfig>) -> (result: Result<
    RelocationPlan,
    TaskError,
>)
    requires
        config matches Some(c) ==> c.wf(),
    ensures
        prepared_view(result) == prepared(entry@, mode, rules_of(config)),
{
    match classify(entry, mode) {
        Err(error) => Err(TaskError::Classify(error)),
        Ok(key) => {
            let folder = resolve(&key, config);
            match plan(entry, folder.as_str()) {
                Err(error) => Err(TaskError::Plan(error)),
                Ok(plan) => Ok(plan),
            }
        },
    }
}

/// Sorting by date pays no attention to the rule set.
pub proof fn law_by_date_ignores_rules(
    entry: FileEntryView,
    rules: Option<Map<Seq<char>, Seq<char>>>,
    other: Option<Map<Seq<char>, Seq<char>>>,
)
    ensures
        prepared(entry, OrganizeMode::ByDate, rules) == prepared(entry, OrganizeMode::ByDate, other),
{
}

/// The regular files among `entries`, in the order of the listing. Entries
/// of any other kind are passed over.
pub open spec fn regular_files(entries: Seq<ScannedEntry>) -> Seq<FileEntryView>
    decreases entries.len(),
{
    if entries.len() == 0 {
        Seq::empty()
    } else {
        let rest = regular_files(entries.drop_last());
        let last = entries.last();
        if last.is_file {
            rest.push(entry_of_path(last.path@, last.times))
        } else {
            rest
        }
    }
}

/// The views of a sequence of file entries.
pub open spec fn entry_views(files: Seq<FileEntry>) -> Seq<FileEntryView> {
    files.map_values(|file: FileEntry| file@)
}

/// Picks the regular files out of a listing.
pub fn dispatch(entries: &Vec<ScannedEntry>) -> (files: Vec<FileEntry>)
    ensures
        entry_views(files@) == regular_files(entries@),
{
    let mut files: Vec<FileEntry> = Vec::new();
    let mut i: usize = 0;
    while i < entries.len()
        invariant
            i <= entries.len(),
            entry_views(files@) =~= regular_files(entries@.take(i as int)),
        decreases entries.len() - i,
    {
        let entry = &entries[i];
        if entry.is_file {
            files.push(FileEntry::from_path(entry.path.as_str(), entry.times));
        }
        proof {
            let next = entries@.take(i + 1);
            assert(next.drop_last() =~= entries@.take(i as int));
        }
        i += 1;
    }
    assert(entries@.take(entries.len() as int) =~= entries@);
    files
}

/// Only regular files are worked on: each file of the work comes from an
/// entry of the listing that is a regular file, and no more files are worked
/// on than the listing has entries.
pub proof fn law_only_regular_files_are_worked_on(entries: Seq<ScannedEntry>, k: int)
    requires
        0 <= k < regular_files(entries).len(),
    ensures
        regular_files(entries).len() <= entries.len(),
        exists|i: int|
            0 <= i < entries.len() && (#[trigger] entries[i]).is_file && regular_files(entries)[k]
                == entry_of_path(entries[i].path@, entries[i].times),
    decreases entries.len(),
{
    lemma_regular_files_bound(entries);
    let rest = entries.drop_last();
    let last = entries.last();
    if last.is_file && k == regular_files(rest).len() {
        assert(entries[entries.len() - 1].is_file);
    } else {
        law_only_regular_files_are_worked_on(rest, k);
        let i = choose|i: int|
            0 <= i < rest.len() && (#[trigger] rest[i]).is_file && regular_files(rest)[k] == entry_of_path(
                rest[i].path@,
                rest[i].times,
            );
        assert(entries[i] == rest[i]);
    }
}

proof fn lemma_regular_files_bound(entries: Seq<ScannedEntry>)
    ensures
        regular_files(entries).len() <= entries.len(),
    decreases entries.len(),
{
    if entries.len() > 0 {
        lemma_regular_files_bound(entries.drop_last());
    }
}

/// A listing without a regular file gives no work: what a run has sorted
/// into folders is not touched by the next run.
pub proof fn law_no_regular_file_no_work(entries: Seq<ScannedEntry>)
    requires
        forall|i: int| 0 <= i < entries.len() ==> !(#[trigger] entries[i]).is_file,
    ensures
        regular_files(entries).len() == 0,
    decreases entries.len(),
{
    if entries.len() > 0 {
        law_no_regular_file_no_work(entries.drop_last());
    }
}

/// How many of `outcomes` are failures.
pub open spec fn failures(outcomes: Seq<RelocationOutcomeView>) -> nat
    decreases outcomes.len(),
{
    if outcomes.len() == 0 {
        0
    } else if outcomes.last() is Failed {
        failures(outcomes.drop_last()) + 1
    } else {
        failures(outcomes.drop_last())
    }
}

/// How many of `outcomes` are moves, made or planned.
pub open spec fn successes(outcomes: Seq<RelocationOutcomeView>) -> nat
    decreases outcomes.len(),
{
    if outcomes.len() == 0 {
        0
    } else if outcomes.last() is Failed {
        successes(outcomes.drop_last())
    } else {
        successes(outcomes.drop_last()) + 1
    }
}

/// Every outcome counts once, as a success or as a failure, and one more
/// outcome changes only the count that it belongs to: a file that fails takes
/// nothing from the files that succeeded, and a file that succeeds adds no
/// failure.
pub proof fn law_each_outcome_counts_once(outcomes: Seq<RelocationOutcomeView>, outcome: RelocationOutcomeView)
    ensures
        successes(outcomes) + failures(outcomes) == outcomes.len(),
        outcome is Failed ==> successes(outcomes.push(outcome)) == successes(outcomes) && failures(
            outcomes.push(outcome),
        ) == failures(outcomes) + 1,
        !(outcome is Failed) ==> successes(outcomes.push(outcome)) == successes(outcomes) + 1
            && failures(outcomes.push(outcome)) == failures(outcomes),
    decreases outcomes.len(),
{
    if outcomes.len() > 0 {
        law_each_outcome_counts_once(outcomes.drop_last(), outcomes.last());
    }
    assert(outcomes.push(outcome).drop_last() =~= outcomes);
}

/// Where a run stands.
#[derive(Debug, Clone, Copy, PartialEq, Eq, Structural)]
pub enum Phase {
    /// The directory has not been listed yet.
    Scanning,
    /// Files are being handed out.
    Dispatching,
    /// All files are handed out; some outcomes are still awaited.
    Collecting,
    /// The run is over.
    Done,
}

/// The counts of a run.
#[derive(Debug, Clone, Copy, PartialEq, Eq, Structural)]
pub struct RunSummary {
    /// Regular files found.
    pub seen: usize,
    /// Files moved, or planned in a dry run.
    pub succeeded: usize,
    /// Files that failed.
    pub failed: usize,
}

/// Why a run did nothing at all.
#[derive(Debug, Clone, PartialEq, Eq)]
pub enum OrganizeError {
    /// The directory could not be listed, for the reason given.
    DirectoryUnreadable(String),
}

/// The work for one file: the plan for its move, or why there is none.
#[derive(Debug, PartialEq, Eq)]
pub struct Task {
    /// Where the file is.
    pub source: String,
    /// Its plan, or the error that stands for its outcome.
    pub prepared: Result<RelocationPlan, TaskError>,
}

impl Task {
    /// The outcome of a task without a plan: the file has failed, for the
    /// reason that the error gives. A task with a plan has no outcome yet.
    pub open spec fn failed_outcome_spec(&self) -> Option<RelocationOutcomeView> {
        match self.prepared {
            Err(error) => Some(RelocationOutcomeView::Failed(error.message_text())),
            Ok(_) => None,
        }
    }

    /// The outcome of the task where it is known without touching the file
    /// system: a file that could not be classified or planned has failed, and
    /// this failure is its own alone.
    pub fn failed_outcome(&self) -> (outcome: Option<RelocationOutcome>)
        ensures
            match outcome {
                Some(o) => self.failed_outcome_spec() == Some(o@),
                None => self.failed_outcome_spec() is None,
            },
    {
        match &self.prepared {
            Err(error) => Some(RelocationOutcome::Failed(error.message())),
            Ok(_) => None,
        }
    }
}

/// The exit status of a run that moved or planned every file it found.
pub const EXIT_SUCCESS: u8 = 0;

/// The exit status of a run that could not list its directory.
pub const EXIT_UNREADABLE: u8 = 1;

/// The exit status of a run in which some files failed.
pub const EXIT_SOME_FAILED: u8 = 2;

/// The course of one run: scanning, dispatching, collecting, done.
///
/// The run hands out each regular file once and takes the outcomes one at a
/// time, in whatever order they come; the files may be worked on side by
/// side in between.
pub struct Organizer {
    mode: OrganizeMode,
    phase: Phase,
    files: Vec<FileEntry>,
    dispatched: usize,
    succeeded: usize,
    failed: usize,
    unreadable: Option<String>,
    collected: Ghost<Seq<RelocationOutcomeView>>,
}

impl Organizer {
    /// How the files of the run are sorted.
    pub closed spec fn mode(&self) -> OrganizeMode {
        self.mode
    }

    /// Where the run stands.
    pub closed spec fn phase(&self) -> Phase {
        self.phase
    }

    /// The regular files found, in the order of the listing.
    pub closed spec fn files(&self) -> Seq<FileEntryView> {
        entry_views(self.files@)
    }

    /// How many files have been handed out.
    pub closed spec fn dispatched(&self) -> nat {
        self.dispatched as nat
    }

    /// The outcomes reported so far, in the order in which they came.
    pub closed spec fn collected(&self) -> Seq<RelocationOutcomeView> {
        self.collected@
    }

    /// Why the directory could not be listed, if it could not.
    pub closed spec fn unreadable(&self) -> Option<Seq<char>> {
        match self.unreadable {
            Some(reason) => Some(reason@),
            None => None,
        }
    }

    /// How many files are handed out and not yet reported.
    pub open spec fn in_flight(&self) -> int {
        self.dispatched() - self.collected().len()
    }

    /// Validity: the counts agree with the outcomes reported, no more is
    /// reported than was handed out, no more handed out than was found, and
    /// the phase says where the counts stand.
    pub closed spec fn wf(&self) -> bool {
        &&& self.dispatched <= self.files.len()
        &&& self.collected@.len() <= self.dispatched
        &&& self.succeeded == successes(self.collected@)
        &&& self.failed == failures(self.collected@)
        &&& match self.phase {
            Phase::Scanning => self.files.len() == 0 && self.unreadable is None,
            Phase::Dispatching => self.dispatched < self.files.len() && self.unreadable is None,
            Phase::Collecting => self.dispatched == self.files.len() && self.collected@.len()
                < self.dispatched && self.unreadable is None,
            Phase::Done => self.dispatched == self.files.len() && self.collected@.len()
                == self.dispatched,
        }
    }

    /// What the summary shows of a valid run.
    pub open spec fn summary_spec(&self) -> RunSummary {
        RunSummary {
            seen: self.files().len() as usize,
            succeeded: successes(self.collected()) as usize,
            failed: failures(self.collected()) as usize,
        }
    }

    /// A run that has not listed its directory yet.
    pub fn new(mode: OrganizeMode) -> (run: Organizer)
        ensures
            run.wf(),
            run.mode() == mode,
            run.phase() == Phase::Scanning,
            run.files().len() == 0,
            run.dispatched() == 0,
            run.collected().len() == 0,
            run.unreadable() is None,
    {
        Organizer {
            mode,
            phase: Phase::Scanning,
            files: Vec::new(),
            dispatched: 0,
            succeeded: 0,
            failed: 0,
            unreadable: None,
            collected: Ghost(Seq::empty()),
        }
    }

    /// Where the run stands.
    pub fn current_phase(&self) -> (phase: Phase)
        ensures
            phase == self.phase(),
    {
        self.phase
    }

    /// The directory could not be listed: the run is over, and no file is
    /// worked on. Outside the scanning phase this changes nothing.
    pub fn scan_failed(&mut self, reason: String)
        requires
            old(self).wf(),
        ensures
            final(self).wf(),
            old(self).phase() == Phase::Scanning ==> {
                &&& final(self).phase() == Phase::Done
                &&& final(self).unreadable() == Some(reason@)
                &&& final(self).files().len() == 0
                &&& final(self).dispatched() == 0
                &&& final(self).collected().len() == 0
                &&& final(self).mode() == old(self).mode()
            },
            old(self).phase() != Phase::Scanning ==> *final(self) == *old(self),
    {
        if self.phase == Phase::Scanning {
            self.unreadable = Some(reason);
            self.phase = Phase::Done;
        }
    }

    /// The directory has been listed: its regular files are the work of the
    /// run, and the other entries are passed over. With no regular file the
    /// run is over at once. Outside the scanning phase this changes nothing.
    pub fn scanned(&mut self, entries: &Vec<ScannedEntry>)
        requires
            old(self).wf(),
        ensures
            final(self).wf(),
            old(self).phase() == Phase::Scanning ==> {
                &&& final(self).files() == regular_files(entries@)
                &&& final(self).phase() == if regular_files(entries@).len() == 0 {
                    Phase::Done
                } else {
                    Phase::Dispatching
                }
                &&& final(self).dispatched() == 0
                &&& final(self).collected().len() == 0
                &&& final(self).unreadable() is None
                &&& final(self).mode() == old(self).mode()
            },
            old(self).phase() != Phase::Scanning ==> *final(self) == *old(self),
    {
        if self.phase == Phase::Scanning {
            self.files = dispatch(entries);
            self.phase = if self.files.len() == 0 {
                Phase::Done
            } else {
                Phase::Dispatching
            };
        }
    }

    /// Hands out the next file, with the plan for its move or the error that
    /// stands for its outcome. After the last file the run waits for the
    /// outcomes. Outside the dispatching phase there is no task, and nothing
    /// changes.
    pub fn next_task(&mut self, config: Option<&RuleConfig>) -> (task: Option<Task>)
        requires
            old(self).wf(),
            config matches Some(c) ==> c.wf(),
        ensures
            final(self).wf(),
            task is Some <==> old(self).phase() == Phase::Dispatching,
            task matches Some(t) ==> {
                let file = old(self).files()[old(self).dispatched() as int];
                &&& old(self).dispatched() < old(self).files().len()
                &&& t.source@ == file.path
                &&& prepared_view(t.prepared) == prepared(file, old(self).mode(), rules_of(config))
                &&& final(self).dispatched() == old(self).dispatched() + 1
                &&& final(self).phase() == if final(self).dispatched() == final(self).files().len() {
                    Phase::Collecting
                } else {
                    Phase::Dispatching
                }
                &&& final(self).files() == old(self).files()
                &&& final(self).collected() == old(self).collected()
                &&& final(self).unreadable() == old(self).unreadable()
                &&& final(self).mode() == old(self).mode()
            },
            task is None ==> *final(self) == *old(self),
    {
        if self.phase != Phase::Dispatching {
            return None;
        }
        let file = &self.files[self.dispatched];
        let task = Task { source: file.path.clone(), prepared: prepare(file, self.mode, config) };
        self.dispatched = self.dispatched + 1;
        if self.dispatched == self.files.len() {
            self.phase = Phase::Collecting;
        }
        Some(task)
    }

    /// Takes the outcome of one file that was handed out. It is counted as a
    /// failure or as a success; the other count and the files still at work
    /// are left alone. With the last outcome after the last file the run is
    /// over. An outcome that no file is awaited for is refused, and nothing
    /// changes.
    pub fn collect(&mut self, outcome: &RelocationOutcome) -> (accepted: bool)
        requires
            old(self).wf(),
        ensures
            final(self).wf(),
            accepted <==> old(self).in_flight() > 0,
            accepted ==> {
                &&& final(self).collected() == old(self).collected().push(outcome@)
                &&& final(self).phase() == if old(self).phase() == Phase::Collecting
                    && final(self).in_flight() == 0 {
                    Phase::Done
                } else {
                    old(self).phase()
                }
                &&& final(self).files() == old(self).files()
                &&& final(self).dispatched() == old(self).dispatched()
                &&& final(self).unreadable() == old(self).unreadable()
                &&& final(self).mode() == old(self).mode()
            },
            !accepted ==> *final(self) == *old(self),
    {
        proof {
            law_each_outcome_counts_once(self.collected@, outcome@);
        }
        if self.succeeded + self.failed >= self.dispatched {
            return false;
        }
        match outcome {
            RelocationOutcome::Failed(_) => {
                self.failed = self.failed + 1;
            },
            _ => {
                self.succeeded = self.succeeded + 1;
            },
        }
        self.collected = Ghost(self.collected@.push(outcome@));
        if self.phase == Phase::Collecting && self.succeeded + self.failed == self.dispatched {
            self.phase = Phase::Done;
        }
        true
    }

    /// The counts so far: files found, files that succeeded, files that
    /// failed.
    pub fn summary(&self) -> (summary: RunSummary)
        requires
            self.wf(),
        ensures
            summary == self.summary_spec(),
            summary.seen == self.files().len(),
            summary.succeeded == successes(self.collected()),
            summary.failed == failures(self.collected()),
            summary.succeeded + summary.failed == self.collected().len(),
    {
        proof {
            law_each_outcome_counts_once(self.collected@, RelocationOutcomeView::Moved);
        }
        RunSummary { seen: self.files.len(), succeeded: self.succeeded, failed: self.failed }
    }

    /// How the run ended, once it is over: with its counts, or with the
    /// reason why the directory could not be listed.
    pub fn result(&self) -> (result: Option<Result<RunSummary, OrganizeError>>)
        requires
            self.wf(),
        ensures
            result is Some <==> self.phase() == Phase::Done,
            match result {
                Some(Ok(summary)) => {
                    &&& self.unreadable() is None
                    &&& summary == self.summary_spec()
                    &&& summary.succeeded + summary.failed == summary.seen
                },
                Some(Err(OrganizeError::DirectoryUnreadable(reason))) => self.unreadable() == Some(reason@),
                None => true,
            },
    {
        if self.phase != Phase::Done {
            return None;
        }
        match &self.unreadable {
            Some(reason) => Some(Err(OrganizeError::DirectoryUnreadable(reason.clone()))),
            None => Some(Ok(self.summary())),
        }
    }
}

/// The exit status for the end of a run.
pub open spec fn exit_status_of(result: Result<RunSummary, OrganizeError>) -> u8 {
    match result {
        Err(_) => EXIT_UNREADABLE,
        Ok(summary) => if summary.failed > 0 {
            EXIT_SOME_FAILED
        } else {
            EXIT_SUCCESS
        },
    }
}

/// The exit status for the end of a run: success where every file found was
/// moved or planned, also where there was none; a status of its own where
/// some failed; another where the directory could not be listed.
pub fn exit_status(result: &Result<RunSummary, OrganizeError>) -> (status: u8)
    ensures
        status == exit_status_of(*result),
        status == EXIT_SUCCESS <==> (result matches Ok(summary) && summary.failed == 0),
{
    match result {
        Err(_) => EXIT_UNREADABLE,
        Ok(summary) => if summary.failed > 0 {
            EXIT_SOME_FAILED
        } else {
            EXIT_SUCCESS
        },
    }
}

/// How the move of `file` ends in a dry run: it would be moved, or it has
/// failed because it could not be classified or planned.
pub open spec fn preview_outcome_of(
    file: FileEntryView,
    mode: OrganizeMode,
    rules: Option<Map<Seq<char>, Seq<char>>>,
) -> RelocationOutcomeView {
    match prepared(file, mode, rules) {
        Ok(_) => RelocationOutcomeView::WouldMove,
        Err(error) => RelocationOutcomeView::Failed(error.message_text()),
    }
}

/// What a dry run says of `file`: where it would go, or why it cannot go
/// anywhere.
pub open spec fn preview_of(
    file: FileEntryView,
    mode: OrganizeMode,
    rules: Option<Map<Seq<char>, Seq<char>>>,
) -> ObservationView {
    match prepared(file, mode, rules) {
        Ok(plan) => observation_of(plan, RelocationOutcomeView::WouldMove),
        Err(error) => ObservationView::Failed { source: file.path, reason: error.message_text() },
    }
}

/// The outcomes of a dry run over `files`, file by file.
pub open spec fn preview_outcomes(
    files: Seq<FileEntryView>,
    mode: OrganizeMode,
    rules: Option<Map<Seq<char>, Seq<char>>>,
) -> Seq<RelocationOutcomeView> {
    files.map_values(|file: FileEntryView| preview_outcome_of(file, mode, rules))
}

/// A dry run over a listing, from scanning to the end: nothing is asked of
/// the file system. Of each regular file, in the order of the listing, one
/// thing is said: where it would be moved, or why it cannot be. The summary
/// counts the files, those that would be moved and those that failed.
pub fn preview(entries: &Vec<ScannedEntry>, mode: OrganizeMode, config: Option<&RuleConfig>) -> (run: (
    Vec<Observation>,
    RunSummary,
))
    requires
        config matches Some(c) ==> c.wf(),
    ensures
        run.0@.len() == regular_files(entries@).len(),
        forall|k: int|
            0 <= k < run.0@.len() ==> (#[trigger] run.0@[k])@ == preview_of(
                regular_files(entries@)[k],
                mode,
                rules_of(config),
            ),
        run.1.seen == regular_files(entries@).len(),
        run.1.succeeded == successes(preview_outcomes(regular_files(entries@), mode, rules_of(config))),
        run.1.failed == failures(preview_outcomes(regular_files(entries@), mode, rules_of(config))),
        run.1.succeeded + run.1.failed == run.1.seen,
{
    let ghost files = regular_files(entries@);
    let ghost rules = rules_of(config);
    let mut organizer = Organizer::new(mode);
    organizer.scanned(entries);
    let mut said: Vec<Observation> = Vec::new();
    loop
        invariant
            config matches Some(c) ==> c.wf(),
            rules == rules_of(config),
            organizer.wf(),
            organizer.mode() == mode,
            organizer.files() == files,
            organizer.dispatched() == said@.len(),
            organizer.collected() == preview_outcomes(files, mode, rules).take(said@.len() as int),
            said@.len() <= files.len(),
            organizer.phase() == if said@.len() == files.len() {
                Phase::Done
            } else {
                Phase::Dispatching
            },
            forall|k: int| 0 <= k < said@.len() ==> (#[trigger] said@[k])@ == preview_of(files[k], mode, rules),
        ensures
            said@.len() == files.len(),
            organizer.wf(),
            organizer.files() == files,
            organizer.collected() == preview_outcomes(files, mode, rules).take(said@.len() as int),
            forall|k: int| 0 <= k < said@.len() ==> (#[trigger] said@[k])@ == preview_of(files[k], mode, rules),
        decreases files.len() - said@.len(),
    {
        let ghost done = said@.len() as int;
        let task = match organizer.next_task(config) {
            Some(task) => task,
            None => {
                break;
            },
        };
        let (outcome, observation) = match task.prepared {
            Err(error) => {
                let reason = error.message();
                (
                    RelocationOutcome::Failed(reason.clone()),
                    Observation::Failed { source: task.source, reason },
                )
            },
            Ok(plan) => {
                let (_, command) = step(&plan, true, RelocationState::Planned, FsEvent::Start);
                match command {
                    Command::Report(outcome) => {
                        let observation = observe(&plan, &outcome);
                        (outcome, observation)
                    },
                    _ => unreached(),
                }
            },
        };
        organizer.collect(&outcome);
        said.push(observation);
        proof {
            let all = preview_outcomes(files, mode, rules);
            assert(outcome@ == all[done]);
            assert(all.take(done + 1) =~= all.take(done).push(all[done]));
        }
    }
    proof {
        let all = preview_outcomes(files, mode, rules);
        assert(all.take(files.len() as int) =~= all);
    }
    let summary = organizer.summary();
    (said, summary)
}

} // verus!
