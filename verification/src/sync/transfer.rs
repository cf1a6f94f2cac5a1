//! The protocol that transfers one song, as a machine from stage and event
//! to next stage and action. The caller performs each action (a file-system
//! operation or an ffmpeg run) and reports its result as the next event:
//!
//! 1. check that the source exists, else fail;
//! 2. when the destination has a parent directory: create it (failing on an
//!    error), list it, and resolve the files that conflict with the
//!    destination (removing them, or skipping the song);
//! 3. convert with ffmpeg into a temporary file and move it into place, or
//!    copy the source.
use vstd::prelude::*;

use crate::models::ConflictStrategy;
use crate::paths::{parent, path_parent};
use crate::sync::conversion::{string_views, Conversion};
use crate::paths::{path_eq, path_file_stem};
use crate::sync::sync_music::{
    conflicting_paths, handle_conflicts, lemma_conflicts_spare_destination, stem_or_empty,
    DirEntryInfo,
};

verus! {

/// Everything the protocol needs to know about one song.
pub struct TransferPlan {
    pub src: String,
    pub dst: String,
    pub on_conflict: ConflictStrategy,
    /// The ffmpeg run, when the song is converted; else it is copied.
    pub conversion: Option<Conversion>,
    /// Whether the temporary file is removed also when ffmpeg could not be
    /// started at all.
    pub clean_up_failed_launch: bool,
}

/// What an ffmpeg run that could be started reported.
pub struct FfmpegRun {
    pub success: bool,
    pub stderr: String,
}

/// Why a transfer failed.
pub enum TransferError {
    /// The source file does not exist.
    SourceNotFound(String),
    /// A file-system operation or the start of ffmpeg failed.
    Io(String),
    /// ffmpeg ran and failed; its error output.
    Ffmpeg(String),
}

/// How a transfer ended well.
#[derive(Clone, Copy, Debug, PartialEq, Eq, Structural)]
pub enum TransferOutcome {
    /// The song was written to its destination.
    Transferred,
    /// A conflicting file was found and the strategy is to leave the song.
    Skipped,
}

/// Where the protocol stands.
pub enum TransferStage {
    Start,
    SourceCheck,
    DirCreation,
    DirListing,
    ConflictRemoval,
    Converting,
    Renaming,
    /// The temporary file is being removed; the transfer then fails so.
    TempRemoval(TransferError),
    Copying,
    Done,
}

/// The result of the last action.
pub enum TransferEvent {
    Begin,
    SourceChecked(bool),
    DirCreated(Result<(), String>),
    /// The entries of the directory, or `None` when it could not be read.
    DirListed(Option<Vec<DirEntryInfo>>),
    FilesRemoved,
    /// The run's report, or why ffmpeg could not be started.
    FfmpegFinished(Result<FfmpegRun, String>),
    Renamed(Result<(), String>),
    TempRemoved,
    Copied(Result<(), String>),
}

/// What the caller does next.
pub enum TransferAction {
    /// Find out whether a file exists at this path.
    CheckSource(String),
    /// Create this directory and its parents.
    CreateDir(String),
    /// List this directory.
    ListDir(String),
    /// Remove these files; failures are ignored.
    RemoveFiles(Vec<String>),
    /// Run ffmpeg with these arguments.
    RunFfmpeg(Vec<String>),
    /// Move the first path to the second.
    Rename(String, String),
    /// Remove this temporary file; a failure is ignored.
    RemoveTemp(String),
    /// Copy the first path to the second.
    Copy(String, String),
    /// The transfer is over.
    Finish(Result<TransferOutcome, TransferError>),
}

/// The stages that only a converted song reaches.
pub open spec fn converting_stage(stage: TransferStage) -> bool {
    ||| stage is Converting
    ||| stage is Renaming
    ||| stage is TempRemoval
}

/// The event answers the action that led to the stage, a converting stage
/// belongs to a plan with a conversion, and the directory stages to a
/// destination with a parent directory.
pub open spec fn accepts_spec(plan: TransferPlan, stage: TransferStage, event: TransferEvent) -> bool {
    &&& converting_stage(stage) ==> plan.conversion is Some
    &&& (stage is DirCreation || stage is DirListing) ==> path_parent(plan.dst@) is Some
    &&& match stage {
        TransferStage::Start => event is Begin,
        TransferStage::SourceCheck => event is SourceChecked,
        TransferStage::DirCreation => event is DirCreated,
        TransferStage::DirListing => event is DirListed,
        TransferStage::ConflictRemoval => event is FilesRemoved,
        TransferStage::Converting => event is FfmpegFinished,
        TransferStage::Renaming => event is Renamed,
        TransferStage::TempRemoval(_) => event is TempRemoved,
        TransferStage::Copying => event is Copied,
        TransferStage::Done => false,
    }
}

/// The step that writes the song: the ffmpeg run when it is converted, the
/// copy otherwise.
pub open spec fn write_step(plan: TransferPlan, next: TransferStage, action: TransferAction) -> bool {
    match plan.conversion {
        Some(conv) => {
            &&& next is Converting
            &&& action matches TransferAction::RunFfmpeg(args) && string_views(args@) == string_views(conv.args@)
        },
        None => {
            &&& next is Copying
            &&& action matches TransferAction::Copy(from, to) && from@ == plan.src@ && to@ == plan.dst@
        },
    }
}

/// The transfer ends with an I/O failure carrying `message`.
pub open spec fn fails_with_io(next: TransferStage, action: TransferAction, message: Seq<char>) -> bool {
    &&& next is Done
    &&& action matches TransferAction::Finish(Err(TransferError::Io(m))) && m@ == message
}

/// The transfer ends well with `outcome`.
pub open spec fn finishes_with(next: TransferStage, action: TransferAction, outcome: TransferOutcome) -> bool {
    &&& next is Done
    &&& action matches TransferAction::Finish(Ok(o)) && o == outcome
}

/// The conflicting files that a listing shows (none when it failed).
pub open spec fn listed_conflicts(entries: Option<Vec<DirEntryInfo>>, dst: Seq<char>) -> Seq<Seq<char>> {
    match entries {
        Some(es) => conflicting_paths(es@, dst),
        None => Seq::empty(),
    }
}

/// One step of the protocol: from `stage`, on `event`, the protocol moves to
/// `next` and asks for `action`.
pub open spec fn step_spec(plan: TransferPlan, stage: TransferStage, event: TransferEvent, next: TransferStage, action: TransferAction) -> bool {
    match stage {
        TransferStage::Start => {
            &&& next is SourceCheck
            &&& action matches TransferAction::CheckSource(p) && p@ == plan.src@
        },
        TransferStage::SourceCheck => match event {
            TransferEvent::SourceChecked(exists) => if !exists {
                &&& next is Done
                &&& action matches TransferAction::Finish(Err(TransferError::SourceNotFound(p))) && p@ == plan.src@
            } else {
                match path_parent(plan.dst@) {
                    Some(dir) => {
                        &&& next is DirCreation
                        &&& action matches TransferAction::CreateDir(p) && p@ == dir
                    },
                    None => write_step(plan, next, action),
                }
            },
            _ => false,
        },
        TransferStage::DirCreation => match event {
            TransferEvent::DirCreated(Err(e)) => fails_with_io(next, action, e@),
            TransferEvent::DirCreated(Ok(())) => {
                &&& next is DirListing
                &&& action matches TransferAction::ListDir(p) && path_parent(plan.dst@) == Some(p@)
            },
            _ => false,
        },
        TransferStage::DirListing => match event {
            TransferEvent::DirListed(entries) => {
                let conflicts = listed_conflicts(entries, plan.dst@);
                if conflicts.len() > 0 && plan.on_conflict == ConflictStrategy::Ignore {
                    finishes_with(next, action, TransferOutcome::Skipped)
                } else if conflicts.len() > 0 {
                    &&& next is ConflictRemoval
                    &&& action matches TransferAction::RemoveFiles(ps) && string_views(ps@) == conflicts
                } else {
                    write_step(plan, next, action)
                }
            },
            _ => false,
        },
        TransferStage::ConflictRemoval => write_step(plan, next, action),
        TransferStage::Converting => match event {
            TransferEvent::FfmpegFinished(Err(e)) => if plan.clean_up_failed_launch {
                &&& next matches TransferStage::TempRemoval(TransferError::Io(m)) && m@ == e@
                &&& action matches TransferAction::RemoveTemp(t) && t@ == plan.conversion->0.tmp@
            } else {
                fails_with_io(next, action, e@)
            },
            TransferEvent::FfmpegFinished(Ok(run)) => if run.success {
                &&& next is Renaming
                &&& action matches TransferAction::Rename(from, to) && from@ == plan.conversion->0.tmp@ && to@ == plan.dst@
            } else {
                &&& next matches TransferStage::TempRemoval(TransferError::Ffmpeg(m)) && m@ == run.stderr@
                &&& action matches TransferAction::RemoveTemp(t) && t@ == plan.conversion->0.tmp@
            },
            _ => false,
        },
        TransferStage::Renaming => match event {
            TransferEvent::Renamed(Err(e)) => fails_with_io(next, action, e@),
            TransferEvent::Renamed(Ok(())) => finishes_with(next, action, TransferOutcome::Transferred),
            _ => false,
        },
        TransferStage::TempRemoval(err) => {
            &&& next is Done
            &&& action matches TransferAction::Finish(Err(e)) && e == err
        },
        TransferStage::Copying => match event {
            TransferEvent::Copied(Err(e)) => fails_with_io(next, action, e@),
            TransferEvent::Copied(Ok(())) => finishes_with(next, action, TransferOutcome::Transferred),
            _ => false,
        },
        TransferStage::Done => false,
    }
}

/// Whether `event` is an answer that `stage` waits for.
pub fn accepts(plan: &TransferPlan, stage: &TransferStage, event: &TransferEvent) -> (res: bool)
    ensures
        res == accepts_spec(*plan, *stage, *event),
{
    let fits_plan = match stage {
        TransferStage::Converting | TransferStage::Renaming | TransferStage::TempRemoval(_) => plan.conversion.is_some(),
        _ => true,
    };
    let has_dir = match stage {
        TransferStage::DirCreation | TransferStage::DirListing => parent(plan.dst.as_str()).is_some(),
        _ => true,
    };
    let fits_stage = match (stage, event) {
        (TransferStage::Start, TransferEvent::Begin) => true,
        (TransferStage::SourceCheck, TransferEvent::SourceChecked(_)) => true,
        (TransferStage::DirCreation, TransferEvent::DirCreated(_)) => true,
        (TransferStage::DirListing, TransferEvent::DirListed(_)) => true,
        (TransferStage::ConflictRemoval, TransferEvent::FilesRemoved) => true,
        (TransferStage::Converting, TransferEvent::FfmpegFinished(_)) => true,
        (TransferStage::Renaming, TransferEvent::Renamed(_)) => true,
        (TransferStage::TempRemoval(_), TransferEvent::TempRemoved) => true,
        (TransferStage::Copying, TransferEvent::Copied(_)) => true,
        _ => false,
    };
    fits_plan && has_dir && fits_stage
}

/// Copies a vector of strings.
fn copy_strings(v: &Vec<String>) -> (res: Vec<String>)
    ensures
        string_views(res@) == string_views(v@),
{
    let mut res: Vec<String> = Vec::new();
    let mut i: usize = 0;
    while i < v.len()
        invariant
            i <= v@.len(),
            res@.len() == i,
            forall|j: int| 0 <= j < i ==> #[trigger] res@[j]@ == v@[j]@,
        decreases v@.len() - i,
    {
        res.push(v[i].clone());
        i = i + 1;
    }
    assert(string_views(res@) =~= string_views(v@));
    res
}

/// The step that writes the song.
fn write(plan: &TransferPlan) -> (res: (TransferStage, TransferAction))
    ensures
        write_step(*plan, res.0, res.1),
{
    match &plan.conversion {
        Some(conv) => (TransferStage::Converting, TransferAction::RunFfmpeg(copy_strings(&conv.args))),
        None => (TransferStage::Copying, TransferAction::Copy(plan.src.clone(), plan.dst.clone())),
    }
}

/// Advances the transfer of one song: given the stage it stands in and the
/// result of the last action, returns the next stage and the next action.
pub fn transfer_step(plan: &TransferPlan, stage: TransferStage, event: TransferEvent) -> (res: (TransferStage, TransferAction))
    requires
        accepts_spec(*plan, stage, event),
    ensures
        step_spec(*plan, stage, event, res.0, res.1),
{
    match stage {
        TransferStage::Start => (TransferStage::SourceCheck, TransferAction::CheckSource(plan.src.clone())),
        TransferStage::SourceCheck => {
            let exists = match event {
                TransferEvent::SourceChecked(b) => b,
                _ => false,
            };
            if !exists {
                (TransferStage::Done, TransferAction::Finish(Err(TransferError::SourceNotFound(plan.src.clone()))))
            } else {
                match parent(plan.dst.as_str()) {
                    Some(dir) => (TransferStage::DirCreation, TransferAction::CreateDir(dir)),
                    None => write(plan),
                }
            }
        },
        TransferStage::DirCreation => match event {
            TransferEvent::DirCreated(Err(e)) => (TransferStage::Done, TransferAction::Finish(Err(TransferError::Io(e)))),
            _ => {
                let dir = parent(plan.dst.as_str());
                match dir {
                    Some(d) => (TransferStage::DirListing, TransferAction::ListDir(d)),
                    None => (TransferStage::Done, TransferAction::Finish(Err(TransferError::Io(String::new())))),
                }
            },
        },
        TransferStage::DirListing => {
            let entries = match event {
                TransferEvent::DirListed(es) => es,
                _ => None,
            };
            let (remove, skip) = match &entries {
                Some(es) => {
                    let resolution = handle_conflicts(plan.on_conflict, plan.dst.as_str(), es);
                    (resolution.remove, resolution.skip)
                },
                None => (Vec::new(), false),
            };
            if skip {
                (TransferStage::Done, TransferAction::Finish(Ok(TransferOutcome::Skipped)))
            } else if remove.len() > 0 {
                (TransferStage::ConflictRemoval, TransferAction::RemoveFiles(remove))
            } else {
                write(plan)
            }
        },
        TransferStage::ConflictRemoval => write(plan),
        TransferStage::Converting => {
            let tmp = match &plan.conversion {
                Some(conv) => conv.tmp.clone(),
                None => String::new(),
            };
            match event {
                TransferEvent::FfmpegFinished(Err(e)) => if plan.clean_up_failed_launch {
                    (TransferStage::TempRemoval(TransferError::Io(e)), TransferAction::RemoveTemp(tmp))
                } else {
                    (TransferStage::Done, TransferAction::Finish(Err(TransferError::Io(e))))
                },
                TransferEvent::FfmpegFinished(Ok(run)) => if run.success {
                    (TransferStage::Renaming, TransferAction::Rename(tmp, plan.dst.clone()))
                } else {
                    (TransferStage::TempRemoval(TransferError::Ffmpeg(run.stderr)), TransferAction::RemoveTemp(tmp))
                },
                _ => (TransferStage::Done, TransferAction::Finish(Err(TransferError::Io(String::new())))),
            }
        },
        TransferStage::Renaming => match event {
            TransferEvent::Renamed(Err(e)) => (TransferStage::Done, TransferAction::Finish(Err(TransferError::Io(e)))),
            _ => (TransferStage::Done, TransferAction::Finish(Ok(TransferOutcome::Transferred))),
        },
        TransferStage::TempRemoval(err) => (TransferStage::Done, TransferAction::Finish(Err(err))),
        TransferStage::Copying => match event {
            TransferEvent::Copied(Err(e)) => (TransferStage::Done, TransferAction::Finish(Err(TransferError::Io(e)))),
            _ => (TransferStage::Done, TransferAction::Finish(Ok(TransferOutcome::Transferred))),
        },
        TransferStage::Done => (TransferStage::Done, TransferAction::Finish(Ok(TransferOutcome::Skipped))),
    }
}

/// How many steps at most separate a stage from the end.
pub open spec fn stage_rank(stage: TransferStage) -> nat {
    match stage {
        TransferStage::Start => 8,
        TransferStage::SourceCheck => 7,
        TransferStage::DirCreation => 6,
        TransferStage::DirListing => 5,
        TransferStage::ConflictRemoval => 4,
        TransferStage::Converting => 3,
        TransferStage::Copying => 3,
        TransferStage::Renaming => 2,
        TransferStage::TempRemoval(_) => 1,
        TransferStage::Done => 0,
    }
}

/// Every step moves the protocol closer to its end, so a transfer is over
/// after at most eight steps; and a step asks to finish exactly when it
/// reaches the end.
pub proof fn lemma_transfer_progresses(plan: TransferPlan, stage: TransferStage, event: TransferEvent, next: TransferStage, action: TransferAction)
    requires
        step_spec(plan, stage, event, next, action),
    ensures
        stage_rank(next) < stage_rank(stage),
        next is Done <==> action is Finish,
{
}

/// A transfer whose source is missing ends at once with that error, before
/// anything is created, removed or written.
pub proof fn lemma_missing_source_fails(plan: TransferPlan, next: TransferStage, action: TransferAction)
    requires
        step_spec(plan, TransferStage::SourceCheck, TransferEvent::SourceChecked(false), next, action),
    ensures
        next is Done,
        action matches TransferAction::Finish(Err(TransferError::SourceNotFound(p))) && p@ == plan.src@,
{
}

/// Under the `Ignore` strategy no file is ever removed; a conflict ends the
/// transfer as skipped before anything is written.
pub proof fn lemma_ignore_never_removes(plan: TransferPlan, stage: TransferStage, event: TransferEvent, next: TransferStage, action: TransferAction)
    requires
        plan.on_conflict == ConflictStrategy::Ignore,
        step_spec(plan, stage, event, next, action),
    ensures
        !(action is RemoveFiles),
        stage is DirListing ==> (event matches TransferEvent::DirListed(entries)
            && listed_conflicts(entries, plan.dst@).len() > 0
            ==> action == TransferAction::Finish(Ok(TransferOutcome::Skipped))),
{
}

/// The files that a transfer removes are files of the destination
/// directory's listing with the destination's stem, never the destination
/// itself.
pub proof fn lemma_removals_spare_destination(plan: TransferPlan, stage: TransferStage, event: TransferEvent, next: TransferStage, action: TransferAction)
    requires
        step_spec(plan, stage, event, next, action),
        action is RemoveFiles,
    ensures
        stage is DirListing,
        action matches TransferAction::RemoveFiles(ps) && forall|i: int| 0 <= i < ps@.len() ==> {
            &&& !path_eq(#[trigger] ps@[i]@, plan.dst@)
            &&& path_file_stem(ps@[i]@) == Some(stem_or_empty(plan.dst@))
        },
{
    if let TransferEvent::DirListed(Some(es)) = event {
        lemma_conflicts_spare_destination(es@, plan.dst@);
        if let TransferAction::RemoveFiles(ps) = action {
            assert forall|i: int| 0 <= i < ps@.len() implies {
                &&& !path_eq(#[trigger] ps@[i]@, plan.dst@)
                &&& path_file_stem(ps@[i]@) == Some(stem_or_empty(plan.dst@))
            } by {
                assert(string_views(ps@)[i] == ps@[i]@);
            }
        }
    }
}

/// A failed ffmpeg run removes its temporary file and fails with ffmpeg's
/// error output; a successful one moves the temporary file onto the
/// destination.
pub proof fn lemma_conversion_outcome(plan: TransferPlan, run: FfmpegRun, next: TransferStage, action: TransferAction)
    requires
        plan.conversion is Some,
        step_spec(plan, TransferStage::Converting, TransferEvent::FfmpegFinished(Ok(run)), next, action),
    ensures
        run.success ==> (action matches TransferAction::Rename(from, to) && from@ == plan.conversion->0.tmp@ && to@ == plan.dst@),
        !run.success ==> (action matches TransferAction::RemoveTemp(t) && t@ == plan.conversion->0.tmp@),
        !run.success ==> (next matches TransferStage::TempRemoval(TransferError::Ffmpeg(m)) && m@ == run.stderr@),
{
}

/// Every failed file-system operation ends the transfer with its error: a
/// directory that cannot be created, a rename or a copy that fails is
/// reported as `Io` with that operation's message.
pub proof fn lemma_failures_are_reported(plan: TransferPlan, stage: TransferStage, event: TransferEvent, next: TransferStage, action: TransferAction)
    requires
        step_spec(plan, stage, event, next, action),
    ensures
        stage is DirCreation ==> (event matches TransferEvent::DirCreated(Err(_)) ==> next is Done),
        stage is DirCreation ==> (event matches TransferEvent::DirCreated(Err(e))
            ==> (action matches TransferAction::Finish(Err(TransferError::Io(m))) && m@ == e@)),
        stage is Renaming ==> (event matches TransferEvent::Renamed(Err(_)) ==> next is Done),
        stage is Renaming ==> (event matches TransferEvent::Renamed(Err(e))
            ==> (action matches TransferAction::Finish(Err(TransferError::Io(m))) && m@ == e@)),
        stage is Copying ==> (event matches TransferEvent::Copied(Err(_)) ==> next is Done),
        stage is Copying ==> (event matches TransferEvent::Copied(Err(e))
            ==> (action matches TransferAction::Finish(Err(TransferError::Io(m))) && m@ == e@)),
{
}

/// A transfer ends as transferred only right after the song was written:
/// a copy or the rename of the converted file that succeeded.
pub proof fn lemma_transferred_only_after_write(plan: TransferPlan, stage: TransferStage, event: TransferEvent, next: TransferStage, action: TransferAction)
    requires
        step_spec(plan, stage, event, next, action),
        action matches TransferAction::Finish(Ok(o)) && o == TransferOutcome::Transferred,
    ensures
        (stage is Copying && event matches TransferEvent::Copied(Ok(_)))
            || (stage is Renaming && event matches TransferEvent::Renamed(Ok(_))),
{
}

/// A copy ends the transfer: as transferred when it succeeded, with its
/// error when it failed.
pub proof fn lemma_copy_result_is_reported(plan: TransferPlan, result: Result<(), String>, next: TransferStage, action: TransferAction)
    requires
        step_spec(plan, TransferStage::Copying, TransferEvent::Copied(result), next, action),
    ensures
        next is Done,
        result is Ok ==> (action matches TransferAction::Finish(Ok(o)) && o == TransferOutcome::Transferred),
        result matches Err(e) ==> (action matches TransferAction::Finish(Err(TransferError::Io(m))) && m@ == e@),
{
}

/// The song is written (copied, or converted by ffmpeg) only once its
/// source was found and, when the destination has a directory, that
/// directory was created and listed: right after the source check when
/// there is no directory, else after the listing or the removal of the
/// conflicting files. A copy goes from the source to the destination of a
/// plan without conversion; an ffmpeg run uses the plan's arguments.
pub proof fn lemma_write_only_after_checks(plan: TransferPlan, stage: TransferStage, event: TransferEvent, next: TransferStage, action: TransferAction)
    requires
        step_spec(plan, stage, event, next, action),
        action is Copy || action is RunFfmpeg,
    ensures
        (stage is SourceCheck && event == TransferEvent::SourceChecked(true) && path_parent(plan.dst@) is None)
            || stage is DirListing || stage is ConflictRemoval,
        action matches TransferAction::Copy(from, to) ==> (plan.conversion is None && from@ == plan.src@ && to@ == plan.dst@),
        action matches TransferAction::RunFfmpeg(args) ==> (plan.conversion matches Some(c)
            && string_views(args@) == string_views(c.args@)),
{
}

} // verus!
