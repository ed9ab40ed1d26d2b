//! The course of a whole batch, as decisions from state and event to the
//! next state and the action the caller performs: list the directory, ask
//! the operator, create the output directory, then dispatch the tasks.
//! Nothing is created or started before the operator has approved.
use vstd::prelude::*;
use crate::confirm::{confirm, is_approved_spec, preview_line_spec, preview_lines};
use crate::error::{is_lang_error, ProgramError};
use crate::language::{language_of, resolve_language};
use crate::pairing::{classified, is_pairing, names, pair_entries, Classification, PairSet};
use crate::task::{build_tasks, is_task_for, output_dir, output_dir_spec, MuxTask};

verus! {

/// What a batch is asked to do.
pub struct BatchConfig {
    /// The directory that holds the video and subtitle files.
    pub dir: String,
    /// The text that marks a video file name.
    pub video_token: String,
    /// The text that marks a subtitle file name.
    pub sub_token: String,
    /// The language code of the subtitles.
    pub lang: String,
}

/// Where a batch stands.
pub enum BatchState {
    /// Waiting for the directory's entries.
    Listing,
    /// Waiting for the operator's answer on these pairs.
    Confirming(PairSet),
    /// Waiting for the output directory, with the tasks to run.
    Preparing(Vec<MuxTask>),
    /// The tasks have been handed out.
    Dispatched,
}

/// What the caller does next.
pub enum BatchAction {
    /// List the entries of this directory and report them.
    ListDirectory(String),
    /// Show these lines, read one line of answer and report it.
    AskOperator(Vec<String>),
    /// Create this directory (one that exists already will do) and report.
    CreateOutputDir(String),
    /// Run one unit per task, all at once.
    Dispatch(Vec<MuxTask>),
}

/// What the caller reports.
pub enum BatchEvent {
    Listed(Vec<String>),
    Answered(String),
    OutputDirReady,
}

/// The event is the one that `state` waits for.
pub open spec fn event_fits(state: BatchState, event: BatchEvent) -> bool {
    match state {
        BatchState::Listing => event is Listed,
        BatchState::Confirming(_) => event is Answered,
        BatchState::Preparing(_) => event is OutputDirReady,
        BatchState::Dispatched => false,
    }
}

/// After the listing `entries`: the pairs of the directory are put to the
/// operator, and their preview lines are shown.
pub open spec fn asks_about_pairs(
    config: BatchConfig,
    entries: Seq<String>,
    next: BatchState,
    action: BatchAction,
) -> bool {
    match (next, action) {
        (BatchState::Confirming(p), BatchAction::AskOperator(lines)) => {
            &&& p.wf()
            &&& is_pairing(
                names(entries),
                config.video_token@,
                config.sub_token@,
                p.videos_view(),
                p.subs_view(),
            )
            &&& lines@.len() == p.videos_view().len()
            &&& forall|i: int|
                0 <= i < lines@.len() ==> #[trigger] lines@[i]@ == preview_line_spec(
                    p.subs_view()[i],
                    p.videos_view()[i],
                )
        },
        _ => false,
    }
}

/// After approval of `pairs`: one task per pair is held, and the output
/// directory is to be created.
pub open spec fn prepares_tasks(
    config: BatchConfig,
    pairs: PairSet,
    next: BatchState,
    action: BatchAction,
) -> bool {
    match (next, action) {
        (BatchState::Preparing(tasks), BatchAction::CreateOutputDir(path)) => {
            &&& path@ == output_dir_spec(config.dir@)
            &&& tasks@.len() == pairs.videos_view().len()
            &&& forall|i: int|
                0 <= i < tasks@.len() ==> is_task_for(
                    #[trigger] tasks@[i],
                    config.dir@,
                    pairs.subs_view()[i],
                    pairs.videos_view()[i],
                    language_of(config.lang@)->Some_0,
                )
        },
        _ => false,
    }
}

/// What `on_event` does: `r` is the outcome of `event` in `state`.
pub open spec fn step_spec(
    config: BatchConfig,
    state: BatchState,
    event: BatchEvent,
    r: Result<(BatchState, BatchAction), ProgramError>,
) -> bool {
    match (state, event) {
        (BatchState::Listing, BatchEvent::Listed(entries)) => {
            let vt = config.video_token@;
            let st = config.sub_token@;
            &&& r is Err <==> classified(names(entries@), vt, st, Classification::Video).len()
                != classified(names(entries@), vt, st, Classification::Subtitle).len()
            &&& r is Err ==> r->Err_0 is MismatchError
            &&& r is Ok ==> asks_about_pairs(config, entries@, r->Ok_0.0, r->Ok_0.1)
        },
        (BatchState::Confirming(pairs), BatchEvent::Answered(answer)) => {
            &&& !is_approved_spec(answer@) ==> r is Err && r->Err_0 is ExitError
            &&& is_approved_spec(answer@) && language_of(config.lang@) is None ==> r is Err
                && is_lang_error(r->Err_0, config.lang@)
            &&& is_approved_spec(answer@) && language_of(config.lang@) is Some ==> r is Ok
                && prepares_tasks(config, pairs, r->Ok_0.0, r->Ok_0.1)
        },
        (BatchState::Preparing(tasks), BatchEvent::OutputDirReady) => {
            r == Ok::<(BatchState, BatchAction), ProgramError>(
                (BatchState::Dispatched, BatchAction::Dispatch(tasks)),
            )
        },
        _ => false,
    }
}

impl BatchState {
    /// Whether `event` is the one this state waits for.
    pub fn expects(&self, event: &BatchEvent) -> (r: bool)
        ensures
            r == event_fits(*self, *event),
    {
        match self {
            BatchState::Listing => matches!(event, BatchEvent::Listed(_)),
            BatchState::Confirming(_) => matches!(event, BatchEvent::Answered(_)),
            BatchState::Preparing(_) => matches!(event, BatchEvent::OutputDirReady),
            BatchState::Dispatched => false,
        }
    }
}

/// Starts a batch: an unknown language code fails it at once, with a
/// `LangError` that carries the code; otherwise the directory is listed.
pub fn begin(config: &BatchConfig) -> (r: Result<(BatchState, BatchAction), ProgramError>)
    ensures
        r is Err <==> language_of(config.lang@) is None,
        r is Err ==> is_lang_error(r->Err_0, config.lang@),
        r is Ok ==> r->Ok_0.0 is Listing && r->Ok_0.1 is ListDirectory && r->Ok_0.1->ListDirectory_0@
            == config.dir@,
{
    match resolve_language(config.lang.as_str()) {
        Ok(_) => Ok((BatchState::Listing, BatchAction::ListDirectory(config.dir.clone()))),
        Err(e) => Err(e),
    }
}

/// The next state and action of a batch in `state` on `event`.
/// - A listing with unequal numbers of video and subtitle files fails with
///   `MismatchError`; otherwise the pairs go to the operator.
/// - A rejecting answer fails with `ExitError`; an unknown language code
///   fails with `LangError`; otherwise the output directory is to be created.
/// - Once it is there, the tasks are dispatched.
pub fn on_event(config: &BatchConfig, state: BatchState, event: BatchEvent) -> (r: Result<
    (BatchState, BatchAction),
    ProgramError,
>)
    requires
        event_fits(state, event),
    ensures
        step_spec(*config, state, event, r),
{
    match state {
        BatchState::Listing => match event {
            BatchEvent::Listed(entries) => {
                match pair_entries(&entries, config.video_token.as_str(), config.sub_token.as_str()) {
                    Ok(pairs) => {
                        let lines = preview_lines(&pairs);
                        Ok((BatchState::Confirming(pairs), BatchAction::AskOperator(lines)))
                    },
                    Err(e) => Err(e),
                }
            },
            _ => vstd::pervasive::unreached(),
        },
        BatchState::Confirming(pairs) => match event {
            BatchEvent::Answered(answer) => {
                match confirm(answer.as_str()) {
                    Ok(()) => {},
                    Err(e) => {
                        return Err(e);
                    },
                }
                match build_tasks(&pairs, config.dir.as_str(), config.lang.as_str()) {
                    Ok(tasks) => {
                        let path = output_dir(config.dir.as_str());
                        Ok((BatchState::Preparing(tasks), BatchAction::CreateOutputDir(path)))
                    },
                    Err(e) => Err(e),
                }
            },
            _ => vstd::pervasive::unreached(),
        },
        BatchState::Preparing(tasks) => match event {
            BatchEvent::OutputDirReady => Ok((BatchState::Dispatched, BatchAction::Dispatch(tasks))),
            _ => vstd::pervasive::unreached(),
        },
        BatchState::Dispatched => vstd::pervasive::unreached(),
    }
}

/// The output directory is asked for only on an approving answer to a
/// proposed pairing, and a listing with unequal numbers of video and
/// subtitle files ends the batch with `MismatchError`, before anything is
/// created.
pub proof fn lemma_output_dir_only_after_approval(
    config: BatchConfig,
    state: BatchState,
    event: BatchEvent,
    r: Result<(BatchState, BatchAction), ProgramError>,
)
    requires
        event_fits(state, event),
        step_spec(config, state, event, r),
    ensures
        r is Ok && r->Ok_0.1 is CreateOutputDir ==> state is Confirming && event is Answered
            && is_approved_spec(event->Answered_0@),
        r is Ok && r->Ok_0.1 is Dispatch ==> state is Preparing && event is OutputDirReady,
        state is Listing && event is Listed && classified(
            names(event->Listed_0@),
            config.video_token@,
            config.sub_token@,
            Classification::Video,
        ).len() != classified(
            names(event->Listed_0@),
            config.video_token@,
            config.sub_token@,
            Classification::Subtitle,
        ).len() ==> r is Err && r->Err_0 is MismatchError,
{
}

} // verus!
