//! One run of the tool, as a state machine.
//!
//! The machine never acts. [`begin`] and [`advance`] say what is to be done
//! next; the caller does it and hands back what came of it as an [`Event`].
//! A run is linear: the staged diff, the repository check, the diff against
//! `HEAD`, the completion, then the proposal, which a dry run only prints,
//! which `force` confirms at once, and which otherwise waits for the
//! user's answer.

use crate::commit::{commit_of_response, parsed_view, Commit, CommitView, ParseError};
use crate::effect::{effects_view, Effect, EffectView, Fault, Notice, NoticeView};
use crate::git::{confirms_work_tree, inside_work_tree, GitQuery};
use crate::request::{build_request, commit_request};
use crate::text::decode_output;
use vstd::prelude::*;
use vstd::string::*;
use vstd::utf8::{decode_utf8, valid_utf8};

verus! {

/// What a run is given from outside.
#[derive(Debug, Clone, PartialEq, Eq)]
pub struct Settings {
    /// Print the message and stop: no confirmation, no commit.
    pub dry_run: bool,
    /// Let `git` open the message in an editor before it commits.
    pub review: bool,
    /// Commit without asking.
    pub force: bool,
    /// Logging is switched off altogether.
    pub silent: bool,
    /// The JSON Schema of a commit, as JSON text.
    pub schema: String,
}

/// The mathematical value of [`Settings`].
pub struct SettingsView {
    pub dry_run: bool,
    pub review: bool,
    pub force: bool,
    pub silent: bool,
    pub schema: Seq<char>,
}

impl View for Settings {
    type V = SettingsView;

    open spec fn view(&self) -> SettingsView {
        SettingsView {
            dry_run: self.dry_run,
            review: self.review,
            force: self.force,
            silent: self.silent,
            schema: self.schema@,
        }
    }
}

impl SettingsView {
    /// Whether a progress indicator is shown while the model is asked: only
    /// where a commit is wanted and the log says nothing.
    pub open spec fn shows_progress(self) -> bool {
        !self.dry_run && self.silent
    }
}

/// Where a run stands.
#[derive(Debug, Clone, PartialEq, Eq)]
pub enum Stage {
    /// The staged diff was asked for.
    AwaitingStagedDiff,
    /// `git` was asked whether this is a working tree.
    AwaitingRepositoryCheck,
    /// The diff against `HEAD` was asked for.
    AwaitingFullDiff,
    /// The request was sent.
    AwaitingCompletion,
    /// A message is proposed. A dry run ends here; otherwise the user was
    /// asked.
    Proposed(String),
    /// The proposal is confirmed and `git commit` was started.
    Confirmed,
    /// The commit is made.
    Committed,
    /// The user declined.
    Aborted,
    /// The run stopped on a fault.
    Failed,
}

/// The mathematical value of a [`Stage`].
pub enum StageView {
    AwaitingStagedDiff,
    AwaitingRepositoryCheck,
    AwaitingFullDiff,
    AwaitingCompletion,
    Proposed(Seq<char>),
    Confirmed,
    Committed,
    Aborted,
    Failed,
}

impl View for Stage {
    type V = StageView;

    open spec fn view(&self) -> StageView {
        match *self {
            Stage::AwaitingStagedDiff => StageView::AwaitingStagedDiff,
            Stage::AwaitingRepositoryCheck => StageView::AwaitingRepositoryCheck,
            Stage::AwaitingFullDiff => StageView::AwaitingFullDiff,
            Stage::AwaitingCompletion => StageView::AwaitingCompletion,
            Stage::Proposed(message) => StageView::Proposed(message@),
            Stage::Confirmed => StageView::Confirmed,
            Stage::Committed => StageView::Committed,
            Stage::Aborted => StageView::Aborted,
            Stage::Failed => StageView::Failed,
        }
    }
}

/// The user's answer to the confirmation.
#[derive(Debug, Clone, Copy, PartialEq, Eq, Structural)]
pub enum Answer {
    Yes,
    No,
}

/// What came of the last thing the caller was asked to do.
#[derive(Debug, Clone, PartialEq, Eq)]
pub enum Event {
    /// `git` ran; these bytes are what it printed.
    GitOutput(Vec<u8>),
    /// The service responded; these are the arguments of the function call
    /// in the first choice, if there is one.
    Completion(Option<String>),
    /// The user answered.
    Answered(Answer),
    /// `git commit` ended; `success` is its exit status, `output` what it
    /// printed.
    CommitExited { success: bool, output: Vec<u8> },
    /// What was asked for could not be done.
    Failure,
}

/// The mathematical value of an [`Event`].
pub enum EventView {
    GitOutput(Seq<u8>),
    Completion(Option<Seq<char>>),
    Answered(Answer),
    CommitExited { success: bool, output: Seq<u8> },
    Failure,
}

impl View for Event {
    type V = EventView;

    open spec fn view(&self) -> EventView {
        match *self {
            Event::GitOutput(bytes) => EventView::GitOutput(bytes@),
            Event::Completion(arguments) => EventView::Completion(
                match arguments {
                    Some(raw) => Some(raw@),
                    None => None,
                },
            ),
            Event::Answered(answer) => EventView::Answered(answer),
            Event::CommitExited { success, output } => EventView::CommitExited {
                success,
                output: output@,
            },
            Event::Failure => EventView::Failure,
        }
    }
}

/// The status of a run that did what it was asked.
pub const SUCCESS: u8 = 0;

/// The status of a run that stopped on a fault or was declined.
pub const FAILURE: u8 = 1;

/// The text that `bytes` encode, if they are UTF-8.
pub open spec fn decoded(bytes: Seq<u8>) -> Option<Seq<char>> {
    if valid_utf8(bytes) {
        Some(decode_utf8(bytes))
    } else {
        None
    }
}

/// Whether the run is over at `stage`.
pub open spec fn finished(settings: SettingsView, stage: StageView) -> bool {
    match stage {
        StageView::Committed | StageView::Aborted | StageView::Failed => true,
        StageView::Proposed(_) => settings.dry_run,
        _ => false,
    }
}

/// How every run begins: the staged diff is asked for.
pub open spec fn start() -> (StageView, Seq<EffectView>) {
    (StageView::AwaitingStagedDiff, seq![EffectView::RunGit(GitQuery::StagedDiff)])
}

/// A run that stops on `fault`: it is reported, and the process exits with
/// [`FAILURE`].
pub open spec fn stop(fault: Fault) -> (StageView, Seq<EffectView>) {
    (
        StageView::Failed,
        seq![EffectView::Report(NoticeView::Fault(fault)), EffectView::Exit(FAILURE)],
    )
}

/// What an event means that is neither the answer awaited nor its failure.
pub open spec fn on_other(event: EventView, unavailable: Fault) -> (
    StageView,
    Seq<EffectView>,
) {
    match event {
        EventView::Failure => stop(unavailable),
        _ => stop(Fault::UnexpectedEvent),
    }
}

/// After the staged diff: an empty one is worth a warning and nothing more.
pub open spec fn after_staged_diff(event: EventView) -> (StageView, Seq<EffectView>) {
    match event {
        EventView::GitOutput(bytes) => match decoded(bytes) {
            None => stop(Fault::UndecodableOutput),
            Some(diff) => (
                StageView::AwaitingRepositoryCheck,
                if diff.len() == 0 {
                    seq![
                        EffectView::Report(NoticeView::NothingStaged),
                        EffectView::RunGit(GitQuery::InsideWorkTree),
                    ]
                } else {
                    seq![EffectView::RunGit(GitQuery::InsideWorkTree)]
                },
            ),
        },
        _ => on_other(event, Fault::GitUnavailable(GitQuery::StagedDiff)),
    }
}

/// After the repository check: outside a working tree the run ends.
pub open spec fn after_repository_check(event: EventView) -> (StageView, Seq<EffectView>) {
    match event {
        EventView::GitOutput(bytes) => match decoded(bytes) {
            None => stop(Fault::UndecodableOutput),
            Some(reply) => if confirms_work_tree(reply) {
                (StageView::AwaitingFullDiff, seq![EffectView::RunGit(GitQuery::HeadDiff)])
            } else {
                (
                    StageView::Failed,
                    seq![
                        EffectView::Report(NoticeView::NotARepository),
                        EffectView::Exit(FAILURE),
                    ],
                )
            },
        },
        _ => on_other(event, Fault::GitUnavailable(GitQuery::InsideWorkTree)),
    }
}

/// What is shown before the request is sent.
pub open spec fn announce(settings: SettingsView) -> Seq<EffectView> {
    if settings.dry_run {
        seq![]
    } else if settings.silent {
        seq![EffectView::Report(NoticeView::Loading), EffectView::StartProgress]
    } else {
        seq![EffectView::Report(NoticeView::Loading)]
    }
}

/// What is withdrawn once the service has answered or failed.
pub open spec fn conclude(settings: SettingsView) -> Seq<EffectView> {
    if settings.shows_progress() {
        seq![EffectView::StopProgress]
    } else {
        seq![]
    }
}

/// After the diff against `HEAD`: the request for it is sent.
pub open spec fn after_full_diff(settings: SettingsView, event: EventView) -> (
    StageView,
    Seq<EffectView>,
) {
    match event {
        EventView::GitOutput(bytes) => match decoded(bytes) {
            None => stop(Fault::UndecodableOutput),
            Some(diff) => (
                StageView::AwaitingCompletion,
                announce(settings) + seq![
                    EffectView::SendRequest(commit_request(diff, settings.schema)),
                ],
            ),
        },
        _ => on_other(event, Fault::GitUnavailable(GitQuery::HeadDiff)),
    }
}

/// What follows from reading the response. Without a commit the run ends;
/// with one, a dry run prints the message and ends, `force` commits at once,
/// and otherwise the user is asked.
pub open spec fn proposal(settings: SettingsView, outcome: Result<CommitView, ParseError>) -> (
    StageView,
    Seq<EffectView>,
) {
    match outcome {
        Err(e) => stop(Fault::Unparsed(e)),
        Ok(commit) => {
            let message = commit.message();
            if settings.dry_run {
                (
                    StageView::Proposed(message),
                    seq![
                        EffectView::Report(NoticeView::Message(message)),
                        EffectView::Exit(SUCCESS),
                    ],
                )
            } else if settings.force {
                (
                    StageView::Confirmed,
                    seq![
                        EffectView::Report(NoticeView::Proposal(message)),
                        EffectView::Commit { review: settings.review, message },
                    ],
                )
            } else {
                (
                    StageView::Proposed(message),
                    seq![
                        EffectView::Report(NoticeView::Proposal(message)),
                        EffectView::AskConfirmation,
                    ],
                )
            }
        },
    }
}

/// After the completion: the response is read and the commit proposed.
pub open spec fn after_completion(settings: SettingsView, event: EventView) -> (
    StageView,
    Seq<EffectView>,
) {
    let (stage, effects) = match event {
        EventView::Completion(arguments) => proposal(settings, commit_of_response(arguments)),
        _ => on_other(event, Fault::RequestFailed),
    };
    (stage, conclude(settings) + effects)
}

/// After the user's answer: yes commits, no ends the run.
pub open spec fn after_answer(settings: SettingsView, message: Seq<char>, event: EventView) -> (
    StageView,
    Seq<EffectView>,
) {
    match event {
        EventView::Answered(Answer::Yes) => (
            StageView::Confirmed,
            seq![
                EffectView::Report(NoticeView::Committing),
                EffectView::Commit { review: settings.review, message },
            ],
        ),
        EventView::Answered(Answer::No) => (
            StageView::Aborted,
            seq![EffectView::Report(NoticeView::Aborted), EffectView::Exit(FAILURE)],
        ),
        _ => on_other(event, Fault::PromptFailed),
    }
}

/// After `git commit`: what it printed is shown, and its status decides how
/// the run ends.
pub open spec fn after_commit(event: EventView) -> (StageView, Seq<EffectView>) {
    match event {
        EventView::CommitExited { success, output } => match decoded(output) {
            None => stop(Fault::UndecodableOutput),
            Some(text) => if success {
                (
                    StageView::Committed,
                    seq![
                        EffectView::Report(NoticeView::CommitOutput(text)),
                        EffectView::Exit(SUCCESS),
                    ],
                )
            } else {
                (
                    StageView::Failed,
                    seq![
                        EffectView::Report(NoticeView::CommitOutput(text)),
                        EffectView::Exit(FAILURE),
                    ],
                )
            },
        },
        _ => on_other(event, Fault::CommitFailed),
    }
}

/// The stage that follows `stage` on `event`, and what is to be done then.
/// Once a run is over, nothing is to be done any more.
pub open spec fn step(settings: SettingsView, stage: StageView, event: EventView) -> (
    StageView,
    Seq<EffectView>,
) {
    if finished(settings, stage) {
        (stage, seq![])
    } else {
        match stage {
            StageView::AwaitingStagedDiff => after_staged_diff(event),
            StageView::AwaitingRepositoryCheck => after_repository_check(event),
            StageView::AwaitingFullDiff => after_full_diff(settings, event),
            StageView::AwaitingCompletion => after_completion(settings, event),
            StageView::Proposed(message) => after_answer(settings, message, event),
            _ => after_commit(event),
        }
    }
}

/// Appends one effect.
fn push_effect(effects: &mut Vec<Effect>, effect: Effect)
    ensures
        effects_view(final(effects)@) == effects_view(old(effects)@).push(effect@),
{
    effects.push(effect);
}

/// Ends the run on `fault`, after the effects in `before`.
fn halt(before: Vec<Effect>, fault: Fault) -> (r: (Stage, Vec<Effect>))
    ensures
        r.0@ == stop(fault).0,
        effects_view(r.1@) == effects_view(before@) + stop(fault).1,
{
    let mut effects = before;
    push_effect(&mut effects, Effect::Report(Notice::Fault(fault)));
    push_effect(&mut effects, Effect::Exit(FAILURE));
    (Stage::Failed, effects)
}

/// Ends the run on an event that is not the answer awaited.
fn halt_on_other(before: Vec<Effect>, event: &Event, unavailable: Fault) -> (r: (
    Stage,
    Vec<Effect>,
))
    ensures
        r.0@ == on_other(event@, unavailable).0,
        effects_view(r.1@) == effects_view(before@) + on_other(event@, unavailable).1,
{
    match event {
        Event::Failure => halt(before, unavailable),
        _ => halt(before, Fault::UnexpectedEvent),
    }
}

/// How every run begins.
pub fn begin() -> (r: (Stage, Vec<Effect>))
    ensures
        (r.0@, effects_view(r.1@)) == start(),
{
    let mut effects: Vec<Effect> = Vec::new();
    push_effect(&mut effects, Effect::RunGit(GitQuery::StagedDiff));
    (Stage::AwaitingStagedDiff, effects)
}

/// Whether the run is over at `stage`.
pub fn is_finished(settings: &Settings, stage: &Stage) -> (over: bool)
    ensures
        over == finished(settings@, stage@),
{
    match stage {
        Stage::Committed | Stage::Aborted | Stage::Failed => true,
        Stage::Proposed(_) => settings.dry_run,
        _ => false,
    }
}

fn step_staged_diff(event: Event) -> (r: (Stage, Vec<Effect>))
    ensures
        (r.0@, effects_view(r.1@)) == after_staged_diff(event@),
{
    let mut effects: Vec<Effect> = Vec::new();
    match &event {
        Event::GitOutput(bytes) => match decode_output(bytes.as_slice()) {
            None => halt(effects, Fault::UndecodableOutput),
            Some(diff) => {
                if diff.as_str().is_empty() {
                    push_effect(&mut effects, Effect::Report(Notice::NothingStaged));
                }
                push_effect(&mut effects, Effect::RunGit(GitQuery::InsideWorkTree));
                (Stage::AwaitingRepositoryCheck, effects)
            },
        },
        _ => halt_on_other(effects, &event, Fault::GitUnavailable(GitQuery::StagedDiff)),
    }
}

fn step_repository_check(event: Event) -> (r: (Stage, Vec<Effect>))
    ensures
        (r.0@, effects_view(r.1@)) == after_repository_check(event@),
{
    let mut effects: Vec<Effect> = Vec::new();
    match &event {
        Event::GitOutput(bytes) => match decode_output(bytes.as_slice()) {
            None => halt(effects, Fault::UndecodableOutput),
            Some(reply) => {
                if inside_work_tree(reply.as_str()) {
                    push_effect(&mut effects, Effect::RunGit(GitQuery::HeadDiff));
                    (Stage::AwaitingFullDiff, effects)
                } else {
                    push_effect(&mut effects, Effect::Report(Notice::NotARepository));
                    push_effect(&mut effects, Effect::Exit(FAILURE));
                    (Stage::Failed, effects)
                }
            },
        },
        _ => halt_on_other(effects, &event, Fault::GitUnavailable(GitQuery::InsideWorkTree)),
    }
}

fn step_full_diff(settings: &Settings, event: Event) -> (r: (Stage, Vec<Effect>))
    ensures
        (r.0@, effects_view(r.1@)) == after_full_diff(settings@, event@),
{
    let mut effects: Vec<Effect> = Vec::new();
    match &event {
        Event::GitOutput(bytes) => match decode_output(bytes.as_slice()) {
            None => halt(effects, Fault::UndecodableOutput),
            Some(diff) => {
                if !settings.dry_run {
                    push_effect(&mut effects, Effect::Report(Notice::Loading));
                    if settings.silent {
                        push_effect(&mut effects, Effect::StartProgress);
                    }
                }
                let request = build_request(diff.as_str(), settings.schema.as_str());
                push_effect(&mut effects, Effect::SendRequest(request));
                (Stage::AwaitingCompletion, effects)
            },
        },
        _ => halt_on_other(effects, &event, Fault::GitUnavailable(GitQuery::HeadDiff)),
    }
}

/// Proposes the commit that was read from the response, after the effects
/// in `before`.
fn propose_after(before: Vec<Effect>, settings: &Settings, outcome: Result<Commit, ParseError>) -> (r:
    (Stage, Vec<Effect>))
    ensures
        r.0@ == proposal(settings@, parsed_view(outcome)).0,
        effects_view(r.1@) == effects_view(before@) + proposal(
            settings@,
            parsed_view(outcome),
        ).1,
{
    let mut effects = before;
    match outcome {
        Err(e) => halt(effects, Fault::Unparsed(e)),
        Ok(commit) => {
            let message = commit.to_string();
            if settings.dry_run {
                push_effect(&mut effects, Effect::Report(Notice::Message(message.clone())));
                push_effect(&mut effects, Effect::Exit(SUCCESS));
                (Stage::Proposed(message), effects)
            } else if settings.force {
                push_effect(&mut effects, Effect::Report(Notice::Proposal(message.clone())));
                push_effect(&mut effects, Effect::Commit { review: settings.review, message });
                (Stage::Confirmed, effects)
            } else {
                push_effect(&mut effects, Effect::Report(Notice::Proposal(message.clone())));
                push_effect(&mut effects, Effect::AskConfirmation);
                (Stage::Proposed(message), effects)
            }
        },
    }
}

/// Decides what follows from reading the response.
///
/// `outcome` is what [`Commit::from_response`] made of the response. An
/// error ends the run; a commit is printed (dry run), committed at once
/// (`force`), or put to the user.
pub fn propose(settings: &Settings, outcome: Result<Commit, ParseError>) -> (r: (
    Stage,
    Vec<Effect>,
))
    ensures
        (r.0@, effects_view(r.1@)) == proposal(settings@, parsed_view(outcome)),
{
    propose_after(Vec::new(), settings, outcome)
}

fn step_completion(settings: &Settings, event: Event) -> (r: (Stage, Vec<Effect>))
    ensures
        (r.0@, effects_view(r.1@)) == after_completion(settings@, event@),
{
    let mut effects: Vec<Effect> = Vec::new();
    if !settings.dry_run && settings.silent {
        push_effect(&mut effects, Effect::StopProgress);
    }
    match &event {
        Event::Completion(arguments) => {
            let outcome = match arguments {
                Some(raw) => Commit::from_response(Some(raw.as_str())),
                None => Commit::from_response(None),
            };
            propose_after(effects, settings, outcome)
        },
        _ => halt_on_other(effects, &event, Fault::RequestFailed),
    }
}

fn step_answer(settings: &Settings, message: String, event: Event) -> (r: (Stage, Vec<Effect>))
    ensures
        (r.0@, effects_view(r.1@)) == after_answer(settings@, message@, event@),
{
    let mut effects: Vec<Effect> = Vec::new();
    match &event {
        Event::Answered(Answer::Yes) => {
            push_effect(&mut effects, Effect::Report(Notice::Committing));
            push_effect(&mut effects, Effect::Commit { review: settings.review, message });
            (Stage::Confirmed, effects)
        },
        Event::Answered(Answer::No) => {
            push_effect(&mut effects, Effect::Report(Notice::Aborted));
            push_effect(&mut effects, Effect::Exit(FAILURE));
            (Stage::Aborted, effects)
        },
        _ => halt_on_other(effects, &event, Fault::PromptFailed),
    }
}

fn step_commit(event: Event) -> (r: (Stage, Vec<Effect>))
    ensures
        (r.0@, effects_view(r.1@)) == after_commit(event@),
{
    let mut effects: Vec<Effect> = Vec::new();
    match &event {
        Event::CommitExited { success, output } => match decode_output(output.as_slice()) {
            None => halt(effects, Fault::UndecodableOutput),
            Some(text) => {
                push_effect(&mut effects, Effect::Report(Notice::CommitOutput(text)));
                if *success {
                    push_effect(&mut effects, Effect::Exit(SUCCESS));
                    (Stage::Committed, effects)
                } else {
                    push_effect(&mut effects, Effect::Exit(FAILURE));
                    (Stage::Failed, effects)
                }
            },
        },
        _ => halt_on_other(effects, &event, Fault::CommitFailed),
    }
}

/// Takes the run one step on: from `stage`, on `event`, to the stage that
/// is returned, with the effects that the caller is to carry out next, in
/// order.
pub fn advance(settings: &Settings, stage: Stage, event: Event) -> (r: (Stage, Vec<Effect>))
    ensures
        (r.0@, effects_view(r.1@)) == step(settings@, stage@, event@),
{
    if is_finished(settings, &stage) {
        let effects: Vec<Effect> = Vec::new();
        return (stage, effects);
    }
    match stage {
        Stage::AwaitingStagedDiff => step_staged_diff(event),
        Stage::AwaitingRepositoryCheck => step_repository_check(event),
        Stage::AwaitingFullDiff => step_full_diff(settings, event),
        Stage::AwaitingCompletion => step_completion(settings, event),
        Stage::Proposed(message) => step_answer(settings, message, event),
        _ => step_commit(event),
    }
}

} // verus!
