//! What holds of every run, whatever the caller hands back.

use crate::commit::commit_of_response;
use crate::effect::{performs, EffectView, Fault, Kind, NoticeView};
use crate::git::{confirms_work_tree, GitQuery};
use crate::pipeline::{announce, conclude, decoded, finished, start, step};
use crate::pipeline::{Answer, EventView, SettingsView, StageView, FAILURE, SUCCESS};
use crate::request::commit_request;
use vstd::prelude::*;

verus! {

/// Where a run that stands at `stage` ends up on `events`, and all that it
/// asks for on the way, in order.
pub open spec fn run(settings: SettingsView, stage: StageView, events: Seq<EventView>) -> (
    StageView,
    Seq<EffectView>,
)
    decreases events.len(),
{
    if events.len() == 0 {
        (stage, Seq::empty())
    } else {
        let (next, first) = step(settings, stage, events.first());
        let (last, rest) = run(settings, next, events.drop_first());
        (last, first + rest)
    }
}

/// Where a run ends up on `events` from its beginning, and all that it asks
/// for, in order.
pub open spec fn whole_run(settings: SettingsView, events: Seq<EventView>) -> (
    StageView,
    Seq<EffectView>,
) {
    let (last, rest) = run(settings, start().0, events);
    (last, start().1 + rest)
}

/// The effects of two stretches of a run perform a kind exactly if one of
/// the stretches does.
pub proof fn lemma_performs_concat(a: Seq<EffectView>, b: Seq<EffectView>, kind: Kind)
    ensures
        performs(a + b, kind) == (performs(a, kind) || performs(b, kind)),
{
    if performs(a, kind) {
        let i = choose|i: int| 0 <= i < a.len() && (#[trigger] a[i]).kind() == kind;
        assert((a + b)[i] == a[i]);
    }
    if performs(b, kind) {
        let i = choose|i: int| 0 <= i < b.len() && (#[trigger] b[i]).kind() == kind;
        assert((a + b)[a.len() + i] == b[i]);
    }
    if performs(a + b, kind) {
        let i = choose|i: int| 0 <= i < (a + b).len() && (#[trigger] (a + b)[i]).kind() == kind;
        if i < a.len() {
            assert(a[i] == (a + b)[i]);
        } else {
            assert(b[i - a.len()] == (a + b)[i]);
        }
    }
}

/// Once a run is over it stays where it is and asks for nothing more.
pub proof fn law_nothing_after_the_end(
    settings: SettingsView,
    stage: StageView,
    events: Seq<EventView>,
)
    requires
        finished(settings, stage),
    ensures
        run(settings, stage, events) == (stage, Seq::<EffectView>::empty()),
    decreases events.len(),
{
    if events.len() > 0 {
        law_nothing_after_the_end(settings, stage, events.drop_first());
    }
}

/// The event is a response from which a commit can be read.
pub open spec fn holds_commit(event: EventView) -> bool {
    event matches EventView::Completion(arguments) && commit_of_response(arguments).is_ok()
}

/// The event is output of `git` that says: inside a working tree.
pub open spec fn confirms_repository(event: EventView) -> bool {
    event matches EventView::GitOutput(reply) && (decoded(reply) matches Some(text)
        && confirms_work_tree(text))
}

/// Where the request, the question and the commit come from: the request
/// from the diff against `HEAD` alone; the question from a response that
/// holds a commit, and only without `force` and outside a dry run; the
/// commit from such a response under `force`, or from the user's yes.
proof fn lemma_origins(settings: SettingsView, stage: StageView, event: EventView)
    ensures
        performs(step(settings, stage, event).1, Kind::SendRequest) ==> stage
            == StageView::AwaitingFullDiff && step(settings, stage, event).0
            == StageView::AwaitingCompletion,
        performs(step(settings, stage, event).1, Kind::AskConfirmation) ==> stage
            == StageView::AwaitingCompletion && holds_commit(event) && !settings.dry_run
            && !settings.force,
        performs(step(settings, stage, event).1, Kind::Commit) ==> !settings.dry_run && ((stage
            == StageView::AwaitingCompletion && holds_commit(event) && settings.force) || (
        stage is Proposed && event == EventView::Answered(Answer::Yes))),
{
    if !finished(settings, stage) {
        match stage {
            StageView::AwaitingFullDiff => {
                if event is GitOutput && decoded(event->GitOutput_0).is_some() {
                    let request = seq![
                        EffectView::SendRequest(
                            commit_request(decoded(event->GitOutput_0).unwrap(), settings.schema),
                        ),
                    ];
                    lemma_performs_concat(announce(settings), request, Kind::AskConfirmation);
                    lemma_performs_concat(announce(settings), request, Kind::Commit);
                }
            },
            StageView::AwaitingCompletion => {
                let effects = step(settings, stage, event).1;
                let tail = effects.skip(conclude(settings).len() as int);
                assert(conclude(settings) + tail =~= effects);
                lemma_performs_concat(conclude(settings), tail, Kind::SendRequest);
                lemma_performs_concat(conclude(settings), tail, Kind::AskConfirmation);
                lemma_performs_concat(conclude(settings), tail, Kind::Commit);
            },
            _ => {},
        }
    }
}

/// How far `stage` is from the completion: the number of answers that come
/// before the response.
spec fn answers_before_response(stage: StageView) -> int {
    match stage {
        StageView::AwaitingStagedDiff => 3,
        StageView::AwaitingRepositoryCheck => 2,
        StageView::AwaitingFullDiff => 1,
        _ => 0,
    }
}

/// `stage` comes before the response is read.
spec fn before_response(stage: StageView) -> bool {
    stage is AwaitingStagedDiff || stage is AwaitingRepositoryCheck || stage is AwaitingFullDiff
        || stage is AwaitingCompletion
}

/// `stage` comes before the diff against `HEAD` is asked for.
spec fn before_full_diff(stage: StageView) -> bool {
    stage is AwaitingStagedDiff || stage is AwaitingRepositoryCheck
}

/// A step from a stage before the response leads to the next such stage or
/// ends the run, unless it reads a response that holds a commit.
proof fn lemma_order(settings: SettingsView, stage: StageView, event: EventView)
    requires
        before_response(stage),
    ensures
        ({
            let next = step(settings, stage, event).0;
            ||| next is Failed
            ||| before_response(next) && answers_before_response(next) + 1
                == answers_before_response(stage)
            ||| stage is AwaitingCompletion && holds_commit(event)
        }),
        stage is AwaitingRepositoryCheck && !confirms_repository(event) ==> step(
            settings,
            stage,
            event,
        ).0 is Failed,
{
}

/// From a stage before the response, a commit is made only if the event in
/// the place of the response is a response that holds a commit.
proof fn lemma_commit_needs_parsed_response(
    settings: SettingsView,
    stage: StageView,
    events: Seq<EventView>,
)
    requires
        before_response(stage),
        performs(run(settings, stage, events).1, Kind::Commit),
    ensures
        events.len() > answers_before_response(stage),
        holds_commit(events[answers_before_response(stage)]),
    decreases events.len(),
{
    if events.len() > 0 {
        let (next, first) = step(settings, stage, events[0]);
        let rest = events.drop_first();
        lemma_origins(settings, stage, events[0]);
        lemma_order(settings, stage, events[0]);
        lemma_performs_concat(first, run(settings, next, rest).1, Kind::Commit);
        if stage is AwaitingCompletion && holds_commit(events[0]) {
        } else if next is Failed {
            law_nothing_after_the_end(settings, next, rest);
        } else {
            lemma_commit_needs_parsed_response(settings, next, rest);
            assert(rest[answers_before_response(next)] == events[answers_before_response(stage)]);
        }
    }
}

/// From a stage at or after the completion, no request is sent.
proof fn lemma_no_second_request(
    settings: SettingsView,
    stage: StageView,
    events: Seq<EventView>,
)
    requires
        !before_full_diff(stage),
        !(stage is AwaitingFullDiff),
    ensures
        !performs(run(settings, stage, events).1, Kind::SendRequest),
    decreases events.len(),
{
    if events.len() > 0 {
        let (next, first) = step(settings, stage, events[0]);
        let rest = events.drop_first();
        lemma_origins(settings, stage, events[0]);
        lemma_performs_concat(first, run(settings, next, rest).1, Kind::SendRequest);
        lemma_no_second_request(settings, next, rest);
    }
}

/// From the repository check, a request is sent only if the check is
/// answered, confirms a working tree, and another answer follows.
proof fn lemma_request_needs_repository(settings: SettingsView, events: Seq<EventView>)
    requires
        performs(run(settings, StageView::AwaitingRepositoryCheck, events).1, Kind::SendRequest),
    ensures
        events.len() >= 2,
        confirms_repository(events[0]),
{
    let stage = StageView::AwaitingRepositoryCheck;
    if events.len() > 0 {
        let (next, first) = step(settings, stage, events[0]);
        let rest = events.drop_first();
        lemma_origins(settings, stage, events[0]);
        lemma_order(settings, stage, events[0]);
        lemma_performs_concat(first, run(settings, next, rest).1, Kind::SendRequest);
        if next is Failed {
            law_nothing_after_the_end(settings, next, rest);
        }
    }
}

/// An empty staged diff is worth a warning and nothing else: the run asks
/// for the repository check next, as it does after any other staged diff,
/// and does not exit.
pub proof fn law_empty_staged_diff_only_warns(settings: SettingsView)
    ensures
        step(settings, StageView::AwaitingStagedDiff, EventView::GitOutput(Seq::empty())) == (
            StageView::AwaitingRepositoryCheck,
            seq![
                EffectView::Report(NoticeView::NothingStaged),
                EffectView::RunGit(GitQuery::InsideWorkTree),
            ],
        ),
        !performs(
            step(settings, StageView::AwaitingStagedDiff, EventView::GitOutput(Seq::empty())).1,
            Kind::Exit,
        ),
{
    assert(decoded(Seq::<u8>::empty()) == Some(Seq::<char>::empty()));
}

/// What is staged decides nothing: with an empty staged diff a run ends
/// where it ends with any other, and asks for the same, but for the warning
/// that comes second.
pub proof fn law_staged_diff_decides_nothing(
    settings: SettingsView,
    staged: Seq<u8>,
    rest: Seq<EventView>,
)
    requires
        decoded(staged) matches Some(diff) && diff.len() > 0,
    ensures
        whole_run(settings, seq![EventView::GitOutput(Seq::empty())] + rest).0 == whole_run(
            settings,
            seq![EventView::GitOutput(staged)] + rest,
        ).0,
        whole_run(settings, seq![EventView::GitOutput(Seq::empty())] + rest).1 == whole_run(
            settings,
            seq![EventView::GitOutput(staged)] + rest,
        ).1.insert(1, EffectView::Report(NoticeView::NothingStaged)),
{
    law_empty_staged_diff_only_warns(settings);
    let loud = seq![EventView::GitOutput(Seq::empty())] + rest;
    let quiet = seq![EventView::GitOutput(staged)] + rest;
    assert(loud.drop_first() =~= rest);
    assert(quiet.drop_first() =~= rest);
}

/// Outside a working tree the run ends at the repository check: the user is
/// told, the process exits with the failure status, and nothing follows.
pub proof fn law_outside_repository_ends_run(
    settings: SettingsView,
    reply: Seq<u8>,
    rest: Seq<EventView>,
)
    requires
        decoded(reply) matches Some(text) && !confirms_work_tree(text),
    ensures
        run(
            settings,
            StageView::AwaitingRepositoryCheck,
            seq![EventView::GitOutput(reply)] + rest,
        ) == (
            StageView::Failed,
            seq![EffectView::Report(NoticeView::NotARepository), EffectView::Exit(FAILURE)],
        ),
{
    let events = seq![EventView::GitOutput(reply)] + rest;
    assert(events.drop_first() =~= rest);
    law_nothing_after_the_end(settings, StageView::Failed, rest);
}

/// No run sends the request unless `git` has confirmed a working tree: the
/// second answer is then that confirmation, and a third one, the diff,
/// follows it.
pub proof fn law_request_needs_repository(settings: SettingsView, events: Seq<EventView>)
    requires
        performs(whole_run(settings, events).1, Kind::SendRequest),
    ensures
        events.len() >= 3,
        confirms_repository(events[1]),
{
    let stage = StageView::AwaitingStagedDiff;
    lemma_performs_concat(start().1, run(settings, stage, events).1, Kind::SendRequest);
    let (next, first) = step(settings, stage, events[0]);
    let rest = events.drop_first();
    lemma_origins(settings, stage, events[0]);
    lemma_order(settings, stage, events[0]);
    lemma_performs_concat(first, run(settings, next, rest).1, Kind::SendRequest);
    if next is Failed {
        law_nothing_after_the_end(settings, next, rest);
    } else {
        lemma_request_needs_repository(settings, rest);
        assert(rest[0] == events[1]);
    }
}

/// A response without a function call, or with arguments that do not read
/// as a commit, ends the run: the fault is reported and the process exits
/// with the failure status.
pub proof fn law_unparsed_response_ends_run(
    settings: SettingsView,
    arguments: Option<Seq<char>>,
    rest: Seq<EventView>,
)
    requires
        commit_of_response(arguments) is Err,
    ensures
        run(
            settings,
            StageView::AwaitingCompletion,
            seq![EventView::Completion(arguments)] + rest,
        ) == (
            StageView::Failed,
            conclude(settings) + seq![
                EffectView::Report(
                    NoticeView::Fault(Fault::Unparsed(commit_of_response(arguments)->Err_0)),
                ),
                EffectView::Exit(FAILURE),
            ],
        ),
{
    let events = seq![EventView::Completion(arguments)] + rest;
    assert(events.drop_first() =~= rest);
    law_nothing_after_the_end(settings, StageView::Failed, rest);
}

/// No run makes a commit unless the model's response holds one: the fourth
/// answer is then that response.
pub proof fn law_commit_needs_parsed_response(settings: SettingsView, events: Seq<EventView>)
    requires
        performs(whole_run(settings, events).1, Kind::Commit),
    ensures
        events.len() >= 4,
        holds_commit(events[3]),
{
    lemma_performs_concat(
        start().1,
        run(settings, StageView::AwaitingStagedDiff, events).1,
        Kind::Commit,
    );
    lemma_commit_needs_parsed_response(settings, StageView::AwaitingStagedDiff, events);
}

/// In a dry run, a response that holds a commit has its message printed,
/// and the process exits with the success status. The run is over then.
pub proof fn law_dry_run_prints_message(settings: SettingsView, arguments: Option<Seq<char>>)
    requires
        settings.dry_run,
        commit_of_response(arguments) is Ok,
    ensures
        ({
            let message = commit_of_response(arguments)->Ok_0.message();
            let (next, effects) = step(
                settings,
                StageView::AwaitingCompletion,
                EventView::Completion(arguments),
            );
            &&& next == StageView::Proposed(message)
            &&& finished(settings, next)
            &&& effects == seq![
                EffectView::Report(NoticeView::Message(message)),
                EffectView::Exit(SUCCESS),
            ]
        }),
{
    assert(conclude(settings) =~= Seq::<EffectView>::empty());
}

/// A dry run never commits and never asks, wherever it stands and whatever
/// it is handed.
pub proof fn law_dry_run_never_commits(
    settings: SettingsView,
    stage: StageView,
    events: Seq<EventView>,
)
    requires
        settings.dry_run,
    ensures
        !performs(run(settings, stage, events).1, Kind::Commit),
        !performs(run(settings, stage, events).1, Kind::AskConfirmation),
    decreases events.len(),
{
    if events.len() > 0 {
        let (next, first) = step(settings, stage, events[0]);
        let rest = events.drop_first();
        lemma_origins(settings, stage, events[0]);
        lemma_performs_concat(first, run(settings, next, rest).1, Kind::Commit);
        lemma_performs_concat(first, run(settings, next, rest).1, Kind::AskConfirmation);
        law_dry_run_never_commits(settings, next, rest);
    }
}

/// Under `force` the user is never asked, wherever the run stands and
/// whatever it is handed.
pub proof fn law_force_never_asks(
    settings: SettingsView,
    stage: StageView,
    events: Seq<EventView>,
)
    requires
        settings.force,
    ensures
        !performs(run(settings, stage, events).1, Kind::AskConfirmation),
    decreases events.len(),
{
    if events.len() > 0 {
        let (next, first) = step(settings, stage, events[0]);
        let rest = events.drop_first();
        lemma_origins(settings, stage, events[0]);
        lemma_performs_concat(first, run(settings, next, rest).1, Kind::AskConfirmation);
        law_force_never_asks(settings, next, rest);
    }
}

/// Under `force`, and outside a dry run, a response that holds a commit is
/// committed in the same step: the proposal is shown and `git commit` is
/// started with the message.
pub proof fn law_force_commits_at_once(settings: SettingsView, arguments: Option<Seq<char>>)
    requires
        settings.force,
        !settings.dry_run,
        commit_of_response(arguments) is Ok,
    ensures
        ({
            let message = commit_of_response(arguments)->Ok_0.message();
            step(settings, StageView::AwaitingCompletion, EventView::Completion(arguments)) == (
                StageView::Confirmed,
                conclude(settings) + seq![
                    EffectView::Report(NoticeView::Proposal(message)),
                    EffectView::Commit { review: settings.review, message },
                ],
            )
        }),
{
}

/// At most one effect among `effects` is of the kind `kind`.
pub open spec fn at_most_once(effects: Seq<EffectView>, kind: Kind) -> bool {
    forall|i: int, j: int|
        0 <= i < effects.len() && 0 <= j < effects.len() && (#[trigger] effects[i]).kind() == kind
            && (#[trigger] effects[j]).kind() == kind ==> i == j
}

/// Two stretches of a run perform a kind at most once together if one of
/// them does so at most once and the other not at all.
pub proof fn lemma_at_most_once_concat(a: Seq<EffectView>, b: Seq<EffectView>, kind: Kind)
    requires
        at_most_once(a, kind),
        at_most_once(b, kind),
        !performs(a, kind) || !performs(b, kind),
    ensures
        at_most_once(a + b, kind),
{
    let both = a + b;
    assert forall|i: int, j: int|
        0 <= i < both.len() && 0 <= j < both.len() && (#[trigger] both[i]).kind() == kind && (
        #[trigger] both[j]).kind() == kind implies i == j by {
        if i < a.len() {
            assert(a[i] == both[i]);
        } else {
            assert(b[i - a.len()] == both[i]);
        }
        if j < a.len() {
            assert(a[j] == both[j]);
        } else {
            assert(b[j - a.len()] == both[j]);
        }
    }
}

/// A single step sends at most one request and starts at most one commit.
proof fn lemma_step_at_most_once(settings: SettingsView, stage: StageView, event: EventView)
    ensures
        at_most_once(step(settings, stage, event).1, Kind::SendRequest),
        at_most_once(step(settings, stage, event).1, Kind::Commit),
{
    if !finished(settings, stage) {
        match stage {
            StageView::AwaitingFullDiff => {
                if event is GitOutput && decoded(event->GitOutput_0).is_some() {
                    let request = seq![
                        EffectView::SendRequest(
                            commit_request(decoded(event->GitOutput_0).unwrap(), settings.schema),
                        ),
                    ];
                    lemma_at_most_once_concat(announce(settings), request, Kind::SendRequest);
                    lemma_at_most_once_concat(announce(settings), request, Kind::Commit);
                }
            },
            StageView::AwaitingCompletion => {
                let effects = step(settings, stage, event).1;
                let tail = effects.skip(conclude(settings).len() as int);
                assert(conclude(settings) + tail =~= effects);
                lemma_at_most_once_concat(conclude(settings), tail, Kind::SendRequest);
                lemma_at_most_once_concat(conclude(settings), tail, Kind::Commit);
            },
            _ => {},
        }
    }
}

/// Once `git commit` was started, no run starts it again.
proof fn lemma_no_second_commit(
    settings: SettingsView,
    stage: StageView,
    events: Seq<EventView>,
)
    requires
        !before_response(stage),
        !(stage is Proposed),
    ensures
        !performs(run(settings, stage, events).1, Kind::Commit),
    decreases events.len(),
{
    if events.len() > 0 {
        let (next, first) = step(settings, stage, events[0]);
        let rest = events.drop_first();
        lemma_origins(settings, stage, events[0]);
        lemma_performs_concat(first, run(settings, next, rest).1, Kind::Commit);
        lemma_no_second_commit(settings, next, rest);
    }
}

/// Wherever a run stands and whatever it is handed, it sends the request at
/// most once and starts `git commit` at most once.
pub proof fn law_one_request_one_commit(
    settings: SettingsView,
    stage: StageView,
    events: Seq<EventView>,
)
    ensures
        at_most_once(run(settings, stage, events).1, Kind::SendRequest),
        at_most_once(run(settings, stage, events).1, Kind::Commit),
    decreases events.len(),
{
    if events.len() > 0 {
        let (next, first) = step(settings, stage, events[0]);
        let rest = events.drop_first();
        let later = run(settings, next, rest).1;
        lemma_origins(settings, stage, events[0]);
        lemma_step_at_most_once(settings, stage, events[0]);
        law_one_request_one_commit(settings, next, rest);
        if performs(first, Kind::SendRequest) {
            lemma_no_second_request(settings, next, rest);
        }
        if performs(first, Kind::Commit) {
            lemma_no_second_commit(settings, next, rest);
        }
        lemma_at_most_once_concat(first, later, Kind::SendRequest);
        lemma_at_most_once_concat(first, later, Kind::Commit);
    }
}

/// From a proposal that waits for the user, a commit is made only on the
/// user's yes.
proof fn lemma_commit_needs_yes(
    settings: SettingsView,
    message: Seq<char>,
    events: Seq<EventView>,
)
    requires
        performs(run(settings, StageView::Proposed(message), events).1, Kind::Commit),
    ensures
        events.len() >= 1,
        events[0] == EventView::Answered(Answer::Yes),
{
    let stage = StageView::Proposed(message);
    if events.len() > 0 {
        let (next, first) = step(settings, stage, events[0]);
        let rest = events.drop_first();
        lemma_origins(settings, stage, events[0]);
        lemma_performs_concat(first, run(settings, next, rest).1, Kind::Commit);
        if !performs(first, Kind::Commit) {
            if finished(settings, stage) {
                law_nothing_after_the_end(settings, stage, events);
            } else {
                lemma_no_second_commit(settings, next, rest);
            }
        }
    }
}

/// From a stage before the response, and without `force`, a commit is made
/// only if the event that follows the response is the user's yes.
proof fn lemma_commit_needs_consent(
    settings: SettingsView,
    stage: StageView,
    events: Seq<EventView>,
)
    requires
        before_response(stage),
        !settings.force,
        performs(run(settings, stage, events).1, Kind::Commit),
    ensures
        events.len() > answers_before_response(stage) + 1,
        events[answers_before_response(stage) + 1] == EventView::Answered(Answer::Yes),
    decreases events.len(),
{
    if events.len() > 0 {
        let (next, first) = step(settings, stage, events[0]);
        let rest = events.drop_first();
        lemma_origins(settings, stage, events[0]);
        lemma_order(settings, stage, events[0]);
        lemma_performs_concat(first, run(settings, next, rest).1, Kind::Commit);
        if before_response(next) {
            lemma_commit_needs_consent(settings, next, rest);
            assert(rest[answers_before_response(next) + 1] == events[answers_before_response(stage)
                + 1]);
        } else if next is Proposed {
            lemma_commit_needs_yes(settings, next->Proposed_0, rest);
            assert(rest[0] == events[1]);
        } else {
            lemma_no_second_commit(settings, next, rest);
        }
    }
}

/// Without `force` no run makes a commit unless the user said yes: the
/// fifth answer is then that yes. A no, or a question that could not be
/// put, never leads to a commit.
pub proof fn law_commit_needs_consent(settings: SettingsView, events: Seq<EventView>)
    requires
        !settings.force,
        performs(whole_run(settings, events).1, Kind::Commit),
    ensures
        events.len() >= 5,
        events[4] == EventView::Answered(Answer::Yes),
{
    lemma_performs_concat(
        start().1,
        run(settings, StageView::AwaitingStagedDiff, events).1,
        Kind::Commit,
    );
    lemma_commit_needs_consent(settings, StageView::AwaitingStagedDiff, events);
}

/// The user's no ends the run: the user is told, the process exits with the
/// failure status, and nothing follows.
pub proof fn law_declined_ends_run(
    settings: SettingsView,
    message: Seq<char>,
    rest: Seq<EventView>,
)
    requires
        !settings.dry_run,
    ensures
        run(
            settings,
            StageView::Proposed(message),
            seq![EventView::Answered(Answer::No)] + rest,
        ) == (
            StageView::Aborted,
            seq![EffectView::Report(NoticeView::Aborted), EffectView::Exit(FAILURE)],
        ),
{
    let events = seq![EventView::Answered(Answer::No)] + rest;
    assert(events.drop_first() =~= rest);
    law_nothing_after_the_end(settings, StageView::Aborted, rest);
}

/// The status with which a run that is over at `stage` has exited.
pub open spec fn status_of(stage: StageView) -> u8 {
    match stage {
        StageView::Committed | StageView::Proposed(_) => SUCCESS,
        _ => FAILURE,
    }
}

/// A step ends the run exactly if its last effect is the exit, and then
/// with the status of the stage it ends at: success after the commit and
/// after a dry run's print, failure after a fault and after the user's no.
/// A step that does not end the run does not exit.
pub proof fn law_exit_status(settings: SettingsView, stage: StageView, event: EventView)
    requires
        !finished(settings, stage),
    ensures
        ({
            let (next, effects) = step(settings, stage, event);
            &&& finished(settings, next) ==> effects.len() > 0 && effects.last()
                == EffectView::Exit(status_of(next)) && !performs(effects.drop_last(), Kind::Exit)
            &&& !finished(settings, next) ==> !performs(effects, Kind::Exit)
        }),
{
    let (next, effects) = step(settings, stage, event);
    match stage {
        StageView::AwaitingFullDiff => {
            if event is GitOutput && decoded(event->GitOutput_0).is_some() {
                let request = seq![
                    EffectView::SendRequest(
                        commit_request(decoded(event->GitOutput_0).unwrap(), settings.schema),
                    ),
                ];
                lemma_performs_concat(announce(settings), request, Kind::Exit);
            }
        },
        StageView::AwaitingCompletion => {
            let tail = effects.skip(conclude(settings).len() as int);
            assert(conclude(settings) + tail =~= effects);
            lemma_performs_concat(conclude(settings), tail, Kind::Exit);
            if finished(settings, next) {
                assert(tail.len() == 2);
                assert(conclude(settings) + tail.drop_last() =~= effects.drop_last());
                lemma_performs_concat(conclude(settings), tail.drop_last(), Kind::Exit);
            }
        },
        _ => {},
    }
}

/// A run exits at most once, and then as the last thing it asks for: the
/// run is over, and the status is that of the stage it ended at.
pub proof fn law_exit_is_last(settings: SettingsView, stage: StageView, events: Seq<EventView>)
    ensures
        ({
            let (last, effects) = run(settings, stage, events);
            performs(effects, Kind::Exit) ==> finished(settings, last) && effects.last()
                == EffectView::Exit(status_of(last)) && !performs(effects.drop_last(), Kind::Exit)
        }),
    decreases events.len(),
{
    if finished(settings, stage) {
        law_nothing_after_the_end(settings, stage, events);
    } else if events.len() > 0 {
        let (next, first) = step(settings, stage, events[0]);
        let rest = events.drop_first();
        let later = run(settings, next, rest).1;
        law_exit_status(settings, stage, events[0]);
        lemma_performs_concat(first, later, Kind::Exit);
        if finished(settings, next) {
            law_nothing_after_the_end(settings, next, rest);
            assert(first + later =~= first);
        } else if performs(later, Kind::Exit) {
            law_exit_is_last(settings, next, rest);
            assert((first + later).drop_last() =~= first + later.drop_last());
            lemma_performs_concat(first, later.drop_last(), Kind::Exit);
        }
    }
}

/// The commit that is made of `message` under `settings`.
pub open spec fn commit_of(settings: SettingsView, message: Seq<char>) -> EffectView {
    EffectView::Commit { review: settings.review, message }
}

/// From a proposal that waits for the user, any commit that is made is made
/// of the proposed message.
proof fn lemma_commit_after_yes(
    settings: SettingsView,
    message: Seq<char>,
    events: Seq<EventView>,
    i: int,
)
    requires
        0 <= i < run(settings, StageView::Proposed(message), events).1.len(),
        run(settings, StageView::Proposed(message), events).1[i] is Commit,
    ensures
        run(settings, StageView::Proposed(message), events).1[i] == commit_of(settings, message),
{
    let stage = StageView::Proposed(message);
    if finished(settings, stage) {
        law_nothing_after_the_end(settings, stage, events);
    } else {
        let (next, first) = step(settings, stage, events[0]);
        let rest = events.drop_first();
        let later = run(settings, next, rest).1;
        if i >= first.len() {
            assert(later[i - first.len()] == (first + later)[i]);
            assert(performs(later, Kind::Commit));
            lemma_origins(settings, stage, events[0]);
            lemma_no_second_commit(settings, next, rest);
        }
    }
}

/// From a stage before the response, any commit that is made is made of
/// the message of the commit that the response holds.
proof fn lemma_commit_is_of_response(
    settings: SettingsView,
    stage: StageView,
    events: Seq<EventView>,
    i: int,
)
    requires
        before_response(stage),
        0 <= i < run(settings, stage, events).1.len(),
        run(settings, stage, events).1[i] is Commit,
    ensures
        events.len() > answers_before_response(stage),
        holds_commit(events[answers_before_response(stage)]),
        run(settings, stage, events).1[i] == commit_of(
            settings,
            commit_of_response(
                events[answers_before_response(stage)]->Completion_0,
            )->Ok_0.message(),
        ),
    decreases events.len(),
{
    assert(performs(run(settings, stage, events).1, Kind::Commit));
    lemma_commit_needs_parsed_response(settings, stage, events);
    let (next, first) = step(settings, stage, events[0]);
    let rest = events.drop_first();
    let later = run(settings, next, rest).1;
    lemma_origins(settings, stage, events[0]);
    lemma_order(settings, stage, events[0]);
    if i < first.len() {
        assert(first[i] == (first + later)[i]);
        assert(performs(first, Kind::Commit));
        let tail = first.skip(conclude(settings).len() as int);
        assert(conclude(settings) + tail =~= first);
        if i >= conclude(settings).len() {
            assert(tail[i - conclude(settings).len()] == first[i]);
        }
    } else {
        assert(later[i - first.len()] == (first + later)[i]);
        assert(performs(later, Kind::Commit));
        if before_response(next) {
            lemma_commit_is_of_response(settings, next, rest, i - first.len());
            assert(rest[answers_before_response(next)] == events[answers_before_response(stage)]);
        } else if next is Proposed {
            lemma_commit_after_yes(settings, next->Proposed_0, rest, i - first.len());
        } else {
            lemma_no_second_commit(settings, next, rest);
        }
    }
}

/// Whatever a run commits is the message of the commit that the model's
/// response holds: its title, an empty line, its description. The editor is
/// asked for exactly if the settings say so.
pub proof fn law_committed_message(settings: SettingsView, events: Seq<EventView>, i: int)
    requires
        0 <= i < whole_run(settings, events).1.len(),
        whole_run(settings, events).1[i] is Commit,
    ensures
        events.len() >= 4,
        holds_commit(events[3]),
        whole_run(settings, events).1[i] == commit_of(
            settings,
            commit_of_response(events[3]->Completion_0)->Ok_0.message(),
        ),
{
    let rest = run(settings, StageView::AwaitingStagedDiff, events).1;
    assert(rest[i - 1] == (start().1 + rest)[i]);
    lemma_commit_is_of_response(settings, StageView::AwaitingStagedDiff, events, i - 1);
}

} // verus!
