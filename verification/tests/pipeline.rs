use auto_commit::commit::{Commit, Field, ParseError};
use auto_commit::effect::{Effect, Fault, Level, Notice, PROGRESS_DONE, PROGRESS_LABEL, RULE};
use auto_commit::git::GitQuery;
use auto_commit::pipeline::{
    advance, begin, is_finished, propose, Answer, Event, Settings, Stage, FAILURE, SUCCESS,
};
use auto_commit::request::build_request;

const SCHEMA: &str = "{\"type\":\"object\"}";
const ARGUMENTS: &str = "{\"title\":\"Add hello print\",\"description\":\"Adds a print statement.\"}";
const MESSAGE: &str = "Add hello print\n\nAdds a print statement.";

fn settings(dry_run: bool, review: bool, force: bool, silent: bool) -> Settings {
    Settings { dry_run, review, force, silent, schema: SCHEMA.to_string() }
}

fn interactive() -> Settings {
    settings(false, false, false, false)
}

fn all_settings() -> Vec<Settings> {
    let mut all = Vec::new();
    for bits in 0..16u8 {
        all.push(settings(bits & 1 != 0, bits & 2 != 0, bits & 4 != 0, bits & 8 != 0));
    }
    all
}

fn output(text: &str) -> Event {
    Event::GitOutput(text.as_bytes().to_vec())
}

fn completion(arguments: &str) -> Event {
    Event::Completion(Some(arguments.to_string()))
}

fn fault(fault: Fault) -> Vec<Effect> {
    vec![Effect::Report(Notice::Fault(fault)), Effect::Exit(1)]
}

/// Runs the machine from its beginning over `events`.
fn run(settings: &Settings, events: Vec<Event>) -> (Stage, Vec<Effect>) {
    let (mut stage, mut all) = begin();
    for event in events {
        let (next, effects) = advance(settings, stage, event);
        stage = next;
        all.extend(effects);
    }
    (stage, all)
}

fn sends_request(effects: &[Effect]) -> bool {
    effects.iter().any(|e| matches!(e, Effect::SendRequest(_)))
}

fn commits(effects: &[Effect]) -> bool {
    effects.iter().any(|e| matches!(e, Effect::Commit { .. }))
}

fn asks(effects: &[Effect]) -> bool {
    effects.iter().any(|e| matches!(e, Effect::AskConfirmation))
}

#[test]
fn run_begins_with_the_staged_diff() {
    assert_eq!(begin(), (Stage::AwaitingStagedDiff, vec![Effect::RunGit(GitQuery::StagedDiff)]));
}

#[test]
fn empty_staged_diff_warns_and_goes_on() {
    for s in all_settings() {
        let (stage, effects) = advance(&s, Stage::AwaitingStagedDiff, output(""));
        assert_eq!(stage, Stage::AwaitingRepositoryCheck);
        assert_eq!(
            effects,
            vec![Effect::Report(Notice::NothingStaged), Effect::RunGit(GitQuery::InsideWorkTree)]
        );
        assert!(!is_finished(&s, &stage));
    }
}

#[test]
fn staged_diff_goes_on_without_a_warning() {
    let (stage, effects) = advance(&interactive(), Stage::AwaitingStagedDiff, output("+print('hi')"));
    assert_eq!(stage, Stage::AwaitingRepositoryCheck);
    assert_eq!(effects, vec![Effect::RunGit(GitQuery::InsideWorkTree)]);
}

#[test]
fn empty_staged_diff_changes_nothing_but_the_warning() {
    for s in all_settings() {
        let rest = || vec![output("true\n"), output("+x"), completion(ARGUMENTS), Event::Answered(Answer::Yes)];
        let mut loud_events = vec![output("")];
        loud_events.extend(rest());
        let mut quiet_events = vec![output("+x")];
        quiet_events.extend(rest());
        let (loud_stage, loud) = run(&s, loud_events);
        let (quiet_stage, mut quiet) = run(&s, quiet_events);
        quiet.insert(1, Effect::Report(Notice::NothingStaged));
        assert_eq!(loud_stage, quiet_stage);
        assert_eq!(loud, quiet);
    }
}

#[test]
fn outside_a_repository_the_run_fails_before_any_request() {
    for s in all_settings() {
        for reply in ["", "false\n", "fatal: not a git repository\n"] {
            let (stage, effects) = advance(&s, Stage::AwaitingRepositoryCheck, output(reply));
            assert_eq!(stage, Stage::Failed);
            assert_eq!(effects, vec![Effect::Report(Notice::NotARepository), Effect::Exit(1)]);
            let (stage, all) = run(
                &s,
                vec![output("+x"), output(reply), output("+x"), completion(ARGUMENTS), Event::Answered(Answer::Yes)],
            );
            assert_eq!(stage, Stage::Failed);
            assert!(!sends_request(&all));
            assert!(!commits(&all));
            assert_eq!(all.last(), Some(&Effect::Exit(1)));
        }
    }
}

#[test]
fn inside_a_repository_the_full_diff_is_asked_for() {
    let (stage, effects) = advance(&interactive(), Stage::AwaitingRepositoryCheck, output("true\n"));
    assert_eq!(stage, Stage::AwaitingFullDiff);
    assert_eq!(effects, vec![Effect::RunGit(GitQuery::HeadDiff)]);
}

#[test]
fn full_diff_is_sent_with_the_schema() {
    let request = build_request("+print('hi')", SCHEMA);
    let (stage, effects) = advance(&interactive(), Stage::AwaitingFullDiff, output("+print('hi')"));
    assert_eq!(stage, Stage::AwaitingCompletion);
    assert_eq!(
        effects,
        vec![Effect::Report(Notice::Loading), Effect::SendRequest(request.clone())]
    );
    let (_, effects) = advance(&settings(false, false, false, true), Stage::AwaitingFullDiff, output("+print('hi')"));
    assert_eq!(
        effects,
        vec![Effect::Report(Notice::Loading), Effect::StartProgress, Effect::SendRequest(request.clone())]
    );
    for silent in [false, true] {
        let (_, effects) = advance(&settings(true, false, false, silent), Stage::AwaitingFullDiff, output("+print('hi')"));
        assert_eq!(effects, vec![Effect::SendRequest(request.clone())]);
    }
}

#[test]
fn empty_full_diff_is_sent_too() {
    let (stage, effects) = advance(&settings(true, false, false, false), Stage::AwaitingFullDiff, output(""));
    assert_eq!(stage, Stage::AwaitingCompletion);
    assert_eq!(effects, vec![Effect::SendRequest(build_request("", SCHEMA))]);
}

#[test]
fn output_that_is_not_utf8_is_fatal() {
    let s = interactive();
    for stage in [Stage::AwaitingStagedDiff, Stage::AwaitingRepositoryCheck, Stage::AwaitingFullDiff] {
        let (next, effects) = advance(&s, stage, Event::GitOutput(vec![b't', 0xff]));
        assert_eq!(next, Stage::Failed);
        assert_eq!(effects, fault(Fault::UndecodableOutput));
    }
    let (next, effects) = advance(&s, Stage::Confirmed, Event::CommitExited { success: true, output: vec![0x80] });
    assert_eq!(next, Stage::Failed);
    assert_eq!(effects, fault(Fault::UndecodableOutput));
}

#[test]
fn response_without_function_call_is_fatal() {
    for s in all_settings() {
        let (stage, effects) = advance(&s, Stage::AwaitingCompletion, Event::Completion(None));
        assert_eq!(stage, Stage::Failed);
        assert!(!commits(&effects));
        assert_eq!(effects.last(), Some(&Effect::Exit(1)));
        assert!(effects.contains(&Effect::Report(Notice::Fault(Fault::Unparsed(ParseError::MissingFunctionCall)))));
        let (stage, later) = advance(&s, stage, Event::Answered(Answer::Yes));
        assert_eq!(stage, Stage::Failed);
        assert_eq!(later, vec![]);
    }
}

#[test]
fn response_that_does_not_parse_is_fatal() {
    let cases = [
        ("not json", ParseError::NotAnObject),
        ("[]", ParseError::NotAnObject),
        ("{\"title\":\"t\"}", ParseError::MissingField(Field::Description)),
        ("{\"description\":\"d\"}", ParseError::MissingField(Field::Title)),
        ("{\"title\":1,\"description\":\"d\"}", ParseError::NotText(Field::Title)),
        ("{\"title\":\"t\",\"description\":2}", ParseError::NotText(Field::Description)),
    ];
    for s in all_settings() {
        for (raw, error) in cases {
            let (stage, all) = run(
                &s,
                vec![output("+x"), output("true\n"), output("+x"), completion(raw), Event::Answered(Answer::Yes)],
            );
            assert_eq!(stage, Stage::Failed);
            assert!(!commits(&all));
            assert!(!asks(&all));
            assert_eq!(all.last(), Some(&Effect::Exit(1)));
            assert_eq!(all[all.len() - 2], Effect::Report(Notice::Fault(Fault::Unparsed(error))));
        }
    }
}

#[test]
fn dry_run_prints_the_message_and_succeeds() {
    for bits in 0..8u8 {
        let s = settings(true, bits & 1 != 0, bits & 2 != 0, bits & 4 != 0);
        let (stage, effects) = advance(&s, Stage::AwaitingCompletion, completion(ARGUMENTS));
        assert_eq!(stage, Stage::Proposed(MESSAGE.to_string()));
        assert_eq!(
            effects,
            vec![Effect::Report(Notice::Message(MESSAGE.to_string())), Effect::Exit(0)]
        );
        assert!(is_finished(&s, &stage));
        let (stage, later) = advance(&s, stage, Event::Answered(Answer::Yes));
        assert_eq!(stage, Stage::Proposed(MESSAGE.to_string()));
        assert_eq!(later, vec![]);
        let (_, all) = run(
            &s,
            vec![output(""), output("true"), output("+x"), completion(ARGUMENTS), Event::Answered(Answer::Yes)],
        );
        assert!(!commits(&all));
        assert!(!asks(&all));
        assert_eq!(all.last(), Some(&Effect::Exit(0)));
    }
}

#[test]
fn force_commits_without_asking() {
    for review in [false, true] {
        let s = settings(false, review, true, false);
        let (stage, effects) = advance(&s, Stage::AwaitingCompletion, completion(ARGUMENTS));
        assert_eq!(stage, Stage::Confirmed);
        assert_eq!(
            effects,
            vec![
                Effect::Report(Notice::Proposal(MESSAGE.to_string())),
                Effect::Commit { review, message: MESSAGE.to_string() },
            ]
        );
        let (_, all) = run(&s, vec![output("+x"), output("true\n"), output("+x"), completion(ARGUMENTS)]);
        assert!(!asks(&all));
        assert!(commits(&all));
    }
}

#[test]
fn force_with_silent_log_stops_the_progress_first() {
    let s = settings(false, false, true, true);
    let (_, effects) = advance(&s, Stage::AwaitingCompletion, completion(ARGUMENTS));
    assert_eq!(
        effects,
        vec![
            Effect::StopProgress,
            Effect::Report(Notice::Proposal(MESSAGE.to_string())),
            Effect::Commit { review: false, message: MESSAGE.to_string() },
        ]
    );
    let (stage, effects) = advance(&s, Stage::AwaitingCompletion, Event::Failure);
    assert_eq!(stage, Stage::Failed);
    assert_eq!(
        effects,
        vec![Effect::StopProgress, Effect::Report(Notice::Fault(Fault::RequestFailed)), Effect::Exit(1)]
    );
}

#[test]
fn without_force_the_user_is_asked() {
    let s = interactive();
    let (stage, effects) = advance(&s, Stage::AwaitingCompletion, completion(ARGUMENTS));
    assert_eq!(stage, Stage::Proposed(MESSAGE.to_string()));
    assert_eq!(
        effects,
        vec![Effect::Report(Notice::Proposal(MESSAGE.to_string())), Effect::AskConfirmation]
    );
    assert!(!is_finished(&s, &stage));
}

#[test]
fn yes_commits_the_proposed_message() {
    for review in [false, true] {
        let s = settings(false, review, false, false);
        let (stage, effects) =
            advance(&s, Stage::Proposed(MESSAGE.to_string()), Event::Answered(Answer::Yes));
        assert_eq!(stage, Stage::Confirmed);
        assert_eq!(
            effects,
            vec![
                Effect::Report(Notice::Committing),
                Effect::Commit { review, message: MESSAGE.to_string() },
            ]
        );
    }
}

#[test]
fn no_aborts_with_failure_and_without_commit() {
    let s = interactive();
    let (stage, effects) =
        advance(&s, Stage::Proposed(MESSAGE.to_string()), Event::Answered(Answer::No));
    assert_eq!(stage, Stage::Aborted);
    assert_eq!(effects, vec![Effect::Report(Notice::Aborted), Effect::Exit(1)]);
    assert!(is_finished(&s, &stage));
    let (stage, all) = run(
        &s,
        vec![
            output("+print('hi')"),
            output("true\n"),
            output("+print('hi')"),
            completion(ARGUMENTS),
            Event::Answered(Answer::No),
            Event::CommitExited { success: true, output: vec![] },
        ],
    );
    assert_eq!(stage, Stage::Aborted);
    assert!(!commits(&all));
    assert_eq!(all.last(), Some(&Effect::Exit(1)));
}

#[test]
fn hello_print_is_committed_with_the_exact_message() {
    let s = interactive();
    let (stage, all) = run(
        &s,
        vec![
            output("+print('hi')"),
            output("true\n"),
            output("+print('hi')"),
            completion(ARGUMENTS),
            Event::Answered(Answer::Yes),
            Event::CommitExited { success: true, output: b"[main 1234567] Add hello print\n".to_vec() },
        ],
    );
    assert_eq!(stage, Stage::Committed);
    assert_eq!(
        all,
        vec![
            Effect::RunGit(GitQuery::StagedDiff),
            Effect::RunGit(GitQuery::InsideWorkTree),
            Effect::RunGit(GitQuery::HeadDiff),
            Effect::Report(Notice::Loading),
            Effect::SendRequest(build_request("+print('hi')", SCHEMA)),
            Effect::Report(Notice::Proposal("Add hello print\n\nAdds a print statement.".to_string())),
            Effect::AskConfirmation,
            Effect::Report(Notice::Committing),
            Effect::Commit {
                review: false,
                message: "Add hello print\n\nAdds a print statement.".to_string(),
            },
            Effect::Report(Notice::CommitOutput("[main 1234567] Add hello print\n".to_string())),
            Effect::Exit(0),
        ]
    );
}

#[test]
fn hello_print_is_printed_by_a_dry_run() {
    let (stage, all) = run(
        &settings(true, false, false, false),
        vec![output("+print('hi')"), output("true\n"), output("+print('hi')"), completion(ARGUMENTS)],
    );
    assert_eq!(stage, Stage::Proposed("Add hello print\n\nAdds a print statement.".to_string()));
    assert_eq!(
        all[all.len() - 2..].to_vec(),
        vec![
            Effect::Report(Notice::Message("Add hello print\n\nAdds a print statement.".to_string())),
            Effect::Exit(0),
        ]
    );
}

#[test]
fn failed_commit_ends_with_failure() {
    let s = interactive();
    let (stage, effects) = advance(
        &s,
        Stage::Confirmed,
        Event::CommitExited { success: false, output: b"nothing to commit\n".to_vec() },
    );
    assert_eq!(stage, Stage::Failed);
    assert_eq!(
        effects,
        vec![Effect::Report(Notice::CommitOutput("nothing to commit\n".to_string())), Effect::Exit(1)]
    );
}

#[test]
fn what_cannot_be_done_is_fatal() {
    let s = interactive();
    let cases = [
        (Stage::AwaitingStagedDiff, Fault::GitUnavailable(GitQuery::StagedDiff)),
        (Stage::AwaitingRepositoryCheck, Fault::GitUnavailable(GitQuery::InsideWorkTree)),
        (Stage::AwaitingFullDiff, Fault::GitUnavailable(GitQuery::HeadDiff)),
        (Stage::AwaitingCompletion, Fault::RequestFailed),
        (Stage::Proposed("m".to_string()), Fault::PromptFailed),
        (Stage::Confirmed, Fault::CommitFailed),
    ];
    for (stage, expected) in cases {
        let (next, effects) = advance(&s, stage, Event::Failure);
        assert_eq!(next, Stage::Failed);
        assert_eq!(effects, fault(expected));
    }
}

#[test]
fn what_was_not_asked_for_is_fatal() {
    let s = interactive();
    let cases = [
        (Stage::AwaitingStagedDiff, completion(ARGUMENTS)),
        (Stage::AwaitingRepositoryCheck, Event::Answered(Answer::Yes)),
        (Stage::AwaitingFullDiff, Event::CommitExited { success: true, output: vec![] }),
        (Stage::AwaitingCompletion, output("true")),
        (Stage::Proposed("m".to_string()), completion(ARGUMENTS)),
        (Stage::Confirmed, Event::Answered(Answer::Yes)),
    ];
    for (stage, event) in cases {
        let (next, effects) = advance(&s, stage, event);
        assert_eq!(next, Stage::Failed);
        assert_eq!(effects, fault(Fault::UnexpectedEvent));
    }
}

#[test]
fn nothing_follows_the_end_of_a_run() {
    let events = || {
        vec![
            output("true"),
            completion(ARGUMENTS),
            Event::Answered(Answer::Yes),
            Event::CommitExited { success: true, output: vec![] },
            Event::Failure,
        ]
    };
    for s in all_settings() {
        for stage in [Stage::Committed, Stage::Aborted, Stage::Failed] {
            assert!(is_finished(&s, &stage));
            for event in events() {
                assert_eq!(advance(&s, stage.clone(), event), (stage.clone(), vec![]));
            }
        }
        for stage in [
            Stage::AwaitingStagedDiff,
            Stage::AwaitingRepositoryCheck,
            Stage::AwaitingFullDiff,
            Stage::AwaitingCompletion,
            Stage::Confirmed,
        ] {
            assert!(!is_finished(&s, &stage));
        }
        assert_eq!(is_finished(&s, &Stage::Proposed("m".to_string())), s.dry_run);
    }
}

#[test]
fn request_and_commit_happen_at_most_once() {
    for s in all_settings() {
        let (_, all) = run(
            &s,
            vec![
                output("+x"),
                output("true\n"),
                output("+x"),
                completion(ARGUMENTS),
                Event::Answered(Answer::Yes),
                Event::Answered(Answer::Yes),
                output("+x"),
                completion(ARGUMENTS),
                Event::CommitExited { success: true, output: vec![] },
                completion(ARGUMENTS),
            ],
        );
        assert_eq!(all.iter().filter(|e| matches!(e, Effect::SendRequest(_))).count(), 1);
        assert!(all.iter().filter(|e| matches!(e, Effect::Commit { .. })).count() <= 1);
        assert_eq!(commits(&all), !s.dry_run);
        assert_eq!(asks(&all), !s.dry_run && !s.force);
    }
}

#[test]
fn propose_decides_by_the_settings() {
    let commit = || Commit { title: "t".to_string(), description: "d".to_string() };
    assert_eq!(
        propose(&settings(true, true, true, true), Ok(commit())),
        (
            Stage::Proposed("t\n\nd".to_string()),
            vec![Effect::Report(Notice::Message("t\n\nd".to_string())), Effect::Exit(SUCCESS)]
        )
    );
    assert_eq!(
        propose(&settings(false, true, true, false), Ok(commit())),
        (
            Stage::Confirmed,
            vec![
                Effect::Report(Notice::Proposal("t\n\nd".to_string())),
                Effect::Commit { review: true, message: "t\n\nd".to_string() },
            ]
        )
    );
    assert_eq!(
        propose(&interactive(), Ok(commit())),
        (
            Stage::Proposed("t\n\nd".to_string()),
            vec![Effect::Report(Notice::Proposal("t\n\nd".to_string())), Effect::AskConfirmation]
        )
    );
    assert_eq!(
        propose(&interactive(), Err(ParseError::MissingFunctionCall)),
        (
            Stage::Failed,
            vec![
                Effect::Report(Notice::Fault(Fault::Unparsed(ParseError::MissingFunctionCall))),
                Effect::Exit(FAILURE),
            ]
        )
    );
}

#[test]
fn notices_have_their_words_and_levels() {
    assert_eq!(RULE, "------------------------------");
    assert_eq!(
        Notice::Proposal("t\n\nd".to_string()).text(),
        "Proposed Commit:\n------------------------------\nt\n\nd\n------------------------------"
    );
    assert_eq!(Notice::Message("t\n\nd".to_string()).text(), "t\n\nd");
    assert_eq!(Notice::CommitOutput("out\n".to_string()).text(), "out\n");
    assert_eq!(Notice::Loading.text(), "Loading Data...");
    assert_eq!(Notice::Committing.text(), "Committing Message...");
    assert_eq!(Notice::Aborted.text(), "Commit aborted by user.");
    assert_eq!(
        Notice::NothingStaged.text(),
        "没有要提交的暂存文件。\n尝试运行 `git add` 命令来暂存一些文件。"
    );
    assert!(Notice::NotARepository.text().contains("git init"));
    assert_eq!(
        Notice::Fault(Fault::Unparsed(ParseError::NotAnObject)).text(),
        "Couldn't parse model response."
    );
    assert_eq!(Notice::Fault(Fault::RequestFailed).text(), "Couldn't complete prompt.");
    assert_eq!(Notice::NothingStaged.level(), Level::Warn);
    assert_eq!(Notice::NotARepository.level(), Level::Error);
    assert_eq!(Notice::Aborted.level(), Level::Error);
    assert_eq!(Notice::Fault(Fault::CommitFailed).level(), Level::Error);
    assert_eq!(Notice::Loading.level(), Level::Info);
    assert_eq!(Notice::Proposal(String::new()).level(), Level::Info);
    assert_eq!(Notice::Message(String::new()).level(), Level::Info);
    assert_eq!(Notice::Committing.level(), Level::Info);
    assert_eq!(Notice::CommitOutput(String::new()).level(), Level::Info);
}

#[test]
fn faults_have_their_words() {
    let faults = [
        Fault::GitUnavailable(GitQuery::StagedDiff),
        Fault::GitUnavailable(GitQuery::InsideWorkTree),
        Fault::GitUnavailable(GitQuery::HeadDiff),
        Fault::UndecodableOutput,
        Fault::RequestFailed,
        Fault::Unparsed(ParseError::MissingFunctionCall),
        Fault::PromptFailed,
        Fault::CommitFailed,
        Fault::UnexpectedEvent,
    ];
    for (i, a) in faults.iter().enumerate() {
        assert!(!a.text().is_empty());
        assert_eq!(Notice::Fault(*a).text(), a.text());
        for b in &faults[i + 1..] {
            assert_ne!(a.text(), b.text());
        }
    }
    assert_eq!(Fault::GitUnavailable(GitQuery::HeadDiff).text(), "Couldn't find diff.");
    assert_eq!(Fault::PromptFailed.text(), "Couldn't ask question.");
    assert_eq!(Fault::CommitFailed.text(), "There was an error when creating the commit.");
}

#[test]
fn progress_has_its_words() {
    assert_eq!(PROGRESS_LABEL, "分析代码库...");
    assert_eq!(PROGRESS_DONE, "Finished Analyzing!");
}
