//! What the pipeline asks its caller to do: run `git`, tell the user
//! something, send the request, ask for confirmation, commit, exit.

use crate::commit::ParseError;
use crate::git::GitQuery;
use crate::request::{RequestSpec, RequestView};
use vstd::prelude::*;
use vstd::string::*;

verus! {

/// Why a run cannot go on.
#[derive(Debug, Clone, Copy, PartialEq, Eq, Structural)]
pub enum Fault {
    /// `git` could not be run for the query.
    GitUnavailable(GitQuery),
    /// `git` printed something that is not UTF-8.
    UndecodableOutput,
    /// The request failed in transport or was refused by the service.
    RequestFailed,
    /// The response holds no commit.
    Unparsed(ParseError),
    /// The user could not be asked.
    PromptFailed,
    /// `git commit` could not be run.
    CommitFailed,
    /// The caller handed back something that was not asked for.
    UnexpectedEvent,
}

/// How loud a notice is.
#[derive(Debug, Clone, Copy, PartialEq, Eq, Structural)]
pub enum Level {
    Error,
    Warn,
    Info,
}

/// Something the user is told.
#[derive(Debug, Clone, PartialEq, Eq)]
pub enum Notice {
    /// Nothing is staged; the run goes on with the changes against `HEAD`.
    NothingStaged,
    /// The current directory is not inside a working tree.
    NotARepository,
    /// The request is about to be sent.
    Loading,
    /// The message that is proposed, framed for the confirmation.
    Proposal(String),
    /// The bare message, as a dry run prints it.
    Message(String),
    /// The user declined.
    Aborted,
    /// The user agreed; the commit is about to be made.
    Committing,
    /// What `git commit` printed.
    CommitOutput(String),
    /// The run stops on a fault.
    Fault(Fault),
}

/// The mathematical value of a [`Notice`].
pub enum NoticeView {
    NothingStaged,
    NotARepository,
    Loading,
    Proposal(Seq<char>),
    Message(Seq<char>),
    Aborted,
    Committing,
    CommitOutput(Seq<char>),
    Fault(Fault),
}

impl View for Notice {
    type V = NoticeView;

    open spec fn view(&self) -> NoticeView {
        match *self {
            Notice::NothingStaged => NoticeView::NothingStaged,
            Notice::NotARepository => NoticeView::NotARepository,
            Notice::Loading => NoticeView::Loading,
            Notice::Proposal(message) => NoticeView::Proposal(message@),
            Notice::Message(message) => NoticeView::Message(message@),
            Notice::Aborted => NoticeView::Aborted,
            Notice::Committing => NoticeView::Committing,
            Notice::CommitOutput(output) => NoticeView::CommitOutput(output@),
            Notice::Fault(fault) => NoticeView::Fault(fault),
        }
    }
}

/// The line that frames a proposal above and below.
pub const RULE: &'static str = "------------------------------";

/// The question that asks for confirmation.
pub const QUESTION: &'static str = "Do you want to continue? (Y/n)";

/// The label of the progress indicator while the model is asked.
pub const PROGRESS_LABEL: &'static str = "分析代码库...";

/// What the progress indicator leaves behind when it stops.
pub const PROGRESS_DONE: &'static str = "Finished Analyzing!";

impl Fault {
    /// The words in which the fault is reported.
    pub open spec fn text_spec(self) -> Seq<char> {
        match self {
            Fault::GitUnavailable(GitQuery::StagedDiff) => "找不到命令 diff."@,
            Fault::GitUnavailable(GitQuery::InsideWorkTree) => "无法检查是否为 Git 仓库。"@,
            Fault::GitUnavailable(GitQuery::HeadDiff) => "Couldn't find diff."@,
            Fault::UndecodableOutput => "Couldn't read the output of git as UTF-8."@,
            Fault::RequestFailed => "Couldn't complete prompt."@,
            Fault::Unparsed(_) => "Couldn't parse model response."@,
            Fault::PromptFailed => "Couldn't ask question."@,
            Fault::CommitFailed => "There was an error when creating the commit."@,
            Fault::UnexpectedEvent => "Couldn't go on: nothing of the kind was asked for."@,
        }
    }

    /// The words in which the fault is reported.
    pub fn text(self) -> (s: &'static str)
        ensures
            s@ == self.text_spec(),
    {
        match self {
            Fault::GitUnavailable(GitQuery::StagedDiff) => "找不到命令 diff.",
            Fault::GitUnavailable(GitQuery::InsideWorkTree) => "无法检查是否为 Git 仓库。",
            Fault::GitUnavailable(GitQuery::HeadDiff) => "Couldn't find diff.",
            Fault::UndecodableOutput => "Couldn't read the output of git as UTF-8.",
            Fault::RequestFailed => "Couldn't complete prompt.",
            Fault::Unparsed(_) => "Couldn't parse model response.",
            Fault::PromptFailed => "Couldn't ask question.",
            Fault::CommitFailed => "There was an error when creating the commit.",
            Fault::UnexpectedEvent => "Couldn't go on: nothing of the kind was asked for.",
        }
    }
}

impl NoticeView {
    /// How loud the notice is.
    pub open spec fn level(self) -> Level {
        match self {
            NoticeView::NothingStaged => Level::Warn,
            NoticeView::NotARepository => Level::Error,
            NoticeView::Aborted => Level::Error,
            NoticeView::Fault(_) => Level::Error,
            _ => Level::Info,
        }
    }

    /// The words of the notice.
    pub open spec fn text(self) -> Seq<char> {
        match self {
            NoticeView::NothingStaged => "没有要提交的暂存文件。\n尝试运行 `git add` 命令来暂存一些文件。"@,
            NoticeView::NotARepository => "看起来你不在一个 Git 仓库中。\n请从 Git 仓库的根目录运行此命令，或者使用 `git init` 初始化一个新的仓库。"@,
            NoticeView::Loading => "Loading Data..."@,
            NoticeView::Proposal(message) => "Proposed Commit:\n"@ + RULE@ + "\n"@ + message + "\n"@
                + RULE@,
            NoticeView::Message(message) => message,
            NoticeView::Aborted => "Commit aborted by user."@,
            NoticeView::Committing => "Committing Message..."@,
            NoticeView::CommitOutput(output) => output,
            NoticeView::Fault(fault) => fault.text_spec(),
        }
    }
}

impl Notice {
    /// How loud the notice is.
    pub fn level(&self) -> (level: Level)
        ensures
            level == self@.level(),
    {
        match self {
            Notice::NothingStaged => Level::Warn,
            Notice::NotARepository => Level::Error,
            Notice::Aborted => Level::Error,
            Notice::Fault(_) => Level::Error,
            _ => Level::Info,
        }
    }

    /// The words of the notice.
    pub fn text(&self) -> (s: String)
        ensures
            s@ == self@.text(),
    {
        match self {
            Notice::NothingStaged => String::from_str(
                "没有要提交的暂存文件。\n尝试运行 `git add` 命令来暂存一些文件。",
            ),
            Notice::NotARepository => String::from_str(
                "看起来你不在一个 Git 仓库中。\n请从 Git 仓库的根目录运行此命令，或者使用 `git init` 初始化一个新的仓库。",
            ),
            Notice::Loading => String::from_str("Loading Data..."),
            Notice::Proposal(message) => {
                let mut s = String::from_str("Proposed Commit:\n");
                s.append(RULE);
                s.append("\n");
                s.append(message.as_str());
                s.append("\n");
                s.append(RULE);
                s
            },
            Notice::Message(message) => message.clone(),
            Notice::Aborted => String::from_str("Commit aborted by user."),
            Notice::Committing => String::from_str("Committing Message..."),
            Notice::CommitOutput(output) => output.clone(),
            Notice::Fault(fault) => String::from_str(fault.text()),
        }
    }
}

/// One thing the caller is asked to do.
#[derive(Debug, Clone, PartialEq, Eq)]
pub enum Effect {
    /// Run `git` with the arguments of the query and hand back what it
    /// printed.
    RunGit(GitQuery),
    /// Tell the user.
    Report(Notice),
    /// Show that the run is waiting for the model.
    StartProgress,
    /// Stop showing it.
    StopProgress,
    /// Send the request and hand back the arguments of the function call in
    /// the first choice of the response.
    SendRequest(RequestSpec),
    /// Ask the user whether to go on; an empty answer means yes, anything
    /// but yes or no is asked again.
    AskConfirmation,
    /// Run `git commit`, feed it the message on its standard input, and hand
    /// back how it ended.
    Commit { review: bool, message: String },
    /// End the process with the status.
    Exit(u8),
}

/// The mathematical value of an [`Effect`].
pub enum EffectView {
    RunGit(GitQuery),
    Report(NoticeView),
    StartProgress,
    StopProgress,
    SendRequest(RequestView),
    AskConfirmation,
    Commit { review: bool, message: Seq<char> },
    Exit(u8),
}

impl View for Effect {
    type V = EffectView;

    open spec fn view(&self) -> EffectView {
        match *self {
            Effect::RunGit(query) => EffectView::RunGit(query),
            Effect::Report(notice) => EffectView::Report(notice@),
            Effect::StartProgress => EffectView::StartProgress,
            Effect::StopProgress => EffectView::StopProgress,
            Effect::SendRequest(request) => EffectView::SendRequest(request@),
            Effect::AskConfirmation => EffectView::AskConfirmation,
            Effect::Commit { review, message } => EffectView::Commit { review, message: message@ },
            Effect::Exit(status) => EffectView::Exit(status),
        }
    }
}

/// The kinds of effect.
pub enum Kind {
    RunGit,
    Report,
    StartProgress,
    StopProgress,
    SendRequest,
    AskConfirmation,
    Commit,
    Exit,
}

impl EffectView {
    /// The kind of the effect.
    pub open spec fn kind(self) -> Kind {
        match self {
            EffectView::RunGit(_) => Kind::RunGit,
            EffectView::Report(_) => Kind::Report,
            EffectView::StartProgress => Kind::StartProgress,
            EffectView::StopProgress => Kind::StopProgress,
            EffectView::SendRequest(_) => Kind::SendRequest,
            EffectView::AskConfirmation => Kind::AskConfirmation,
            EffectView::Commit { .. } => Kind::Commit,
            EffectView::Exit(_) => Kind::Exit,
        }
    }
}

/// Some effect among `effects` is of the kind `kind`.
pub open spec fn performs(effects: Seq<EffectView>, kind: Kind) -> bool {
    exists|i: int| 0 <= i < effects.len() && (#[trigger] effects[i]).kind() == kind
}

/// The views of a sequence of effects, in order.
pub open spec fn effects_view(effects: Seq<Effect>) -> Seq<EffectView> {
    effects.map_values(|e: Effect| e@)
}

} // verus!
