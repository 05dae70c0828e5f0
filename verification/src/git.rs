//! What is asked of `git`, and how its answers are read.

use crate::text::{trim, trimmed_equals};
use vstd::prelude::*;

verus! {

/// The program that is run.
pub const GIT: &'static str = "git";

/// What `git rev-parse --is-inside-work-tree` prints inside a working tree.
pub const INSIDE: &'static str = "true";

/// A question put to `git`, answered on its standard output.
#[derive(Debug, Clone, Copy, PartialEq, Eq, Structural)]
pub enum GitQuery {
    /// The changes staged for the next commit.
    StagedDiff,
    /// Whether the current directory lies inside a working tree.
    InsideWorkTree,
    /// All changes against `HEAD`, staged or not.
    HeadDiff,
}

/// The characters of each string of a sequence.
pub open spec fn texts(words: Seq<&'static str>) -> Seq<Seq<char>> {
    words.map_values(|w: &'static str| w@)
}

impl GitQuery {
    /// The arguments that `git` is run with.
    pub open spec fn arguments_spec(self) -> Seq<Seq<char>> {
        match self {
            GitQuery::StagedDiff => seq!["diff"@, "--staged"@],
            GitQuery::InsideWorkTree => seq!["rev-parse"@, "--is-inside-work-tree"@],
            GitQuery::HeadDiff => seq!["diff"@, "HEAD"@],
        }
    }

    /// The arguments that `git` is run with.
    pub fn arguments(self) -> (args: Vec<&'static str>)
        ensures
            texts(args@) == self.arguments_spec(),
    {
        let mut args: Vec<&'static str> = Vec::new();
        match self {
            GitQuery::StagedDiff => {
                args.push("diff");
                args.push("--staged");
            },
            GitQuery::InsideWorkTree => {
                args.push("rev-parse");
                args.push("--is-inside-work-tree");
            },
            GitQuery::HeadDiff => {
                args.push("diff");
                args.push("HEAD");
            },
        }
        args
    }
}

/// The arguments of the `git commit` that reads the message from its
/// standard input; with `review`, `git` opens the message in an editor first.
pub open spec fn commit_arguments_spec(review: bool) -> Seq<Seq<char>> {
    if review {
        seq!["commit"@, "-e"@, "-F"@, "-"@]
    } else {
        seq!["commit"@, "-F"@, "-"@]
    }
}

/// The arguments of the `git commit` that reads the message from its
/// standard input.
pub fn commit_arguments(review: bool) -> (args: Vec<&'static str>)
    ensures
        texts(args@) == commit_arguments_spec(review),
{
    let mut args: Vec<&'static str> = Vec::new();
    args.push("commit");
    if review {
        args.push("-e");
    }
    args.push("-F");
    args.push("-");
    args
}

/// Whether `reply`, the output of the `InsideWorkTree` query, says that the
/// current directory lies inside a working tree.
pub open spec fn confirms_work_tree(reply: Seq<char>) -> bool {
    trim(reply) == INSIDE@
}

/// Reads the output of the `InsideWorkTree` query.
pub fn inside_work_tree(reply: &str) -> (inside: bool)
    ensures
        inside == confirms_work_tree(reply@),
{
    trimmed_equals(reply, INSIDE)
}

} // verus!
