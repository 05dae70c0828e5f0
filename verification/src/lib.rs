//! Commit messages composed by a language model from the changes in a git
//! working tree.
//!
//! The crate holds the rules of the tool and none of its input or output.
//! A run is a state machine ([`pipeline`]): it says what is to be done next
//! (an [`effect::Effect`]), the caller does it and hands back what came of
//! it (a [`pipeline::Event`]). What the machine decides on the way:
//!
//! - how `git` is asked and how its answers are read ([`git`], [`text`]);
//! - the one request that is sent to the model ([`request`]);
//! - how the model's answer becomes a commit, or no commit at all
//!   ([`commit`], [`json`]);
//! - whether the message is printed, put to the user, or committed.
//!
//! [`laws`] states what holds of every run: no request outside a working
//! tree, no commit without a response that holds one, no commit in a dry
//! run, no question under `force`.

pub mod commit;
pub mod config;
pub mod effect;
pub mod git;
pub mod json;
pub mod laws;
pub mod pipeline;
pub mod request;
pub mod text;
