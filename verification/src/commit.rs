//! The commit message proposed by the model, and how it is read from the
//! arguments of the model's function call.

use crate::json::{find_member, json_object_members, lookup, members_view, read_object};
use crate::json::{JsonValue, JsonValueView, Member, MemberView};
use vstd::prelude::*;
use vstd::string::*;

verus! {

/// A proposed commit: a short summary line and an exhaustive explanation.
#[derive(Debug, Clone, PartialEq, Eq)]
pub struct Commit {
    /// The title of the commit.
    pub title: String,
    /// An exhaustive description of the changes.
    pub description: String,
}

/// The mathematical value of a [`Commit`].
pub struct CommitView {
    pub title: Seq<char>,
    pub description: Seq<char>,
}

impl CommitView {
    /// The text handed to `git commit`: the title, an empty line, the
    /// description.
    pub open spec fn message(self) -> Seq<char> {
        self.title + "\n\n"@ + self.description
    }
}

impl View for Commit {
    type V = CommitView;

    open spec fn view(&self) -> CommitView {
        CommitView { title: self.title@, description: self.description@ }
    }
}

/// A field of a [`Commit`].
#[derive(Debug, Clone, Copy, PartialEq, Eq, Structural)]
pub enum Field {
    Title,
    Description,
}

impl Field {
    /// The key under which the field stands in the model's arguments.
    pub open spec fn key(self) -> Seq<char> {
        match self {
            Field::Title => "title"@,
            Field::Description => "description"@,
        }
    }

    /// The key under which the field stands in the model's arguments.
    pub fn name(self) -> (s: &'static str)
        ensures
            s@ == self.key(),
    {
        match self {
            Field::Title => "title",
            Field::Description => "description",
        }
    }
}

/// Why a response of the model yields no commit.
#[derive(Debug, Clone, Copy, PartialEq, Eq, Structural)]
pub enum ParseError {
    /// The response holds no function call.
    MissingFunctionCall,
    /// The arguments do not read as one JSON object.
    NotAnObject,
    /// The object has no member for the field.
    MissingField(Field),
    /// The member for the field is not a JSON string.
    NotText(Field),
}

/// The text of `field` among `members`.
pub open spec fn text_field(members: Seq<MemberView>, field: Field) -> Result<
    Seq<char>,
    ParseError,
> {
    match find_member(members, field.key()) {
        None => Err(ParseError::MissingField(field)),
        Some(JsonValueView::Text(s)) => Ok(s),
        Some(_) => Err(ParseError::NotText(field)),
    }
}

/// The commit that the members of a JSON object describe. The title is
/// looked at first.
pub open spec fn commit_of_members(members: Seq<MemberView>) -> Result<CommitView, ParseError> {
    match text_field(members, Field::Title) {
        Err(e) => Err(e),
        Ok(title) => match text_field(members, Field::Description) {
            Err(e) => Err(e),
            Ok(description) => Ok(CommitView { title, description }),
        },
    }
}

/// The commit that the arguments of a function call describe.
pub open spec fn commit_of_arguments(raw: Seq<char>) -> Result<CommitView, ParseError> {
    match json_object_members(raw) {
        None => Err(ParseError::NotAnObject),
        Some(members) => commit_of_members(members),
    }
}

/// The commit that a response describes, given the arguments of its
/// function call, if it has one.
pub open spec fn commit_of_response(arguments: Option<Seq<char>>) -> Result<
    CommitView,
    ParseError,
> {
    match arguments {
        None => Err(ParseError::MissingFunctionCall),
        Some(raw) => commit_of_arguments(raw),
    }
}

/// The mathematical value of a parse result.
pub open spec fn parsed_view(r: Result<Commit, ParseError>) -> Result<CommitView, ParseError> {
    match r {
        Ok(commit) => Ok(commit@),
        Err(e) => Err(e),
    }
}

/// Reads the text of `field` from `members`.
fn read_field(members: &Vec<Member>, field: Field) -> (r: Result<String, ParseError>)
    ensures
        match r {
            Ok(s) => text_field(members_view(members@), field) == Ok::<Seq<char>, ParseError>(s@),
            Err(e) => text_field(members_view(members@), field) == Err::<Seq<char>, ParseError>(
                e,
            ),
        },
{
    match lookup(members, field.name()) {
        None => Err(ParseError::MissingField(field)),
        Some(JsonValue::Text(s)) => Ok(s.clone()),
        Some(_) => Err(ParseError::NotText(field)),
    }
}

impl Commit {
    /// The text handed to `git commit`.
    pub fn to_string(&self) -> (s: String)
        ensures
            s@ == self@.message(),
            s@ == self.title@ + "\n\n"@ + self.description@,
    {
        let mut s = self.title.clone();
        s.append("\n\n");
        s.append(self.description.as_str());
        s
    }

    /// Builds the commit that the members of a JSON object describe: both
    /// fields must be there, each as a JSON string.
    pub fn from_members(members: &Vec<Member>) -> (r: Result<Commit, ParseError>)
        ensures
            parsed_view(r) == commit_of_members(members_view(members@)),
    {
        let title = match read_field(members, Field::Title) {
            Ok(s) => s,
            Err(e) => { return Err(e); },
        };
        let description = match read_field(members, Field::Description) {
            Ok(s) => s,
            Err(e) => { return Err(e); },
        };
        Ok(Commit { title, description })
    }

    /// Reads a commit from the arguments of the model's function call.
    ///
    /// Fails, and yields no commit at all, unless the arguments are the text
    /// of a JSON object whose `title` and `description` are strings.
    pub fn parse(raw: &str) -> (r: Result<Commit, ParseError>)
        ensures
            parsed_view(r) == commit_of_arguments(raw@),
    {
        match read_object(raw) {
            Ok(members) => Commit::from_members(&members),
            Err(_) => Err(ParseError::NotAnObject),
        }
    }

    /// Reads a commit from a response, given the arguments of its function
    /// call, if it has one.
    pub fn from_response(arguments: Option<&str>) -> (r: Result<Commit, ParseError>)
        ensures
            parsed_view(r) == commit_of_response(
                match arguments {
                    Some(raw) => Some(raw@),
                    None => None,
                },
            ),
    {
        match arguments {
            None => Err(ParseError::MissingFunctionCall),
            Some(raw) => Commit::parse(raw),
        }
    }
}

} // verus!
