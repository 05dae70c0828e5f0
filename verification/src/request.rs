//! The one chat-completion request that asks the model for a commit.
//!
//! The request is a fixed conversation around the diff: a system
//! instruction, an assistant turn that appears to call `get_diff`, and a
//! function turn that carries the diff as the result of that call. Two
//! functions are declared, and the model is made to answer by calling
//! `commit`. Nothing ever runs `get_diff`: the turn only gives the
//! conversation a shape in which the diff is a function result.

use vstd::prelude::*;
use vstd::string::*;

verus! {

/// The author of a message.
#[derive(Debug, Clone, Copy, PartialEq, Eq, Structural)]
pub enum Role {
    System,
    User,
    Assistant,
    Function,
}

/// A call of a declared function, as it stands in an assistant message.
#[derive(Debug, Clone, PartialEq, Eq)]
pub struct FunctionCall {
    pub name: String,
    /// The arguments, as JSON text.
    pub arguments: String,
}

/// The mathematical value of a [`FunctionCall`].
pub struct FunctionCallView {
    pub name: Seq<char>,
    pub arguments: Seq<char>,
}

impl View for FunctionCall {
    type V = FunctionCallView;

    open spec fn view(&self) -> FunctionCallView {
        FunctionCallView { name: self.name@, arguments: self.arguments@ }
    }
}

/// One message of the conversation.
#[derive(Debug, Clone, PartialEq, Eq)]
pub struct Message {
    pub role: Role,
    pub content: Option<String>,
    /// For a function message, the function whose result the content is.
    pub name: Option<String>,
    pub function_call: Option<FunctionCall>,
}

/// The mathematical value of a [`Message`].
pub struct MessageView {
    pub role: Role,
    pub content: Option<Seq<char>>,
    pub name: Option<Seq<char>>,
    pub function_call: Option<FunctionCallView>,
}

/// The characters of an optional string.
pub open spec fn optional_text(text: Option<String>) -> Option<Seq<char>> {
    match text {
        Some(s) => Some(s@),
        None => None,
    }
}

impl View for Message {
    type V = MessageView;

    open spec fn view(&self) -> MessageView {
        MessageView {
            role: self.role,
            content: optional_text(self.content),
            name: optional_text(self.name),
            function_call: match self.function_call {
                Some(call) => Some(call@),
                None => None,
            },
        }
    }
}

/// A function that the model is told it may call.
#[derive(Debug, Clone, PartialEq, Eq)]
pub struct FunctionDeclaration {
    pub name: String,
    pub description: String,
    /// The JSON Schema of the parameters, as JSON text.
    pub parameters: String,
}

/// The mathematical value of a [`FunctionDeclaration`].
pub struct FunctionDeclarationView {
    pub name: Seq<char>,
    pub description: Seq<char>,
    pub parameters: Seq<char>,
}

impl View for FunctionDeclaration {
    type V = FunctionDeclarationView;

    open spec fn view(&self) -> FunctionDeclarationView {
        FunctionDeclarationView {
            name: self.name@,
            description: self.description@,
            parameters: self.parameters@,
        }
    }
}

/// A complete chat-completion request.
#[derive(Debug, Clone, PartialEq, Eq)]
pub struct RequestSpec {
    pub model: String,
    pub messages: Vec<Message>,
    pub functions: Vec<FunctionDeclaration>,
    /// The declared function that the model must call.
    pub forced_function: String,
    /// The sampling temperature, in hundredths.
    pub temperature_hundredths: u8,
    pub max_tokens: u16,
}

/// The mathematical value of a [`RequestSpec`].
pub struct RequestView {
    pub model: Seq<char>,
    pub messages: Seq<MessageView>,
    pub functions: Seq<FunctionDeclarationView>,
    pub forced_function: Seq<char>,
    pub temperature_hundredths: u8,
    pub max_tokens: u16,
}

impl View for RequestSpec {
    type V = RequestView;

    open spec fn view(&self) -> RequestView {
        RequestView {
            model: self.model@,
            messages: self.messages@.map_values(|m: Message| m@),
            functions: self.functions@.map_values(|f: FunctionDeclaration| f@),
            forced_function: self.forced_function@,
            temperature_hundredths: self.temperature_hundredths,
            max_tokens: self.max_tokens,
        }
    }
}

impl RequestView {
    /// A function called `name` is declared.
    pub open spec fn declares(self, name: Seq<char>) -> bool {
        exists|i: int| 0 <= i < self.functions.len() && (#[trigger] self.functions[i]).name == name
    }

    /// Every function that `message` speaks of is declared, and a function
    /// message says whose result it carries.
    pub open spec fn admits(self, message: MessageView) -> bool {
        &&& message.function_call matches Some(call) ==> self.declares(call.name)
        &&& message.role == Role::Function ==> message.content.is_some() && (
        message.name matches Some(name) && self.declares(name))
    }

    /// The request hangs together: the function forced on the model is
    /// declared, and so is every function that the conversation speaks of.
    pub open spec fn consistent(self) -> bool {
        &&& self.declares(self.forced_function)
        &&& forall|i: int| 0 <= i < self.messages.len() ==> self.admits(#[trigger] self.messages[i])
    }
}

/// The model that is asked.
pub const MODEL: &'static str = "gpt-3.5-turbo-16k";

/// The sampling temperature, in hundredths: low, so that the same diff
/// mostly gives the same message.
pub const TEMPERATURE_HUNDREDTHS: u8 = 10;

/// The most tokens the model may answer with.
pub const MAX_TOKENS: u16 = 2000;

/// The function that the conversation pretends was called for the diff.
pub const GET_DIFF: &'static str = "get_diff";

/// The function that the model must call with the commit.
pub const COMMIT: &'static str = "commit";

/// The instruction that fixes the model's role, tone and language.
pub const SYSTEM_PROMPT: &'static str =
    "你是一个经验丰富的程序开发人员，提交代码时会清晰准确的书写commit信息。所有的commit信息都用中文输出。";

/// What the model is told of `get_diff`.
pub const GET_DIFF_DESCRIPTION: &'static str = "返回 `git status` 的结果为字符串，并翻译为中文";

/// What the model is told of `commit`.
pub const COMMIT_DESCRIPTION: &'static str = "根据提供的描述，创建一个简洁的commit. 并用中文输出";

/// The arguments of the pretended call of `get_diff`: none.
pub const NO_ARGUMENTS: &'static str = "{}";

/// The parameter schema of `get_diff`: an object without properties.
pub const NO_PARAMETERS: &'static str = "{\"type\":\"object\",\"properties\":{}}";

/// The system instruction.
pub open spec fn system_turn() -> MessageView {
    MessageView {
        role: Role::System,
        content: Some(SYSTEM_PROMPT@),
        name: None,
        function_call: None,
    }
}

/// The assistant turn that appears to call `get_diff`.
pub open spec fn diff_call_turn() -> MessageView {
    MessageView {
        role: Role::Assistant,
        content: Some(Seq::empty()),
        name: None,
        function_call: Some(FunctionCallView { name: GET_DIFF@, arguments: NO_ARGUMENTS@ }),
    }
}

/// The function turn that carries `diff` as the result of `get_diff`.
pub open spec fn diff_result_turn(diff: Seq<char>) -> MessageView {
    MessageView {
        role: Role::Function,
        content: Some(diff),
        name: Some(GET_DIFF@),
        function_call: None,
    }
}

/// The declaration of `get_diff`.
pub open spec fn get_diff_declaration() -> FunctionDeclarationView {
    FunctionDeclarationView {
        name: GET_DIFF@,
        description: GET_DIFF_DESCRIPTION@,
        parameters: NO_PARAMETERS@,
    }
}

/// The declaration of `commit`, whose parameters follow `schema`.
pub open spec fn commit_declaration(schema: Seq<char>) -> FunctionDeclarationView {
    FunctionDeclarationView { name: COMMIT@, description: COMMIT_DESCRIPTION@, parameters: schema }
}

/// The request that asks for a commit message for `diff`, where `schema` is
/// the JSON Schema of a commit.
pub open spec fn commit_request(diff: Seq<char>, schema: Seq<char>) -> RequestView {
    RequestView {
        model: MODEL@,
        messages: seq![system_turn(), diff_call_turn(), diff_result_turn(diff)],
        functions: seq![get_diff_declaration(), commit_declaration(schema)],
        forced_function: COMMIT@,
        temperature_hundredths: TEMPERATURE_HUNDREDTHS,
        max_tokens: MAX_TOKENS,
    }
}

/// The request for any diff and schema hangs together.
pub proof fn lemma_commit_request_consistent(diff: Seq<char>, schema: Seq<char>)
    ensures
        commit_request(diff, schema).consistent(),
{
    let request = commit_request(diff, schema);
    assert(request.functions[0].name == GET_DIFF@);
    assert(request.functions[1].name == COMMIT@);
    assert(request.declares(GET_DIFF@) && request.declares(COMMIT@));
}

/// Builds the request that asks for a commit message for `diff`.
///
/// `schema` is the JSON Schema of a commit, as JSON text; it becomes the
/// parameter schema of `commit` as it is.
pub fn build_request(diff: &str, schema: &str) -> (request: RequestSpec)
    ensures
        request@ == commit_request(diff@, schema@),
        request@.consistent(),
{
    let system = Message {
        role: Role::System,
        content: Some(String::from_str(SYSTEM_PROMPT)),
        name: None,
        function_call: None,
    };
    let call = Message {
        role: Role::Assistant,
        content: Some(String::new()),
        name: None,
        function_call: Some(
            FunctionCall {
                name: String::from_str(GET_DIFF),
                arguments: String::from_str(NO_ARGUMENTS),
            },
        ),
    };
    let result = Message {
        role: Role::Function,
        content: Some(String::from_str(diff)),
        name: Some(String::from_str(GET_DIFF)),
        function_call: None,
    };
    let get_diff = FunctionDeclaration {
        name: String::from_str(GET_DIFF),
        description: String::from_str(GET_DIFF_DESCRIPTION),
        parameters: String::from_str(NO_PARAMETERS),
    };
    let commit = FunctionDeclaration {
        name: String::from_str(COMMIT),
        description: String::from_str(COMMIT_DESCRIPTION),
        parameters: String::from_str(schema),
    };
    let mut messages: Vec<Message> = Vec::new();
    messages.push(system);
    messages.push(call);
    messages.push(result);
    let mut functions: Vec<FunctionDeclaration> = Vec::new();
    functions.push(get_diff);
    functions.push(commit);
    let request = RequestSpec {
        model: String::from_str(MODEL),
        messages,
        functions,
        forced_function: String::from_str(COMMIT),
        temperature_hundredths: TEMPERATURE_HUNDREDTHS,
        max_tokens: MAX_TOKENS,
    };
    proof {
        assert(request@.messages =~= commit_request(diff@, schema@).messages);
        assert(request@.functions =~= commit_request(diff@, schema@).functions);
        lemma_commit_request_consistent(diff@, schema@);
    }
    request
}

} // verus!
