//! Core value types: supported models, message roles, messages, and the
//! typed representation of a parsed completion response.

use vstd::prelude::*;
use vstd::string::StrSliceExecFns;
use vstd::string::StringExecFns;

use crate::error::Error;

verus! {

/// Character-for-character equality of two string slices.
fn str_eq(a: &str, b: &str) -> (r: bool)
    ensures
        r == (a@ == b@),
{
    let na = a.unicode_len();
    let nb = b.unicode_len();
    if na != nb {
        return false;
    }
    let mut i: usize = 0;
    while i < na
        invariant
            na == a@.len(),
            na == b@.len(),
            i <= na,
            forall|j: int| 0 <= j < i ==> a@[j] == b@[j],
        decreases na - i,
    {
        if a.get_char(i) != b.get_char(i) {
            return false;
        }
        i = i + 1;
    }
    proof {
        assert(a@ =~= b@);
    }
    true
}

/// The closed set of supported chat models.
#[derive(Clone, Copy, Debug, PartialEq, Eq, Structural)]
pub enum ChatModel {
    GPT4o,
    GPT4oMini,
    GPT4Turbo,
}

/// The fixed wire-format identifier of each model.
pub open spec fn model_wire(m: ChatModel) -> Seq<char> {
    match m {
        ChatModel::GPT4o => "gpt-4o"@,
        ChatModel::GPT4oMini => "gpt-4o-mini"@,
        ChatModel::GPT4Turbo => "gpt-4-turbo"@,
    }
}

impl ChatModel {
    /// The wire-format identifier sent in the `model` field of a request.
    /// The mapping is a pure function of the variant: it never changes
    /// between calls.
    pub fn as_ref(&self) -> (r: &'static str)
        ensures
            r@ == model_wire(*self),
    {
        match self {
            ChatModel::GPT4o => "gpt-4o",
            ChatModel::GPT4oMini => "gpt-4o-mini",
            ChatModel::GPT4Turbo => "gpt-4-turbo",
        }
    }
}

impl Default for ChatModel {
    /// The default model of the catalog.
    fn default() -> (r: Self)
        ensures
            r == ChatModel::GPT4o,
    {
        ChatModel::GPT4o
    }
}

/// The closed set of message roles.
#[derive(Clone, Copy, Debug, PartialEq, Eq, Structural)]
pub enum Role {
    System,
    Assistant,
    User,
}

/// The fixed lowercase wire form of each role.
pub open spec fn role_wire(r: Role) -> Seq<char> {
    match r {
        Role::System => "system"@,
        Role::Assistant => "assistant"@,
        Role::User => "user"@,
    }
}

impl Role {
    /// The lowercase string this role serializes to.
    pub fn wire_str(&self) -> (r: &'static str)
        ensures
            r@ == role_wire(*self),
    {
        match self {
            Role::System => "system",
            Role::Assistant => "assistant",
            Role::User => "user",
        }
    }
}

/// The role a wire string denotes, if any.
pub open spec fn spec_role_from_wire(s: Seq<char>) -> Option<Role> {
    if s == role_wire(Role::System) {
        Some(Role::System)
    } else if s == role_wire(Role::Assistant) {
        Some(Role::Assistant)
    } else if s == role_wire(Role::User) {
        Some(Role::User)
    } else {
        None
    }
}

/// Decodes a role from its wire string; `None` for anything outside the
/// fixed vocabulary.
pub fn role_from_wire(s: &str) -> (r: Option<Role>)
    ensures
        r == spec_role_from_wire(s@),
{
    if str_eq(s, "system") {
        Some(Role::System)
    } else if str_eq(s, "assistant") {
        Some(Role::Assistant)
    } else if str_eq(s, "user") {
        Some(Role::User)
    } else {
        None
    }
}

/// One conversation message: a role together with its text content.
#[derive(Debug)]
pub struct Message {
    pub role: Role,
    pub content: String,
}

/// The mathematical model of a `Message`.
pub struct MessageView {
    pub role: Role,
    pub content: Seq<char>,
}

impl View for Message {
    type V = MessageView;

    open spec fn view(&self) -> MessageView {
        MessageView { role: self.role, content: self.content@ }
    }
}

impl DeepView for Message {
    type V = MessageView;

    open spec fn deep_view(&self) -> MessageView {
        self.view()
    }
}

/// Short spec constructor for a user message model.
pub open spec fn user_msg(content: Seq<char>) -> MessageView {
    MessageView { role: Role::User, content: content }
}

/// Short spec constructor for an assistant message model.
pub open spec fn assistant_msg(content: Seq<char>) -> MessageView {
    MessageView { role: Role::Assistant, content: content }
}

impl Message {
    /// A system message with the given content.
    pub fn system(content: &str) -> (m: Self)
        ensures
            m@ == (MessageView { role: Role::System, content: content@ }),
    {
        Message { role: Role::System, content: content.to_owned() }
    }

    /// A user message with the given content.
    pub fn user(content: &str) -> (m: Self)
        ensures
            m@ == user_msg(content@),
    {
        Message { role: Role::User, content: content.to_owned() }
    }

    /// An assistant message with the given content.
    pub fn assistant(content: &str) -> (m: Self)
        ensures
            m@ == assistant_msg(content@),
    {
        Message { role: Role::Assistant, content: content.to_owned() }
    }

    /// The message's text content.
    pub fn as_ref(&self) -> (r: &str)
        ensures
            r@ == self@.content,
    {
        self.content.as_str()
    }
}

/// Token accounting reported by the service.
#[derive(Clone, Copy, Debug, PartialEq, Eq, Structural)]
pub struct TokenUsage {
    pub prompt_tokens: u32,
    pub completion_tokens: u32,
    pub total_tokens: u32,
}

/// One candidate reply within a completion.
#[derive(Debug)]
pub struct MessageChoice {
    pub message: Message,
    pub finish_reason: String,
    pub index: u32,
}

/// The mathematical model of a `MessageChoice`.
pub struct ChoiceView {
    pub message: MessageView,
    pub finish_reason: Seq<char>,
    pub index: u32,
}

impl View for MessageChoice {
    type V = ChoiceView;

    open spec fn view(&self) -> ChoiceView {
        ChoiceView {
            message: self.message@,
            finish_reason: self.finish_reason@,
            index: self.index,
        }
    }
}

impl DeepView for MessageChoice {
    type V = ChoiceView;

    open spec fn deep_view(&self) -> ChoiceView {
        self.view()
    }
}

/// A parsed completion response: the echoed model name, token usage,
/// and the ordered candidate replies.
#[derive(Debug)]
pub struct ChatCompletion {
    pub model: String,
    pub usage: TokenUsage,
    pub message_choices: Vec<MessageChoice>,
}

/// The mathematical model of a `ChatCompletion`.
pub struct CompletionView {
    pub model: Seq<char>,
    pub usage: TokenUsage,
    pub choices: Seq<ChoiceView>,
}

impl View for ChatCompletion {
    type V = CompletionView;

    open spec fn view(&self) -> CompletionView {
        CompletionView {
            model: self.model@,
            usage: self.usage,
            choices: self.message_choices.deep_view(),
        }
    }
}

impl ChatCompletion {
    /// The authoritative single reply: the first choice's message.  A
    /// well-formed response with an empty choice list violates the
    /// protocol invariant and is rejected as an unexpected response,
    /// never silently defaulted.
    pub fn message(&self) -> (r: Result<&Message, Error>)
        ensures
            r is Err <==> self@.choices.len() == 0,
            r matches Ok(m) ==> m@ == self@.choices[0].message,
            r matches Err(e) ==> e@ is UnexpectedResponse,
    {
        if self.message_choices.len() == 0 {
            Err(Error::UnexpectedResponse(String::from_str("response carried no choices")))
        } else {
            let m = &self.message_choices[0].message;
            proof {
                assert(self.message_choices.deep_view()[0] == self.message_choices[0]@);
            }
            Ok(m)
        }
    }
}

} // verus!
