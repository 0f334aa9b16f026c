use vstd::prelude::*;

verus! {

/// The model that every request is addressed to.
pub const CHAT_MODEL: &'static str = "gpt-3.5-turbo";

/// The cap on the length of every answer, in tokens.
pub const MAX_TOKENS: u16 = 512;

/// Who a chat message is from.
#[derive(Debug, Clone, Copy, PartialEq, Eq, Structural)]
pub enum Role {
    System,
    User,
}

/// One message of a chat request.
#[derive(Debug, Clone)]
pub struct ChatMessage {
    pub role: Role,
    pub content: String,
}

impl View for ChatMessage {
    type V = (Role, Seq<char>);

    open spec fn view(&self) -> (Role, Seq<char>) {
        (self.role, self.content@)
    }
}

/// A complete chat request: model, answer length cap and messages in order.
#[derive(Debug, Clone)]
pub struct ChatRequest {
    pub model: String,
    pub max_tokens: u16,
    pub messages: Vec<ChatMessage>,
}

impl ChatRequest {
    /// The messages as (role, text) pairs, in order.
    pub open spec fn messages_view(&self) -> Seq<(Role, Seq<char>)> {
        self.messages@.map_values(|m: ChatMessage| m@)
    }
}

/// The messages sent for `question`: the system prompt first where there is
/// one, then the question from the user.
pub open spec fn messages_for(question: Seq<char>, system_prompt: Option<Seq<char>>) -> Seq<
    (Role, Seq<char>),
> {
    match system_prompt {
        Some(p) => seq![(Role::System, p), (Role::User, question)],
        None => seq![(Role::User, question)],
    }
}

/// The text of an optional string.
pub open spec fn opt_text(s: Option<&str>) -> Option<Seq<char>> {
    match s {
        Some(t) => Some(t@),
        None => None,
    }
}

/// Whether `r` is the request that asks `question` under `system_prompt`.
pub open spec fn is_request_for(
    r: ChatRequest,
    question: Seq<char>,
    system_prompt: Option<Seq<char>>,
) -> bool {
    &&& r.model@ == CHAT_MODEL@
    &&& r.max_tokens == MAX_TOKENS
    &&& r.messages_view() == messages_for(question, system_prompt)
}

/// Builds the request that asks `question`, preceded by `system_prompt` as a
/// system message where one is given.
pub fn build_request(question: &str, system_prompt: Option<&str>) -> (r: ChatRequest)
    ensures
        is_request_for(r, question@, opt_text(system_prompt)),
{
    let mut messages: Vec<ChatMessage> = Vec::new();
    match system_prompt {
        Some(p) => {
            messages.push(ChatMessage { role: Role::System, content: String::from_str(p) });
        },
        None => {},
    }
    messages.push(ChatMessage { role: Role::User, content: String::from_str(question) });
    let r = ChatRequest { model: String::from_str(CHAT_MODEL), max_tokens: MAX_TOKENS, messages };
    assert(r.messages_view() =~= messages_for(question@, opt_text(system_prompt)));
    r
}

} // verus!
