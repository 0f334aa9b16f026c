use vstd::prelude::*;
use async_openai::error::OpenAIError;
use async_openai::types::{
    ChatCompletionRequestMessage, ChatCompletionRequestMessageArgs, CreateChatCompletionRequest,
    CreateChatCompletionRequestArgs,
};
use crate::error::AssistantError;
use crate::request::{ChatRequest, Role};

verus! {

/// async-openai's chat message, carried through opaque.
#[verifier::external_type_specification]
#[verifier::external_body]
pub struct ExChatCompletionRequestMessage(ChatCompletionRequestMessage);

/// async-openai's chat request, carried through opaque.
#[verifier::external_type_specification]
#[verifier::external_body]
pub struct ExCreateChatCompletionRequest(CreateChatCompletionRequest);

/// async-openai's error type, carried through opaque.
#[verifier::external_type_specification]
#[verifier::external_body]
pub struct ExOpenAIError(OpenAIError);

/// Relies on async-openai's `ChatCompletionRequestMessageArgs` builder
/// (`role`, `content`, `build`) to make the client's message from a role and
/// a text. The builder fills unset fields from the message's `Default` and
/// has no validator, so `build` always succeeds.
#[verifier::external_body]
fn api_message(role: Role, content: &String) -> (r: Result<ChatCompletionRequestMessage, OpenAIError>)
    ensures
        r is Ok,
{
    let api_role = match role {
        Role::System => async_openai::types::Role::System,
        Role::User => async_openai::types::Role::User,
    };
    ChatCompletionRequestMessageArgs::default().role(api_role).content(content.clone()).build()
}

/// Relies on async-openai's `CreateChatCompletionRequestArgs` builder
/// (`model`, `max_tokens`, `messages`, `build`) to make the client's request.
/// The builder fills unset fields from the request's `Default` and has no
/// validator, so `build` always succeeds.
#[verifier::external_body]
fn api_request(
    model: &String,
    max_tokens: u16,
    messages: Vec<ChatCompletionRequestMessage>,
) -> (r: Result<CreateChatCompletionRequest, OpenAIError>)
    ensures
        r is Ok,
{
    CreateChatCompletionRequestArgs::default().model(model.clone()).max_tokens(max_tokens).messages(
        messages,
    ).build()
}

/// Relies on the `Display` impl of async-openai's `OpenAIError` for the
/// error's text; nothing is assumed of the text.
#[verifier::external_body]
fn api_error_text(e: &OpenAIError) -> (r: String) {
    e.to_string()
}

/// Hands `req` to the chat client's request builders, message by message in
/// order. A well-formed request always builds; should the builders ever fail,
/// the failure would come back as `RequestBuild`.
pub fn to_api_request(req: &ChatRequest) -> (r: Result<CreateChatCompletionRequest, AssistantError>)
    ensures
        r is Ok,
{
    let mut messages: Vec<ChatCompletionRequestMessage> = Vec::new();
    let mut i: usize = 0;
    while i < req.messages.len()
        invariant
            i <= req.messages@.len(),
            messages@.len() == i,
        decreases req.messages@.len() - i,
    {
        let m = &req.messages[i];
        match api_message(m.role, &m.content) {
            Ok(api_m) => messages.push(api_m),
            Err(e) => {
                return Err(AssistantError::RequestBuild(api_error_text(&e)));
            },
        }
        i = i + 1;
    }
    match api_request(&req.model, req.max_tokens, messages) {
        Ok(api_req) => Ok(api_req),
        Err(e) => Err(AssistantError::RequestBuild(api_error_text(&e))),
    }
}

} // verus!
