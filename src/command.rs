use vstd::prelude::*;
use crate::error::AssistantError;
use crate::request::{build_request, is_request_for, ChatRequest};
use crate::template::{template_path, ReadOutcome, SavePlan, TemplateStore};

verus! {

/// What the user asked the assistant to do.
#[derive(Debug, Clone)]
pub enum Command {
    /// Store `content` as the template called `template_name`.
    CreateTemplate { template_name: String, content: String },
    /// Ask `question`, under the named template's system prompt if one is given.
    Ask { question: String, template: Option<String> },
}

/// The first piece of outside work that a command needs.
#[derive(Debug, Clone)]
pub enum Step {
    /// Read the file at `path`, which holds template `name`; then build the
    /// request for `question` with `Command::request_after_load`.
    LoadTemplate { question: String, name: String, path: String },
    /// Send this request and print its streamed answer.
    Send(ChatRequest),
    /// Carry out these writes, then print `message`.
    Save { plan: SavePlan, message: String },
}

impl Command {
    /// Decides what to do first for this command.
    pub fn first_step(&self, store: &TemplateStore) -> (r: Step)
        ensures
            match *self {
                Command::Ask { question, template: None } => r is Send && is_request_for(
                    r->Send_0,
                    question@,
                    None,
                ),
                Command::Ask { question, template: Some(name) } => r is LoadTemplate
                    && r->LoadTemplate_question@ == question@ && r->LoadTemplate_name@ == name@ && r->LoadTemplate_path@ == template_path(
                    store.dir@,
                    name@,
                ),
                Command::CreateTemplate { template_name, content } => r is Save
                    && r->Save_plan.dir@ == store.dir@ && r->Save_plan.path@ == template_path(
                    store.dir@,
                    template_name@,
                ) && r->Save_plan.content@ == content@ && r->Save_message@ == "template "@
                    + template_name@ + " saved to "@ + template_path(store.dir@, template_name@),
            },
    {
        match self {
            Command::Ask { question, template: None } => Step::Send(
                build_request(question.as_str(), None),
            ),
            Command::Ask { question, template: Some(name) } => Step::LoadTemplate {
                question: question.clone(),
                name: name.clone(),
                path: store.path_for(name.as_str()),
            },
            Command::CreateTemplate { template_name, content } => Step::Save {
                plan: store.save_plan(template_name.as_str(), content.as_str()),
                message: store.saved_message(template_name.as_str()),
            },
        }
    }

    /// Builds the request for `question` once reading template `name` ended
    /// in `outcome`: the template's text becomes the system prompt.
    pub fn request_after_load(
        store: &TemplateStore,
        question: &str,
        name: &str,
        outcome: ReadOutcome,
    ) -> (r: Result<ChatRequest, AssistantError>)
        ensures
            match outcome {
                ReadOutcome::Found(text) => r is Ok && is_request_for(
                    r->Ok_0,
                    question@,
                    Some(text@),
                ),
                ReadOutcome::Missing => r is Err && r->Err_0 is TemplateNotFound
                    && r->Err_0->TemplateNotFound_0@ == name@,
                ReadOutcome::Failed(msg) => r is Err && r->Err_0 is Filesystem
                    && r->Err_0->Filesystem_0@ == msg@,
            },
    {
        match store.load_result(name, outcome) {
            Ok(prompt) => Ok(build_request(question, Some(prompt.as_str()))),
            Err(e) => Err(e),
        }
    }
}

} // verus!
