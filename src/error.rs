use vstd::prelude::*;

verus! {

/// The failures that end one invocation of the assistant.
#[derive(Debug, Clone)]
pub enum AssistantError {
    /// The named template has no file in the template directory.
    TemplateNotFound(String),
    /// Reading or writing a template failed for another reason.
    Filesystem(String),
    /// The chat request could not be assembled.
    RequestBuild(String),
}

/// The text that a user sees for an error.
pub open spec fn error_text(e: AssistantError) -> Seq<char> {
    match e {
        AssistantError::TemplateNotFound(name) => "the template "@ + name@
            + " could not be found, use 'create_template' command if you haven't created it yet"@,
        AssistantError::Filesystem(msg) => "filesystem error: "@ + msg@,
        AssistantError::RequestBuild(msg) => "could not build the request: "@ + msg@,
    }
}

impl AssistantError {
    /// Renders the error as the message shown to the user.
    pub fn message(&self) -> (r: String)
        ensures
            r@ == error_text(*self),
    {
        match self {
            AssistantError::TemplateNotFound(name) => {
                let mut s = String::from_str("the template ");
                s.append(name.as_str());
                s.append(
                    " could not be found, use 'create_template' command if you haven't created it yet",
                );
                s
            },
            AssistantError::Filesystem(msg) => {
                let mut s = String::from_str("filesystem error: ");
                s.append(msg.as_str());
                s
            },
            AssistantError::RequestBuild(msg) => {
                let mut s = String::from_str("could not build the request: ");
                s.append(msg.as_str());
                s
            },
        }
    }
}

} // verus!
