use vstd::prelude::*;
use crate::error::AssistantError;

verus! {

/// The directory that templates live in unless another one is chosen.
pub const DEFAULT_TEMPLATE_DIR: &'static str = "templates";

/// The path of the file that holds template `name` under directory `dir`.
pub open spec fn template_path(dir: Seq<char>, name: Seq<char>) -> Seq<char> {
    dir + "/"@ + name + ".txt"@
}

/// What reading a template file gave.
#[derive(Debug, Clone)]
pub enum ReadOutcome {
    /// The file exists and holds this text.
    Found(String),
    /// No file exists at the template's path.
    Missing,
    /// The file could not be read; the text describes why.
    Failed(String),
}

/// The file writes that saving a template consists of.
#[derive(Debug, Clone)]
pub struct SavePlan {
    /// The directory to create, with all missing parents.
    pub dir: String,
    /// The file to write, replacing what it held.
    pub path: String,
    /// The exact text to write.
    pub content: String,
}

/// Where templates are stored: one file `<dir>/<name>.txt` per template.
#[derive(Debug, Clone)]
pub struct TemplateStore {
    pub dir: String,
}

/// Whether `r` is what loading template `name` gives when its read ended in `outcome`.
pub open spec fn is_load_result(
    name: Seq<char>,
    outcome: ReadOutcome,
    r: Result<String, AssistantError>,
) -> bool {
    match outcome {
        ReadOutcome::Found(text) => r is Ok && r->Ok_0@ == text@,
        ReadOutcome::Missing => r is Err && r->Err_0 is TemplateNotFound
            && r->Err_0->TemplateNotFound_0@ == name,
        ReadOutcome::Failed(msg) => r is Err && r->Err_0 is Filesystem
            && r->Err_0->Filesystem_0@ == msg@,
    }
}

impl TemplateStore {
    /// A store rooted at `dir`.
    pub fn new(dir: &str) -> (r: TemplateStore)
        ensures
            r.dir@ == dir@,
    {
        TemplateStore { dir: String::from_str(dir) }
    }

    /// The store rooted at the default directory.
    pub fn default_location() -> (r: TemplateStore)
        ensures
            r.dir@ == DEFAULT_TEMPLATE_DIR@,
    {
        TemplateStore::new(DEFAULT_TEMPLATE_DIR)
    }

    /// The path of the file for template `name`.
    pub fn path_for(&self, name: &str) -> (r: String)
        ensures
            r@ == template_path(self.dir@, name@),
    {
        let mut path = self.dir.clone();
        path.append("/");
        path.append(name);
        path.append(".txt");
        path
    }

    /// Turns the outcome of reading template `name` into its text or an error.
    pub fn load_result(&self, name: &str, outcome: ReadOutcome) -> (r: Result<String, AssistantError>)
        ensures
            is_load_result(name@, outcome, r),
    {
        match outcome {
            ReadOutcome::Found(text) => Ok(text),
            ReadOutcome::Missing => Err(AssistantError::TemplateNotFound(String::from_str(name))),
            ReadOutcome::Failed(msg) => Err(AssistantError::Filesystem(msg)),
        }
    }

    /// The writes that store `content` as template `name`.
    pub fn save_plan(&self, name: &str, content: &str) -> (r: SavePlan)
        ensures
            r.dir@ == self.dir@,
            r.path@ == template_path(self.dir@, name@),
            r.content@ == content@,
    {
        SavePlan { dir: self.dir.clone(), path: self.path_for(name), content: String::from_str(content) }
    }

    /// The confirmation printed once template `name` is saved.
    pub fn saved_message(&self, name: &str) -> (r: String)
        ensures
            r@ == "template "@ + name@ + " saved to "@ + template_path(self.dir@, name@),
    {
        let mut s = String::from_str("template ");
        s.append(name);
        s.append(" saved to ");
        let path = self.path_for(name);
        s.append(path.as_str());
        s
    }
}

/// Saving `content` as template `name` and then loading `name` gives back
/// `content` exactly: the save writes `content` verbatim to the one file that
/// a load of `name` reads, and whatever text that file yields is returned
/// unchanged.
pub proof fn lemma_saved_template_loads_back(
    store: TemplateStore,
    name: Seq<char>,
    content: Seq<char>,
    plan: SavePlan,
    read: String,
    loaded: Result<String, AssistantError>,
)
    requires
        plan.path@ == template_path(store.dir@, name),
        plan.content@ == content,
        read@ == plan.content@,
        is_load_result(name, ReadOutcome::Found(read), loaded),
    ensures
        loaded is Ok,
        loaded->Ok_0@ == content,
{
}

/// Loading a template whose file is absent fails with `TemplateNotFound`
/// naming that template.
pub proof fn lemma_missing_template_not_found(name: Seq<char>, loaded: Result<String, AssistantError>)
    requires
        is_load_result(name, ReadOutcome::Missing, loaded),
    ensures
        loaded is Err,
        loaded->Err_0 is TemplateNotFound,
        loaded->Err_0->TemplateNotFound_0@ == name,
{
}

} // verus!
