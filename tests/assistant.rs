use ai_cli_assistant::api::to_api_request;
use ai_cli_assistant::command::{Command, Step};
use ai_cli_assistant::error::AssistantError;
use ai_cli_assistant::request::{build_request, Role, CHAT_MODEL, MAX_TOKENS};
use ai_cli_assistant::stream::{render_event, render_stream, StreamEvent};
use ai_cli_assistant::template::{ReadOutcome, TemplateStore};

fn chunk(parts: &[Option<&str>]) -> StreamEvent {
    StreamEvent::Chunk(parts.iter().map(|p| p.map(|s| s.to_string())).collect())
}

#[test]
fn ask_without_template_sends_only_the_question() {
    let store = TemplateStore::new("templates");
    let cmd = Command::Ask { question: "hello".to_string(), template: None };
    match cmd.first_step(&store) {
        Step::Send(req) => {
            assert_eq!(req.messages.len(), 1);
            assert_eq!(req.messages[0].role, Role::User);
            assert_eq!(req.messages[0].content, "hello");
            assert_eq!(req.model, "gpt-3.5-turbo");
            assert_eq!(req.max_tokens, 512);
        }
        other => panic!("unexpected step {:?}", other),
    }
}

#[test]
fn ask_with_template_reads_its_file_first() {
    let store = TemplateStore::new("templates");
    let cmd = Command::Ask { question: "hello".to_string(), template: Some("foo".to_string()) };
    match cmd.first_step(&store) {
        Step::LoadTemplate { question, name, path } => {
            assert_eq!(question, "hello");
            assert_eq!(name, "foo");
            assert_eq!(path, "templates/foo.txt");
        }
        other => panic!("unexpected step {:?}", other),
    }
}

#[test]
fn ask_with_template_sends_system_then_user() {
    let store = TemplateStore::new("templates");
    let outcome = ReadOutcome::Found("You are Foo.".to_string());
    let req = Command::request_after_load(&store, "hello", "foo", outcome).unwrap();
    assert_eq!(req.messages.len(), 2);
    assert_eq!(req.messages[0].role, Role::System);
    assert_eq!(req.messages[0].content, "You are Foo.");
    assert_eq!(req.messages[1].role, Role::User);
    assert_eq!(req.messages[1].content, "hello");
    assert_eq!(req.model, CHAT_MODEL);
    assert_eq!(req.max_tokens, MAX_TOKENS);
}

#[test]
fn missing_template_is_not_found() {
    let store = TemplateStore::new("templates");
    let r = store.load_result("nope", ReadOutcome::Missing);
    match r {
        Err(AssistantError::TemplateNotFound(name)) => assert_eq!(name, "nope"),
        other => panic!("unexpected result {:?}", other),
    }
    let r = Command::request_after_load(&store, "hello", "nope", ReadOutcome::Missing);
    assert!(matches!(r, Err(AssistantError::TemplateNotFound(ref n)) if n == "nope"));
}

#[test]
fn unreadable_template_is_a_filesystem_error() {
    let store = TemplateStore::new("templates");
    let r = Command::request_after_load(
        &store,
        "hello",
        "foo",
        ReadOutcome::Failed("permission denied".to_string()),
    );
    assert!(matches!(r, Err(AssistantError::Filesystem(ref m)) if m == "permission denied"));
}

#[test]
fn save_then_load_round_trip() {
    let store = TemplateStore::new("templates");
    let content = "You are a terse assistant.\nAnswer briefly.";
    let plan = store.save_plan("terse", content);
    assert_eq!(plan.dir, "templates");
    assert_eq!(plan.path, store.path_for("terse"));
    assert_eq!(plan.content, content);
    let loaded = store.load_result("terse", ReadOutcome::Found(plan.content.clone())).unwrap();
    assert_eq!(loaded, content);
}

#[test]
fn create_template_plans_the_write_and_confirmation() {
    let store = TemplateStore::default_location();
    let cmd = Command::CreateTemplate {
        template_name: "pirate".to_string(),
        content: "Talk like a pirate.".to_string(),
    };
    match cmd.first_step(&store) {
        Step::Save { plan, message } => {
            assert_eq!(plan.dir, "templates");
            assert_eq!(plan.path, "templates/pirate.txt");
            assert_eq!(plan.content, "Talk like a pirate.");
            assert_eq!(message, "template pirate saved to templates/pirate.txt");
        }
        other => panic!("unexpected step {:?}", other),
    }
}

#[test]
fn template_path_uses_the_store_directory() {
    let store = TemplateStore::new("/home/me/.ai-cli-assistant/templates");
    assert_eq!(store.path_for("foo"), "/home/me/.ai-cli-assistant/templates/foo.txt");
    assert_eq!(TemplateStore::new("").path_for(""), "/.txt");
}

#[test]
fn three_chunks_print_without_separators() {
    let events = vec![chunk(&[Some("Hel")]), chunk(&[Some("lo, ")]), chunk(&[Some("world")])];
    let pieces: Vec<String> = events.iter().map(render_event).collect();
    assert_eq!(pieces, vec!["Hel", "lo, ", "world"]);
    assert_eq!(render_stream(&events), "Hello, world");
}

#[test]
fn transport_error_is_printed_and_stream_continues() {
    let events = vec![
        chunk(&[Some("a")]),
        StreamEvent::Failure("boom".to_string()),
        chunk(&[Some("b")]),
    ];
    assert_eq!(render_event(&events[1]), "error: boom\n");
    assert_eq!(render_stream(&events), "aerror: boom\nb");
}

#[test]
fn chunk_choices_without_text_print_nothing() {
    assert_eq!(render_event(&chunk(&[])), "");
    assert_eq!(render_event(&chunk(&[None, Some("x"), None, Some(""), Some("y")])), "xy");
    assert_eq!(render_stream(&vec![]), "");
}

#[test]
fn error_messages_name_their_cause() {
    let e = AssistantError::TemplateNotFound("foo".to_string());
    assert_eq!(
        e.message(),
        "the template foo could not be found, use 'create_template' command if you haven't created it yet"
    );
    assert_eq!(
        AssistantError::Filesystem("disk full".to_string()).message(),
        "filesystem error: disk full"
    );
    assert_eq!(
        AssistantError::RequestBuild("bad".to_string()).message(),
        "could not build the request: bad"
    );
}

#[test]
fn request_is_handed_to_the_client_builders() {
    let req = build_request("hello", Some("You are Foo."));
    let api = to_api_request(&req).unwrap();
    assert_eq!(api.model, "gpt-3.5-turbo");
    assert_eq!(api.max_tokens, Some(512));
    assert_eq!(api.messages.len(), 2);
    assert_eq!(api.messages[0].role, async_openai::types::Role::System);
    assert_eq!(api.messages[0].content, "You are Foo.");
    assert_eq!(api.messages[1].role, async_openai::types::Role::User);
    assert_eq!(api.messages[1].content, "hello");
}

#[test]
fn request_without_prompt_builds_one_client_message() {
    let req = build_request("hello", None);
    let api = to_api_request(&req).unwrap();
    assert_eq!(api.messages.len(), 1);
    assert_eq!(api.messages[0].role, async_openai::types::Role::User);
    assert_eq!(api.messages[0].content, "hello");
}
