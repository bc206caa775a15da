use intus::app::{Action, App, Continuation, Effect, Environment, KeyCode, KeyInput, Mode};
use intus::config::Config;
use intus::ollama::ChatMessage;
use intus::session::{session_name_from_reply, sort_names, str_le};
use intus::update::update_allowed;

fn env() -> Environment {
    Environment {
        system_context: String::new(),
        input_lines: vec![],
        system_prompt_lines: vec![],
        session_lines: vec![],
        pull_lines: vec![],
        tools: vec![],
    }
}

fn new_app() -> App {
    App::new(&Config::new_test_config(), false).0
}

fn key(code: KeyCode) -> KeyInput {
    KeyInput { code, ctrl: false, shift: false, alt: false }
}

#[test]
fn new_app_opens_the_default_session() {
    let (_, effects) = App::new(&Config::new_test_config(), true);
    assert_eq!(effects, vec![Effect::MigrateLegacyHistory, Effect::LoadSession("default".to_string())]);
}

#[test]
fn listed_sessions_are_sorted() {
    let mut app = new_app();
    app.on_sessions_listed(Some(vec!["b".to_string(), "a".to_string(), "ab".to_string()]));
    assert_eq!(app.available_sessions, vec!["a".to_string(), "ab".to_string(), "b".to_string()]);
    app.on_sessions_listed(Some(vec![]));
    assert_eq!(app.available_sessions, vec!["default".to_string()]);
    app.on_sessions_listed(None);
    assert_eq!(app.available_sessions, vec!["default".to_string()]);
}

#[test]
fn sorting_uses_code_point_order() {
    assert_eq!(
        sort_names(vec!["é".to_string(), "z".to_string(), "Z".to_string()]),
        vec!["Z".to_string(), "z".to_string(), "é".to_string()]
    );
    assert!(str_le("abc", "abd"));
    assert!(str_le("ab", "abc"));
    assert!(!str_le("b", "a"));
}

#[test]
fn session_select_highlights_the_current_session() {
    let e = env();
    let mut app = new_app();
    let effects = app.update(Action::EnterSessionSelect, &e).1;
    assert_eq!(effects, vec![Effect::ListSessions, Effect::Resume(Continuation::SelectCurrentSession)]);
    app.on_sessions_listed(Some(vec!["work".to_string(), "default".to_string()]));
    app.resume(Continuation::SelectCurrentSession);
    assert_eq!(app.session_selected, Some(0));
    app.current_session = "work".to_string();
    app.resume(Continuation::SelectCurrentSession);
    assert_eq!(app.session_selected, Some(1));
}

#[test]
fn session_highlight_wraps() {
    let e = env();
    let mut app = new_app();
    app.mode = Mode::SessionSelect;
    app.available_sessions = vec!["a".to_string(), "b".to_string()];
    app.session_selected = Some(0);
    let up = Action::UserInput(key(KeyCode::Up));
    assert!(update_allowed(&app, &up, &e));
    app.update(up, &e);
    assert_eq!(app.session_selected, Some(1));
    app.update(Action::UserInput(key(KeyCode::Down)), &e);
    assert_eq!(app.session_selected, Some(0));
    app.available_sessions = vec![];
    assert!(!update_allowed(&app, &Action::UserInput(key(KeyCode::Up)), &e));
}

#[test]
fn created_session_names_are_made_safe() {
    let e = env();
    let mut app = new_app();
    let effects = app.update(Action::CreateSession("  my new/chat ".to_string()), &e).1;
    assert_eq!(effects, vec![Effect::LoadSession("my_new_chat".to_string()), Effect::SaveSession]);
    assert_eq!(app.mode, Mode::Insert);
    let effects = app.update(Action::CreateSession("   ".to_string()), &e).1;
    assert!(effects.is_empty());
}

#[test]
fn loaded_session_replaces_the_conversation() {
    let mut app = new_app();
    app.vertical_scroll = 3;
    let ms = vec![ChatMessage {
        role: "user".to_string(),
        content: "12345678".to_string(),
        images: None,
        tool_calls: None,
        tool_name: None,
    }];
    app.on_session_loaded("work".to_string(), Some(ms));
    assert_eq!(app.current_session, "work");
    assert_eq!(app.messages.len(), 1);
    assert_eq!(app.vertical_scroll, 0);
    assert_eq!(app.current_token_usage, 6);
    app.on_session_loaded("empty".to_string(), None);
    assert!(app.messages.is_empty());
}

#[test]
fn deleting_the_current_session_opens_the_first() {
    let e = env();
    let mut app = new_app();
    let effects = app.update(Action::DeleteSession("default".to_string()), &e).1;
    assert_eq!(effects[0], Effect::RemoveSessionFile("default".to_string()));
    app.on_sessions_listed(Some(vec!["other".to_string()]));
    let effects = app.resume(Continuation::FinishDeleteSession("default".to_string()));
    assert_eq!(
        effects,
        vec![Effect::LoadSession("other".to_string()), Effect::Resume(Continuation::ClampSessionSelection)]
    );
    app.session_selected = Some(5);
    app.resume(Continuation::ClampSessionSelection);
    assert_eq!(app.session_selected, Some(0));
}

#[test]
fn names_from_replies_are_cleaned() {
    assert_eq!(session_name_from_reply("  \"Rust async tips\"\n"), Some("Rust_async_tips".to_string()));
    assert_eq!(session_name_from_reply("'`!!'"), None);
    let long = "a".repeat(80);
    assert_eq!(session_name_from_reply(&long), Some("a".repeat(50)));
}

#[test]
fn renamed_session_is_announced() {
    let mut app = new_app();
    let effects = app.on_session_renamed(Some("new_name".to_string()));
    assert_eq!(app.current_session, "new_name");
    assert_eq!(app.notification.as_deref(), Some("Renamed session to: new_name"));
    assert_eq!(effects, vec![Effect::StampNotification, Effect::ListSessions]);
    app.on_session_renamed(None);
    assert_eq!(app.error.as_deref(), Some("Failed to rename session file"));
}

#[test]
fn auto_naming_after_first_exchange() {
    let e = env();
    let mut config = Config::new_test_config();
    config.enable_session_autonaming = true;
    let mut app = App::new(&config, false).0;
    app.models = vec!["m".to_string()];
    app.messages.push(ChatMessage {
        role: "user".to_string(),
        content: "hi".to_string(),
        images: None,
        tool_calls: None,
        tool_name: None,
    });
    let effects = app.update(Action::AiResponseComplete, &e).1;
    assert_eq!(effects, vec![Effect::SaveSession, Effect::Send(Action::TriggerAutoNaming)]);
    let effects = app.update(Action::TriggerAutoNaming, &e).1;
    match &effects[0] {
        Effect::StartAutoNaming { model, messages } => {
            assert_eq!(model, "m");
            assert_eq!(messages.len(), 2);
            assert_eq!(messages[1].role, "user");
            assert!(messages[1].content.starts_with("Summarize the above conversation"));
        }
        other => panic!("unexpected {:?}", other),
    }
}

#[test]
fn pull_progress_and_done() {
    let e = env();
    let mut app = new_app();
    let effects = app.update(Action::StartPullModel("llama3".to_string()), &e).1;
    assert_eq!(effects, vec![Effect::PullModel("llama3".to_string())]);
    assert!(app.loading);
    assert_eq!(app.pull_progress, Some(("Starting download...".to_string(), None, None)));
    app.update(Action::PullProgress("pulling".to_string(), Some(1), Some(2)), &e);
    assert_eq!(app.pull_progress, Some(("pulling".to_string(), Some(1), Some(2))));
    app.update(Action::PullProgress("Done".to_string(), None, None), &e);
    assert_eq!(app.pull_progress, None);
    assert!(!app.loading);
    assert!(app.update(Action::StartPullModel("  ".to_string()), &e).1.is_empty());
}

#[test]
fn model_list_keys() {
    let e = env();
    let mut app = new_app();
    app.mode = Mode::ModelSelect;
    app.models = vec!["a".to_string(), "b".to_string()];
    app.update(Action::UserInput(key(KeyCode::Down)), &e);
    assert_eq!(app.selected_model, 1);
    app.update(Action::UserInput(key(KeyCode::Down)), &e);
    assert_eq!(app.selected_model, 1);
    let effects = app.update(Action::UserInput(key(KeyCode::Char('d'))), &e).1;
    assert_eq!(effects, vec![Effect::Send(Action::DeleteModel("b".to_string()))]);
    app.update(Action::UserInput(key(KeyCode::Up)), &e);
    assert_eq!(app.selected_model, 0);
}

#[test]
fn session_names_cannot_leave_the_directory() {
    let e = env();
    let mut app = new_app();
    let effects = app.update(Action::CreateSession(" ../etc ".to_string()), &e).1;
    assert_eq!(effects, vec![Effect::LoadSession("___etc".to_string()), Effect::SaveSession]);
    let effects = app.update(Action::CreateSession("naïve-été_2".to_string()), &e).1;
    assert_eq!(effects, vec![Effect::LoadSession("naïve-été_2".to_string()), Effect::SaveSession]);
}
