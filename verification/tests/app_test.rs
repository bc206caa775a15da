use intus::app::{Action, App, Editor, Effect, Environment, KeyCode, KeyInput, Mode, ToolInfo};
use intus::chat::CopyResult;
use intus::config::Config;
use intus::ollama::{ChatMessage, ToolCall, ToolCallFunction};
use intus::update::update_allowed;

fn env() -> Environment {
    Environment {
        system_context: "ctx".to_string(),
        input_lines: vec![],
        system_prompt_lines: vec![],
        session_lines: vec![],
        pull_lines: vec![],
        tools: vec![
            ToolInfo { name: "find_files".to_string(), requires_confirmation: false },
            ToolInfo { name: "list_directory".to_string(), requires_confirmation: false },
            ToolInfo { name: "write_file".to_string(), requires_confirmation: true },
        ],
    }
}

fn new_app() -> App {
    App::new(&Config::new_test_config(), false).0
}

fn key(code: KeyCode) -> KeyInput {
    KeyInput { code, ctrl: false, shift: false, alt: false }
}

fn ctrl(c: char) -> KeyInput {
    KeyInput { code: KeyCode::Char(c), ctrl: true, shift: false, alt: false }
}

/// Runs an event the way the program does: checked first, then handled.
fn run(app: &mut App, action: Action, e: &Environment) -> Vec<Effect> {
    assert!(update_allowed(app, &action, e));
    app.update(action, e).1
}

fn message(role: &str, content: &str) -> ChatMessage {
    ChatMessage {
        role: role.to_string(),
        content: content.to_string(),
        images: None,
        tool_calls: None,
        tool_name: None,
    }
}

fn call(name: &str) -> ToolCall {
    ToolCall { function: ToolCallFunction { name: name.to_string(), arguments: "{}".to_string() } }
}

#[test]
fn test_app_initialization() {
    let app = new_app();
    assert!(app.messages.is_empty());
    assert_eq!(app.mode, Mode::Insert);
    assert_eq!(app.system_prompt, "You are helpful");
}

#[test]
fn test_add_user_message() {
    let e = env();
    let mut app = new_app();
    app.models = vec!["test-model".to_string()];
    let effects = run(&mut app, Action::AddUserMessage("Hello".to_string()), &e);
    assert_eq!(app.messages.len(), 1);
    assert_eq!(app.messages[0].role, "user");
    assert_eq!(app.messages[0].content, "Hello");
    assert!(app.loading);
    assert_eq!(effects, vec![Effect::SaveSession, Effect::Send(Action::RequestAiResponse)]);

    run(&mut app, Action::RequestAiResponse, &e);
    assert_eq!(app.messages.len(), 2);
    assert_eq!(app.messages[1].role, "assistant");
}

#[test]
fn test_models_loaded() {
    let e = env();
    let mut app = new_app();
    let models = vec!["model1".to_string(), "model2".to_string()];
    let effects = run(&mut app, Action::ModelsLoaded(models.clone()), &e);
    assert_eq!(app.models, models);
    assert!(!app.loading);
    assert_eq!(effects, vec![Effect::FetchModelInfo("model1".to_string())]);
}

#[test]
fn test_user_typing() {
    let e = env();
    let mut app = new_app();
    let effects = run(&mut app, Action::UserInput(key(KeyCode::Char('a'))), &e);
    assert_eq!(effects, vec![Effect::ForwardKey(Editor::Input)]);
}

#[test]
fn test_scroll_logic() {
    let e = env();
    let mut app = new_app();
    app.vertical_scroll = 10;
    run(&mut app, Action::Scroll(-1), &e);
    assert_eq!(app.vertical_scroll, 9);
    run(&mut app, Action::Scroll(1), &e);
    assert_eq!(app.vertical_scroll, 10);
}

#[test]
fn test_error_handling() {
    let e = env();
    let mut app = new_app();
    run(&mut app, Action::Error("Connection failed".to_string()), &e);
    assert_eq!(app.error, Some("Connection failed".to_string()));
    assert!(!app.loading);
}

#[test]
fn test_model_select_toggle() {
    let e = env();
    let mut app = new_app();
    run(&mut app, Action::EnterModelSelect, &e);
    assert_eq!(app.mode, Mode::ModelSelect);
    let effects = run(&mut app, Action::UserInput(key(KeyCode::Esc)), &e);
    assert_eq!(effects, vec![Effect::Send(Action::SwitchMode(Mode::Insert))]);
}

#[test]
fn test_help_menu_toggle() {
    let e = env();
    let mut app = new_app();
    run(&mut app, Action::UserInput(key(KeyCode::F(1))), &e);
    assert!(app.show_help);
    run(&mut app, Action::UserInput(key(KeyCode::Esc)), &e);
    assert!(!app.show_help);
    run(&mut app, Action::UserInput(key(KeyCode::F(1))), &e);
    assert!(app.show_help);
    run(&mut app, Action::UserInput(key(KeyCode::Char('q'))), &e);
    assert!(!app.show_help);
    run(&mut app, Action::UserInput(key(KeyCode::F(1))), &e);
    assert!(app.show_help);
    run(&mut app, Action::UserInput(key(KeyCode::F(1))), &e);
    assert!(!app.show_help);
}

#[test]
fn test_loading_stays_true_during_stream() {
    let e = env();
    let mut app = new_app();
    app.models = vec!["test".to_string()];
    run(&mut app, Action::AddUserMessage("Hello".to_string()), &e);
    assert!(app.loading);
    run(&mut app, Action::RequestAiResponse, &e);
    run(&mut app, Action::AddAiToken("H".to_string()), &e);
    assert!(app.loading);
    assert_eq!(app.messages[1].content, "H");
    run(&mut app, Action::AiResponseComplete, &e);
    assert!(!app.loading);
}

#[test]
fn test_ctrl_o_enters_model_select() {
    let e = env();
    let mut app = new_app();
    let effects = run(&mut app, Action::UserInput(ctrl('o')), &e);
    assert_eq!(effects, vec![Effect::Send(Action::EnterModelSelect)]);
}

#[test]
fn test_add_tool_call() {
    let e = env();
    let mut app = new_app();
    app.messages.push(message("assistant", "Searching..."));
    let effects = run(&mut app, Action::AddToolCall(call("find_files")), &e);
    let last = app.messages.last().unwrap();
    assert_eq!(last.role, "assistant");
    assert!(last.content.contains("> **Tool Call:** `find_files`"));
    assert_eq!(last.tool_calls.as_ref().unwrap().len(), 1);
    assert_eq!(last.tool_calls.as_ref().unwrap()[0].function.name, "find_files".to_string());
    assert!(matches!(&effects[0], Effect::ExecuteTool { call, .. } if call.function.name == "find_files"));
    assert_eq!(effects[1], Effect::SaveSession);
}

#[test]
fn test_context_window_logic() {
    let mut config = Config::new_test_config();
    config.context_token_limit = 2048;
    config.system_prompt = "HI".to_string();
    let mut app = App::new(&config, false).0;
    app.messages.push(message("user", &"a".repeat(8000)));
    app.messages.push(message("user", "recent_msg"));
    let context = app.build_context_window("ctx");
    assert_eq!(context.len(), 2);
    assert_eq!(context[0].role, "system");
    assert_eq!(context[1].content, "recent_msg");
}

#[test]
fn context_window_keeps_an_unbroken_run_of_latest_messages() {
    let mut config = Config::new_test_config();
    config.context_token_limit = 2048;
    config.system_prompt = "HI".to_string();
    let mut app = App::new(&config, false).0;
    app.messages.push(message("user", "old_small"));
    app.messages.push(message("assistant", &"b".repeat(8000)));
    app.messages.push(message("user", "recent_msg"));
    let context = app.build_context_window("ctx");
    assert_eq!(context.len(), 2);
    assert_eq!(context[0].content, "HIctx");
    assert_eq!(context[1].content, "recent_msg");
}

#[test]
fn test_cancel_generation() {
    let e = env();
    let mut app = new_app();
    app.loading = true;
    app.messages.push(message("assistant", "Generating"));
    let effects = run(&mut app, Action::CancelGeneration, &e);
    assert!(!app.loading);
    assert_eq!(effects, vec![Effect::AbortGeneration, Effect::SaveSession]);
    assert_eq!(app.messages[0].content, "Generating\n[Cancelled]");
}

#[test]
fn test_move_selection() {
    let e = env();
    let mut app = new_app();
    app.messages.push(message("user", "1"));
    app.messages.push(message("assistant", "2"));
    assert_eq!(app.selected_message_index, None);
    run(&mut app, Action::MoveSelection(1), &e);
    assert_eq!(app.selected_message_index, Some(1));
    run(&mut app, Action::MoveSelection(-1), &e);
    assert_eq!(app.selected_message_index, Some(0));
    run(&mut app, Action::MoveSelection(-1), &e);
    assert_eq!(app.selected_message_index, Some(0));
    run(&mut app, Action::MoveSelection(1), &e);
    assert_eq!(app.selected_message_index, Some(1));
}

#[test]
fn test_copy_notification_and_unselect() {
    let e = env();
    let mut app = new_app();
    app.messages.push(message("assistant", "test"));
    app.selected_message_index = Some(0);
    let effects = run(&mut app, Action::CopyMessage, &e);
    assert_eq!(effects, vec![Effect::CopyToClipboard("test".to_string())]);
    let more = app.on_copy_result(CopyResult::Copied);
    assert_eq!(app.notification.as_deref(), Some("Copied to clipboard!"));
    assert!(app.selected_message_index.is_none());
    assert_eq!(more, vec![Effect::StampNotification]);
}

#[test]
fn failed_copy_reports_the_error() {
    let mut app = new_app();
    app.on_copy_result(CopyResult::Failed("no display".to_string()));
    assert_eq!(app.error.as_deref(), Some("Failed to copy: no display"));
    app.on_copy_result(CopyResult::Unavailable);
    assert_eq!(app.error.as_deref(), Some("Clipboard not available"));
}

#[test]
fn test_cancel_in_normal_mode() {
    let e = env();
    let mut app = new_app();
    app.loading = true;
    app.mode = Mode::Normal;
    let effects = run(&mut app, Action::UserInput(ctrl('c')), &e);
    assert_eq!(effects, vec![Effect::Send(Action::CancelGeneration)]);
}

#[test]
fn test_tool_execution_throbber_state() {
    let e = env();
    let mut app = new_app();
    app.messages.push(message("assistant", "Thinking..."));
    run(&mut app, Action::AddToolCall(call("list_directory")), &e);
    assert!(app.is_tool_executing);
    run(&mut app, Action::AddToolOutput("list_directory".to_string(), "file1".to_string()), &e);
    assert!(!app.is_tool_executing);
    assert_eq!(app.messages.last().unwrap().role, "tool");
    assert_eq!(app.messages.last().unwrap().tool_name.as_deref(), Some("list_directory"));
}

#[test]
fn tool_needing_confirmation_waits() {
    let e = env();
    let mut app = new_app();
    app.messages.push(message("assistant", "Writing"));
    let effects = run(&mut app, Action::AddToolCall(call("write_file")), &e);
    assert!(effects.is_empty());
    assert_eq!(app.mode, Mode::ToolConfirmation);
    assert!(app.pending_tool_call.is_some());
    let effects = run(&mut app, Action::UserInput(key(KeyCode::Char('n'))), &e);
    assert_eq!(effects, vec![Effect::Send(Action::DenyToolExecution)]);
    let effects = run(&mut app, Action::DenyToolExecution, &e);
    assert_eq!(
        effects,
        vec![Effect::Send(Action::AddToolOutput(
            "write_file".to_string(),
            "Tool execution denied by user.".to_string()
        ))]
    );
    assert_eq!(app.mode, Mode::Insert);
}

#[test]
fn unknown_tool_is_answered_not_found() {
    let e = env();
    let mut app = new_app();
    app.messages.push(message("assistant", ""));
    let effects = run(&mut app, Action::AddToolCall(call("nope")), &e);
    assert_eq!(
        effects,
        vec![
            Effect::Send(Action::AddToolOutput("nope".to_string(), "Tool not found".to_string())),
            Effect::SaveSession
        ]
    );
    assert_eq!(app.consecutive_tool_calls, 1);
}

#[test]
fn blank_input_is_not_sent() {
    let mut e = env();
    let mut app = new_app();
    e.input_lines = vec!["  ".to_string(), "".to_string()];
    assert!(run(&mut app, Action::SendMessage, &e).is_empty());
    e.input_lines = vec!["hi".to_string(), "there".to_string()];
    assert_eq!(
        run(&mut app, Action::SendMessage, &e),
        vec![
            Effect::ResetEditor(Editor::Input),
            Effect::Send(Action::AddUserMessage("hi\nthere".to_string()))
        ]
    );
}

#[test]
fn no_models_means_an_error() {
    let e = env();
    let mut app = new_app();
    let effects = run(&mut app, Action::RequestAiResponse, &e);
    assert!(effects.is_empty());
    assert_eq!(app.error.as_deref(), Some("No models loaded"));
}

#[test]
fn reply_searches_knowledge_for_the_last_question() {
    let e = env();
    let mut app = new_app();
    app.models = vec!["m".to_string()];
    app.messages.push(message("user", "what is up"));
    let effects = run(&mut app, Action::RequestAiResponse, &e);
    assert_eq!(effects, vec![Effect::StartRagSearch("what is up".to_string())]);
    let effects = run(&mut app, Action::RagContextReady(Some(" [ctx]".to_string())), &e);
    match &effects[0] {
        Effect::StartGeneration { model, messages, use_tools, context_limit } => {
            assert_eq!(model, "m");
            assert!(*use_tools);
            assert_eq!(*context_limit, 4096);
            assert_eq!(messages[0].content, "You are helpfulctx");
            assert_eq!(messages[1].content, "what is up [ctx]");
            assert_eq!(messages[2].role, "assistant");
        }
        other => panic!("unexpected {:?}", other),
    }
}

#[test]
fn render_does_not_redraw() {
    let e = env();
    let mut app = new_app();
    let (redraw, effects) = app.update(Action::Render, &e);
    assert!(!redraw);
    assert!(effects.is_empty());
    let (redraw, _) = app.update(Action::SwitchMode(Mode::Normal), &e);
    assert!(redraw);
    assert_eq!(app.mode, Mode::Normal);
}

#[test]
fn scroll_saturates_and_follows_tool_view() {
    let e = env();
    let mut app = new_app();
    app.vertical_scroll = 0;
    run(&mut app, Action::Scroll(-5), &e);
    assert_eq!(app.vertical_scroll, 0);
    assert!(!app.auto_scroll);
    app.mode = Mode::ToolConfirmation;
    run(&mut app, Action::Scroll(3), &e);
    assert_eq!(app.tool_scroll, 3);
    assert!(!update_allowed(&app, &Action::Scroll(i16::MIN), &e));
}

#[test]
fn clear_history_empties_and_saves() {
    let e = env();
    let mut app = new_app();
    app.messages.push(message("user", "x"));
    app.vertical_scroll = 4;
    let effects = run(&mut app, Action::ClearHistory, &e);
    assert!(app.messages.is_empty());
    assert_eq!(app.vertical_scroll, 0);
    assert_eq!(effects, vec![Effect::SaveSession]);
}

#[test]
fn global_shortcuts_work_in_any_mode() {
    let e = env();
    let mut app = new_app();
    app.mode = Mode::ToolConfirmation;
    assert_eq!(run(&mut app, Action::UserInput(ctrl('l')), &e), vec![Effect::Send(Action::ClearHistory)]);
    assert_eq!(run(&mut app, Action::UserInput(ctrl('s')), &e), vec![Effect::Send(Action::EnterSystemPromptEdit)]);
    assert_eq!(run(&mut app, Action::UserInput(ctrl('r')), &e), vec![Effect::Send(Action::EnterSessionSelect)]);
}

#[test]
fn shift_enter_inserts_a_newline() {
    let e = env();
    let mut app = new_app();
    let k = KeyInput { code: KeyCode::Enter, ctrl: false, shift: true, alt: false };
    assert_eq!(run(&mut app, Action::UserInput(k), &e), vec![Effect::InsertNewline]);
    assert_eq!(run(&mut app, Action::UserInput(key(KeyCode::Enter)), &e), vec![Effect::Send(Action::SendMessage)]);
}

#[test]
fn system_prompt_edit_round_trip() {
    let mut e = env();
    let mut app = new_app();
    app.system_prompt = "a\nb".to_string();
    let effects = run(&mut app, Action::EnterSystemPromptEdit, &e);
    assert_eq!(effects, vec![Effect::LoadSystemPromptEditor(vec!["a".to_string(), "b".to_string()])]);
    assert_eq!(app.mode, Mode::SystemPromptEdit);
    e.system_prompt_lines = vec!["new".to_string(), "prompt".to_string()];
    let effects = run(&mut app, Action::UserInput(key(KeyCode::Enter)), &e);
    assert_eq!(effects, vec![Effect::Send(Action::UpdateSystemPrompt("new\nprompt".to_string()))]);
    run(&mut app, Action::UpdateSystemPrompt("new\nprompt".to_string()), &e);
    assert_eq!(app.system_prompt, "new\nprompt");
    assert_eq!(app.mode, Mode::Insert);
}

#[test]
fn summary_is_requested_at_the_threshold() {
    let e = env();
    let mut app = new_app();
    app.models = vec!["m".to_string()];
    app.context_token_limit = 40;
    for i in 0..4 {
        app.messages.push(message(if i % 2 == 0 { "user" } else { "assistant" }, "hello"));
    }
    let effects = run(&mut app, Action::AddAiToken("x".to_string()), &e);
    assert_eq!(effects[0], Effect::SaveSessionThrottled);
    assert!(app.is_summarizing);
    match &effects[1] {
        Effect::StartSummary { model, messages, count } => {
            assert_eq!(model, "m");
            assert_eq!(*count, 2);
            assert_eq!(messages.len(), 2);
            assert_eq!(messages[0].role, "system");
        }
        other => panic!("unexpected {:?}", other),
    }
    run(&mut app, Action::SummaryReady("sum".to_string(), 2), &e);
    assert!(!app.is_summarizing);
    assert_eq!(app.conversation_summary.as_deref(), Some("sum"));
    assert_eq!(app.summarized_count, 2);
}

#[test]
fn prepare_quit_saves_then_quits() {
    let mut app = new_app();
    let e = env();
    let effects = run(&mut app, Action::PrepareQuit, &e);
    assert_eq!(effects, vec![Effect::SaveSession, Effect::Send(Action::Quit)]);
}

#[test]
fn a_user_message_trims_the_history_to_its_limit() {
    let mut app = new_app();
    app.max_history_messages = 3;
    app.messages = vec![
        message("user", "1"),
        message("assistant", "2"),
        message("tool", "3"),
        message("assistant", "4"),
        message("user", "5"),
    ];
    let e = env();
    run(&mut app, Action::AddUserMessage("6".to_string()), &e);
    let contents: Vec<&str> = app.messages.iter().map(|m| m.content.as_str()).collect();
    assert_eq!(contents, vec!["4", "5", "6"]);
    assert_eq!(app.consecutive_tool_calls, 0);
}
