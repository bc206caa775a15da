//! The assistant's state and the decisions it takes on each event.
//!
//! The program around this library owns the terminal, the network and the
//! files. It hands every event to `App::update`, which changes the state and
//! returns the effects to carry out, in order. Some effects report a result back
//! through a method of `App` (a loaded session, the listed sessions, the outcome
//! of a clipboard copy or of a rename).
use vstd::prelude::*;
use crate::config::Config;
use crate::context::{text_tokens, ContextManager};
use crate::ollama::{
    messages_view, plain_message, requests_view, strings_view, ChatMessage, ChatMessageRequest,
    MessageView, ToolCall,
};
use crate::text::{append_str, chars_of, join, join_chars, lines, lines_of, string_of, views};

verus! {

/// The input mode of the interface.
#[derive(Debug, PartialEq, Eq, Clone, Copy, Structural)]
pub enum Mode {
    /// Standard input mode for typing messages.
    Insert,
    /// Navigation mode (e.g., for scrolling or selecting messages).
    Normal,
    /// Mode for selecting an AI model.
    ModelSelect,
    /// Mode for editing the system prompt.
    SystemPromptEdit,
    /// Mode for selecting a saved session.
    SessionSelect,
    /// Mode for creating a new session.
    SessionCreate,
    /// Mode for entering a model name to pull.
    ModelPullInput,
    /// Mode for confirming a tool execution.
    ToolConfirmation,
}

/// The key of a key press, as far as the assistant tells keys apart.
#[derive(Debug, PartialEq, Eq, Clone, Copy, Structural)]
pub enum KeyCode {
    Char(char),
    Enter,
    Esc,
    Up,
    Down,
    F(u8),
    Other,
}

/// A key press with its modifiers.
#[derive(Debug, PartialEq, Eq, Clone, Copy, Structural)]
pub struct KeyInput {
    pub code: KeyCode,
    pub ctrl: bool,
    pub shift: bool,
    pub alt: bool,
}

/// Everything that can happen to the assistant.
#[derive(Debug, PartialEq, Clone)]
pub enum Action {
    /// Renders the UI.
    Render,
    /// Resizes the terminal.
    Resize(u16, u16),
    /// Quits the application.
    Quit,
    /// Represents an error message to be displayed.
    Error(String),
    /// Represents a key press from the user.
    UserInput(KeyInput),
    /// Triggers the loading of available models.
    LoadModels,
    /// Indicates that models have been successfully loaded.
    ModelsLoaded(Vec<String>),
    /// Enters the model selection mode.
    EnterModelSelect,
    /// Sends the current user input as a message to the AI.
    SendMessage,
    /// Adds a user message to the history explicitly.
    AddUserMessage(String),
    /// Adds a stream token from the AI response.
    AddAiToken(String),
    /// Adds a tool call request from the AI.
    AddToolCall(ToolCall),
    /// Adds the output of a tool execution: tool name, output.
    AddToolOutput(String, String),
    /// Requests the AI to generate a response.
    RequestAiResponse,
    /// Indicates that the AI response generation is complete.
    AiResponseComplete,
    /// Switches the input mode.
    SwitchMode(Mode),
    /// Clears the conversation history.
    ClearHistory,
    /// Updates the system prompt with new text.
    UpdateSystemPrompt(String),
    /// Enters the mode to edit the system prompt.
    EnterSystemPromptEdit,
    /// Scrolls the message view.
    Scroll(i16),
    /// Opens the session selection menu.
    EnterSessionSelect,
    /// Selects a specific session to load.
    SelectSession(String),
    /// Opens the session creation input.
    EnterSessionCreate,
    /// Creates a new session with the given name.
    CreateSession(String),
    /// Deletes a session.
    DeleteSession(String),
    /// Indicates that sessions have been loaded.
    SessionsLoaded(Vec<String>),
    /// Enters the model pulling interface.
    EnterModelPull,
    /// Starts pulling a model.
    StartPullModel(String),
    /// Updates progress for a model pull: status, completed, total.
    PullProgress(String, Option<u64>, Option<u64>),
    /// Deletes a local model.
    DeleteModel(String),
    /// Prepares the application to quit.
    PrepareQuit,
    /// Confirms a pending tool execution.
    ConfirmToolExecution,
    /// Denies a pending tool execution.
    DenyToolExecution,
    /// Cancels the current AI generation.
    CancelGeneration,
    /// Copies the selected message to clipboard.
    CopyMessage,
    /// Moves the message selection cursor.
    MoveSelection(i16),
    /// Updates the context token limit for the current model.
    UpdateModelContextLimit(usize),
    /// A conversation summary is ready: summary text, messages it covers.
    SummaryReady(String, usize),
    /// Context retrieved from the knowledge base, if any.
    RagContextReady(Option<String>),
    /// The user's location was detected.
    GeolocationReady(String),
    /// A status message to show.
    ShowStatus(String),
    /// Asks the model for a name for the session.
    TriggerAutoNaming,
    /// Renames the current session.
    RenameSession(String),
}

/// The text editors of the interface.
#[derive(Debug, PartialEq, Eq, Clone, Copy, Structural)]
pub enum Editor {
    Input,
    SystemPrompt,
    Session,
    Pull,
}

/// A step that continues a decision once the effects before it are done.
#[derive(Debug, PartialEq, Clone)]
pub enum Continuation {
    /// Select the current session in the freshly listed sessions.
    SelectCurrentSession,
    /// Finish deleting the named session once the sessions are listed again.
    FinishDeleteSession(String),
    /// Keep the session list's highlight within the freshly listed sessions.
    ClampSessionSelection,
}

/// What the program around the library is to do, in order.
#[derive(Debug, PartialEq, Clone)]
pub enum Effect {
    /// Queue this action.
    Send(Action),
    /// Save the conversation to the current session's file.
    SaveSession,
    /// Save the conversation, unless it was saved less than two seconds ago.
    SaveSessionThrottled,
    /// Replace the editor by an empty one.
    ResetEditor(Editor),
    /// Replace the system prompt editor by one holding these lines.
    LoadSystemPromptEditor(Vec<String>),
    /// Hand the key being handled to the editor.
    ForwardKey(Editor),
    /// Start a new line in the message editor.
    InsertNewline,
    /// Stop the generation under way, if any.
    AbortGeneration,
    /// Fetch the list of models (answered by `ModelsLoaded` or `Error`).
    ListModels,
    /// Fetch a model's information (answered by `UpdateModelContextLimit`).
    FetchModelInfo(String),
    /// Download a model (progress comes as `PullProgress`).
    PullModel(String),
    /// Delete a model, then list the models again.
    RemoveModel(String),
    /// Search the knowledge base (answered by `RagContextReady`).
    StartRagSearch(String),
    /// Ask the model to continue the conversation; tools are offered when
    /// `use_tools` holds. Tokens come back as `AddAiToken` / `AddToolCall`.
    StartGeneration { model: String, messages: Vec<ChatMessageRequest>, use_tools: bool, context_limit: usize },
    /// Ask the model for a summary (answered by `SummaryReady` with `count`).
    StartSummary { model: String, messages: Vec<ChatMessageRequest>, count: usize },
    /// Ask the model for a session name (answered by `RenameSession`).
    StartAutoNaming { model: String, messages: Vec<ChatMessageRequest> },
    /// Run the tool the call names (answered by `AddToolOutput`), reporting
    /// `on_timeout` if it runs longer than two minutes.
    ExecuteTool { call: ToolCall, on_timeout: String },
    /// Add a tool's output to the knowledge base.
    IngestToolOutput(String),
    /// Copy this text to the clipboard and report through `App::on_copy_result`.
    CopyToClipboard(String),
    /// Note the time the current notification was set.
    StampNotification,
    /// Look up the user's location (answered by `GeolocationReady`).
    StartGeolocation,
    /// Move an old-style history file into the default session.
    MigrateLegacyHistory,
    /// List the saved sessions and report through `App::on_sessions_listed`.
    ListSessions,
    /// Read the named session and report through `App::on_session_loaded`.
    LoadSession(String),
    /// Delete the named session's file.
    RemoveSessionFile(String),
    /// Rename the current session's file for the new name and report through
    /// `App::on_session_renamed`.
    RenameSessionFile(String),
    /// Continue with this step through `App::resume`.
    Resume(Continuation),
}

/// Whether a throttled save (`Effect::SaveSessionThrottled`) is due: two seconds
/// or more since the last save.
pub fn should_save(elapsed_secs: u64) -> (r: bool)
    ensures
        r == (elapsed_secs >= 2),
{
    elapsed_secs >= 2
}

/// A tool the program offers, by name.
#[derive(Debug, Clone)]
pub struct ToolInfo {
    pub name: String,
    pub requires_confirmation: bool,
}

/// What the program knows that the decisions read: the system context text
/// (date, machine, directories), the lines of each editor, and the tools.
#[derive(Debug, Clone)]
pub struct Environment {
    pub system_context: String,
    pub input_lines: Vec<String>,
    pub system_prompt_lines: Vec<String>,
    pub session_lines: Vec<String>,
    pub pull_lines: Vec<String>,
    pub tools: Vec<ToolInfo>,
}

/// The texts of `ls` joined with `sep` (the lines of an editor, for instance).
pub fn join_strings(ls: &[String], sep: &str) -> (r: String)
    ensures
        r@ == join(strings_view(ls@), sep@),
{
    let mut parts: Vec<Vec<char>> = Vec::new();
    let mut i: usize = 0;
    while i < ls.len()
        invariant
            i <= ls.len(),
            views(parts@) == strings_view(ls@).take(i as int),
        decreases ls.len() - i,
    {
        let ghost prev = views(parts@);
        let cs = chars_of(ls[i].as_str());
        assert(cs@ == strings_view(ls@)[i as int]);
        parts.push(cs);
        assert(views(parts@) =~= prev.push(cs@));
        assert(strings_view(ls@).take(i + 1) =~= strings_view(ls@).take(i as int).push(cs@));
        i = i + 1;
    }
    assert(strings_view(ls@).take(ls.len() as int) =~= strings_view(ls@));
    let sep_chars = chars_of(sep);
    let joined = join_chars(parts.as_slice(), sep_chars.as_slice());
    string_of(joined.as_slice())
}

/// The assistant's state.
pub struct App {
    /// List of chat messages in the current conversation.
    pub messages: Vec<ChatMessage>,
    /// List of available AI models.
    pub models: Vec<String>,
    /// Index of the currently selected model.
    pub selected_model: usize,
    /// Vertical scroll offset for the chat view.
    pub vertical_scroll: u16,
    /// Whether to auto-scroll to the bottom of the chat.
    pub auto_scroll: bool,
    /// Current input mode.
    pub mode: Mode,
    /// Whether the application is waiting (e.g., for an AI response).
    pub loading: bool,
    /// Current error message, if any.
    pub error: Option<String>,
    /// Buffer for building the current AI response.
    pub current_response_buffer: String,
    /// Whether to show the help overlay.
    pub show_help: bool,
    /// Configured global context token limit.
    pub context_token_limit: usize,
    /// The current system prompt.
    pub system_prompt: String,
    /// Name of the current session.
    pub current_session: String,
    /// List of available saved sessions.
    pub available_sessions: Vec<String>,
    /// Index of the highlighted session in the session list.
    pub session_selected: Option<usize>,
    /// Progress of the current model pull: status, completed, total.
    pub pull_progress: Option<(String, Option<u64>, Option<u64>)>,
    /// Counter for consecutive tool calls, to prevent infinite loops.
    pub consecutive_tool_calls: usize,
    /// Pending tool call waiting for user confirmation.
    pub pending_tool_call: Option<ToolCall>,
    /// Whether a tool is currently executing.
    pub is_tool_executing: bool,
    /// Manager for handling context window optimization.
    pub context_manager: ContextManager,
    /// Current estimated token usage.
    pub current_token_usage: usize,
    /// Scroll offset for the tool confirmation view.
    pub tool_scroll: u16,
    /// Specific context limit for the currently loaded model.
    pub model_context_limit: Option<usize>,
    /// Summary of the conversation history.
    pub conversation_summary: Option<String>,
    /// Number of messages included in the summary.
    pub summarized_count: usize,
    /// Whether summarization is currently in progress.
    pub is_summarizing: bool,
    /// Index of the currently selected message.
    pub selected_message_index: Option<usize>,
    /// Temporary notification message.
    pub notification: Option<String>,
    /// Maximum allowed consecutive tool calls.
    pub max_consecutive_tool_calls: usize,
    /// Maximum number of messages to keep in history.
    pub max_history_messages: usize,
    /// Detected or configured user location.
    pub location: Option<String>,
    /// Whether sessions are named automatically after the first exchange.
    pub enable_session_autonaming: bool,
}

/// The section listing the named knowledge bases, appended to the system prompt
/// (nothing when there are none).
pub open spec fn kb_lines(kbs: Seq<(String, String)>) -> Seq<char>
    decreases kbs.len(),
{
    if kbs.len() == 0 {
        Seq::empty()
    } else {
        kb_lines(kbs.drop_last()) + "- **"@ + kbs.last().0@ + "**: "@ + kbs.last().1@ + "\n"@
    }
}

/// The system prompt of a new assistant: the configured one, and the knowledge
/// bases if there are any.
pub open spec fn initial_system_prompt(config: Config) -> Seq<char> {
    if config.knowledge_bases@.len() == 0 {
        config.system_prompt@
    } else {
        config.system_prompt@ + "\n\n## CONFIGURED KNOWLEDGE BASES\n"@ + kb_lines(config.knowledge_bases@)
    }
}

impl App {
    /// A new assistant with the given settings, and what it does first: when
    /// `load_history` holds, migrating old history and opening the default session;
    /// when geolocation is enabled and no location is configured, looking it up.
    pub fn new(config: &Config, load_history: bool) -> (r: (App, Vec<Effect>))
        ensures
            r.0.messages@.len() == 0,
            r.0.models@.len() == 0,
            r.0.selected_model == 0,
            r.0.vertical_scroll == 0,
            r.0.auto_scroll,
            r.0.mode == Mode::Insert,
            !r.0.loading,
            r.0.error is None,
            r.0.current_response_buffer@.len() == 0,
            !r.0.show_help,
            r.0.context_token_limit == config.context_token_limit,
            r.0.system_prompt@ == initial_system_prompt(*config),
            r.0.current_session@ == "default"@,
            r.0.available_sessions@.len() == 0,
            r.0.session_selected is None,
            r.0.pull_progress is None,
            r.0.consecutive_tool_calls == 0,
            r.0.pending_tool_call is None,
            !r.0.is_tool_executing,
            r.0.context_manager.auto_context == config.auto_context,
            r.0.context_manager.summarization_enabled == config.summarization_enabled,
            r.0.context_manager.summarization_threshold_permille == config.summarization_threshold_permille,
            r.0.current_token_usage == 0,
            r.0.tool_scroll == 0,
            r.0.model_context_limit is None,
            r.0.conversation_summary is None,
            r.0.summarized_count == 0,
            !r.0.is_summarizing,
            r.0.selected_message_index is None,
            r.0.notification is None,
            r.0.max_consecutive_tool_calls == config.max_consecutive_tool_calls,
            r.0.max_history_messages == config.max_history_messages,
            match (config.location, r.0.location) {
                (Some(a), Some(b)) => a@ == b@,
                (None, None) => true,
                _ => false,
            },
            r.0.enable_session_autonaming == config.enable_session_autonaming,
            r.1@ == (if load_history {
                seq![Effect::MigrateLegacyHistory, Effect::LoadSession(r.1@[1]->LoadSession_0)]
            } else {
                Seq::<Effect>::empty()
            }) + (if config.enable_geolocation && config.location is None {
                seq![Effect::StartGeolocation]
            } else {
                Seq::<Effect>::empty()
            }),
            load_history ==> r.1@[1]->LoadSession_0@ == "default"@,
    {
        let mut prompt: Vec<char> = chars_of(config.system_prompt.as_str());
        if config.knowledge_bases.len() > 0 {
            append_str(&mut prompt, "\n\n## CONFIGURED KNOWLEDGE BASES\n");
            let ghost head = prompt@;
            let mut i: usize = 0;
            while i < config.knowledge_bases.len()
                invariant
                    i <= config.knowledge_bases.len(),
                    prompt@ == head + kb_lines(config.knowledge_bases@.take(i as int)),
                decreases config.knowledge_bases.len() - i,
            {
                assert(config.knowledge_bases@.take(i + 1).drop_last() =~= config.knowledge_bases@.take(i as int));
                append_str(&mut prompt, "- **");
                append_str(&mut prompt, config.knowledge_bases[i].0.as_str());
                append_str(&mut prompt, "**: ");
                append_str(&mut prompt, config.knowledge_bases[i].1.as_str());
                append_str(&mut prompt, "\n");
                assert(prompt@ =~= head + kb_lines(config.knowledge_bases@.take(i + 1)));
                i = i + 1;
            }
            assert(config.knowledge_bases@.take(config.knowledge_bases.len() as int) =~= config.knowledge_bases@);
        }
        let location = match &config.location {
            Some(l) => Some(l.clone()),
            None => None,
        };
        let app = App {
            messages: Vec::new(),
            models: Vec::new(),
            selected_model: 0,
            vertical_scroll: 0,
            auto_scroll: true,
            mode: Mode::Insert,
            loading: false,
            error: None,
            current_response_buffer: String::new(),
            show_help: false,
            context_token_limit: config.context_token_limit,
            system_prompt: string_of(prompt.as_slice()),
            current_session: String::from_str("default"),
            available_sessions: Vec::new(),
            session_selected: None,
            pull_progress: None,
            consecutive_tool_calls: 0,
            pending_tool_call: None,
            is_tool_executing: false,
            context_manager: ContextManager::new(
                config.auto_context,
                config.summarization_enabled,
                config.summarization_threshold_permille,
            ),
            current_token_usage: 0,
            tool_scroll: 0,
            model_context_limit: None,
            conversation_summary: None,
            summarized_count: 0,
            is_summarizing: false,
            selected_message_index: None,
            notification: None,
            max_consecutive_tool_calls: config.max_consecutive_tool_calls,
            max_history_messages: config.max_history_messages,
            location,
            enable_session_autonaming: config.enable_session_autonaming,
        };
        let mut effects: Vec<Effect> = Vec::new();
        if load_history {
            effects.push(Effect::MigrateLegacyHistory);
            effects.push(Effect::LoadSession(String::from_str("default")));
        }
        let ghost first = effects@;
        if config.enable_geolocation && config.location.is_none() {
            effects.push(Effect::StartGeolocation);
        }
        assert(effects@ =~= first + (if config.enable_geolocation && config.location is None {
                seq![Effect::StartGeolocation]
            } else {
                Seq::<Effect>::empty()
            }));
        (app, effects)
    }
}


/// The text that tells the model about the user's machine: the date and time,
/// the location when known, the system, and the home and working directories.
pub open spec fn system_context_spec(
    date: Seq<char>,
    time: Seq<char>,
    zone: Seq<char>,
    location: Option<Seq<char>>,
    os: Seq<char>,
    home: Seq<char>,
    cwd: Seq<char>,
) -> Seq<char> {
    "\n\n[System Context]\nCurrent Date: "@ + date + "\nCurrent Time: "@ + time + " ("@ + zone + ")\n"@
        + (match location { Some(l) => "Location: "@ + l + "\n"@, None => Seq::empty() })
        + "OS: "@ + os + "\nHome Directory: "@ + home + "\nCurrent Working Directory: "@ + cwd
        + "\n\nWhen using file system tools, use these actual paths instead of guessing. For example, use '"@
        + home + "' instead of '/home/user'."@
}

/// The system context text (see `system_context_spec`).
pub fn system_context_text(
    date: &str,
    time: &str,
    zone: &str,
    location: Option<&str>,
    os: &str,
    home: &str,
    cwd: &str,
) -> (r: String)
    ensures
        r@ == system_context_spec(date@, time@, zone@, match location { Some(l) => Some(l@), None => None }, os@, home@, cwd@),
{
    let mut t: Vec<char> = chars_of("\n\n[System Context]\nCurrent Date: ");
    append_str(&mut t, date);
    append_str(&mut t, "\nCurrent Time: ");
    append_str(&mut t, time);
    append_str(&mut t, " (");
    append_str(&mut t, zone);
    append_str(&mut t, ")\n");
    let ghost head = t@;
    match location {
        Some(l) => {
            append_str(&mut t, "Location: ");
            append_str(&mut t, l);
            append_str(&mut t, "\n");
        },
        None => {
            assert(head + Seq::<char>::empty() =~= head);
        },
    }
    append_str(&mut t, "OS: ");
    append_str(&mut t, os);
    append_str(&mut t, "\nHome Directory: ");
    append_str(&mut t, home);
    append_str(&mut t, "\nCurrent Working Directory: ");
    append_str(&mut t, cwd);
    append_str(&mut t, "\n\nWhen using file system tools, use these actual paths instead of guessing. For example, use '");
    append_str(&mut t, home);
    append_str(&mut t, "' instead of '/home/user'.");
    string_of(t.as_slice())
}

/// The commands the command tool may run.
pub open spec fn allowed_commands_spec() -> Seq<Seq<char>> {
    seq!["git"@, "ls"@, "grep"@, "rg"@, "find"@, "cargo"@, "mkdir"@, "rmdir"@, "touch"@, "pwd"@, "date"@,
        "echo"@, "mv"@, "cp"@, "stat"@, "curl"@, "wget"@, "jq"@, "sed"@, "awk"@, "python3"@, "node"@,
        "tree"@, "du"@, "chmod"@, "brew"@, "uv"@, "which"@, "cat"@, "head"@, "tail"@]
}

/// The commands the command tool may run (see `allowed_commands_spec`).
pub fn default_allowed_commands() -> (r: Vec<String>)
    ensures
        strings_view(r@) == allowed_commands_spec(),
{
    let names: [&str; 31] = ["git", "ls", "grep", "rg", "find", "cargo", "mkdir", "rmdir", "touch", "pwd",
        "date", "echo", "mv", "cp", "stat", "curl", "wget", "jq", "sed", "awk", "python3", "node", "tree",
        "du", "chmod", "brew", "uv", "which", "cat", "head", "tail"];
    let mut r: Vec<String> = Vec::new();
    let mut i: usize = 0;
    while i < 31
        invariant
            i <= 31,
            names@.len() == 31,
            strings_view(r@) == names@.take(i as int).map_values(|s: &str| s@),
        decreases 31 - i,
    {
        let ghost prev = strings_view(r@);
        r.push(String::from_str(names[i]));
        assert(strings_view(r@) =~= prev.push(names@[i as int]@));
        assert(names@.take(i + 1).map_values(|s: &str| s@) =~= names@.take(i as int).map_values(|s: &str| s@).push(names@[i as int]@));
        i = i + 1;
    }
    assert(names@.take(31) =~= names@);
    assert(names@.map_values(|s: &str| s@) =~= allowed_commands_spec());
    r
}

/// The tools the assistant offers, by name.
pub open spec fn catalog_names() -> Seq<Seq<char>> {
    seq!["grep_files"@, "read_file"@, "list_directory"@, "write_file"@, "edit_file"@, "replace_text"@,
        "delete_file"@, "find_symbol"@, "semantic_search"@, "web_search"@, "read_url"@, "remember"@,
        "run_command"@]
}

/// Whether a tool waits for the user's confirmation: those that change files or
/// run commands do.
pub open spec fn needs_confirmation(name: Seq<char>) -> bool {
    name == "write_file"@ || name == "edit_file"@ || name == "replace_text"@ || name == "delete_file"@
        || name == "run_command"@
}

/// The tools the assistant offers (see `catalog_names` and `needs_confirmation`).
pub fn tool_catalog() -> (r: Vec<ToolInfo>)
    ensures
        r@.len() == catalog_names().len(),
        forall|i: int| 0 <= i < r@.len() ==> (#[trigger] r@[i]).name@ == catalog_names()[i]
            && r@[i].requires_confirmation == needs_confirmation(catalog_names()[i]),
{
    let names: [&str; 13] = ["grep_files", "read_file", "list_directory", "write_file", "edit_file",
        "replace_text", "delete_file", "find_symbol", "semantic_search", "web_search", "read_url",
        "remember", "run_command"];
    assert(names@.map_values(|s: &str| s@) =~= catalog_names());
    let mut r: Vec<ToolInfo> = Vec::new();
    let mut i: usize = 0;
    while i < 13
        invariant
            i <= 13,
            names@.len() == 13,
            names@.map_values(|s: &str| s@) == catalog_names(),
            r@.len() == i,
            forall|k: int| 0 <= k < i ==> (#[trigger] r@[k]).name@ == catalog_names()[k]
                && r@[k].requires_confirmation == needs_confirmation(catalog_names()[k]),
        decreases 13 - i,
    {
        let name = names[i];
        assert(name@ == catalog_names()[i as int]);
        let confirm = crate::text::str_eq(name, "write_file") || crate::text::str_eq(name, "edit_file")
            || crate::text::str_eq(name, "replace_text") || crate::text::str_eq(name, "delete_file")
            || crate::text::str_eq(name, "run_command");
        r.push(ToolInfo { name: String::from_str(name), requires_confirmation: confirm });
        i = i + 1;
    }
    r
}

} // verus!
