//! The remaining events, and `App::update`, which takes every event to its
//! handler.
use vstd::prelude::*;
use crate::app::{Action, App, Continuation, Editor, Effect, Environment, KeyCode, KeyInput, Mode, ToolInfo};
use crate::chat::{
    add_ai_token_ok, add_tool_call_ok, add_user_message_ok, context_usage, ends_with_assistant,
    history_start, post_add_ai_token, post_add_tool_call, post_add_tool_output,
    post_add_user_message, post_ai_response_complete, post_cancel_generation, post_confirm_tool,
    post_copy_message, post_deny_tool, post_move_selection, post_request_ai_response,
    post_send_message, request_ok, reserved_tokens, summary_tokens, tokens_from, tool_call_note,
    is_generation, with_rag_context, context_window,
};
use crate::context::{messages_tokens, text_tokens};
use crate::keys::{key_ok, post_key};
use crate::ollama::{opt_view, strings_view, ChatMessage};
use crate::session::{
    post_create_session, post_models_loaded, post_pull_progress, post_start_pull_model,
    post_trigger_auto_naming,
};
use crate::text::{append_str, chars_of, lines, lines_of, str_len, string_of};

verus! {

/// The state after an error: it is shown, and nothing is awaited any more.
pub open spec fn post_error(o: App, n: App, e: Seq<char>) -> bool {
    &&& n == App { error: n.error, loading: false, is_tool_executing: false, ..o }
    &&& (n.error matches Some(t) && t@ == e)
}

/// The state once a summary arrived: it stands for the first `count` messages,
/// and the token estimate is refreshed.
pub open spec fn post_summary_ready(o: App, n: App, summary: Seq<char>, count: usize, sys: Seq<char>) -> bool {
    &&& n == App {
        conversation_summary: n.conversation_summary,
        summarized_count: count,
        is_summarizing: false,
        current_token_usage: n.current_token_usage,
        ..o
    }
    &&& (n.conversation_summary matches Some(s) && s@ == summary)
    &&& n.current_token_usage as nat == context_usage(n, sys)
}

/// What `on_summary_ready` requires: the refreshed estimate fits.
pub open spec fn summary_ready_ok(o: App, summary: Seq<char>, count: usize, sys: Seq<char>) -> bool {
    text_tokens(o.system_prompt@) + text_tokens(sys) + text_tokens(summary) + 10
        + tokens_from(o.messages@, count as int) <= usize::MAX
}

/// The state once the location is known: it is kept, with a notification.
pub open spec fn post_geolocation_ready(o: App, n: App, loc: Seq<char>, effs: Seq<Effect>) -> bool {
    &&& n == App { location: n.location, notification: n.notification, ..o }
    &&& (n.location matches Some(l) && l@ == loc)
    &&& (n.notification matches Some(t) && t@ == "Location detected: "@ + loc)
    &&& effs == seq![Effect::StampNotification]
}

/// One step of a saturating scroll offset.
pub open spec fn scrolled(v: u16, delta: int) -> u16 {
    if v + delta > u16::MAX {
        u16::MAX
    } else if v + delta < 0 {
        0
    } else {
        (v + delta) as u16
    }
}

/// The state after scrolling by `delta`: the conversation view moves (and no
/// longer follows the end), and so does the tool view while a tool call waits.
pub open spec fn post_scroll(o: App, n: App, delta: int) -> bool {
    n == App {
        vertical_scroll: scrolled(o.vertical_scroll, delta),
        auto_scroll: false,
        tool_scroll: if o.mode == Mode::ToolConfirmation { scrolled(o.tool_scroll, delta) } else { o.tool_scroll },
        ..o
    }
}

/// Moves a scroll offset by `delta`, saturating.
fn scroll_by(v: u16, delta: i16) -> (r: u16)
    requires
        delta != i16::MIN,
    ensures
        r == scrolled(v, delta as int),
{
    if delta > 0 {
        v.saturating_add(delta as u16)
    } else {
        v.saturating_sub((0 - delta) as u16)
    }
}

impl App {
    /// Shows an error (see `post_error`).
    pub fn on_error(&mut self, e: String)
        ensures
            post_error(*old(self), *final(self), e@),
    {
        self.error = Some(e);
        self.loading = false;
        self.is_tool_executing = false;
    }

    /// Takes a summary of the first `count` messages (see `post_summary_ready`).
    pub fn on_summary_ready(&mut self, summary: String, count: usize, system_context: &str)
        requires
            summary_ready_ok(*old(self), summary@, count, system_context@),
        ensures
            post_summary_ready(*old(self), *final(self), summary@, count, system_context@),
    {
        self.conversation_summary = Some(summary);
        self.summarized_count = count;
        self.is_summarizing = false;
        self.current_token_usage = self.calculate_context_usage(system_context);
    }

    /// Keeps the detected location (see `post_geolocation_ready`).
    pub fn on_geolocation_ready(&mut self, loc: String) -> (effects: Vec<Effect>)
        ensures
            post_geolocation_ready(*old(self), *final(self), loc@, effects@),
    {
        let mut t: Vec<char> = chars_of("Location detected: ");
        append_str(&mut t, loc.as_str());
        self.notification = Some(string_of(t.as_slice()));
        self.location = Some(loc);
        let mut effects: Vec<Effect> = Vec::new();
        effects.push(Effect::StampNotification);
        assert(effects@ =~= seq![Effect::StampNotification]);
        effects
    }

    /// Shows a status message.
    pub fn on_show_status(&mut self, msg: String) -> (effects: Vec<Effect>)
        ensures
            *final(self) == (App { notification: Some(msg), ..*old(self) }),
            effects@ == seq![Effect::StampNotification],
    {
        self.notification = Some(msg);
        let mut effects: Vec<Effect> = Vec::new();
        effects.push(Effect::StampNotification);
        effects
    }

    /// Switches the input mode.
    pub fn on_switch_mode(&mut self, mode: Mode)
        ensures
            *final(self) == (App { mode: mode, ..*old(self) }),
    {
        self.mode = mode;
    }

    /// Clears the conversation and saves the now empty session.
    pub fn on_clear_history(&mut self) -> (effects: Vec<Effect>)
        ensures
            *final(self) == (App {
                messages: final(self).messages,
                current_response_buffer: final(self).current_response_buffer,
                vertical_scroll: 0,
                ..*old(self)
            }),
            final(self).messages@.len() == 0,
            final(self).current_response_buffer@.len() == 0,
            effects@ == seq![Effect::SaveSession],
    {
        self.messages = Vec::new();
        self.current_response_buffer = String::new();
        self.vertical_scroll = 0;
        let mut effects: Vec<Effect> = Vec::new();
        effects.push(Effect::SaveSession);
        effects
    }

    /// Opens the system prompt editor, holding the prompt's lines.
    pub fn on_enter_system_prompt_edit(&mut self) -> (effects: Vec<Effect>)
        ensures
            *final(self) == (App { mode: Mode::SystemPromptEdit, ..*old(self) }),
            effects@.len() == 1,
            effects@[0] matches Effect::LoadSystemPromptEditor(ls)
                && strings_view(ls@) == lines(old(self).system_prompt@),
    {
        self.mode = Mode::SystemPromptEdit;
        let cs = chars_of(self.system_prompt.as_str());
        let parts = lines_of(cs.as_slice());
        let mut ls: Vec<String> = Vec::new();
        let mut i: usize = 0;
        while i < parts.len()
            invariant
                i <= parts.len(),
                strings_view(ls@) == crate::text::views(parts@).take(i as int),
            decreases parts.len() - i,
        {
            let ghost prev = strings_view(ls@);
            let line = string_of(parts[i].as_slice());
            assert(line@ == crate::text::views(parts@)[i as int]);
            ls.push(line);
            assert(strings_view(ls@) =~= prev.push(line@));
            assert(crate::text::views(parts@).take(i + 1) =~= crate::text::views(parts@).take(i as int).push(line@));
            i = i + 1;
        }
        assert(crate::text::views(parts@).take(parts.len() as int) =~= crate::text::views(parts@));
        let mut effects: Vec<Effect> = Vec::new();
        effects.push(Effect::LoadSystemPromptEditor(ls));
        effects
    }

    /// Takes a new system prompt and returns to typing.
    pub fn on_update_system_prompt(&mut self, prompt: String)
        ensures
            *final(self) == (App { system_prompt: prompt, mode: Mode::Insert, ..*old(self) }),
    {
        self.system_prompt = prompt;
        self.mode = Mode::Insert;
    }

    /// Scrolls by `delta` lines (see `post_scroll`).
    pub fn on_scroll(&mut self, delta: i16)
        requires
            delta != i16::MIN,
        ensures
            post_scroll(*old(self), *final(self), delta as int),
    {
        self.vertical_scroll = scroll_by(self.vertical_scroll, delta);
        self.auto_scroll = false;
        if self.mode == Mode::ToolConfirmation {
            self.tool_scroll = scroll_by(self.tool_scroll, delta);
        }
    }

    /// Saves the session, then quits.
    pub fn on_prepare_quit(&self) -> (effects: Vec<Effect>)
        ensures
            effects@ == seq![Effect::SaveSession, Effect::Send(Action::Quit)],
    {
        let mut effects: Vec<Effect> = Vec::new();
        effects.push(Effect::SaveSession);
        effects.push(Effect::Send(Action::Quit));
        effects
    }
}


/// What `App::update` requires of an event: the token estimates it refreshes fit,
/// a reply can start, and a selection, scroll or highlight has somewhere to move.
pub open spec fn update_ok(o: App, action: Action, env: Environment) -> bool {
    let sys = env.system_context@;
    match action {
        Action::AddUserMessage(m) => add_user_message_ok(o, m@),
        Action::AddAiToken(t) => add_ai_token_ok(o, t@, sys),
        Action::AddToolCall(c) => add_tool_call_ok(o, c@),
        Action::RequestAiResponse => request_ok(o, sys),
        Action::MoveSelection(d) => d != i16::MIN,
        Action::Scroll(d) => d != i16::MIN,
        Action::UpdateModelContextLimit(_) => context_usage(o, sys) <= usize::MAX,
        Action::SummaryReady(s, c) => summary_ready_ok(o, s@, c, sys),
        Action::RagContextReady(_) => o.selected_model < o.models@.len() && reserved_tokens(o, sys) <= usize::MAX,
        Action::UserInput(k) => key_ok(o, k),
        _ => true,
    }
}

/// What `App::update` does with each event: whether the screen is to be drawn
/// again (for every event but drawing, resizing and quitting), the new state, and
/// the effects, as the event's handler states them.
pub open spec fn post_update(o: App, n: App, action: Action, env: Environment, redraw: bool, effs: Seq<Effect>) -> bool {
    let sys = env.system_context@;
    match action {
        Action::Render => !redraw && n == o && effs.len() == 0,
        Action::Resize(_, _) => !redraw && n == o && effs.len() == 0,
        Action::Quit => !redraw && n == o && effs.len() == 0,
        Action::Error(e) => redraw && post_error(o, n, e@) && effs.len() == 0,
        Action::UserInput(k) => redraw && post_key(
            o,
            n,
            k,
            strings_view(env.system_prompt_lines@),
            strings_view(env.session_lines@),
            strings_view(env.pull_lines@),
            effs,
        ),
        Action::LoadModels => redraw && n == (App { loading: true, ..o }) && effs == seq![Effect::ListModels],
        Action::ModelsLoaded(ms) => redraw && post_models_loaded(o, n, strings_view(ms@), effs),
        Action::EnterModelSelect => redraw && n == (App { mode: Mode::ModelSelect, ..o }) && effs.len() == 0,
        Action::SendMessage => redraw && n == o && post_send_message(strings_view(env.input_lines@), effs),
        Action::AddUserMessage(m) => redraw && post_add_user_message(o, n, m@, effs),
        Action::AddAiToken(t) => redraw && post_add_ai_token(o, n, t@, sys, effs),
        Action::AddToolCall(c) => redraw && post_add_tool_call(o, n, c@, env.tools@, effs),
        Action::AddToolOutput(name, out) => redraw && post_add_tool_output(o, n, name@, out@, effs),
        Action::RequestAiResponse => redraw && post_request_ai_response(o, n, sys, effs),
        Action::AiResponseComplete => redraw && post_ai_response_complete(o, n, effs),
        Action::SwitchMode(m) => redraw && n == (App { mode: m, ..o }) && effs.len() == 0,
        Action::ClearHistory => {
            &&& redraw
            &&& n == (App {
                messages: n.messages,
                current_response_buffer: n.current_response_buffer,
                vertical_scroll: 0,
                ..o
            })
            &&& n.messages@.len() == 0
            &&& n.current_response_buffer@.len() == 0
            &&& effs == seq![Effect::SaveSession]
        },
        Action::UpdateSystemPrompt(p) => redraw && n == (App { system_prompt: p, mode: Mode::Insert, ..o }) && effs.len() == 0,
        Action::EnterSystemPromptEdit => {
            &&& redraw
            &&& n == (App { mode: Mode::SystemPromptEdit, ..o })
            &&& effs.len() == 1
            &&& (effs[0] matches Effect::LoadSystemPromptEditor(ls) && strings_view(ls@) == lines(o.system_prompt@))
        },
        Action::Scroll(d) => redraw && post_scroll(o, n, d as int) && effs.len() == 0,
        Action::EnterSessionSelect => {
            &&& redraw
            &&& n == (App { mode: Mode::SessionSelect, ..o })
            &&& effs == seq![Effect::ListSessions, Effect::Resume(Continuation::SelectCurrentSession)]
        },
        Action::SelectSession(name) => redraw && n == (App { mode: Mode::Insert, ..o }) && effs == seq![Effect::LoadSession(name)],
        Action::EnterSessionCreate => {
            &&& redraw
            &&& n == (App { mode: Mode::SessionCreate, ..o })
            &&& effs == seq![Effect::ResetEditor(Editor::Session)]
        },
        Action::CreateSession(name) => redraw && post_create_session(o, n, name@, effs),
        Action::DeleteSession(name) => {
            &&& redraw
            &&& n == o
            &&& effs == seq![
                Effect::RemoveSessionFile(name),
                Effect::ListSessions,
                Effect::Resume(Continuation::FinishDeleteSession(name)),
            ]
        },
        Action::SessionsLoaded(_) => redraw && n == o && effs.len() == 0,
        Action::EnterModelPull => {
            &&& redraw
            &&& n == (App { mode: Mode::ModelPullInput, ..o })
            &&& effs == seq![Effect::ResetEditor(Editor::Pull)]
        },
        Action::StartPullModel(name) => redraw && post_start_pull_model(o, n, name@, effs),
        Action::PullProgress(st, c, t) => redraw && post_pull_progress(o, n, st@, c, t) && effs.len() == 0,
        Action::DeleteModel(name) => redraw && n == (App { loading: true, ..o }) && effs == seq![Effect::RemoveModel(name)],
        Action::PrepareQuit => redraw && n == o && effs == seq![Effect::SaveSession, Effect::Send(Action::Quit)],
        Action::ConfirmToolExecution => redraw && post_confirm_tool(o, n, env.tools@, effs),
        Action::DenyToolExecution => redraw && post_deny_tool(o, n, effs),
        Action::CancelGeneration => redraw && post_cancel_generation(o, n, effs),
        Action::CopyMessage => redraw && n == o && post_copy_message(o, effs),
        Action::MoveSelection(d) => redraw && post_move_selection(o, n, d as int) && effs.len() == 0,
        Action::UpdateModelContextLimit(l) => {
            &&& redraw
            &&& n == (App { model_context_limit: Some(l), current_token_usage: n.current_token_usage, ..o })
            &&& n.current_token_usage as nat == context_usage(o, sys)
            &&& effs.len() == 0
        },
        Action::SummaryReady(s, c) => redraw && post_summary_ready(o, n, s@, c, sys) && effs.len() == 0,
        Action::RagContextReady(ctx) => {
            &&& redraw
            &&& n == o
            &&& is_generation(effs, o, with_rag_context(context_window(o, sys), opt_view(ctx)))
        },
        Action::GeolocationReady(l) => redraw && post_geolocation_ready(o, n, l@, effs),
        Action::ShowStatus(m) => redraw && n == (App { notification: Some(m), ..o }) && effs == seq![Effect::StampNotification],
        Action::TriggerAutoNaming => redraw && n == o && post_trigger_auto_naming(o, effs),
        Action::RenameSession(name) => redraw && n == o && effs == seq![Effect::RenameSessionFile(name)],
    }
}

/// Only drawing the screen, resizing it and quitting ask for no new frame, and
/// they leave the application as it was and carry out nothing; every other
/// event is handled and asks for a new frame.
pub proof fn lemma_only_drawing_events_skip_redraw(
    o: App,
    n: App,
    action: Action,
    env: Environment,
    redraw: bool,
    effs: Seq<Effect>,
)
    requires
        post_update(o, n, action, env, redraw, effs),
    ensures
        !redraw <==> (action is Render || action is Resize || action is Quit),
        !redraw ==> n == o && effs.len() == 0,
{
}

/// The shortcuts: in every mode Ctrl+l clears the history, Ctrl+s edits the
/// system prompt and Ctrl+r manages the sessions; while chatting (typing or
/// browsing, the help not shown) Ctrl+o selects a model and F1 shows the help;
/// Esc leaves typing for browsing, `i` goes back to typing and `q` quits.
/// A shortcut queues just its action and changes nothing else (F1 only shows the
/// help).
pub proof fn lemma_shortcuts(o: App, n: App, key: KeyInput, env: Environment, redraw: bool, effs: Seq<Effect>)
    requires
        post_update(o, n, Action::UserInput(key), env, redraw, effs),
    ensures
        redraw,
        key.ctrl && key.code == KeyCode::Char('l') ==> n == o && effs == seq![Effect::Send(Action::ClearHistory)],
        key.ctrl && key.code == KeyCode::Char('s') ==> n == o && effs == seq![
            Effect::Send(Action::EnterSystemPromptEdit),
        ],
        key.ctrl && key.code == KeyCode::Char('r') ==> n == o && effs == seq![
            Effect::Send(Action::EnterSessionSelect),
        ],
        !o.show_help && (o.mode == Mode::Insert || o.mode == Mode::Normal) ==> {
            &&& key.ctrl && key.code == KeyCode::Char('o') ==> n == o && effs == seq![
                Effect::Send(Action::EnterModelSelect),
            ]
            &&& key.code == KeyCode::F(1) ==> n == (App { show_help: true, ..o }) && effs.len() == 0
        },
        !o.show_help && o.mode == Mode::Insert && key.code == KeyCode::Esc ==> n == o && effs == seq![
            Effect::Send(Action::SwitchMode(Mode::Normal)),
        ],
        !o.show_help && o.mode == Mode::Normal && key.code == KeyCode::Char('i') ==> n == o && effs == seq![
            Effect::Send(Action::SwitchMode(Mode::Insert)),
        ],
        !o.show_help && o.mode == Mode::Normal && key.code == KeyCode::Char('q') ==> n == o && effs == seq![
            Effect::Send(Action::PrepareQuit),
        ],
{
}

/// While a tool call waits for confirmation (and the help is not shown), `y` or
/// `Y` confirms it and `n`, `N` or Esc denies it: the press queues exactly that
/// answer and changes nothing else.
pub proof fn lemma_tool_confirmation_keys(
    o: App,
    n: App,
    key: KeyInput,
    env: Environment,
    redraw: bool,
    effs: Seq<Effect>,
)
    requires
        o.mode == Mode::ToolConfirmation,
        !o.show_help,
        post_update(o, n, Action::UserInput(key), env, redraw, effs),
    ensures
        key.code == KeyCode::Char('y') || key.code == KeyCode::Char('Y') ==> {
            &&& n == o
            &&& effs == seq![Effect::Send(Action::ConfirmToolExecution)]
        },
        key.code == KeyCode::Char('n') || key.code == KeyCode::Char('N') || key.code == KeyCode::Esc ==> {
            &&& n == o
            &&& effs == seq![Effect::Send(Action::DenyToolExecution)]
        },
{
}

impl App {
    /// Takes an event to its handler (see `post_update`): returns whether to draw
    /// the screen again, and the effects to carry out in order.
    #[verifier::rlimit(80)]
    #[verifier::spinoff_prover]
    pub fn update(&mut self, action: Action, env: &Environment) -> (r: (bool, Vec<Effect>))
        requires
            update_ok(*old(self), action, *env),
        ensures
            post_update(*old(self), *final(self), action, *env, r.0, r.1@),
    {
        let sys = env.system_context.as_str();
        match action {
            Action::Render => (false, Vec::new()),
            Action::Resize(_, _) => (false, Vec::new()),
            Action::Quit => (false, Vec::new()),
            Action::Error(e) => {
                self.on_error(e);
                (true, Vec::new())
            },
            Action::UserInput(k) => (true, self.on_key(
                k,
                env.system_prompt_lines.as_slice(),
                env.session_lines.as_slice(),
                env.pull_lines.as_slice(),
            )),
            Action::LoadModels => (true, self.on_load_models()),
            Action::ModelsLoaded(ms) => (true, self.on_models_loaded(ms)),
            Action::EnterModelSelect => {
                self.on_enter_model_select();
                (true, Vec::new())
            },
            Action::SendMessage => (true, self.on_send_message(env.input_lines.as_slice())),
            Action::AddUserMessage(m) => (true, self.on_add_user_message(m)),
            Action::AddAiToken(t) => (true, self.on_add_ai_token(t, sys)),
            Action::AddToolCall(c) => (true, self.on_add_tool_call(c, env.tools.as_slice())),
            Action::AddToolOutput(name, out) => (true, self.on_add_tool_output(name, out)),
            Action::RequestAiResponse => (true, self.request_ai_response(sys)),
            Action::AiResponseComplete => (true, self.on_ai_response_complete()),
            Action::SwitchMode(m) => {
                self.on_switch_mode(m);
                (true, Vec::new())
            },
            Action::ClearHistory => (true, self.on_clear_history()),
            Action::UpdateSystemPrompt(p) => {
                self.on_update_system_prompt(p);
                (true, Vec::new())
            },
            Action::EnterSystemPromptEdit => (true, self.on_enter_system_prompt_edit()),
            Action::Scroll(d) => {
                self.on_scroll(d);
                (true, Vec::new())
            },
            Action::EnterSessionSelect => (true, self.on_enter_session_select()),
            Action::SelectSession(name) => {
                let effs = self.on_select_session(name);
                assert(effs@ =~= seq![effs@[0]]);
                (true, effs)
            },
            Action::EnterSessionCreate => (true, self.on_enter_session_create()),
            Action::CreateSession(name) => (true, self.on_create_session(name.as_str())),
            Action::DeleteSession(name) => {
                let effs = self.on_delete_session(name);
                assert(effs@ =~= seq![effs@[0], effs@[1], effs@[2]]);
                (true, effs)
            },
            Action::SessionsLoaded(_) => (true, Vec::new()),
            Action::EnterModelPull => (true, self.on_enter_model_pull()),
            Action::StartPullModel(name) => (true, self.on_start_pull_model(name)),
            Action::PullProgress(st, c, t) => {
                self.on_pull_progress(st, c, t);
                (true, Vec::new())
            },
            Action::DeleteModel(name) => (true, self.on_delete_model(name)),
            Action::PrepareQuit => (true, self.on_prepare_quit()),
            Action::ConfirmToolExecution => (true, self.on_confirm_tool(env.tools.as_slice())),
            Action::DenyToolExecution => (true, self.on_deny_tool()),
            Action::CancelGeneration => (true, self.on_cancel_generation()),
            Action::CopyMessage => (true, self.on_copy_message()),
            Action::MoveSelection(d) => {
                self.on_move_selection(d);
                (true, Vec::new())
            },
            Action::UpdateModelContextLimit(l) => {
                self.on_update_model_context_limit(l, sys);
                (true, Vec::new())
            },
            Action::SummaryReady(s, c) => {
                self.on_summary_ready(s, c, sys);
                (true, Vec::new())
            },
            Action::RagContextReady(ctx) => (true, self.start_generation(ctx, sys)),
            Action::GeolocationReady(l) => (true, self.on_geolocation_ready(l)),
            Action::ShowStatus(m) => (true, self.on_show_status(m)),
            Action::TriggerAutoNaming => (true, self.on_trigger_auto_naming()),
            Action::RenameSession(name) => (true, self.on_rename_session(name)),
        }
    }
}


/// The estimated tokens of the messages from `start` on, when they fit in a
/// `usize` (see `tokens_from`).
pub fn checked_tokens_from(ms: &[ChatMessage], start: usize) -> (r: Option<usize>)
    ensures
        match r {
            Some(v) => v as nat == tokens_from(ms@, start as int),
            None => tokens_from(ms@, start as int) > usize::MAX,
        },
{
    if start >= ms.len() {
        return Some(0);
    }
    let ghost sub = ms@.subrange(start as int, ms.len() as int);
    let mut total: usize = 0;
    let mut k: usize = start;
    assert(sub.take(0) =~= Seq::<ChatMessage>::empty());
    while k < ms.len()
        invariant
            start <= k <= ms.len(),
            sub == ms@.subrange(start as int, ms.len() as int),
            total as nat == messages_tokens(sub.take(k - start)),
        decreases ms.len() - k,
    {
        assert(sub.take(k - start + 1).drop_last() =~= sub.take(k - start));
        assert(sub.take(k - start + 1).last() == ms@[k as int]);
        let t: usize = ms[k].content.as_str().len() / 4 + 4;
        match total.checked_add(t) {
            Some(v) => total = v,
            None => {
                proof { crate::context::lemma_messages_tokens_prefix(sub, k - start + 1); }
                return None;
            },
        }
        k = k + 1;
    }
    assert(sub.take(ms.len() - start) =~= sub);
    Some(total)
}

/// `a + b` when it fits in a `usize`.
fn add_within(a: Option<usize>, b: usize) -> (r: Option<usize>)
    ensures
        match a {
            Some(x) => match r {
                Some(v) => v == x + b,
                None => x + b > usize::MAX,
            },
            None => r is None,
        },
{
    match a {
        Some(x) => x.checked_add(b),
        None => None,
    }
}

/// The estimated tokens of a text (see `text_tokens`).
fn tokens_of(s: &str) -> (r: usize)
    ensures
        r as nat == text_tokens(s@),
{
    s.len() / 4 + 4
}

/// The estimated tokens of what the model is sent, when they fit in a `usize`
/// (see `context_usage`).
pub fn checked_context_usage(app: &App, sys: &str) -> (r: Option<usize>)
    ensures
        match r {
            Some(v) => v as nat == context_usage(*app, sys@),
            None => context_usage(*app, sys@) > usize::MAX,
        },
{
    let base: usize = tokens_of(app.system_prompt.as_str()) + tokens_of(sys);
    let (summary, start): (usize, usize) = match &app.conversation_summary {
        Some(s) => (tokens_of(s.as_str()) + 10, app.summarized_count),
        None => (0, 0),
    };
    let rest = checked_tokens_from(app.messages.as_slice(), start);
    match rest {
        Some(x) => add_within(add_within(Some(base), summary), x),
        None => None,
    }
}

/// A text holding `a` followed by `b`.
fn concat(a: &str, b: &str) -> (r: String)
    ensures
        r@ == a@ + b@,
{
    let mut t: Vec<char> = chars_of(a);
    append_str(&mut t, b);
    string_of(t.as_slice())
}

/// Whether the text of a reply with a tool call fits the estimate (see
/// `add_tool_call_ok`).
fn tool_call_fits(app: &App, name: &str) -> (r: bool)
    ensures
        r == (ends_with_assistant(app.messages@) ==> messages_tokens(app.messages@)
            + str_len(app.messages@.last().content@ + tool_call_note(name@)) <= usize::MAX),
{
    let n = app.messages.len();
    if n == 0 || !crate::text::str_eq(app.messages[n - 1].role.as_str(), "assistant") {
        return true;
    }
    let mut t: Vec<char> = chars_of(app.messages[n - 1].content.as_str());
    append_str(&mut t, "\n> **Tool Call:** `");
    append_str(&mut t, name);
    append_str(&mut t, "`");
    let text = string_of(t.as_slice());
    assert(text@ =~= app.messages@.last().content@ + tool_call_note(name@));
    let total = checked_tokens_from(app.messages.as_slice(), 0);
    proof {
        if app.messages@.len() > 0 {
            assert(app.messages@.subrange(0, app.messages@.len() as int) =~= app.messages@);
        }
    }
    add_within(total, text.as_str().len()).is_some()
}

/// Whether `App::update` may take `action` now (see `update_ok`); the program
/// fails where this does not hold, as a run on such an event would.
pub fn update_allowed(app: &App, action: &Action, env: &Environment) -> (r: bool)
    ensures
        r == update_ok(*app, *action, *env),
{
    let sys = env.system_context.as_str();
    match action {
        Action::AddUserMessage(m) => {
            let len = app.messages.len();
            if len >= app.max_history_messages && len == 0 {
                return false;
            }
            let total = checked_tokens_from(app.messages.as_slice(), 0);
            proof {
                if len > 0 {
                    assert(app.messages@.subrange(0, len as int) =~= app.messages@);
                }
            }
            add_within(total, tokens_of(m.as_str())).is_some()
        },
        Action::AddAiToken(t) => {
            let usage = checked_context_usage(app, sys);
            let text = concat(app.current_response_buffer.as_str(), t.as_str());
            let k = tokens_of(text.as_str());
            match k.checked_add(k) {
                Some(kk) => add_within(usage, kk).is_some(),
                None => false,
            }
        },
        Action::AddToolCall(c) => {
            app.consecutive_tool_calls < usize::MAX && tool_call_fits(app, c.function.name.as_str())
        },
        Action::RequestAiResponse => {
            if app.models.len() == 0 || crate::chat::earlier_user_exists(app) {
                return true;
            }
            app.selected_model < app.models.len() && reserved_within(app, sys)
        },
        Action::MoveSelection(d) => *d != i16::MIN,
        Action::Scroll(d) => *d != i16::MIN,
        Action::UpdateModelContextLimit(_) => checked_context_usage(app, sys).is_some(),
        Action::SummaryReady(s, c) => {
            let base: usize = tokens_of(app.system_prompt.as_str()) + tokens_of(sys);
            let with_summary = add_within(Some(base), tokens_of(s.as_str()) + 10);
            match checked_tokens_from(app.messages.as_slice(), *c) {
                Some(x) => add_within(with_summary, x).is_some(),
                None => false,
            }
        },
        Action::RagContextReady(_) => app.selected_model < app.models.len() && reserved_within(app, sys),
        Action::UserInput(k) => {
            let special = (key_char(*k, 'l') || key_char(*k, 's') || key_char(*k, 'r')) && k.ctrl;
            if special || app.show_help || app.mode != Mode::SessionSelect || app.available_sessions.len() > 0 {
                return true;
            }
            let up = k.code == crate::app::KeyCode::Up || key_char(*k, 'k');
            let down = k.code == crate::app::KeyCode::Down || key_char(*k, 'j');
            let up_ok = !up || app.session_selected != Some(0usize);
            let down_ok = !down || app.session_selected.is_none();
            up_ok && down_ok
        },
        _ => true,
    }
}

/// Whether the key is the character `c`.
fn key_char(key: KeyInput, c: char) -> (r: bool)
    ensures
        r == crate::keys::is_char(key, c),
{
    match key.code {
        crate::app::KeyCode::Char(x) => x == c,
        _ => false,
    }
}

/// Whether the reserved tokens fit in a `usize` (see `reserved_tokens`).
fn reserved_within(app: &App, sys: &str) -> (r: bool)
    ensures
        r == (reserved_tokens(*app, sys@) <= usize::MAX),
{
    let base: usize = tokens_of(app.system_prompt.as_str()) + tokens_of(sys);
    let summary: usize = match &app.conversation_summary {
        Some(s) => tokens_of(s.as_str()) + 10,
        None => 0,
    };
    add_within(add_within(Some(base), summary), 512).is_some()
}

} // verus!
