//! What each key press does, by mode.
use vstd::prelude::*;
use crate::app::{join_strings, Action, App, Editor, Effect, KeyCode, KeyInput, Mode};
use crate::ollama::strings_view;
use crate::text::join;

verus! {

/// Whether the key is the character `c` (whatever the modifiers).
pub open spec fn is_char(key: KeyInput, c: char) -> bool {
    key.code == KeyCode::Char(c)
}

/// Whether `effs` is the single effect of queueing `a`.
pub open spec fn sends(effs: Seq<Effect>, a: Action) -> bool {
    effs == seq![Effect::Send(a)]
}

/// Keys while typing a message.
pub open spec fn post_key_insert(o: App, n: App, key: KeyInput, effs: Seq<Effect>) -> bool {
    if key.code == KeyCode::Esc {
        n == o && sends(effs, Action::SwitchMode(Mode::Normal))
    } else if key.code == KeyCode::F(1) {
        n == App { show_help: true, ..o } && effs.len() == 0
    } else if key.code == KeyCode::Enter {
        n == o && if key.shift || key.alt {
            effs == seq![Effect::InsertNewline]
        } else {
            sends(effs, Action::SendMessage)
        }
    } else if is_char(key, 'o') && key.ctrl {
        n == o && sends(effs, Action::EnterModelSelect)
    } else if is_char(key, 'c') && key.ctrl {
        n == o && if o.loading { sends(effs, Action::CancelGeneration) } else { effs.len() == 0 }
    } else {
        n == o && effs == seq![Effect::ForwardKey(Editor::Input)]
    }
}

/// Keys while browsing the conversation.
pub open spec fn post_key_normal(o: App, n: App, key: KeyInput, effs: Seq<Effect>) -> bool {
    if is_char(key, 'i') || key.code == KeyCode::Enter {
        n == o && sends(effs, Action::SwitchMode(Mode::Insert))
    } else if is_char(key, 'q') {
        n == o && sends(effs, Action::PrepareQuit)
    } else if is_char(key, 'y') {
        n == o && sends(effs, Action::CopyMessage)
    } else if is_char(key, 'j') || key.code == KeyCode::Down {
        n == o && sends(effs, Action::MoveSelection(1i16))
    } else if is_char(key, 'k') || key.code == KeyCode::Up {
        n == o && sends(effs, Action::MoveSelection(-1i16))
    } else if is_char(key, 'o') && key.ctrl {
        n == o && sends(effs, Action::EnterModelSelect)
    } else if key.code == KeyCode::F(1) {
        n == App { show_help: true, ..o } && effs.len() == 0
    } else if is_char(key, 'c') && key.ctrl {
        n == o && if o.loading { sends(effs, Action::CancelGeneration) } else { effs.len() == 0 }
    } else if key.code == KeyCode::Esc {
        n == App { selected_message_index: None, auto_scroll: false, ..o } && effs.len() == 0
    } else {
        n == o && effs.len() == 0
    }
}

/// Keys in the model list.
pub open spec fn post_key_model_select(o: App, n: App, key: KeyInput, effs: Seq<Effect>) -> bool {
    let len = o.models@.len();
    if key.code == KeyCode::Esc || key.code == KeyCode::Enter {
        n == o && sends(effs, Action::SwitchMode(Mode::Insert))
    } else if key.code == KeyCode::Up || is_char(key, 'k') {
        effs.len() == 0 && n == if o.selected_model > 0 {
            App { selected_model: (o.selected_model - 1) as usize, ..o }
        } else {
            o
        }
    } else if key.code == KeyCode::Down || is_char(key, 'j') {
        effs.len() == 0 && n == if o.selected_model + 1 < len {
            App { selected_model: (o.selected_model + 1) as usize, ..o }
        } else {
            o
        }
    } else if is_char(key, 'p') && !key.ctrl {
        n == o && sends(effs, Action::EnterModelPull)
    } else if is_char(key, 'd') && !key.ctrl {
        n == o && if o.selected_model < len {
            effs.len() == 1 && (effs[0] matches Effect::Send(Action::DeleteModel(m))
                && m@ == o.models@[o.selected_model as int]@)
        } else {
            effs.len() == 0
        }
    } else {
        n == o && effs.len() == 0
    }
}

/// Keys while editing the system prompt: Enter (without Shift) saves the
/// editor's lines joined by newlines.
pub open spec fn post_key_prompt_edit(o: App, n: App, key: KeyInput, lines: Seq<Seq<char>>, effs: Seq<Effect>) -> bool {
    &&& n == o
    &&& if key.code == KeyCode::Esc {
        sends(effs, Action::SwitchMode(Mode::Insert))
    } else if key.code == KeyCode::Enter && !key.shift {
        effs.len() == 1 && (effs[0] matches Effect::Send(Action::UpdateSystemPrompt(p)) && p@ == join(lines, "\n"@))
    } else {
        effs == seq![Effect::ForwardKey(Editor::SystemPrompt)]
    }
}

/// The highlighted session once the highlight moves up: from the first it wraps
/// to the last; with none highlighted, the first.
pub open spec fn session_up(sel: Option<usize>, len: nat) -> Option<usize> {
    match sel {
        Some(i) => Some((if i == 0 { len - 1 } else { i - 1 }) as usize),
        None => Some(0),
    }
}

/// The highlighted session once the highlight moves down: from the last (or
/// beyond) it wraps to the first; with none highlighted, the first.
pub open spec fn session_down(sel: Option<usize>, len: nat) -> Option<usize> {
    match sel {
        Some(i) => Some((if i >= len - 1 { 0 } else { i + 1 }) as usize),
        None => Some(0),
    }
}

/// Keys in the session list.
pub open spec fn post_key_session_select(o: App, n: App, key: KeyInput, effs: Seq<Effect>) -> bool {
    let len = o.available_sessions@.len();
    let chosen = match o.session_selected {
        Some(i) if i < len => Some(o.available_sessions@[i as int]@),
        _ => None,
    };
    if key.code == KeyCode::Esc {
        n == o && sends(effs, Action::SwitchMode(Mode::Insert))
    } else if is_char(key, 'c') && !key.ctrl {
        n == o && sends(effs, Action::EnterSessionCreate)
    } else if is_char(key, 'd') && !key.ctrl {
        n == o && match chosen {
            Some(s) => effs.len() == 1 && (effs[0] matches Effect::Send(Action::DeleteSession(d)) && d@ == s),
            None => effs.len() == 0,
        }
    } else if key.code == KeyCode::Up || is_char(key, 'k') {
        n == App { session_selected: session_up(o.session_selected, len), ..o } && effs.len() == 0
    } else if key.code == KeyCode::Down || is_char(key, 'j') {
        n == App { session_selected: session_down(o.session_selected, len), ..o } && effs.len() == 0
    } else if key.code == KeyCode::Enter {
        n == o && match chosen {
            Some(s) => effs.len() == 1 && (effs[0] matches Effect::Send(Action::SelectSession(d)) && d@ == s),
            None => effs.len() == 0,
        }
    } else {
        n == o && effs.len() == 0
    }
}

/// Keys in a one-line input (a new session's name, a model to download): Esc
/// goes back, Enter submits the lines joined, other keys edit.
pub open spec fn post_key_line_input(o: App, n: App, key: KeyInput, lines: Seq<Seq<char>>, effs: Seq<Effect>) -> bool {
    &&& n == o
    &&& if o.mode == Mode::SessionCreate {
        if key.code == KeyCode::Esc {
            sends(effs, Action::EnterSessionSelect)
        } else if key.code == KeyCode::Enter {
            effs.len() == 1 && (effs[0] matches Effect::Send(Action::CreateSession(s)) && s@ == join(lines, ""@))
        } else {
            effs == seq![Effect::ForwardKey(Editor::Session)]
        }
    } else {
        if key.code == KeyCode::Esc {
            sends(effs, Action::SwitchMode(Mode::ModelSelect))
        } else if key.code == KeyCode::Enter {
            effs.len() == 1 && (effs[0] matches Effect::Send(Action::StartPullModel(s)) && s@ == join(lines, ""@))
        } else {
            effs == seq![Effect::ForwardKey(Editor::Pull)]
        }
    }
}

/// Keys while a tool call waits for confirmation.
pub open spec fn post_key_tool_confirm(o: App, n: App, key: KeyInput, effs: Seq<Effect>) -> bool {
    &&& n == o
    &&& if is_char(key, 'y') || is_char(key, 'Y') {
        sends(effs, Action::ConfirmToolExecution)
    } else if is_char(key, 'n') || is_char(key, 'N') || key.code == KeyCode::Esc {
        sends(effs, Action::DenyToolExecution)
    } else if key.code == KeyCode::Up || is_char(key, 'k') {
        sends(effs, Action::Scroll(-1i16))
    } else if key.code == KeyCode::Down || is_char(key, 'j') {
        sends(effs, Action::Scroll(1i16))
    } else {
        effs.len() == 0
    }
}

/// Effect and state of a key press: Ctrl+L, Ctrl+S and Ctrl+R clear the
/// conversation, edit the system prompt and open the sessions in any mode; while
/// help is shown, Esc, `q` and F1 close it and other keys do nothing; else the
/// mode decides.
pub open spec fn post_key(
    o: App,
    n: App,
    key: KeyInput,
    prompt_lines: Seq<Seq<char>>,
    session_lines: Seq<Seq<char>>,
    pull_lines: Seq<Seq<char>>,
    effs: Seq<Effect>,
) -> bool {
    if is_char(key, 'l') && key.ctrl {
        n == o && sends(effs, Action::ClearHistory)
    } else if is_char(key, 's') && key.ctrl {
        n == o && sends(effs, Action::EnterSystemPromptEdit)
    } else if is_char(key, 'r') && key.ctrl {
        n == o && sends(effs, Action::EnterSessionSelect)
    } else if o.show_help {
        effs.len() == 0 && n == if key.code == KeyCode::Esc || is_char(key, 'q') || key.code == KeyCode::F(1) {
            App { show_help: false, ..o }
        } else {
            o
        }
    } else {
        match o.mode {
            Mode::Insert => post_key_insert(o, n, key, effs),
            Mode::Normal => post_key_normal(o, n, key, effs),
            Mode::ModelSelect => post_key_model_select(o, n, key, effs),
            Mode::SystemPromptEdit => post_key_prompt_edit(o, n, key, prompt_lines, effs),
            Mode::SessionSelect => post_key_session_select(o, n, key, effs),
            Mode::SessionCreate => post_key_line_input(o, n, key, session_lines, effs),
            Mode::ModelPullInput => post_key_line_input(o, n, key, pull_lines, effs),
            Mode::ToolConfirmation => post_key_tool_confirm(o, n, key, effs),
        }
    }
}

/// F1 toggles the help: in the conversation view (typing or browsing), pressing
/// it twice leaves the state as it was, and neither press has anything else to do.
pub proof fn lemma_help_toggles(
    a: App,
    b: App,
    c: App,
    key: KeyInput,
    prompt_lines: Seq<Seq<char>>,
    session_lines: Seq<Seq<char>>,
    pull_lines: Seq<Seq<char>>,
    first: Seq<Effect>,
    second: Seq<Effect>,
)
    requires
        !a.show_help,
        a.mode == Mode::Insert || a.mode == Mode::Normal,
        key.code == KeyCode::F(1),
        post_key(a, b, key, prompt_lines, session_lines, pull_lines, first),
        post_key(b, c, key, prompt_lines, session_lines, pull_lines, second),
    ensures
        b == (App { show_help: true, ..a }),
        c == a,
        first.len() == 0,
        second.len() == 0,
{
}

/// What a key press requires: moving the session highlight needs sessions to
/// move over.
pub open spec fn key_ok(o: App, key: KeyInput) -> bool {
    let special = (is_char(key, 'l') || is_char(key, 's') || is_char(key, 'r')) && key.ctrl;
    (!special && !o.show_help && o.mode == Mode::SessionSelect) ==> {
        &&& (key.code == KeyCode::Up || is_char(key, 'k')) && o.available_sessions@.len() == 0
            ==> o.session_selected != Some(0usize)
        &&& (key.code == KeyCode::Down || is_char(key, 'j')) && o.available_sessions@.len() == 0
            ==> o.session_selected is None
    }
}

/// Whether the key is the character `c`.
fn key_is(key: KeyInput, c: char) -> (r: bool)
    ensures
        r == is_char(key, c),
{
    match key.code {
        KeyCode::Char(k) => k == c,
        _ => false,
    }
}

/// Whether the key is F1.
fn key_is_f1(key: KeyInput) -> (r: bool)
    ensures
        r == (key.code == KeyCode::F(1)),
{
    match key.code {
        KeyCode::F(k) => k == 1,
        _ => false,
    }
}

/// The single effect of queueing `a`.
fn send(a: Action) -> (effs: Vec<Effect>)
    ensures
        sends(effs@, a),
{
    let mut effs: Vec<Effect> = Vec::new();
    effs.push(Effect::Send(a));
    assert(effs@ =~= seq![Effect::Send(a)]);
    effs
}

/// The single given effect.
fn just(e: Effect) -> (effs: Vec<Effect>)
    ensures
        effs@ == seq![e],
{
    let mut effs: Vec<Effect> = Vec::new();
    effs.push(e);
    assert(effs@ =~= seq![e]);
    effs
}

impl App {
    fn key_insert(&mut self, key: KeyInput) -> (effs: Vec<Effect>)
        ensures
            post_key_insert(*old(self), *final(self), key, effs@),
    {
        match key.code {
            KeyCode::Esc => send(Action::SwitchMode(Mode::Normal)),
            KeyCode::F(1) => {
                self.show_help = true;
                Vec::new()
            },
            KeyCode::Enter => {
                if key.shift || key.alt {
                    just(Effect::InsertNewline)
                } else {
                    send(Action::SendMessage)
                }
            },
            _ => {
                if key_is(key, 'o') && key.ctrl {
                    send(Action::EnterModelSelect)
                } else if key_is(key, 'c') && key.ctrl {
                    if self.loading { send(Action::CancelGeneration) } else { Vec::new() }
                } else {
                    just(Effect::ForwardKey(Editor::Input))
                }
            },
        }
    }

    fn key_normal(&mut self, key: KeyInput) -> (effs: Vec<Effect>)
        ensures
            post_key_normal(*old(self), *final(self), key, effs@),
    {
        if key_is(key, 'i') || key.code == KeyCode::Enter {
            send(Action::SwitchMode(Mode::Insert))
        } else if key_is(key, 'q') {
            send(Action::PrepareQuit)
        } else if key_is(key, 'y') {
            send(Action::CopyMessage)
        } else if key_is(key, 'j') || key.code == KeyCode::Down {
            send(Action::MoveSelection(1))
        } else if key_is(key, 'k') || key.code == KeyCode::Up {
            send(Action::MoveSelection(-1))
        } else if key_is(key, 'o') && key.ctrl {
            send(Action::EnterModelSelect)
        } else if key_is_f1(key) {
            self.show_help = true;
            Vec::new()
        } else if key_is(key, 'c') && key.ctrl {
            if self.loading { send(Action::CancelGeneration) } else { Vec::new() }
        } else if key.code == KeyCode::Esc {
            self.selected_message_index = None;
            self.auto_scroll = false;
            Vec::new()
        } else {
            Vec::new()
        }
    }

    fn key_model_select(&mut self, key: KeyInput) -> (effs: Vec<Effect>)
        ensures
            post_key_model_select(*old(self), *final(self), key, effs@),
    {
        let len = self.models.len();
        if key.code == KeyCode::Esc || key.code == KeyCode::Enter {
            send(Action::SwitchMode(Mode::Insert))
        } else if key.code == KeyCode::Up || key_is(key, 'k') {
            if self.selected_model > 0 {
                self.selected_model = self.selected_model - 1;
            }
            Vec::new()
        } else if key.code == KeyCode::Down || key_is(key, 'j') {
            if self.selected_model < len.saturating_sub(1) {
                self.selected_model = self.selected_model + 1;
            }
            Vec::new()
        } else if key_is(key, 'p') && !key.ctrl {
            send(Action::EnterModelPull)
        } else if key_is(key, 'd') && !key.ctrl {
            if self.selected_model < len {
                send(Action::DeleteModel(self.models[self.selected_model].clone()))
            } else {
                Vec::new()
            }
        } else {
            Vec::new()
        }
    }

    fn key_prompt_edit(&self, key: KeyInput, lines: &[String]) -> (effs: Vec<Effect>)
        ensures
            post_key_prompt_edit(*self, *self, key, strings_view(lines@), effs@),
    {
        if key.code == KeyCode::Esc {
            send(Action::SwitchMode(Mode::Insert))
        } else if key.code == KeyCode::Enter && !key.shift {
            send(Action::UpdateSystemPrompt(join_strings(lines, "\n")))
        } else {
            just(Effect::ForwardKey(Editor::SystemPrompt))
        }
    }

    fn key_session_select(&mut self, key: KeyInput) -> (effs: Vec<Effect>)
        requires
            (key.code == KeyCode::Up || is_char(key, 'k')) && old(self).available_sessions@.len() == 0
                ==> old(self).session_selected != Some(0usize),
            (key.code == KeyCode::Down || is_char(key, 'j')) && old(self).available_sessions@.len() == 0
                ==> old(self).session_selected is None,
        ensures
            post_key_session_select(*old(self), *final(self), key, effs@),
    {
        let len = self.available_sessions.len();
        if key.code == KeyCode::Esc {
            send(Action::SwitchMode(Mode::Insert))
        } else if key_is(key, 'c') && !key.ctrl {
            send(Action::EnterSessionCreate)
        } else if key_is(key, 'd') && !key.ctrl {
            match self.session_selected {
                Some(i) => {
                    if i < len {
                        send(Action::DeleteSession(self.available_sessions[i].clone()))
                    } else {
                        Vec::new()
                    }
                },
                None => Vec::new(),
            }
        } else if key.code == KeyCode::Up || key_is(key, 'k') {
            let next: usize = match self.session_selected {
                Some(i) => if i == 0 { len - 1 } else { i - 1 },
                None => 0,
            };
            self.session_selected = Some(next);
            Vec::new()
        } else if key.code == KeyCode::Down || key_is(key, 'j') {
            let next: usize = match self.session_selected {
                Some(i) => if i >= len - 1 { 0 } else { i + 1 },
                None => 0,
            };
            self.session_selected = Some(next);
            Vec::new()
        } else if key.code == KeyCode::Enter {
            match self.session_selected {
                Some(i) => {
                    if i < len {
                        send(Action::SelectSession(self.available_sessions[i].clone()))
                    } else {
                        Vec::new()
                    }
                },
                None => Vec::new(),
            }
        } else {
            Vec::new()
        }
    }

    fn key_line_input(&self, key: KeyInput, lines: &[String]) -> (effs: Vec<Effect>)
        ensures
            post_key_line_input(*self, *self, key, strings_view(lines@), effs@),
    {
        if self.mode == Mode::SessionCreate {
            if key.code == KeyCode::Esc {
                send(Action::EnterSessionSelect)
            } else if key.code == KeyCode::Enter {
                send(Action::CreateSession(join_strings(lines, "")))
            } else {
                just(Effect::ForwardKey(Editor::Session))
            }
        } else {
            if key.code == KeyCode::Esc {
                send(Action::SwitchMode(Mode::ModelSelect))
            } else if key.code == KeyCode::Enter {
                send(Action::StartPullModel(join_strings(lines, "")))
            } else {
                just(Effect::ForwardKey(Editor::Pull))
            }
        }
    }

    fn key_tool_confirm(&self, key: KeyInput) -> (effs: Vec<Effect>)
        ensures
            post_key_tool_confirm(*self, *self, key, effs@),
    {
        if key_is(key, 'y') || key_is(key, 'Y') {
            send(Action::ConfirmToolExecution)
        } else if key_is(key, 'n') || key_is(key, 'N') || key.code == KeyCode::Esc {
            send(Action::DenyToolExecution)
        } else if key.code == KeyCode::Up || key_is(key, 'k') {
            send(Action::Scroll(-1))
        } else if key.code == KeyCode::Down || key_is(key, 'j') {
            send(Action::Scroll(1))
        } else {
            Vec::new()
        }
    }

    /// Handles a key press (see `post_key`); the lines are those of the system
    /// prompt, session name and model name editors.
    pub fn on_key(
        &mut self,
        key: KeyInput,
        prompt_lines: &[String],
        session_lines: &[String],
        pull_lines: &[String],
    ) -> (effects: Vec<Effect>)
        requires
            key_ok(*old(self), key),
        ensures
            post_key(
                *old(self),
                *final(self),
                key,
                strings_view(prompt_lines@),
                strings_view(session_lines@),
                strings_view(pull_lines@),
                effects@,
            ),
    {
        if key_is(key, 'l') && key.ctrl {
            return send(Action::ClearHistory);
        }
        if key_is(key, 's') && key.ctrl {
            return send(Action::EnterSystemPromptEdit);
        }
        if key_is(key, 'r') && key.ctrl {
            return send(Action::EnterSessionSelect);
        }
        if self.show_help {
            if key.code == KeyCode::Esc || key_is(key, 'q') || key_is_f1(key) {
                self.show_help = false;
            }
            return Vec::new();
        }
        match self.mode {
            Mode::Insert => self.key_insert(key),
            Mode::Normal => self.key_normal(key),
            Mode::ModelSelect => self.key_model_select(key),
            Mode::SystemPromptEdit => self.key_prompt_edit(key, prompt_lines),
            Mode::SessionSelect => self.key_session_select(key),
            Mode::SessionCreate => self.key_line_input(key, session_lines),
            Mode::ModelPullInput => self.key_line_input(key, pull_lines),
            Mode::ToolConfirmation => self.key_tool_confirm(key),
        }
    }
}

} // verus!
