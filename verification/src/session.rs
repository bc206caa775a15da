//! Sessions (saved conversations) and models: listing, selecting, creating,
//! deleting and renaming sessions; loading, pulling and deleting models.
use vstd::prelude::*;
use crate::app::{Action, App, Continuation, Editor, Effect, Mode};
use crate::chat::{context_usage, model_or_default};
use crate::context::{messages_tokens, ContextManager};
use crate::ollama::{
    messages_view, plain_message, requests_view, strings_view, ChatMessage, ChatMessageRequest,
    MessageView,
};
use crate::text::{
    append_str, chars_of, is_blank, is_blank_chars, str_eq, string_of, trim, trim_chars,
};

verus! {

broadcast use vstd::seq_lib::to_multiset_insert;

/// Whether `a` comes before `b` or equals it, comparing character by character
/// by code point (the order of `String`, since UTF-8 keeps code point order).
pub open spec fn text_le(a: Seq<char>, b: Seq<char>) -> bool
    decreases a.len(),
{
    if a.len() == 0 {
        true
    } else if b.len() == 0 {
        false
    } else if a[0] != b[0] {
        (a[0] as u32) < (b[0] as u32)
    } else {
        text_le(a.drop_first(), b.drop_first())
    }
}

pub proof fn lemma_text_le_total(a: Seq<char>, b: Seq<char>)
    ensures
        text_le(a, b) || text_le(b, a),
    decreases a.len(),
{
    if a.len() > 0 && b.len() > 0 {
        if a[0] == b[0] {
            lemma_text_le_total(a.drop_first(), b.drop_first());
        } else {
            vstd::utf8::char_u32_cast(a[0], a[0] as u32);
            vstd::utf8::char_u32_cast(b[0], b[0] as u32);
        }
    }
}

pub proof fn lemma_text_le_transitive(a: Seq<char>, b: Seq<char>, c: Seq<char>)
    requires
        text_le(a, b),
        text_le(b, c),
    ensures
        text_le(a, c),
    decreases a.len(),
{
    if a.len() > 0 && b.len() > 0 && c.len() > 0 && a[0] == b[0] && b[0] == c[0] {
        lemma_text_le_transitive(a.drop_first(), b.drop_first(), c.drop_first());
    }
}

/// Whether the texts are in order.
pub open spec fn texts_sorted(s: Seq<Seq<char>>) -> bool {
    forall|i: int, j: int| 0 <= i < j < s.len() ==> text_le(#[trigger] s[i], #[trigger] s[j])
}

/// Whether `a` comes before `b` or equals it (see `text_le`).
pub fn str_le(a: &str, b: &str) -> (r: bool)
    ensures
        r == text_le(a@, b@),
{
    let x = chars_of(a);
    let y = chars_of(b);
    let mut i: usize = 0;
    assert(x@.skip(0) =~= x@);
    assert(y@.skip(0) =~= y@);
    while i < x.len() && i < y.len() && x[i] == y[i]
        invariant
            i <= x.len(),
            i <= y.len(),
            x@ == a@,
            y@ == b@,
            text_le(a@, b@) == text_le(x@.skip(i as int), y@.skip(i as int)),
        decreases x.len() - i,
    {
        assert(x@.skip(i as int).drop_first() =~= x@.skip(i + 1));
        assert(y@.skip(i as int).drop_first() =~= y@.skip(i + 1));
        i = i + 1;
    }
    if i == x.len() {
        assert(x@.skip(i as int).len() == 0);
        true
    } else if i == y.len() {
        false
    } else {
        assert(x@.skip(i as int)[0] == x@[i as int]);
        assert(y@.skip(i as int)[0] == y@[i as int]);
        (x[i] as u32) < (y[i] as u32)
    }
}

/// `names` in order (see `text_le`).
pub fn sort_names(names: Vec<String>) -> (r: Vec<String>)
    ensures
        texts_sorted(strings_view(r@)),
        strings_view(r@).to_multiset() == strings_view(names@).to_multiset(),
{
    let mut r: Vec<String> = Vec::new();
    let mut k: usize = 0;
    assert(strings_view(r@) =~= strings_view(names@).take(0));
    while k < names.len()
        invariant
            k <= names.len(),
            texts_sorted(strings_view(r@)),
            strings_view(r@).to_multiset() == strings_view(names@).take(k as int).to_multiset(),
        decreases names.len() - k,
    {
        let x = names[k].clone();
        let ghost xs = strings_view(r@);
        let mut p: usize = r.len();
        while p > 0 && !str_le(r[p - 1].as_str(), x.as_str())
            invariant
                p <= r.len(),
                xs == strings_view(r@),
                forall|q: int| p <= q < r.len() ==> !text_le(#[trigger] xs[q], x@),
            decreases p,
        {
            p = p - 1;
        }
        r.insert(p, x);
        let ghost ys = strings_view(r@);
        assert(ys =~= xs.insert(p as int, x@));
        assert forall|i: int, j: int| 0 <= i < j < ys.len() implies text_le(#[trigger] ys[i], #[trigger] ys[j]) by {
            if j == p {
                if i < p - 1 {
                    lemma_text_le_transitive(xs[i], xs[p - 1], x@);
                }
            } else if i == p {
                lemma_text_le_total(x@, xs[j - 1]);
            } else if i < p && j > p {
                if i < p - 1 {
                    lemma_text_le_transitive(xs[i], xs[p - 1], x@);
                }
                lemma_text_le_total(x@, xs[j - 1]);
                lemma_text_le_transitive(xs[i], x@, xs[j - 1]);
            }
        }
        assert(strings_view(names@).take(k + 1) =~= strings_view(names@).take(k as int).push(x@));
        assert(strings_view(names@).take(k as int).push(x@) =~= strings_view(names@).take(k as int).insert(k as int, x@));
        k = k + 1;
    }
    assert(strings_view(names@).take(names.len() as int) =~= strings_view(names@));
    r
}

/// The sessions as listed: in order, or the default one alone when there are none.
pub open spec fn listed_sessions(names: Seq<Seq<char>>, r: Seq<Seq<char>>) -> bool {
    if names.len() == 0 {
        r == seq!["default"@]
    } else {
        texts_sorted(r) && r.to_multiset() == names.to_multiset()
    }
}

/// The index of the first of `names` equal to `name`.
pub open spec fn first_index(names: Seq<Seq<char>>, name: Seq<char>) -> Option<int>
    decreases names.len(),
{
    if names.len() == 0 {
        None
    } else if names[0] == name {
        Some(0)
    } else {
        match first_index(names.drop_first(), name) {
            Some(i) => Some(i + 1),
            None => None,
        }
    }
}

/// The index of the first of `names` equal to `name` (see `first_index`).
pub fn position(names: &[String], name: &str) -> (r: Option<usize>)
    ensures
        match first_index(strings_view(names@), name@) {
            Some(i) => r == Some(i as usize),
            None => r is None,
        },
{
    let mut i: usize = names.len();
    let mut found: Option<usize> = None;
    while i > 0
        invariant
            i <= names.len(),
            match first_index(strings_view(names@).skip(i as int), name@) {
                Some(j) => found == Some((j + i) as usize),
                None => found is None,
            },
        decreases i,
    {
        assert(strings_view(names@).skip(i - 1).drop_first() =~= strings_view(names@).skip(i as int));
        if str_eq(names[i - 1].as_str(), name) {
            found = Some(i - 1);
        }
        i = i - 1;
    }
    assert(strings_view(names@).skip(0) =~= strings_view(names@));
    found
}

/// Whether std's `char::is_alphanumeric` holds of `c`.
pub uninterp spec fn spec_is_alphanumeric(c: char) -> bool;

/// std's `char::is_alphanumeric`: whether `c` is alphabetic or numeric in the
/// Unicode sense.
#[verifier::external_body]
pub(crate) fn is_alphanumeric(c: char) -> (r: bool)
    ensures
        r == spec_is_alphanumeric(c),
{
    c.is_alphanumeric()
}

/// Whether `c` may stand in a session's name as it is.
pub open spec fn name_char(c: char) -> bool {
    let n = c as u32;
    if n < 128 {
        (0x30 <= n <= 0x39) || (0x41 <= n <= 0x5A) || (0x61 <= n <= 0x7A) || c == '_' || c == '-'
    } else {
        spec_is_alphanumeric(c)
    }
}

/// Whether `c` may stand in a session name (see `name_char`): ASCII letters and
/// digits, `_` and `-` are checked here (they are std's ASCII alphanumerics),
/// other characters by std's `char::is_alphanumeric`.
fn is_name_char(c: char) -> (r: bool)
    ensures
        r == name_char(c),
{
    let n = c as u32;
    if n < 128 {
        (0x30 <= n && n <= 0x39) || (0x41 <= n && n <= 0x5A) || (0x61 <= n && n <= 0x7A) || c == '_' || c == '-'
    } else {
        is_alphanumeric(c)
    }
}

/// The name of a new session: the text trimmed, each character that may not
/// stand in a name replaced by `_`.
pub open spec fn safe_session_name(name: Seq<char>) -> Seq<char> {
    trim(name).map_values(|c: char| if name_char(c) { c } else { '_' })
}

/// A new session's name holds only characters that may stand in a name
/// (letters and digits, `_` and `-`), one for each character of the trimmed text:
/// never a path separator or a dot, so it names a file inside the sessions'
/// directory.
pub proof fn lemma_session_names_are_safe(name: Seq<char>)
    ensures
        safe_session_name(name).len() == trim(name).len(),
        forall|i: int| 0 <= i < safe_session_name(name).len() ==> name_char(#[trigger] safe_session_name(name)[i]),
        forall|i: int| 0 <= i < safe_session_name(name).len() ==> {
            let c = #[trigger] safe_session_name(name)[i];
            c != '/' && c != '.' && c != '\\'
        },
{
    assert forall|i: int| 0 <= i < safe_session_name(name).len() implies {
        let c = #[trigger] safe_session_name(name)[i];
        c != '/' && c != '.' && c != '\\'
    } by {
        let c = safe_session_name(name)[i];
        assert(name_char(c));
        assert(('/' as u32) == 0x2F && ('.' as u32) == 0x2E && ('\\' as u32) == 0x5C);
    }
}

/// The characters a reply's character leaves in a session name: a space becomes
/// `_`, a character that may stand in a name stays, any other is dropped.
pub open spec fn reply_name_chars(s: Seq<char>) -> Seq<char>
    decreases s.len(),
{
    if s.len() == 0 {
        Seq::empty()
    } else {
        let c = s.last();
        let rest = reply_name_chars(s.drop_last());
        if c == ' ' {
            rest.push('_')
        } else if name_char(c) {
            rest.push(c)
        } else {
            rest
        }
    }
}

/// The name taken from the model's reply: at most fifty of the characters the
/// trimmed reply leaves (see `reply_name_chars`).
pub open spec fn name_from_reply(reply: Seq<char>) -> Seq<char> {
    let all = reply_name_chars(trim(reply));
    if all.len() <= 50 { all } else { all.take(50) }
}

/// The session name the model's reply gives, if any is left once cleaned (see
/// `name_from_reply`).
pub fn session_name_from_reply(reply: &str) -> (r: Option<String>)
    ensures
        match r {
            Some(n) => n@ == name_from_reply(reply@) && n@.len() > 0,
            None => name_from_reply(reply@).len() == 0,
        },
{
    let cs = chars_of(reply);
    let t = trim_chars(cs.as_slice());
    let mut out: Vec<char> = Vec::new();
    let mut i: usize = 0;
    while i < t.len() && out.len() < 50
        invariant
            i <= t.len(),
            out@.len() <= 50,
            out@ == reply_name_chars(t@.take(i as int)),
            t@ == trim(reply@),
        decreases t.len() - i,
    {
        let c = t[i];
        assert(t@.take(i + 1).drop_last() =~= t@.take(i as int));
        if c == ' ' {
            out.push('_');
        } else if is_name_char(c) {
            out.push(c);
        }
        i = i + 1;
    }
    proof {
        lemma_reply_name_chars_prefix(t@, i as int);
        if i == t.len() {
            assert(t@.take(i as int) =~= t@);
        }
    }
    if out.len() == 0 {
        None
    } else {
        Some(string_of(out.as_slice()))
    }
}

/// Taking more of the text never takes back characters already produced.
pub proof fn lemma_reply_name_chars_prefix(s: Seq<char>, i: int)
    requires
        0 <= i <= s.len(),
    ensures
        reply_name_chars(s.take(i)).len() <= reply_name_chars(s).len(),
        reply_name_chars(s).take(reply_name_chars(s.take(i)).len() as int) == reply_name_chars(s.take(i)),
    decreases s.len() - i,
{
    if i < s.len() {
        lemma_reply_name_chars_prefix(s, i + 1);
        assert(s.take(i + 1).drop_last() =~= s.take(i));
        let a = reply_name_chars(s.take(i));
        let b = reply_name_chars(s.take(i + 1));
        assert(b.take(a.len() as int) =~= a);
        assert(reply_name_chars(s).take(b.len() as int).take(a.len() as int) =~= reply_name_chars(s).take(a.len() as int));
    } else {
        assert(s.take(i) =~= s);
        assert(reply_name_chars(s).take(reply_name_chars(s).len() as int) =~= reply_name_chars(s));
    }
}


/// State after the sessions were listed: unchanged when listing failed (`None`),
/// else the listed names (see `listed_sessions`).
pub open spec fn post_sessions_listed(o: App, n: App, listing: Option<Seq<Seq<char>>>) -> bool {
    match listing {
        None => n == o,
        Some(names) => {
            &&& n == App { available_sessions: n.available_sessions, ..o }
            &&& listed_sessions(names, strings_view(n.available_sessions@))
        },
    }
}

/// The session list's highlight once the current session is looked up: on it
/// when listed, else on the first.
pub open spec fn current_session_highlight(o: App) -> Option<usize> {
    match first_index(strings_view(o.available_sessions@), o.current_session@) {
        Some(i) => Some(i as usize),
        None => Some(0),
    }
}

/// The highlight kept within the list: past the end it moves to the last entry
/// (to the first when the list is empty).
pub open spec fn clamped_highlight(sel: Option<usize>, len: nat) -> Option<usize> {
    match sel {
        Some(i) if i >= len => Some((if len > 0 { len - 1 } else { 0 }) as usize),
        _ => sel,
    }
}

/// Effect and state of `resume`.
pub open spec fn post_resume(o: App, n: App, step: Continuation, effs: Seq<Effect>) -> bool {
    match step {
        Continuation::SelectCurrentSession => {
            &&& n == App { session_selected: current_session_highlight(o), ..o }
            &&& effs.len() == 0
        },
        Continuation::FinishDeleteSession(name) => {
            &&& n == o
            &&& if o.available_sessions@.len() == 0 {
                &&& effs.len() == 4
                &&& (effs[0] matches Effect::LoadSession(d) && d@ == "default"@)
                &&& effs[1] == Effect::SaveSession
                &&& effs[2] == Effect::ListSessions
                &&& effs[3] == Effect::Resume(Continuation::ClampSessionSelection)
            } else if o.current_session@ == name@ {
                &&& effs.len() == 2
                &&& (effs[0] matches Effect::LoadSession(f) && f@ == o.available_sessions@[0]@)
                &&& effs[1] == Effect::Resume(Continuation::ClampSessionSelection)
            } else {
                effs == seq![Effect::Resume(Continuation::ClampSessionSelection)]
            }
        },
        Continuation::ClampSessionSelection => {
            &&& n == App {
                session_selected: clamped_highlight(o.session_selected, o.available_sessions@.len()),
                ..o
            }
            &&& effs.len() == 0
        },
    }
}

/// Effect and state of `on_create_session`: the session named by the cleaned
/// text (see `safe_session_name`) is opened and saved at once, unless that name
/// is empty; the mode returns to typing.
pub open spec fn post_create_session(o: App, n: App, name: Seq<char>, effs: Seq<Effect>) -> bool {
    let safe = safe_session_name(name);
    &&& n == App { mode: Mode::Insert, ..o }
    &&& if safe.len() == 0 {
        effs.len() == 0
    } else {
        &&& effs.len() == 2
        &&& (effs[0] matches Effect::LoadSession(s) && s@ == safe)
        &&& effs[1] == Effect::SaveSession
    }
}

/// The state once the session `name` was read: its messages (none when it could
/// not be read), the view at the top or following the end when there are
/// messages, no reply under way, and the token estimate of the messages.
pub open spec fn post_session_loaded(o: App, n: App, name: Seq<char>, loaded: Option<Seq<ChatMessage>>) -> bool {
    let ms = match loaded {
        Some(m) => m,
        None => Seq::empty(),
    };
    &&& n == App {
        current_session: n.current_session,
        messages: n.messages,
        vertical_scroll: 0,
        current_response_buffer: n.current_response_buffer,
        auto_scroll: if ms.len() > 0 { true } else { o.auto_scroll },
        current_token_usage: n.current_token_usage,
        ..o
    }
    &&& n.current_session@ == name
    &&& n.messages@ == ms
    &&& n.current_response_buffer@.len() == 0
    &&& n.current_token_usage as nat == messages_tokens(ms)
}

/// State after a rename of the session's file: on success the session takes the
/// new name, with a notification and the sessions listed again; else an error.
pub open spec fn post_session_renamed(o: App, n: App, renamed: Option<Seq<char>>, effs: Seq<Effect>) -> bool {
    match renamed {
        Some(stem) => {
            &&& n == App { current_session: n.current_session, notification: n.notification, ..o }
            &&& n.current_session@ == stem
            &&& (n.notification matches Some(t) && t@ == "Renamed session to: "@ + stem)
            &&& effs == seq![Effect::StampNotification, Effect::ListSessions]
        },
        None => {
            &&& n == App { error: n.error, ..o }
            &&& (n.error matches Some(t) && t@ == "Failed to rename session file"@)
            &&& effs.len() == 0
        },
    }
}

/// The prompt that asks the model for a session name.
pub open spec fn naming_prompt() -> Seq<char> {
    "Summarize the above conversation into a concise file-safe title (max 4-6 words, use underscores/hyphens instead of spaces, NO extension, NO special chars). Return ONLY the title string."@
}

/// The conversation as it is sent for naming: each message's role and text, then
/// the naming prompt.
pub open spec fn naming_request(ms: Seq<ChatMessage>) -> Seq<MessageView> {
    ms.map_values(|m: ChatMessage| plain_message(m.role@, m.content@)).push(plain_message("user"@, naming_prompt()))
}

/// Effect of `on_trigger_auto_naming`: with messages, the model is asked for a
/// name for the session.
pub open spec fn post_trigger_auto_naming(o: App, effs: Seq<Effect>) -> bool {
    if o.messages@.len() == 0 {
        effs.len() == 0
    } else {
        effs.len() == 1 && match effs[0] {
            Effect::StartAutoNaming { model, messages } =>
                model@ == model_or_default(o) && requests_view(messages@) == naming_request(o.messages@),
            _ => false,
        }
    }
}

impl App {
    /// Takes the listed sessions, `None` when the listing failed (see
    /// `post_sessions_listed`).
    pub fn on_sessions_listed(&mut self, listing: Option<Vec<String>>)
        ensures
            post_sessions_listed(*old(self), *final(self), match listing {
                Some(v) => Some(strings_view(v@)),
                None => None,
            }),
    {
        match listing {
            None => {},
            Some(names) => {
                if names.len() == 0 {
                    let mut d: Vec<String> = Vec::new();
                    d.push(String::from_str("default"));
                    assert(strings_view(d@) =~= seq!["default"@]);
                    self.available_sessions = d;
                } else {
                    self.available_sessions = sort_names(names);
                }
            },
        }
    }

    /// Continues a decision once the effects before it are done (see `post_resume`).
    pub fn resume(&mut self, step: Continuation) -> (effects: Vec<Effect>)
        ensures
            post_resume(*old(self), *final(self), step, effects@),
    {
        let mut effects: Vec<Effect> = Vec::new();
        match step {
            Continuation::SelectCurrentSession => {
                let sel = match position(self.available_sessions.as_slice(), self.current_session.as_str()) {
                    Some(i) => i,
                    None => 0,
                };
                self.session_selected = Some(sel);
            },
            Continuation::FinishDeleteSession(name) => {
                if self.available_sessions.len() == 0 {
                    effects.push(Effect::LoadSession(String::from_str("default")));
                    effects.push(Effect::SaveSession);
                    effects.push(Effect::ListSessions);
                } else if str_eq(self.current_session.as_str(), name.as_str()) {
                    effects.push(Effect::LoadSession(self.available_sessions[0].clone()));
                }
                effects.push(Effect::Resume(Continuation::ClampSessionSelection));
                proof {
                    if old(self).available_sessions@.len() != 0 && old(self).current_session@ != name@ {
                        assert(effects@ =~= seq![Effect::Resume(Continuation::ClampSessionSelection)]);
                    }
                }
            },
            Continuation::ClampSessionSelection => {
                let len = self.available_sessions.len();
                match self.session_selected {
                    Some(i) => {
                        if i >= len {
                            self.session_selected = Some(if len > 0 { len - 1 } else { 0 });
                        }
                    },
                    None => {},
                }
            },
        }
        effects
    }

    /// Opens the session list (the current session highlighted once listed).
    pub fn on_enter_session_select(&mut self) -> (effects: Vec<Effect>)
        ensures
            *final(self) == (App { mode: Mode::SessionSelect, ..*old(self) }),
            effects@ == seq![Effect::ListSessions, Effect::Resume(Continuation::SelectCurrentSession)],
    {
        self.mode = Mode::SessionSelect;
        let mut effects: Vec<Effect> = Vec::new();
        effects.push(Effect::ListSessions);
        effects.push(Effect::Resume(Continuation::SelectCurrentSession));
        effects
    }

    /// Opens the input for a new session's name.
    pub fn on_enter_session_create(&mut self) -> (effects: Vec<Effect>)
        ensures
            *final(self) == (App { mode: Mode::SessionCreate, ..*old(self) }),
            effects@ == seq![Effect::ResetEditor(Editor::Session)],
    {
        self.mode = Mode::SessionCreate;
        let mut effects: Vec<Effect> = Vec::new();
        effects.push(Effect::ResetEditor(Editor::Session));
        effects
    }

    /// Creates a session (see `post_create_session`).
    pub fn on_create_session(&mut self, name: &str) -> (effects: Vec<Effect>)
        ensures
            post_create_session(*old(self), *final(self), name@, effects@),
    {
        let cs = chars_of(name);
        let t = trim_chars(cs.as_slice());
        let mut safe: Vec<char> = Vec::new();
        let mut i: usize = 0;
        while i < t.len()
            invariant
                i <= t.len(),
                t@ == trim(name@),
                safe@ == t@.take(i as int).map_values(|c: char| if name_char(c) { c } else { '_' }),
            decreases t.len() - i,
        {
            let c = t[i];
            if is_name_char(c) {
                safe.push(c);
            } else {
                safe.push('_');
            }
            assert(safe@ =~= t@.take(i + 1).map_values(|c: char| if name_char(c) { c } else { '_' }));
            i = i + 1;
        }
        assert(t@.take(t.len() as int) =~= t@);
        let mut effects: Vec<Effect> = Vec::new();
        if safe.len() > 0 {
            effects.push(Effect::LoadSession(string_of(safe.as_slice())));
            effects.push(Effect::SaveSession);
        }
        self.mode = Mode::Insert;
        effects
    }

    /// Opens the named session.
    pub fn on_select_session(&mut self, name: String) -> (effects: Vec<Effect>)
        ensures
            *final(self) == (App { mode: Mode::Insert, ..*old(self) }),
            effects@.len() == 1,
            effects@[0] == Effect::LoadSession(name),
    {
        self.mode = Mode::Insert;
        let mut effects: Vec<Effect> = Vec::new();
        effects.push(Effect::LoadSession(name));
        effects
    }

    /// Deletes the named session's file, lists the sessions again and then opens
    /// another session where needed (see `Continuation::FinishDeleteSession`).
    pub fn on_delete_session(&self, name: String) -> (effects: Vec<Effect>)
        ensures
            effects@.len() == 3,
            effects@[0] == Effect::RemoveSessionFile(name),
            effects@[1] == Effect::ListSessions,
            effects@[2] == Effect::Resume(Continuation::FinishDeleteSession(name)),
    {
        let mut effects: Vec<Effect> = Vec::new();
        effects.push(Effect::RemoveSessionFile(name.clone()));
        effects.push(Effect::ListSessions);
        effects.push(Effect::Resume(Continuation::FinishDeleteSession(name)));
        effects
    }

    /// Takes a session read from disk, `None` when it could not be read (see
    /// `post_session_loaded`).
    pub fn on_session_loaded(&mut self, name: String, loaded: Option<Vec<ChatMessage>>)
        requires
            match loaded {
                Some(m) => messages_tokens(m@) <= usize::MAX,
                None => true,
            },
        ensures
            post_session_loaded(*old(self), *final(self), name@, match loaded {
                Some(m) => Some(m@),
                None => None,
            }),
    {
        self.current_session = name;
        self.vertical_scroll = 0;
        self.current_response_buffer = String::new();
        match loaded {
            Some(ms) => {
                if ms.len() > 0 {
                    self.auto_scroll = true;
                }
                self.messages = ms;
            },
            None => {
                self.messages = Vec::new();
            },
        }
        self.current_token_usage = ContextManager::estimate_token_count(self.messages.as_slice());
    }

    /// Asks the model for a name for the session (see `post_trigger_auto_naming`).
    pub fn on_trigger_auto_naming(&self) -> (effects: Vec<Effect>)
        ensures
            post_trigger_auto_naming(*self, effects@),
    {
        let mut effects: Vec<Effect> = Vec::new();
        if self.messages.len() == 0 {
            return effects;
        }
        let model = if self.selected_model < self.models.len() {
            self.models[self.selected_model].clone()
        } else {
            String::from_str("llama2")
        };
        let ghost target = self.messages@.map_values(|m: ChatMessage| plain_message(m.role@, m.content@));
        let mut reqs: Vec<ChatMessageRequest> = Vec::new();
        let mut i: usize = 0;
        while i < self.messages.len()
            invariant
                i <= self.messages.len(),
                target == self.messages@.map_values(|m: ChatMessage| plain_message(m.role@, m.content@)),
                requests_view(reqs@) == target.take(i as int),
            decreases self.messages.len() - i,
        {
            let ghost prev = requests_view(reqs@);
            let r = ChatMessageRequest::plain(self.messages[i].role.as_str(), self.messages[i].content.clone());
            assert(r@ == target[i as int]);
            reqs.push(r);
            assert(requests_view(reqs@) =~= prev.push(target[i as int]));
            assert(target.take(i + 1) =~= target.take(i as int).push(target[i as int]));
            i = i + 1;
        }
        assert(target.take(self.messages.len() as int) =~= target);
        let ghost prev = requests_view(reqs@);
        let prompt = ChatMessageRequest::plain("user", String::from_str(
            "Summarize the above conversation into a concise file-safe title (max 4-6 words, use underscores/hyphens instead of spaces, NO extension, NO special chars). Return ONLY the title string.",
        ));
        reqs.push(prompt);
        assert(requests_view(reqs@) =~= prev.push(prompt@));
        assert(requests_view(reqs@) =~= naming_request(self.messages@));
        effects.push(Effect::StartAutoNaming { model, messages: reqs });
        effects
    }

    /// Renames the current session's file for `new_name` (answered through
    /// `on_session_renamed`).
    pub fn on_rename_session(&self, new_name: String) -> (effects: Vec<Effect>)
        ensures
            effects@ == seq![Effect::RenameSessionFile(new_name)],
    {
        let mut effects: Vec<Effect> = Vec::new();
        effects.push(Effect::RenameSessionFile(new_name));
        effects
    }

    /// Takes the outcome of renaming the session's file: the new file's name
    /// without extension, or `None` when the rename failed (see
    /// `post_session_renamed`).
    pub fn on_session_renamed(&mut self, renamed: Option<String>) -> (effects: Vec<Effect>)
        ensures
            post_session_renamed(*old(self), *final(self), match renamed {
                Some(s) => Some(s@),
                None => None,
            }, effects@),
    {
        let mut effects: Vec<Effect> = Vec::new();
        match renamed {
            Some(stem) => {
                let mut t: Vec<char> = chars_of("Renamed session to: ");
                append_str(&mut t, stem.as_str());
                self.notification = Some(string_of(t.as_slice()));
                self.current_session = stem;
                effects.push(Effect::StampNotification);
                effects.push(Effect::ListSessions);
                assert(effects@ =~= seq![Effect::StampNotification, Effect::ListSessions]);
            },
            None => {
                self.error = Some(String::from_str("Failed to rename session file"));
            },
        }
        effects
    }
}


/// Effect and state of `on_models_loaded`: the models are taken, waiting ends, and
/// with at least one model the first is selected and its details fetched.
pub open spec fn post_models_loaded(o: App, n: App, models: Seq<Seq<char>>, effs: Seq<Effect>) -> bool {
    &&& strings_view(n.models@) == models
    &&& if models.len() > 0 {
        &&& n == App { loading: false, models: n.models, selected_model: 0, ..o }
        &&& effs.len() == 1
        &&& (effs[0] matches Effect::FetchModelInfo(m) && m@ == models[0])
    } else {
        &&& n == App { loading: false, models: n.models, ..o }
        &&& effs.len() == 0
    }
}

/// Effect and state of `on_start_pull_model`: nothing for a blank name; else the
/// download starts, with its progress shown, and the mode returns to typing.
pub open spec fn post_start_pull_model(o: App, n: App, name: Seq<char>, effs: Seq<Effect>) -> bool {
    if is_blank(name) {
        n == o && effs.len() == 0
    } else {
        &&& n == App { loading: true, pull_progress: n.pull_progress, mode: Mode::Insert, ..o }
        &&& (n.pull_progress matches Some((st, None, None)) && st@ == "Starting download..."@)
        &&& effs.len() == 1
        &&& (effs[0] matches Effect::PullModel(m) && m@ == name)
    }
}

/// State after a progress report of a download: "Done" ends it, anything else is
/// shown.
pub open spec fn post_pull_progress(o: App, n: App, status: Seq<char>, completed: Option<u64>, total: Option<u64>) -> bool {
    if status == "Done"@ {
        n == App { pull_progress: None, loading: false, ..o }
    } else {
        &&& n == App { pull_progress: n.pull_progress, ..o }
        &&& (n.pull_progress matches Some((st, c, t)) && st@ == status && c == completed && t == total)
    }
}

impl App {
    /// Starts fetching the list of models.
    pub fn on_load_models(&mut self) -> (effects: Vec<Effect>)
        ensures
            *final(self) == (App { loading: true, ..*old(self) }),
            effects@ == seq![Effect::ListModels],
    {
        self.loading = true;
        let mut effects: Vec<Effect> = Vec::new();
        effects.push(Effect::ListModels);
        effects
    }

    /// Takes the list of models (see `post_models_loaded`).
    pub fn on_models_loaded(&mut self, models: Vec<String>) -> (effects: Vec<Effect>)
        ensures
            post_models_loaded(*old(self), *final(self), strings_view(models@), effects@),
    {
        self.loading = false;
        self.models = models;
        let mut effects: Vec<Effect> = Vec::new();
        if self.models.len() > 0 {
            self.selected_model = 0;
            effects.push(Effect::FetchModelInfo(self.models[0].clone()));
        }
        effects
    }

    /// Takes the context window of the selected model and refreshes the token
    /// estimate.
    pub fn on_update_model_context_limit(&mut self, limit: usize, system_context: &str)
        requires
            context_usage(*old(self), system_context@) <= usize::MAX,
        ensures
            *final(self) == (App {
                model_context_limit: Some(limit),
                current_token_usage: final(self).current_token_usage,
                ..*old(self)
            }),
            final(self).current_token_usage as nat == context_usage(*old(self), system_context@),
    {
        self.model_context_limit = Some(limit);
        self.current_token_usage = self.calculate_context_usage(system_context);
    }

    /// Opens the model list.
    pub fn on_enter_model_select(&mut self)
        ensures
            *final(self) == (App { mode: Mode::ModelSelect, ..*old(self) }),
    {
        self.mode = Mode::ModelSelect;
    }

    /// Opens the input for the name of a model to download.
    pub fn on_enter_model_pull(&mut self) -> (effects: Vec<Effect>)
        ensures
            *final(self) == (App { mode: Mode::ModelPullInput, ..*old(self) }),
            effects@ == seq![Effect::ResetEditor(Editor::Pull)],
    {
        self.mode = Mode::ModelPullInput;
        let mut effects: Vec<Effect> = Vec::new();
        effects.push(Effect::ResetEditor(Editor::Pull));
        effects
    }

    /// Starts downloading a model (see `post_start_pull_model`).
    pub fn on_start_pull_model(&mut self, name: String) -> (effects: Vec<Effect>)
        ensures
            post_start_pull_model(*old(self), *final(self), name@, effects@),
    {
        let mut effects: Vec<Effect> = Vec::new();
        let cs = chars_of(name.as_str());
        if is_blank_chars(cs.as_slice()) {
            return effects;
        }
        self.loading = true;
        self.pull_progress = Some((String::from_str("Starting download..."), None, None));
        self.mode = Mode::Insert;
        effects.push(Effect::PullModel(name));
        effects
    }

    /// Takes a progress report of a download (see `post_pull_progress`).
    pub fn on_pull_progress(&mut self, status: String, completed: Option<u64>, total: Option<u64>)
        ensures
            post_pull_progress(*old(self), *final(self), status@, completed, total),
    {
        if str_eq(status.as_str(), "Done") {
            self.pull_progress = None;
            self.loading = false;
        } else {
            self.pull_progress = Some((status, completed, total));
        }
    }

    /// Deletes a model, then lists the models again.
    pub fn on_delete_model(&mut self, name: String) -> (effects: Vec<Effect>)
        ensures
            *final(self) == (App { loading: true, ..*old(self) }),
            effects@ == seq![Effect::RemoveModel(name)],
    {
        self.loading = true;
        let mut effects: Vec<Effect> = Vec::new();
        effects.push(Effect::RemoveModel(name));
        effects
    }
}

} // verus!
