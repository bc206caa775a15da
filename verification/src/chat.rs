//! The conversation side of the assistant: messages, the context window sent to
//! the model, generation, summarization and tool calls.
use vstd::prelude::*;
use crate::app::{Action, App, Editor, Effect, Environment, Mode, ToolInfo};
use crate::context::{messages_tokens, summary_prompt, text_tokens, ContextManager};
use crate::ollama::{
    calls_view, copy_messages, messages_view, opt_calls_view, plain_message, requests_view,
    strings_view, ChatMessage, ChatMessageRequest, MessageView, ToolCall, ToolCallView,
};
use vstd::pervasive::VecAdditionalExecFns;
use crate::text::{
    append_str, chars_of, is_blank, is_blank_chars, join, join_chars, str_eq, str_len, string_of,
    views,
};

verus! {

/// The index of the first message the model still sees: with a summary, the
/// messages it covers are left out.
pub open spec fn history_start(app: App) -> int {
    if app.conversation_summary is Some { app.summarized_count as int } else { 0 }
}

/// The estimated tokens of the messages from index `start` on.
pub open spec fn tokens_from(ms: Seq<ChatMessage>, start: int) -> nat {
    if start >= ms.len() { 0 } else { messages_tokens(ms.subrange(start, ms.len() as int)) }
}

/// The estimated tokens of the summary, if there is one.
pub open spec fn summary_tokens(s: Option<String>) -> nat {
    match s {
        Some(x) => text_tokens(x@) + 10,
        None => 0,
    }
}

/// The estimated tokens of the system prompt and the system context.
pub open spec fn system_tokens(app: App, sys: Seq<char>) -> nat {
    text_tokens(app.system_prompt@) + text_tokens(sys)
}

/// The estimated tokens of what the model is sent: system prompt and context, the
/// summary, and the messages after it.
pub open spec fn context_usage(app: App, sys: Seq<char>) -> nat {
    system_tokens(app, sys) + summary_tokens(app.conversation_summary) + tokens_from(app.messages@, history_start(app))
}

/// The context window in force: the model's own, else the configured one.
pub open spec fn effective_limit(app: App) -> nat {
    match app.model_context_limit {
        Some(l) => l as nat,
        None => app.context_token_limit as nat,
    }
}

/// Tokens kept free: system prompt and context, summary, and 512 for the reply.
pub open spec fn reserved_tokens(app: App, sys: Seq<char>) -> nat {
    system_tokens(app, sys) + summary_tokens(app.conversation_summary) + 512
}

/// Tokens left for conversation history.
pub open spec fn history_budget(app: App, sys: Seq<char>) -> nat {
    if effective_limit(app) >= reserved_tokens(app, sys) {
        (effective_limit(app) - reserved_tokens(app, sys)) as nat
    } else {
        0
    }
}

/// How many of the latest messages fit in `budget` tokens, taken newest first,
/// stopping at the first that does not fit or at index `start`.
pub open spec fn kept_count(ms: Seq<ChatMessage>, start: int, budget: nat) -> nat
    decreases ms.len(),
{
    if ms.len() == 0 || ms.len() - 1 < start {
        0
    } else {
        let t = text_tokens(ms.last().content@);
        if t > budget {
            0
        } else {
            1 + kept_count(ms.drop_last(), start, (budget - t) as nat)
        }
    }
}

pub proof fn lemma_kept_count_bound(ms: Seq<ChatMessage>, start: int, budget: nat)
    ensures
        kept_count(ms, start, budget) <= ms.len(),
    decreases ms.len(),
{
    if ms.len() > 0 && ms.len() - 1 >= start {
        let t = text_tokens(ms.last().content@);
        if t <= budget {
            lemma_kept_count_bound(ms.drop_last(), start, (budget - t) as nat);
        }
    }
}

/// What the model is sent: the system prompt with the system context, the
/// summary if there is one, then as many of the latest messages (after those the
/// summary covers) as fit in the budget, oldest first.
pub open spec fn context_window(app: App, sys: Seq<char>) -> Seq<MessageView> {
    let ms = app.messages@;
    let k = kept_count(ms, history_start(app), history_budget(app, sys));
    let recent = messages_view(ms.subrange(ms.len() - k, ms.len() as int));
    let body = match app.conversation_summary {
        Some(s) => seq![plain_message("system"@, "[Previous Conversation Summary]:\n"@ + s@)] + recent,
        None => recent,
    };
    seq![plain_message("system"@, app.system_prompt@ + sys)] + body
}

/// The index of the last message with role `user`.
pub open spec fn last_user(reqs: Seq<MessageView>) -> Option<int>
    decreases reqs.len(),
{
    if reqs.len() == 0 {
        None
    } else if reqs.last().role == "user"@ {
        Some(reqs.len() - 1)
    } else {
        last_user(reqs.drop_last())
    }
}

pub proof fn lemma_last_user_in_range(reqs: Seq<MessageView>)
    ensures
        last_user(reqs) matches Some(i) ==> 0 <= i < reqs.len() && reqs[i].role == "user"@,
    decreases reqs.len(),
{
    if reqs.len() > 0 && reqs.last().role != "user"@ {
        lemma_last_user_in_range(reqs.drop_last());
    }
}

/// `reqs` with `ctx` appended to the content of its last user message.
pub open spec fn with_rag_context(reqs: Seq<MessageView>, ctx: Option<Seq<char>>) -> Seq<MessageView> {
    match ctx {
        None => reqs,
        Some(c) => match last_user(reqs) {
            Some(i) => reqs.update(i, MessageView { content: reqs[i].content + c, ..reqs[i] }),
            None => reqs,
        },
    }
}

/// The content of the last user message among `ms`, if any.
pub open spec fn last_user_content(ms: Seq<ChatMessage>) -> Option<Seq<char>>
    decreases ms.len(),
{
    if ms.len() == 0 {
        None
    } else if ms.last().role@ == "user"@ {
        Some(ms.last().content@)
    } else {
        last_user_content(ms.drop_last())
    }
}

/// Whether the messages end with one from the assistant.
pub open spec fn ends_with_assistant(ms: Seq<ChatMessage>) -> bool {
    ms.len() > 0 && ms.last().role@ == "assistant"@
}

/// Whether the model is still offered tools.
pub open spec fn tools_allowed(app: App) -> bool {
    app.consecutive_tool_calls < app.max_consecutive_tool_calls
}

/// The model currently selected, or the fallback name when there is none.
pub open spec fn model_or_default(app: App) -> Seq<char> {
    if app.selected_model < app.models@.len() {
        app.models@[app.selected_model as int]@
    } else {
        "llama2"@
    }
}

/// Whether `effs` is exactly one request to generate, for the selected model,
/// with `msgs` as the conversation.
pub open spec fn is_generation(effs: Seq<Effect>, app: App, msgs: Seq<MessageView>) -> bool {
    effs.len() == 1 && match effs[0] {
        Effect::StartGeneration { model, messages, use_tools, context_limit } => {
            &&& model@ == app.models@[app.selected_model as int]@
            &&& requests_view(messages@) == msgs
            &&& use_tools == tools_allowed(app)
            &&& context_limit == app.context_token_limit
        },
        _ => false,
    }
}

/// Looks a tool up by name.
pub open spec fn find_tool(tools: Seq<ToolInfo>, name: Seq<char>) -> Option<bool>
    decreases tools.len(),
{
    if tools.len() == 0 {
        None
    } else if tools[0].name@ == name {
        Some(tools[0].requires_confirmation)
    } else {
        find_tool(tools.drop_first(), name)
    }
}

/// The outcome of copying text to the clipboard.
#[derive(Debug, Clone, PartialEq)]
pub enum CopyResult {
    Copied,
    Failed(String),
    Unavailable,
}

impl App {
    /// The estimated tokens of what the model is sent (see `context_usage`).
    pub fn calculate_context_usage(&self, system_context: &str) -> (r: usize)
        requires
            context_usage(*self, system_context@) <= usize::MAX,
        ensures
            r as nat == context_usage(*self, system_context@),
    {
        let sp = self.system_prompt.as_str().len() / 4 + 4;
        let sc = system_context.len() / 4 + 4;
        let summary = match &self.conversation_summary {
            Some(s) => s.as_str().len() / 4 + 4 + 10,
            None => 0,
        };
        let start: usize = if self.conversation_summary.is_some() { self.summarized_count } else { 0 };
        let mut usage: usize = sp + sc + summary;
        if start < self.messages.len() {
            let ghost ms = self.messages@.subrange(start as int, self.messages.len() as int);
            let mut k: usize = start;
            assert(ms.take(0) =~= Seq::<ChatMessage>::empty());
            while k < self.messages.len()
                invariant
                    start <= k <= self.messages.len(),
                    ms == self.messages@.subrange(start as int, self.messages.len() as int),
                    context_usage(*self, system_context@) <= usize::MAX,
                    context_usage(*self, system_context@) == sp + sc + summary + messages_tokens(ms),
                    usage as nat == sp + sc + summary + messages_tokens(ms.take(k - start)),
                decreases self.messages.len() - k,
            {
                assert(ms.take(k - start + 1).drop_last() =~= ms.take(k - start));
                assert(ms.take(k - start + 1).last() == self.messages@[k as int]);
                proof { crate::context::lemma_messages_tokens_prefix(ms, k - start + 1); }
                usage = usage + (self.messages[k].content.as_str().len() / 4 + 4);
                k = k + 1;
            }
            assert(ms.take(self.messages.len() - start) =~= ms);
        }
        usage
    }

    /// The messages to send the model (see `context_window`).
    pub fn build_context_window(&self, system_context: &str) -> (r: Vec<ChatMessageRequest>)
        requires
            reserved_tokens(*self, system_context@) <= usize::MAX,
        ensures
            requests_view(r@) == context_window(*self, system_context@),
    {
        let limit: usize = match self.model_context_limit {
            Some(l) => l,
            None => self.context_token_limit,
        };
        let summary_tokens: usize = match &self.conversation_summary {
            Some(s) => s.as_str().len() / 4 + 4 + 10,
            None => 0,
        };
        let reserved: usize = (self.system_prompt.as_str().len() / 4 + 4) + (system_context.len() / 4 + 4)
            + summary_tokens + 512;
        let available: usize = if limit >= reserved { limit - reserved } else { 0 };
        let start: usize = if self.conversation_summary.is_some() { self.summarized_count } else { 0 };
        let ghost ms = self.messages@;
        let ghost budget = history_budget(*self, system_context@);
        assert(available as nat == budget);
        let mut i: usize = self.messages.len();
        let mut current: usize = 0;
        assert(ms.take(i as int) =~= ms);
        let mut stop = false;
        while !stop && i > 0 && i - 1 >= start
            invariant
                i <= self.messages.len(),
                ms == self.messages@,
                current <= available,
                available as nat == budget,
                kept_count(ms, start as int, budget) == (ms.len() - i)
                    + kept_count(ms.take(i as int), start as int, (budget - current) as nat),
                stop ==> kept_count(ms.take(i as int), start as int, (budget - current) as nat) == 0,
            decreases i + (if stop { 0int } else { 1int }),
        {
            let t: usize = self.messages[i - 1].content.as_str().len() / 4 + 4;
            assert(ms.take(i as int).last() == ms[i - 1]);
            assert(ms.take(i as int).drop_last() =~= ms.take(i - 1));
            assert(t as nat == text_tokens(ms[i - 1].content@));
            if t > available - current {
                stop = true;
            } else {
                assert(kept_count(ms.take(i as int), start as int, (budget - current) as nat)
                    == 1 + kept_count(ms.take(i - 1), start as int, (budget - current - t) as nat));
                current = current + t;
                i = i - 1;
            }
        }
        let ghost k = kept_count(ms, start as int, budget);
        assert(k == ms.len() - i);
        let mut sys_text: Vec<char> = chars_of(self.system_prompt.as_str());
        append_str(&mut sys_text, system_context);
        let mut out: Vec<ChatMessageRequest> = Vec::new();
        out.push(ChatMessageRequest::plain("system", string_of(sys_text.as_slice())));
        match &self.conversation_summary {
            Some(s) => {
                let mut t: Vec<char> = chars_of("[Previous Conversation Summary]:\n");
                append_str(&mut t, s.as_str());
                out.push(ChatMessageRequest::plain("system", string_of(t.as_slice())));
            },
            None => {},
        }
        let ghost head = requests_view(out@);
        let mut j: usize = i;
        assert(messages_view(ms.subrange(i as int, i as int)) =~= Seq::<MessageView>::empty());
        assert(head + Seq::<MessageView>::empty() =~= head);
        while j < self.messages.len()
            invariant
                i <= j <= self.messages.len(),
                ms == self.messages@,
                requests_view(out@) == head + messages_view(ms.subrange(i as int, j as int)),
            decreases self.messages.len() - j,
        {
            let ghost prev = requests_view(out@);
            out.push(self.messages[j].to_request());
            assert(requests_view(out@) =~= prev.push(ms[j as int]@));
            assert(messages_view(ms.subrange(i as int, j + 1)) =~= messages_view(ms.subrange(i as int, j as int)).push(ms[j as int]@));
            j = j + 1;
        }
        assert(requests_view(out@) =~= context_window(*self, system_context@));
        out
    }
}


/// The assistant message a reply starts from.
pub open spec fn empty_reply() -> MessageView {
    plain_message("assistant"@, Seq::empty())
}

/// The messages once a reply is under way: an empty assistant message is added
/// unless the last message already is the assistant's.
pub open spec fn with_reply(ms: Seq<ChatMessage>) -> Seq<MessageView> {
    if ends_with_assistant(ms) {
        messages_view(ms)
    } else {
        messages_view(ms).push(empty_reply())
    }
}

/// The content of the last user message among views `ms`, if any.
pub open spec fn last_user_view(ms: Seq<MessageView>) -> Option<Seq<char>>
    decreases ms.len(),
{
    if ms.len() == 0 {
        None
    } else if ms.last().role == "user"@ {
        Some(ms.last().content)
    } else {
        last_user_view(ms.drop_last())
    }
}

/// Effect and state of `request_ai_response`: with no model, an error; else the
/// assistant is waiting, a reply message is in place, and either the knowledge
/// base is searched for the last user message before the reply, or, with no such
/// message, generation starts at once.
pub open spec fn post_request_ai_response(o: App, n: App, sys: Seq<char>, effs: Seq<Effect>) -> bool {
    if o.models@.len() == 0 {
        &&& n == App { error: n.error, ..o }
        &&& (n.error matches Some(e) && e@ == "No models loaded"@)
        &&& effs.len() == 0
    } else {
        &&& n == App { loading: true, messages: n.messages, current_response_buffer: n.current_response_buffer, ..o }
        &&& messages_view(n.messages@) == with_reply(o.messages@)
        &&& n.current_response_buffer@ == (if ends_with_assistant(o.messages@) { o.messages@.last().content@ } else { Seq::empty() })
        &&& match last_user_view(with_reply(o.messages@).drop_last()) {
            Some(q) => effs.len() == 1 && (effs[0] matches Effect::StartRagSearch(s) && s@ == q),
            None => is_generation(effs, n, context_window(n, sys)),
        }
    }
}

/// What `request_ai_response` requires: where generation starts at once (models
/// are loaded and no earlier user message calls for a knowledge search first),
/// the selected model exists and the reserved tokens fit.
pub open spec fn request_ok(o: App, sys: Seq<char>) -> bool {
    (o.models@.len() > 0 && last_user_view(with_reply(o.messages@).drop_last()) is None)
        ==> o.selected_model < o.models@.len() && reserved_tokens(o, sys) <= usize::MAX
}

/// Whether a reply under way would have an earlier user message to search the
/// knowledge base for (see `last_user_view`).
pub(crate) fn earlier_user_exists(app: &App) -> (r: bool)
    ensures
        r == (last_user_view(with_reply(app.messages@).drop_last()) is Some),
{
    let n = app.messages.len();
    let end: usize = if n > 0 && str_eq(app.messages[n - 1].role.as_str(), "assistant") { n - 1 } else { n };
    let ghost ms = messages_view(app.messages@);
    assert(with_reply(app.messages@).drop_last() =~= ms.take(end as int));
    let mut i: usize = end;
    while i > 0
        invariant
            i <= end <= n,
            n == app.messages.len(),
            ms == messages_view(app.messages@),
            with_reply(app.messages@).drop_last() == ms.take(end as int),
            last_user_view(ms.take(end as int)) == last_user_view(ms.take(i as int)),
        decreases i,
    {
        assert(ms.take(i as int).last() == ms[i - 1]);
        assert(ms.take(i as int).drop_last() =~= ms.take(i - 1));
        assert(ms[i - 1].role == app.messages@[i - 1].role@);
        if str_eq(app.messages[i - 1].role.as_str(), "user") {
            assert(last_user_view(ms.take(i as int)) == Some(ms[i - 1].content));
            return true;
        }
        i = i - 1;
    }
    assert(ms.take(0) =~= Seq::<MessageView>::empty());
    false
}

impl App {
    /// Starts generating a reply from the current context window, with `rag_context`
    /// appended to its last user message.
    pub fn start_generation(&self, rag_context: Option<String>, system_context: &str) -> (effects: Vec<Effect>)
        requires
            self.selected_model < self.models@.len(),
            reserved_tokens(*self, system_context@) <= usize::MAX,
        ensures
            is_generation(effects@, *self, with_rag_context(
                context_window(*self, system_context@), crate::ollama::opt_view(rag_context))),
    {
        let mut msgs = self.build_context_window(system_context);
        let ghost base = requests_view(msgs@);
        match rag_context {
            Some(ctx) => {
                let mut i: usize = msgs.len();
                let mut found = false;
                proof { lemma_last_user_in_range(base); }
                assert(base.take(i as int) =~= base);
                while !found && i > 0
                    invariant
                        i <= msgs.len(),
                        base == requests_view(msgs@),
                        !found ==> last_user(base) == last_user(base.take(i as int)),
                        found ==> i < msgs.len() && last_user(base) == Some(i as int),
                    decreases i + (if found { 0int } else { 1int }),
                {
                    assert(base.take(i as int).last() == msgs@[i - 1]@);
                    assert(base.take(i as int).drop_last() =~= base.take(i - 1));
                    if str_eq(msgs[i - 1].role.as_str(), "user") {
                        found = true;
                        i = i - 1;
                    } else {
                        i = i - 1;
                    }
                }
                if found {
                    let mut m = ChatMessageRequest::plain("user", String::new());
                    msgs.set_and_swap(i, &mut m);
                    let mut text: Vec<char> = chars_of(m.content.as_str());
                    append_str(&mut text, ctx.as_str());
                    m.content = string_of(text.as_slice());
                    msgs.set_and_swap(i, &mut m);
                    assert(requests_view(msgs@) =~= with_rag_context(base, Some(ctx@)));
                } else {
                    assert(base.take(0) =~= Seq::<MessageView>::empty());
                }
            },
            None => {},
        }
        let model = self.models[self.selected_model].clone();
        let use_tools = self.consecutive_tool_calls < self.max_consecutive_tool_calls;
        let mut effects: Vec<Effect> = Vec::new();
        effects.push(Effect::StartGeneration {
            model,
            messages: msgs,
            use_tools,
            context_limit: self.context_token_limit,
        });
        effects
    }

    /// Prepares a reply (see `post_request_ai_response`).
    pub fn request_ai_response(&mut self, system_context: &str) -> (effects: Vec<Effect>)
        requires
            request_ok(*old(self), system_context@),
        ensures
            post_request_ai_response(*old(self), *final(self), system_context@, effects@),
    {
        if self.models.len() == 0 {
            self.error = Some(String::from_str("No models loaded"));
            return Vec::new();
        }
        self.loading = true;
        let n = self.messages.len();
        if n > 0 && str_eq(self.messages[n - 1].role.as_str(), "assistant") {
            self.current_response_buffer = self.messages[n - 1].content.clone();
        } else {
            let ghost prev = messages_view(self.messages@);
            self.messages.push(ChatMessage::plain("assistant", String::new()));
            self.current_response_buffer = String::new();
            assert(messages_view(self.messages@) =~= prev.push(empty_reply()));
        }
        let ghost ms = messages_view(self.messages@);
        assert(ms == with_reply(old(self).messages@));
        let total = self.messages.len();
        let mut i: usize = total - 1;
        let mut found: Option<usize> = None;
        let ghost earlier = ms.drop_last();
        assert(earlier.take(i as int) =~= earlier);
        while found.is_none() && i > 0
            invariant
                i < total,
                total == self.messages.len(),
                ms == messages_view(self.messages@),
                earlier == ms.drop_last(),
                found is None ==> last_user_view(earlier) == last_user_view(earlier.take(i as int)),
                found matches Some(j) ==> j < total && last_user_view(earlier) == Some(ms[j as int].content),
            decreases i + (if found is None { 1int } else { 0int }),
        {
            assert(earlier.take(i as int).last() == ms[i - 1]);
            assert(earlier.take(i as int).drop_last() =~= earlier.take(i - 1));
            if str_eq(self.messages[i - 1].role.as_str(), "user") {
                found = Some(i - 1);
            } else {
                i = i - 1;
            }
        }
        match found {
            Some(j) => {
                let mut effects: Vec<Effect> = Vec::new();
                effects.push(Effect::StartRagSearch(self.messages[j].content.clone()));
                effects
            },
            None => {
                assert(earlier.take(0) =~= Seq::<MessageView>::empty());
                proof { lemma_reserved_depends(*old(self), *self, system_context@); }
                self.start_generation(None, system_context)
            },
        }
    }
}

/// The reserved tokens do not depend on the messages or the waiting state.
pub proof fn lemma_reserved_depends(a: App, b: App, sys: Seq<char>)
    requires
        a.system_prompt == b.system_prompt,
        a.conversation_summary == b.conversation_summary,
    ensures
        reserved_tokens(a, sys) == reserved_tokens(b, sys),
{
}


/// Effect and state of `trigger_summarization`: with at least four messages, and
/// half of them (rounded down) more than the summary covers, a summary of that
/// older half is requested; otherwise nothing happens (beyond marking that no
/// summary is under way when the history is long enough).
pub open spec fn post_trigger_summarization(o: App, n: App, effs: Seq<Effect>) -> bool {
    let len = o.messages@.len();
    let count = len / 2;
    if len < 4 {
        n == o && effs.len() == 0
    } else if count <= o.summarized_count {
        n == App { is_summarizing: false, ..o } && effs.len() == 0
    } else {
        &&& n == App { is_summarizing: true, ..o }
        &&& effs.len() == 1
        &&& match effs[0] {
            Effect::StartSummary { model, messages, count: c } => {
                &&& model@ == model_or_default(o)
                &&& c == count
                &&& requests_view(messages@) == seq![
                    plain_message("system"@, o.system_prompt@),
                    plain_message("user"@, summary_prompt(o.messages@.take(count as int))),
                ]
            },
            _ => false,
        }
    }
}

/// How many earlier messages are kept beside a new one: one fewer than the
/// history's maximum (none when the maximum is zero).
pub open spec fn history_room(o: App) -> nat {
    if o.max_history_messages > 0 { (o.max_history_messages - 1) as nat } else { 0 }
}

/// The earlier messages kept when a new one is added: the most recent
/// `history_room` of them.
pub open spec fn kept_history(o: App) -> Seq<ChatMessage> {
    let len = o.messages@.len();
    if len > history_room(o) { o.messages@.skip(len - history_room(o)) } else { o.messages@ }
}

/// Effect and state of `on_add_user_message`: the message is added after the
/// most recent earlier ones that leave room for it within the history's maximum
/// (see `kept_history`), the tool-call count reset, the view follows the end,
/// the session saved and a reply requested.
pub open spec fn post_add_user_message(o: App, n: App, msg: Seq<char>, effs: Seq<Effect>) -> bool {
    let kept = kept_history(o);
    &&& n == App {
        consecutive_tool_calls: 0,
        messages: n.messages,
        loading: true,
        auto_scroll: true,
        current_token_usage: n.current_token_usage,
        ..o
    }
    &&& messages_view(n.messages@) == messages_view(kept).push(plain_message("user"@, msg))
    &&& n.current_token_usage as nat == messages_tokens(n.messages@)
    &&& effs == seq![Effect::SaveSession, Effect::Send(Action::RequestAiResponse)]
}

/// What `on_add_user_message` requires: a message can be dropped when the history
/// is full, and the token estimate fits.
pub open spec fn add_user_message_ok(o: App, msg: Seq<char>) -> bool {
    &&& (o.messages@.len() >= o.max_history_messages ==> o.messages@.len() > 0)
    &&& messages_tokens(o.messages@) + text_tokens(msg) <= usize::MAX
}

/// The state after a token: the reply text grows, and the last message shows it
/// when it is the assistant's.
pub open spec fn token_added(o: App, n: App, token: Seq<char>) -> bool {
    let buf = o.current_response_buffer@ + token;
    &&& n.current_response_buffer@ == buf
    &&& if ends_with_assistant(o.messages@) {
        &&& n.messages@.len() == o.messages@.len()
        &&& n.messages@.drop_last() == o.messages@.drop_last()
        &&& n.messages@.last()@ == (MessageView { content: buf, ..o.messages@.last()@ })
    } else {
        n.messages == o.messages
    }
}

/// Effect and state of `on_add_ai_token`: the token is added to the reply, the
/// session saved (at most every two seconds), the token estimate refreshed, and a
/// summary requested when the estimate reaches the threshold.
pub open spec fn post_add_ai_token(o: App, n: App, token: Seq<char>, sys: Seq<char>, effs: Seq<Effect>) -> bool {
    let mid = App { is_summarizing: o.is_summarizing, ..n };
    &&& mid == App {
        messages: mid.messages,
        current_response_buffer: mid.current_response_buffer,
        current_token_usage: mid.current_token_usage,
        ..o
    }
    &&& token_added(o, mid, token)
    &&& mid.current_token_usage as nat == context_usage(mid, sys) + text_tokens(mid.current_response_buffer@)
    &&& if !o.is_summarizing && mid.context_manager.should_summarize_spec(
            mid.current_token_usage as nat, effective_limit(mid)) {
        effs.len() >= 1 && effs[0] == Effect::SaveSessionThrottled
            && post_trigger_summarization(mid, n, effs.drop_first())
    } else {
        n == mid && effs == seq![Effect::SaveSessionThrottled]
    }
}

impl ContextManager {
    /// Whether `current` tokens of a `limit`-token window reach the threshold.
    pub open spec fn should_summarize_spec(&self, current: nat, limit: nat) -> bool {
        self.summarization_enabled && limit != 0
            && current * 1000 >= self.summarization_threshold_permille * limit
    }
}

impl App {
    /// Requests a summary of the older half of the conversation (see
    /// `post_trigger_summarization`).
    pub fn trigger_summarization(&mut self) -> (effects: Vec<Effect>)
        ensures
            post_trigger_summarization(*old(self), *final(self), effects@),
    {
        let len = self.messages.len();
        if len < 4 {
            return Vec::new();
        }
        self.is_summarizing = true;
        let count = len / 2;
        if count <= self.summarized_count {
            self.is_summarizing = false;
            return Vec::new();
        }
        let model = if self.selected_model < self.models.len() {
            self.models[self.selected_model].clone()
        } else {
            String::from_str("llama2")
        };
        let older = &self.messages.as_slice()[0..count];
        assert(older@ =~= self.messages@.take(count as int));
        let prompt = ContextManager::generate_summary_prompt(older);
        let mut reqs: Vec<ChatMessageRequest> = Vec::new();
        reqs.push(ChatMessageRequest::plain("system", self.system_prompt.clone()));
        reqs.push(ChatMessageRequest::plain("user", prompt));
        let ghost rv = requests_view(reqs@);
        assert(rv =~= seq![
            plain_message("system"@, self.system_prompt@),
            plain_message("user"@, summary_prompt(self.messages@.take(count as int))),
        ]);
        let mut effects: Vec<Effect> = Vec::new();
        effects.push(Effect::StartSummary { model, messages: reqs, count });
        effects
    }

    /// Adds the user's message (see `post_add_user_message`).
    pub fn on_add_user_message(&mut self, msg: String) -> (effects: Vec<Effect>)
        requires
            add_user_message_ok(*old(self), msg@),
        ensures
            post_add_user_message(*old(self), *final(self), msg@, effects@),
    {
        self.consecutive_tool_calls = 0;
        let ghost msg_view = msg@;
        let room: usize = if self.max_history_messages > 0 { self.max_history_messages - 1 } else { 0 };
        let ghost start = self.messages@;
        let mut ms: Vec<ChatMessage> = Vec::new();
        std::mem::swap(&mut ms, &mut self.messages);
        while ms.len() > room
            invariant
                room as nat == history_room(*old(self)),
                start == old(self).messages@,
                ms@.len() <= start.len(),
                ms@.len() >= (if start.len() > room { room as nat } else { start.len() }),
                ms@ == start.skip(start.len() - ms@.len()),
                messages_tokens(ms@) <= messages_tokens(start),
            decreases ms.len(),
        {
            let ghost before = ms@;
            ms.remove(0);
            proof {
                lemma_tokens_drop_first(before);
            }
            assert(ms@ =~= before.drop_first());
            assert(before.drop_first() =~= start.skip(start.len() - ms@.len()));
        }
        assert(ms@ == kept_history(*old(self))) by {
            if start.len() <= room {
                assert(start.skip(0) =~= start);
            }
        }
        self.messages = ms;
        let ghost kept = self.messages@;
        self.messages.push(ChatMessage::plain("user", msg));
        assert(messages_view(self.messages@) =~= messages_view(kept).push(plain_message("user"@, msg_view)));
        self.loading = true;
        self.auto_scroll = true;
        proof {
            lemma_tokens_push(kept, self.messages@.last());
            assert(self.messages@ =~= kept.push(self.messages@.last()));
        }
        self.current_token_usage = ContextManager::estimate_token_count(self.messages.as_slice());
        let mut effects: Vec<Effect> = Vec::new();
        effects.push(Effect::SaveSession);
        effects.push(Effect::Send(Action::RequestAiResponse));
        assert(effects@ =~= seq![Effect::SaveSession, Effect::Send(Action::RequestAiResponse)]);
        effects
    }

    /// Appends a streamed token to the reply text, and shows the text in the last
    /// message when that one is the assistant's.
    fn append_reply_token(&mut self, token: &str)
        ensures
            (*final(self) == App {
                messages: final(self).messages,
                current_response_buffer: final(self).current_response_buffer,
                ..*old(self)
            }),
            token_added(*old(self), *final(self), token@),
    {
        let mut buf: Vec<char> = chars_of(self.current_response_buffer.as_str());
        append_str(&mut buf, token);
        self.current_response_buffer = string_of(buf.as_slice());
        let n = self.messages.len();
        if n > 0 && str_eq(self.messages[n - 1].role.as_str(), "assistant") {
            let ghost before = self.messages@;
            let mut last = ChatMessage::plain("assistant", String::new());
            self.messages.set_and_swap(n - 1, &mut last);
            last.content = self.current_response_buffer.clone();
            self.messages.set_and_swap(n - 1, &mut last);
            assert(self.messages@.drop_last() =~= before.drop_last());
        }
    }

    /// Adds a streamed token to the reply (see `post_add_ai_token`).
    #[verifier::rlimit(30)]
    pub fn on_add_ai_token(&mut self, token: String, system_context: &str) -> (effects: Vec<Effect>)
        requires
            add_ai_token_ok(*old(self), token@, system_context@),
        ensures
            post_add_ai_token(*old(self), *final(self), token@, system_context@, effects@),
    {
        self.append_reply_token(token.as_str());
        proof { lemma_add_ai_token_fits(*old(self), *self, token@, system_context@); }
        let usage = self.calculate_context_usage(system_context);
        self.current_token_usage = usage + (self.current_response_buffer.as_str().len() / 4 + 4);
        let ghost mid = *self;
        let mut effects: Vec<Effect> = Vec::new();
        effects.push(Effect::SaveSessionThrottled);
        if !self.is_summarizing {
            let limit = match self.model_context_limit {
                Some(l) => l,
                None => self.context_token_limit,
            };
            if self.context_manager.should_summarize(self.current_token_usage, limit) {
                let mut more = self.trigger_summarization();
                let ghost more_view = more@;
                effects.append(&mut more);
                assert(effects@.drop_first() =~= more_view);
            }
        }
        assert(mid == App { is_summarizing: old(self).is_summarizing, ..*self });
        effects
    }
}


/// What `on_add_ai_token` requires: the token estimate fits.
pub open spec fn add_ai_token_ok(o: App, token: Seq<char>, sys: Seq<char>) -> bool {
    context_usage(o, sys) + 2 * text_tokens(o.current_response_buffer@ + token) <= usize::MAX
}

pub proof fn lemma_tokens_push(ms: Seq<ChatMessage>, m: ChatMessage)
    ensures
        messages_tokens(ms.push(m)) == messages_tokens(ms) + text_tokens(m.content@),
{
    assert(ms.push(m).drop_last() =~= ms);
}

pub proof fn lemma_tokens_drop_first(ms: Seq<ChatMessage>)
    ensures
        ms.len() > 0 ==> messages_tokens(ms) == text_tokens(ms[0].content@) + messages_tokens(ms.drop_first()),
    decreases ms.len(),
{
    if ms.len() > 1 {
        lemma_tokens_drop_first(ms.drop_last());
        assert(ms.drop_last().drop_first() =~= ms.drop_first().drop_last());
        assert(ms.drop_first().last() == ms.last());
    } else if ms.len() == 1 {
        assert(ms.drop_last() =~= Seq::<ChatMessage>::empty());
        assert(ms.drop_first() =~= Seq::<ChatMessage>::empty());
    }
}

/// Replacing the last message changes the estimate by the difference of the two.
pub proof fn lemma_tokens_replace_last(ms: Seq<ChatMessage>, m: ChatMessage)
    requires
        ms.len() > 0,
    ensures
        messages_tokens(ms.update(ms.len() - 1, m)) + text_tokens(ms.last().content@)
            == messages_tokens(ms) + text_tokens(m.content@),
{
    assert(ms.update(ms.len() - 1, m).drop_last() =~= ms.drop_last());
}

pub proof fn lemma_add_ai_token_fits(o: App, mid: App, token: Seq<char>, sys: Seq<char>)
    requires
        add_ai_token_ok(o, token, sys),
        (mid == App { messages: mid.messages, current_response_buffer: mid.current_response_buffer, ..o }),
        token_added(o, mid, token),
    ensures
        context_usage(mid, sys) + text_tokens(mid.current_response_buffer@) <= usize::MAX,
{
    let ms = o.messages@;
    let start = history_start(o);
    if ends_with_assistant(ms) {
        let n = ms.len();
        if 0 <= start < n {
            let a = ms.subrange(start, n as int);
            let b = mid.messages@.subrange(start, n as int);
            assert(b =~= a.update(a.len() - 1, mid.messages@.last())) by {
                assert forall|i: int| 0 <= i < a.len() - 1 implies b[i] == a[i] by {
                    assert(mid.messages@.drop_last()[start + i] == ms.drop_last()[start + i]);
                }
            }
            lemma_tokens_replace_last(a, mid.messages@.last());
        }
    }
}


/// The note added to a reply that was cancelled.
pub open spec fn cancelled_note() -> Seq<char> {
    "\n[Cancelled]"@
}

/// The note added to the reply for a tool call.
pub open spec fn tool_call_note(name: Seq<char>) -> Seq<char> {
    "\n> **Tool Call:** `"@ + name + "`"@
}

/// Effects of `on_send_message`: nothing for blank input, else the input editor
/// is emptied and the text (the editor's lines joined by newlines) is added as
/// the user's message.
pub open spec fn post_send_message(input: Seq<Seq<char>>, effs: Seq<Effect>) -> bool {
    let content = join(input, "\n"@);
    if is_blank(content) {
        effs.len() == 0
    } else {
        &&& effs.len() == 2
        &&& effs[0] == Effect::ResetEditor(Editor::Input)
        &&& (effs[1] matches Effect::Send(Action::AddUserMessage(m)) && m@ == content)
    }
}

/// Effect and state of `on_ai_response_complete`: waiting ends, the session is
/// saved, and the session gets a name from the model when it is still the
/// default one after a first exchange.
pub open spec fn post_ai_response_complete(o: App, n: App, effs: Seq<Effect>) -> bool {
    let name_it = o.enable_session_autonaming && o.current_session@ == "default"@
        && o.messages@.len() <= 2 && o.messages@.len() > 0;
    &&& n == App { loading: false, ..o }
    &&& effs == if name_it {
        seq![Effect::SaveSession, Effect::Send(Action::TriggerAutoNaming)]
    } else {
        seq![Effect::SaveSession]
    }
}

/// Effect and state of `on_cancel_generation`: the generation is stopped, waiting
/// ends, a reply under way is marked as cancelled, and the session is saved.
pub open spec fn post_cancel_generation(o: App, n: App, effs: Seq<Effect>) -> bool {
    &&& n == App { loading: false, messages: n.messages, ..o }
    &&& if ends_with_assistant(o.messages@) {
        &&& n.messages@.len() == o.messages@.len()
        &&& n.messages@.drop_last() == o.messages@.drop_last()
        &&& n.messages@.last()@ == (MessageView {
            content: o.messages@.last().content@ + cancelled_note(),
            ..o.messages@.last()@
        })
    } else {
        n.messages == o.messages
    }
    &&& effs == seq![Effect::AbortGeneration, Effect::SaveSession]
}

/// Effect of `on_copy_message`: the selected message's text goes to the
/// clipboard; with no message selected, nothing happens.
pub open spec fn post_copy_message(o: App, effs: Seq<Effect>) -> bool {
    match o.selected_message_index {
        Some(i) if i < o.messages@.len() =>
            effs.len() == 1 && (effs[0] matches Effect::CopyToClipboard(t) && t@ == o.messages@[i as int].content@),
        _ => effs.len() == 0,
    }
}

/// State after the clipboard answered: on success a notification, the selection
/// cleared and the view following the end; else the error.
pub open spec fn post_copy_result(o: App, n: App, res: CopyResult, effs: Seq<Effect>) -> bool {
    match res {
        CopyResult::Copied => {
            &&& n == App {
                notification: n.notification,
                selected_message_index: None,
                auto_scroll: true,
                ..o
            }
            &&& (n.notification matches Some(t) && t@ == "Copied to clipboard!"@)
            &&& effs == seq![Effect::StampNotification]
        },
        CopyResult::Failed(e) => {
            &&& n == App { error: n.error, ..o }
            &&& (n.error matches Some(t) && t@ == "Failed to copy: "@ + e@)
            &&& effs.len() == 0
        },
        CopyResult::Unavailable => {
            &&& n == App { error: n.error, ..o }
            &&& (n.error matches Some(t) && t@ == "Clipboard not available"@)
            &&& effs.len() == 0
        },
    }
}

/// The message selected after moving by `delta`: from the selected one (the last
/// when none is), down at most to the last message, up at most to the first.
pub open spec fn moved_selection(current: Option<usize>, len: nat, delta: int) -> int {
    let cur: int = match current {
        Some(i) => i as int,
        None => len - 1,
    };
    if delta > 0 {
        if cur + delta < len - 1 { cur + delta } else { len - 1 }
    } else if cur + delta > 0 {
        cur + delta
    } else {
        0
    }
}

/// State after `on_move_selection`.
pub open spec fn post_move_selection(o: App, n: App, delta: int) -> bool {
    if o.messages@.len() == 0 {
        n == App { selected_message_index: None, ..o }
    } else {
        &&& n == App { selected_message_index: n.selected_message_index, auto_scroll: false, ..o }
        &&& (n.selected_message_index matches Some(i)
            && i == moved_selection(o.selected_message_index, o.messages@.len(), delta))
    }
}

impl App {
    /// Sends what was typed (see `post_send_message`).
    pub fn on_send_message(&self, input_lines: &[String]) -> (effects: Vec<Effect>)
        ensures
            post_send_message(strings_view(input_lines@), effects@),
    {
        let content = crate::app::join_strings(input_lines, "\n");
        let cs = chars_of(content.as_str());
        let mut effects: Vec<Effect> = Vec::new();
        if is_blank_chars(cs.as_slice()) {
            return effects;
        }
        effects.push(Effect::ResetEditor(Editor::Input));
        effects.push(Effect::Send(Action::AddUserMessage(content)));
        effects
    }

    /// Ends the reply (see `post_ai_response_complete`).
    pub fn on_ai_response_complete(&mut self) -> (effects: Vec<Effect>)
        ensures
            post_ai_response_complete(*old(self), *final(self), effects@),
    {
        self.loading = false;
        let mut effects: Vec<Effect> = Vec::new();
        effects.push(Effect::SaveSession);
        if self.enable_session_autonaming && str_eq(self.current_session.as_str(), "default")
            && self.messages.len() <= 2 && self.messages.len() > 0 {
            effects.push(Effect::Send(Action::TriggerAutoNaming));
        }
        assert(effects@ =~= if old(self).enable_session_autonaming && old(self).current_session@ == "default"@
            && old(self).messages@.len() <= 2 && old(self).messages@.len() > 0 {
            seq![Effect::SaveSession, Effect::Send(Action::TriggerAutoNaming)]
        } else {
            seq![Effect::SaveSession]
        });
        effects
    }

    /// Cancels the reply under way (see `post_cancel_generation`).
    pub fn on_cancel_generation(&mut self) -> (effects: Vec<Effect>)
        ensures
            post_cancel_generation(*old(self), *final(self), effects@),
    {
        self.loading = false;
        let n = self.messages.len();
        if n > 0 && str_eq(self.messages[n - 1].role.as_str(), "assistant") {
            let ghost before = self.messages@;
            let mut last = ChatMessage::plain("assistant", String::new());
            self.messages.set_and_swap(n - 1, &mut last);
            let mut text: Vec<char> = chars_of(last.content.as_str());
            append_str(&mut text, "\n[Cancelled]");
            last.content = string_of(text.as_slice());
            self.messages.set_and_swap(n - 1, &mut last);
            assert(self.messages@.drop_last() =~= before.drop_last());
        }
        let mut effects: Vec<Effect> = Vec::new();
        effects.push(Effect::AbortGeneration);
        effects.push(Effect::SaveSession);
        assert(effects@ =~= seq![Effect::AbortGeneration, Effect::SaveSession]);
        effects
    }

    /// Copies the selected message (see `post_copy_message`).
    pub fn on_copy_message(&self) -> (effects: Vec<Effect>)
        ensures
            post_copy_message(*self, effects@),
    {
        let mut effects: Vec<Effect> = Vec::new();
        match self.selected_message_index {
            Some(i) => {
                if i < self.messages.len() {
                    effects.push(Effect::CopyToClipboard(self.messages[i].content.clone()));
                }
            },
            None => {},
        }
        effects
    }

    /// Takes the clipboard's answer (see `post_copy_result`).
    pub fn on_copy_result(&mut self, result: CopyResult) -> (effects: Vec<Effect>)
        ensures
            post_copy_result(*old(self), *final(self), result, effects@),
    {
        let mut effects: Vec<Effect> = Vec::new();
        match result {
            CopyResult::Copied => {
                self.notification = Some(String::from_str("Copied to clipboard!"));
                self.selected_message_index = None;
                self.auto_scroll = true;
                effects.push(Effect::StampNotification);
                assert(effects@ =~= seq![Effect::StampNotification]);
            },
            CopyResult::Failed(e) => {
                let mut t: Vec<char> = chars_of("Failed to copy: ");
                append_str(&mut t, e.as_str());
                self.error = Some(string_of(t.as_slice()));
            },
            CopyResult::Unavailable => {
                self.error = Some(String::from_str("Clipboard not available"));
            },
        }
        effects
    }

    /// Moves the message selection by `delta` (see `post_move_selection`).
    pub fn on_move_selection(&mut self, delta: i16)
        requires
            delta != i16::MIN,
        ensures
            post_move_selection(*old(self), *final(self), delta as int),
    {
        let len = self.messages.len();
        if len == 0 {
            self.selected_message_index = None;
            return;
        }
        let current: usize = match self.selected_message_index {
            Some(i) => i,
            None => len - 1,
        };
        let new_idx: usize = if delta > 0 {
            let step: usize = delta as usize;
            let sum: usize = current.saturating_add(step);
            if sum < len - 1 { sum } else { len - 1 }
        } else {
            let step: usize = (0 - delta) as usize;
            current.saturating_sub(step)
        };
        self.selected_message_index = Some(new_idx);
        self.auto_scroll = false;
    }
}


/// The last message with `call` recorded among its tool calls and the note
/// added to its text.
pub open spec fn with_tool_call(m: MessageView, call: ToolCallView) -> MessageView {
    MessageView {
        content: m.content + tool_call_note(call.name),
        tool_calls: Some(match m.tool_calls {
            Some(cs) => cs.push(call),
            None => seq![call],
        }),
        ..m
    }
}

/// Effect and state of `on_add_tool_call`. The count of consecutive tool calls
/// grows. When the reply is under way (the last message is the assistant's), the
/// call is recorded in it and the token estimate refreshed; then a tool that
/// needs confirmation waits for the user (the session is not saved yet), another
/// known tool runs, and an unknown one is answered "Tool not found". In every
/// other case the session is saved.
pub open spec fn post_add_tool_call(o: App, n: App, call: ToolCallView, tools: Seq<ToolInfo>, effs: Seq<Effect>) -> bool {
    if ends_with_assistant(o.messages@) {
        let mid = App {
            consecutive_tool_calls: (o.consecutive_tool_calls + 1) as usize,
            messages: n.messages,
            current_token_usage: n.current_token_usage,
            ..o
        };
        &&& n.messages@.len() == o.messages@.len()
        &&& n.messages@.drop_last() == o.messages@.drop_last()
        &&& n.messages@.last()@ == with_tool_call(o.messages@.last()@, call)
        &&& n.current_token_usage as nat == messages_tokens(n.messages@)
        &&& match find_tool(tools, call.name) {
            Some(true) => {
                &&& n == App {
                    pending_tool_call: n.pending_tool_call,
                    mode: Mode::ToolConfirmation,
                    tool_scroll: 0,
                    loading: false,
                    is_tool_executing: false,
                    ..mid
                }
                &&& (n.pending_tool_call matches Some(c) && c@ == call)
                &&& effs.len() == 0
            },
            Some(false) => {
                &&& n == App { is_tool_executing: true, ..mid }
                &&& effs.len() == 2
                &&& (effs[0] matches Effect::ExecuteTool { call: c, on_timeout: t }
                    && c@ == call && t@ == "Tool timed out after 120 seconds. Try a more specific search path (e.g., ~/Documents instead of ~)."@)
                &&& effs[1] == Effect::SaveSession
            },
            None => {
                &&& n == mid
                &&& effs.len() == 2
                &&& (effs[0] matches Effect::Send(Action::AddToolOutput(name, out))
                    && name@ == call.name && out@ == "Tool not found"@)
                &&& effs[1] == Effect::SaveSession
            },
        }
    } else {
        &&& n == App { consecutive_tool_calls: (o.consecutive_tool_calls + 1) as usize, ..o }
        &&& effs == seq![Effect::SaveSession]
    }
}

/// What `on_add_tool_call` requires: the counts fit.
pub open spec fn add_tool_call_ok(o: App, call: ToolCallView) -> bool {
    &&& o.consecutive_tool_calls < usize::MAX
    &&& ends_with_assistant(o.messages@) ==> messages_tokens(o.messages@)
        + str_len(o.messages@.last().content@ + tool_call_note(call.name)) <= usize::MAX
}

/// Effect and state of `on_confirm_tool`: the pending call, if any, is taken and
/// run (when the tool is still offered), and the assistant waits for its output.
pub open spec fn post_confirm_tool(o: App, n: App, tools: Seq<ToolInfo>, effs: Seq<Effect>) -> bool {
    match o.pending_tool_call {
        Some(call) => {
            &&& n == App {
                pending_tool_call: None,
                loading: true,
                is_tool_executing: true,
                mode: Mode::Insert,
                ..o
            }
            &&& if find_tool(tools, call@.name) is Some {
                effs.len() == 1 && (effs[0] matches Effect::ExecuteTool { call: c, on_timeout: t }
                    && c@ == call@ && t@ == "Tool timed out."@)
            } else {
                effs.len() == 0
            }
        },
        None => n == o && effs.len() == 0,
    }
}

/// Effect and state of `on_deny_tool`: the pending call, if any, is dropped and
/// answered as denied.
pub open spec fn post_deny_tool(o: App, n: App, effs: Seq<Effect>) -> bool {
    match o.pending_tool_call {
        Some(call) => {
            &&& n == App { pending_tool_call: None, mode: Mode::Insert, is_tool_executing: false, ..o }
            &&& effs.len() == 1
            &&& (effs[0] matches Effect::Send(Action::AddToolOutput(name, out))
                && name@ == call@.name && out@ == "Tool execution denied by user."@)
        },
        None => n == o && effs.len() == 0,
    }
}

/// A tool's output as a message of the conversation.
pub open spec fn tool_message(name: Seq<char>, output: Seq<char>) -> MessageView {
    MessageView { tool_name: Some(name), ..plain_message("tool"@, output) }
}

/// Effect and state of `on_add_tool_output`: the output joins the conversation
/// and the knowledge base, and the model is asked to go on.
pub open spec fn post_add_tool_output(o: App, n: App, name: Seq<char>, output: Seq<char>, effs: Seq<Effect>) -> bool {
    &&& n == App { is_tool_executing: false, messages: n.messages, ..o }
    &&& messages_view(n.messages@) == messages_view(o.messages@).push(tool_message(name, output))
    &&& effs.len() == 3
    &&& (effs[0] matches Effect::IngestToolOutput(t) && t@ == output)
    &&& effs[1] == Effect::Send(Action::RequestAiResponse)
    &&& effs[2] == Effect::SaveSession
}

impl App {
    /// Looks a tool up by name among `tools` (see `find_tool`).
    pub fn lookup_tool(tools: &[ToolInfo], name: &str) -> (r: Option<bool>)
        ensures
            r == find_tool(tools@, name@),
    {
        let mut i: usize = tools.len();
        let mut found: Option<bool> = None;
        while i > 0
            invariant
                i <= tools.len(),
                found == (if find_tool(tools@.skip(i as int), name@) is Some {
                    find_tool(tools@.skip(i as int), name@)
                } else {
                    None
                }),
            decreases i,
        {
            assert(tools@.skip(i - 1).drop_first() =~= tools@.skip(i as int));
            if str_eq(tools[i - 1].name.as_str(), name) {
                found = Some(tools[i - 1].requires_confirmation);
            }
            i = i - 1;
        }
        assert(tools@.skip(0) =~= tools@);
        found
    }

    /// Takes a tool call from the model (see `post_add_tool_call`).
    #[verifier::rlimit(40)]
    pub fn on_add_tool_call(&mut self, call: ToolCall, tools: &[ToolInfo]) -> (effects: Vec<Effect>)
        requires
            add_tool_call_ok(*old(self), call@),
        ensures
            post_add_tool_call(*old(self), *final(self), call@, tools@, effects@),
    {
        self.consecutive_tool_calls = self.consecutive_tool_calls + 1;
        let mut effects: Vec<Effect> = Vec::new();
        let n = self.messages.len();
        if n > 0 && str_eq(self.messages[n - 1].role.as_str(), "assistant") {
            self.record_tool_call(&call);
            self.current_token_usage = ContextManager::estimate_token_count(self.messages.as_slice());
            match App::lookup_tool(tools, call.function.name.as_str()) {
                Some(true) => {
                    self.pending_tool_call = Some(call);
                    self.mode = Mode::ToolConfirmation;
                    self.tool_scroll = 0;
                    self.loading = false;
                    self.is_tool_executing = false;
                    return effects;
                },
                Some(false) => {
                    self.is_tool_executing = true;
                    effects.push(Effect::ExecuteTool {
                        call,
                        on_timeout: String::from_str(
                            "Tool timed out after 120 seconds. Try a more specific search path (e.g., ~/Documents instead of ~).",
                        ),
                    });
                },
                None => {
                    effects.push(Effect::Send(Action::AddToolOutput(
                        call.function.name,
                        String::from_str("Tool not found"),
                    )));
                },
            }
        }
        effects.push(Effect::SaveSession);
        proof {
            if !ends_with_assistant(old(self).messages@) {
                assert(effects@ =~= seq![Effect::SaveSession]);
            }
        }
        effects
    }

    /// Records `call` in the last message, which is the assistant's.
    fn record_tool_call(&mut self, call: &ToolCall)
        requires
            ends_with_assistant(old(self).messages@),
            messages_tokens(old(self).messages@)
                + str_len(old(self).messages@.last().content@ + tool_call_note(call@.name)) <= usize::MAX,
        ensures
            (*final(self) == App { messages: final(self).messages, ..*old(self) }),
            final(self).messages@.len() == old(self).messages@.len(),
            final(self).messages@.drop_last() == old(self).messages@.drop_last(),
            final(self).messages@.last()@ == with_tool_call(old(self).messages@.last()@, call@),
            messages_tokens(final(self).messages@) <= usize::MAX,
    {
        let n = self.messages.len();
        let ghost before = self.messages@;
        let mut last = ChatMessage::plain("assistant", String::new());
        self.messages.set_and_swap(n - 1, &mut last);
        let ghost orig = last@;
        let mut calls: Vec<ToolCall> = match last.tool_calls {
            Some(cs) => cs,
            None => Vec::new(),
        };
        let ghost prev_calls = calls@;
        assert(orig.tool_calls is None ==> calls_view(prev_calls) =~= Seq::<ToolCallView>::empty());
        calls.push(call.duplicate());
        assert(calls_view(calls@) =~= calls_view(prev_calls).push(call@));
        last.tool_calls = Some(calls);
        let mut text: Vec<char> = chars_of(last.content.as_str());
        append_str(&mut text, "\n> **Tool Call:** `");
        append_str(&mut text, call.function.name.as_str());
        append_str(&mut text, "`");
        last.content = string_of(text.as_slice());
        assert(last.content@ =~= orig.content + tool_call_note(call@.name));
        assert(last@ == with_tool_call(orig, call@));
        self.messages.set_and_swap(n - 1, &mut last);
        assert(self.messages@.drop_last() =~= before.drop_last());
        proof {
            lemma_tokens_replace_last(before, self.messages@.last());
            assert(self.messages@ =~= before.update(before.len() - 1, self.messages@.last()));
        }
    }

    /// Runs the call waiting for confirmation (see `post_confirm_tool`).
    pub fn on_confirm_tool(&mut self, tools: &[ToolInfo]) -> (effects: Vec<Effect>)
        ensures
            post_confirm_tool(*old(self), *final(self), tools@, effects@),
    {
        let mut effects: Vec<Effect> = Vec::new();
        let mut pending: Option<ToolCall> = None;
        std::mem::swap(&mut pending, &mut self.pending_tool_call);
        match pending {
            Some(call) => {
                self.loading = true;
                self.is_tool_executing = true;
                self.mode = Mode::Insert;
                if App::lookup_tool(tools, call.function.name.as_str()).is_some() {
                    effects.push(Effect::ExecuteTool { call, on_timeout: String::from_str("Tool timed out.") });
                }
            },
            None => {},
        }
        effects
    }

    /// Denies the call waiting for confirmation (see `post_deny_tool`).
    pub fn on_deny_tool(&mut self) -> (effects: Vec<Effect>)
        ensures
            post_deny_tool(*old(self), *final(self), effects@),
    {
        let mut effects: Vec<Effect> = Vec::new();
        let mut pending: Option<ToolCall> = None;
        std::mem::swap(&mut pending, &mut self.pending_tool_call);
        match pending {
            Some(call) => {
                effects.push(Effect::Send(Action::AddToolOutput(
                    call.function.name,
                    String::from_str("Tool execution denied by user."),
                )));
                self.mode = Mode::Insert;
                self.is_tool_executing = false;
            },
            None => {},
        }
        effects
    }

    /// Takes a tool's output (see `post_add_tool_output`).
    pub fn on_add_tool_output(&mut self, name: String, output: String) -> (effects: Vec<Effect>)
        ensures
            post_add_tool_output(*old(self), *final(self), name@, output@, effects@),
    {
        self.is_tool_executing = false;
        let mut effects: Vec<Effect> = Vec::new();
        effects.push(Effect::IngestToolOutput(output.clone()));
        let ghost prev = messages_view(self.messages@);
        let mut m = ChatMessage::plain("tool", output);
        m.tool_name = Some(name);
        self.messages.push(m);
        assert(messages_view(self.messages@) =~= prev.push(self.messages@.last()@));
        effects.push(Effect::Send(Action::RequestAiResponse));
        effects.push(Effect::SaveSession);
        effects
    }
}


/// The messages kept for the model fit the budget they were chosen for.
pub proof fn lemma_kept_messages_fit(ms: Seq<ChatMessage>, start: int, budget: nat)
    ensures
        messages_tokens(ms.subrange(ms.len() - kept_count(ms, start, budget), ms.len() as int)) <= budget,
    decreases ms.len(),
{
    lemma_kept_count_bound(ms, start, budget);
    let k = kept_count(ms, start, budget);
    if k == 0 {
        assert(ms.subrange(ms.len() - k, ms.len() as int) =~= Seq::<ChatMessage>::empty());
    } else {
        let t = text_tokens(ms.last().content@);
        let rest = ms.drop_last();
        let b2 = (budget - t) as nat;
        lemma_kept_messages_fit(rest, start, b2);
        let tail = ms.subrange(ms.len() - k, ms.len() as int);
        assert(tail.drop_last() =~= rest.subrange(rest.len() - kept_count(rest, start, b2), rest.len() as int));
        assert(tail.last() == ms.last());
    }
}

/// The messages kept for the model all come after the ones the summary covers.
pub proof fn lemma_kept_messages_follow_summary(ms: Seq<ChatMessage>, start: int, budget: nat)
    requires
        0 <= start,
    ensures
        kept_count(ms, start, budget) == 0 || ms.len() - kept_count(ms, start, budget) >= start,
    decreases ms.len(),
{
    if ms.len() > 0 && ms.len() - 1 >= start {
        let t = text_tokens(ms.last().content@);
        if t <= budget {
            lemma_kept_messages_follow_summary(ms.drop_last(), start, (budget - t) as nat);
        }
    }
}

/// No more of the history could be kept: taking the messages from any earlier
/// index that the summary does not cover would exceed the budget. So the kept
/// messages start at the least such index whose messages fit.
pub proof fn lemma_kept_messages_are_longest_fit(ms: Seq<ChatMessage>, start: int, budget: nat, j: int)
    requires
        0 <= start <= j < ms.len() - kept_count(ms, start, budget),
    ensures
        messages_tokens(ms.subrange(j, ms.len() as int)) > budget,
    decreases ms.len(),
{
    let t = text_tokens(ms.last().content@);
    let rest = ms.drop_last();
    let tail = ms.subrange(j, ms.len() as int);
    assert(tail.drop_last() =~= rest.subrange(j, rest.len() as int));
    assert(tail.last() == ms.last());
    if t <= budget {
        lemma_kept_messages_are_longest_fit(rest, start, (budget - t) as nat, j);
    }
}

/// The history may use what the context window in force (the model's, else the
/// configured one) leaves once the system prompt, the system context and the
/// summary (each estimated as a quarter of its UTF-8 bytes plus 4 tokens, the
/// summary 10 more) and 512 tokens for the reply are set aside; nothing when
/// they take the whole window.
pub proof fn lemma_history_budget(app: App, sys: Seq<char>)
    ensures
        ({
            let limit: int = match app.model_context_limit {
                Some(l) => l as int,
                None => app.context_token_limit as int,
            };
            let summary: int = match app.conversation_summary {
                Some(s) => (str_len(s@) / 4 + 4 + 10) as int,
                None => 0,
            };
            let reserve = (str_len(app.system_prompt@) / 4 + 4) + (str_len(sys) / 4 + 4) + summary + 512;
            history_budget(app, sys) == if limit >= reserve { limit - reserve } else { 0 }
        }),
{
}

/// What the model is sent: first the system prompt followed by the system
/// context, as a system message; then, when there is a summary of the earlier
/// conversation, exactly one system message holding it; then the `k` latest
/// messages, in order, for the `k` that the budget allows.
pub proof fn lemma_context_window_layout(app: App, sys: Seq<char>)
    ensures
        ({
            let w = context_window(app, sys);
            let ms = app.messages@;
            let k = kept_count(ms, history_start(app), history_budget(app, sys));
            let head: int = if app.conversation_summary is Some { 2 } else { 1 };
            &&& k <= ms.len()
            &&& w.len() == head + k
            &&& w[0] == plain_message("system"@, app.system_prompt@ + sys)
            &&& (app.conversation_summary matches Some(s) ==> w[1] == plain_message(
                "system"@,
                "[Previous Conversation Summary]:\n"@ + s@,
            ))
            &&& forall|i: int| 0 <= i < k ==> #[trigger] w[head + i] == ms[ms.len() - k + i]@
        }),
{
    lemma_kept_count_bound(app.messages@, history_start(app), history_budget(app, sys));
}

/// What the model is sent stays within its context window: the kept messages fit
/// the window less what is reserved, and none of them is covered by the summary.
pub proof fn lemma_context_window_fits(app: App, sys: Seq<char>)
    ensures
        ({
            let ms = app.messages@;
            let k = kept_count(ms, history_start(app), history_budget(app, sys));
            &&& messages_tokens(ms.subrange(ms.len() - k, ms.len() as int)) <= history_budget(app, sys)
            &&& (k == 0 || ms.len() - k >= history_start(app))
        }),
{
    lemma_kept_messages_fit(app.messages@, history_start(app), history_budget(app, sys));
    lemma_kept_messages_follow_summary(app.messages@, history_start(app), history_budget(app, sys));
}

/// The conversation is held to its limit: after a user message, however long
/// the history was before, it holds at most the limit and is the latest part of
/// the earlier history followed by that message.
pub proof fn lemma_history_stays_bounded(o: App, n: App, msg: Seq<char>, effs: Seq<Effect>)
    requires
        post_add_user_message(o, n, msg, effs),
        o.max_history_messages > 0,
    ensures
        n.messages@.len() <= n.max_history_messages,
        n.messages@.len() > 0,
        n.messages@.last().role@ == "user"@ && n.messages@.last().content@ == msg,
        ({
            let full = messages_view(o.messages@).push(plain_message("user"@, msg));
            messages_view(n.messages@) == full.skip(full.len() - n.messages@.len())
        }),
{
    assert(messages_view(n.messages@).len() == n.messages@.len());
    assert(messages_view(n.messages@).last() == plain_message("user"@, msg));
    let full = messages_view(o.messages@).push(plain_message("user"@, msg));
    let kept = kept_history(o);
    let d = o.messages@.len() - kept.len();
    assert(messages_view(kept) =~= messages_view(o.messages@).skip(d));
    assert(messages_view(n.messages@) =~= full.skip(full.len() - n.messages@.len()));
}

/// A user message always resets the count of consecutive tool calls, so the
/// model is offered tools again.
pub proof fn lemma_user_message_resets_tool_calls(o: App, n: App, msg: Seq<char>, effs: Seq<Effect>)
    requires
        post_add_user_message(o, n, msg, effs),
        o.max_consecutive_tool_calls > 0,
    ensures
        n.consecutive_tool_calls == 0,
        tools_allowed(n),
{
}

} // verus!
