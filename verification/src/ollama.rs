//! Messages exchanged with the model server, and the framing of its streamed
//! replies.
//!
//! JSON payloads (tool arguments, parameter schemas) are held as JSON text; the
//! library passes them through without reading them.
use vstd::prelude::*;
use crate::text::{
    chars_of, contains, contains_chars, is_whitespace, lines, lines_of, parse_usize,
    parse_usize_chars, spec_is_whitespace, str_eq, trim_end, views,
};

verus! {

/// The function a tool call names, with its arguments as JSON text.
#[derive(Debug, Clone, PartialEq)]
pub struct ToolCallFunction {
    pub name: String,
    pub arguments: String,
}

/// A request from the model to run a tool.
#[derive(Debug, Clone, PartialEq)]
pub struct ToolCall {
    pub function: ToolCallFunction,
}

/// The view of a tool call: the tool's name and the argument text.
pub struct ToolCallView {
    pub name: Seq<char>,
    pub arguments: Seq<char>,
}

impl View for ToolCall {
    type V = ToolCallView;

    open spec fn view(&self) -> ToolCallView {
        ToolCallView { name: self.function.name@, arguments: self.function.arguments@ }
    }
}

impl ToolCall {
    /// A copy of this call.
    pub fn duplicate(&self) -> (r: ToolCall)
        ensures
            r@ == self@,
    {
        ToolCall {
            function: ToolCallFunction {
                name: self.function.name.clone(),
                arguments: self.function.arguments.clone(),
            },
        }
    }
}

/// The views of a list of tool calls.
pub open spec fn calls_view(v: Seq<ToolCall>) -> Seq<ToolCallView> {
    v.map_values(|c: ToolCall| c@)
}

/// The views of a list of strings.
pub open spec fn strings_view(v: Seq<String>) -> Seq<Seq<char>> {
    v.map_values(|s: String| s@)
}

/// The view of an optional string.
pub open spec fn opt_view(o: Option<String>) -> Option<Seq<char>> {
    match o {
        Some(s) => Some(s@),
        None => None,
    }
}

/// The view of an optional list of strings.
pub open spec fn opt_strings_view(o: Option<Vec<String>>) -> Option<Seq<Seq<char>>> {
    match o {
        Some(v) => Some(strings_view(v@)),
        None => None,
    }
}

/// The view of an optional list of tool calls.
pub open spec fn opt_calls_view(o: Option<Vec<ToolCall>>) -> Option<Seq<ToolCallView>> {
    match o {
        Some(v) => Some(calls_view(v@)),
        None => None,
    }
}

/// A message of the conversation as the library reasons about it.
pub struct MessageView {
    pub role: Seq<char>,
    pub content: Seq<char>,
    pub images: Option<Seq<Seq<char>>>,
    pub tool_calls: Option<Seq<ToolCallView>>,
    pub tool_name: Option<Seq<char>>,
}

/// A message of the conversation.
#[derive(Debug, Clone, PartialEq)]
pub struct ChatMessage {
    pub role: String,
    pub content: String,
    pub images: Option<Vec<String>>,
    pub tool_calls: Option<Vec<ToolCall>>,
    /// Name of the tool when role is "tool" (for tool response messages)
    pub tool_name: Option<String>,
}

impl View for ChatMessage {
    type V = MessageView;

    open spec fn view(&self) -> MessageView {
        MessageView {
            role: self.role@,
            content: self.content@,
            images: opt_strings_view(self.images),
            tool_calls: opt_calls_view(self.tool_calls),
            tool_name: opt_view(self.tool_name),
        }
    }
}

/// A message as it is sent to the model server.
#[derive(Debug, Clone, PartialEq)]
pub struct ChatMessageRequest {
    pub role: String,
    pub content: String,
    pub images: Option<Vec<String>>,
    pub tool_calls: Option<Vec<ToolCall>>,
    /// Name of the tool when role is "tool" (for tool response messages)
    pub tool_name: Option<String>,
}

impl View for ChatMessageRequest {
    type V = MessageView;

    open spec fn view(&self) -> MessageView {
        MessageView {
            role: self.role@,
            content: self.content@,
            images: opt_strings_view(self.images),
            tool_calls: opt_calls_view(self.tool_calls),
            tool_name: opt_view(self.tool_name),
        }
    }
}

/// The views of a list of messages.
pub open spec fn messages_view(v: Seq<ChatMessage>) -> Seq<MessageView> {
    v.map_values(|m: ChatMessage| m@)
}

/// The views of a list of request messages.
pub open spec fn requests_view(v: Seq<ChatMessageRequest>) -> Seq<MessageView> {
    v.map_values(|m: ChatMessageRequest| m@)
}

/// A plain message with the given role and content and nothing else.
pub open spec fn plain_message(role: Seq<char>, content: Seq<char>) -> MessageView {
    MessageView { role, content, images: None, tool_calls: None, tool_name: None }
}

/// A copy of a list of strings.
pub fn copy_strings(v: &Vec<String>) -> (r: Vec<String>)
    ensures
        strings_view(r@) == strings_view(v@),
{
    let mut r: Vec<String> = Vec::new();
    let mut i: usize = 0;
    while i < v.len()
        invariant
            i <= v.len(),
            strings_view(r@) == strings_view(v@).take(i as int),
        decreases v.len() - i,
    {
        let ghost prev = strings_view(r@);
        r.push(v[i].clone());
        assert(strings_view(r@) =~= prev.push(v@[i as int]@));
        assert(strings_view(v@).take(i + 1) =~= strings_view(v@).take(i as int).push(v@[i as int]@));
        i = i + 1;
    }
    assert(strings_view(v@).take(v.len() as int) =~= strings_view(v@));
    r
}

/// A copy of a list of tool calls.
pub fn copy_calls(v: &Vec<ToolCall>) -> (r: Vec<ToolCall>)
    ensures
        calls_view(r@) == calls_view(v@),
{
    let mut r: Vec<ToolCall> = Vec::new();
    let mut i: usize = 0;
    while i < v.len()
        invariant
            i <= v.len(),
            calls_view(r@) == calls_view(v@).take(i as int),
        decreases v.len() - i,
    {
        let ghost prev = calls_view(r@);
        r.push(v[i].duplicate());
        assert(calls_view(r@) =~= prev.push(v@[i as int]@));
        assert(calls_view(v@).take(i + 1) =~= calls_view(v@).take(i as int).push(v@[i as int]@));
        i = i + 1;
    }
    assert(calls_view(v@).take(v.len() as int) =~= calls_view(v@));
    r
}

/// A copy of an optional string.
pub fn copy_opt_string(o: &Option<String>) -> (r: Option<String>)
    ensures
        opt_view(r) == opt_view(*o),
{
    match o {
        Some(s) => Some(s.clone()),
        None => None,
    }
}

/// A copy of an optional list of strings.
pub fn copy_opt_strings(o: &Option<Vec<String>>) -> (r: Option<Vec<String>>)
    ensures
        opt_strings_view(r) == opt_strings_view(*o),
{
    match o {
        Some(v) => Some(copy_strings(v)),
        None => None,
    }
}

/// A copy of an optional list of tool calls.
pub fn copy_opt_calls(o: &Option<Vec<ToolCall>>) -> (r: Option<Vec<ToolCall>>)
    ensures
        opt_calls_view(r) == opt_calls_view(*o),
{
    match o {
        Some(v) => Some(copy_calls(v)),
        None => None,
    }
}

impl ChatMessage {
    /// A plain message with the given role and content.
    pub fn plain(role: &str, content: String) -> (m: ChatMessage)
        ensures
            m@ == plain_message(role@, content@),
    {
        ChatMessage {
            role: String::from_str(role),
            content,
            images: None,
            tool_calls: None,
            tool_name: None,
        }
    }

    /// A copy of this message.
    pub fn duplicate(&self) -> (r: ChatMessage)
        ensures
            r@ == self@,
    {
        ChatMessage {
            role: self.role.clone(),
            content: self.content.clone(),
            images: copy_opt_strings(&self.images),
            tool_calls: copy_opt_calls(&self.tool_calls),
            tool_name: copy_opt_string(&self.tool_name),
        }
    }

    /// This message as it is sent to the model server.
    pub fn to_request(&self) -> (r: ChatMessageRequest)
        ensures
            r@ == self@,
    {
        ChatMessageRequest {
            role: self.role.clone(),
            content: self.content.clone(),
            images: copy_opt_strings(&self.images),
            tool_calls: copy_opt_calls(&self.tool_calls),
            tool_name: copy_opt_string(&self.tool_name),
        }
    }
}

impl ChatMessageRequest {
    /// A plain request message with the given role and content.
    pub fn plain(role: &str, content: String) -> (m: ChatMessageRequest)
        ensures
            m@ == plain_message(role@, content@),
    {
        ChatMessageRequest {
            role: String::from_str(role),
            content,
            images: None,
            tool_calls: None,
            tool_name: None,
        }
    }
}

/// A copy of a list of messages.
pub fn copy_messages(v: &Vec<ChatMessage>) -> (r: Vec<ChatMessage>)
    ensures
        messages_view(r@) == messages_view(v@),
{
    let mut r: Vec<ChatMessage> = Vec::new();
    let mut i: usize = 0;
    while i < v.len()
        invariant
            i <= v.len(),
            messages_view(r@) == messages_view(v@).take(i as int),
        decreases v.len() - i,
    {
        let ghost prev = messages_view(r@);
        r.push(v[i].duplicate());
        assert(messages_view(r@) =~= prev.push(v@[i as int]@));
        assert(messages_view(v@).take(i + 1) =~= messages_view(v@).take(i as int).push(v@[i as int]@));
        i = i + 1;
    }
    assert(messages_view(v@).take(v.len() as int) =~= messages_view(v@));
    r
}

/// The schema of a tool's function, with its parameter schema as JSON text.
#[derive(Debug, Clone, PartialEq)]
pub struct ToolFunction {
    pub name: String,
    pub description: String,
    pub parameters: String,
}

/// A tool offered to the model.
#[derive(Debug, Clone, PartialEq)]
pub struct ToolDefinition {
    pub type_: String,
    pub function: ToolFunction,
}

/// What the model streams back: text, or a request to run a tool.
#[derive(Debug, Clone, PartialEq)]
pub enum ChatStreamEvent {
    Token(String),
    ToolCall(ToolCall),
}

/// The view of a stream event.
pub enum StreamEventView {
    Token(Seq<char>),
    ToolCall(ToolCallView),
}

impl View for ChatStreamEvent {
    type V = StreamEventView;

    open spec fn view(&self) -> StreamEventView {
        match self {
            ChatStreamEvent::Token(t) => StreamEventView::Token(t@),
            ChatStreamEvent::ToolCall(c) => StreamEventView::ToolCall(c@),
        }
    }
}

/// What one streamed reply releases: its text, if not empty, then each of its tool
/// calls in order.
pub open spec fn reply_events(content: Seq<char>, calls: Option<Seq<ToolCallView>>) -> Seq<StreamEventView> {
    let text = if content.len() > 0 { seq![StreamEventView::Token(content)] } else { Seq::empty() };
    match calls {
        Some(cs) => text + cs.map_values(|c: ToolCallView| StreamEventView::ToolCall(c)),
        None => text,
    }
}

/// The events one parsed reply line of a chat stream releases.
pub fn reply_to_events(content: String, tool_calls: Option<Vec<ToolCall>>) -> (evs: Vec<ChatStreamEvent>)
    ensures
        evs@.map_values(|e: ChatStreamEvent| e@) == reply_events(content@, opt_calls_view(tool_calls)),
{
    let mut evs: Vec<ChatStreamEvent> = Vec::new();
    let ghost text = content@;
    if !content.as_str().is_empty() {
        evs.push(ChatStreamEvent::Token(content));
        assert(evs@.map_values(|e: ChatStreamEvent| e@) =~= seq![StreamEventView::Token(text)]);
    } else {
        assert(evs@.map_values(|e: ChatStreamEvent| e@) =~= Seq::<StreamEventView>::empty());
    }
    let ghost head = evs@.map_values(|e: ChatStreamEvent| e@);
    assert(head == (if text.len() > 0 { seq![StreamEventView::Token(text)] } else { Seq::<StreamEventView>::empty() }));
    match tool_calls {
        Some(calls) => {
            let ghost cv = calls_view(calls@);
            let mut i: usize = 0;
            while i < calls.len()
                invariant
                    i <= calls.len(),
                    cv == calls_view(calls@),
                    evs@.map_values(|e: ChatStreamEvent| e@) == head + cv.take(i as int).map_values(
                        |c: ToolCallView| StreamEventView::ToolCall(c)),
                decreases calls.len() - i,
            {
                let ghost prev = evs@.map_values(|e: ChatStreamEvent| e@);
                evs.push(ChatStreamEvent::ToolCall(calls[i].duplicate()));
                assert(evs@.map_values(|e: ChatStreamEvent| e@) =~= prev.push(StreamEventView::ToolCall(cv[i as int])));
                assert(cv.take(i + 1).map_values(|c: ToolCallView| StreamEventView::ToolCall(c))
                    =~= cv.take(i as int).map_values(|c: ToolCallView| StreamEventView::ToolCall(c)).push(
                        StreamEventView::ToolCall(cv[i as int])));
                i = i + 1;
            }
            assert(cv.take(calls.len() as int) =~= cv);
        },
        None => {
            assert(head =~= head);
        },
    }
    evs
}


/// All the pieces of `ls`, one after another.
pub open spec fn concat_bytes(ls: Seq<Seq<u8>>) -> Seq<u8>
    decreases ls.len(),
{
    if ls.len() == 0 {
        Seq::empty()
    } else {
        concat_bytes(ls.drop_last()) + ls.last()
    }
}

/// Whether `s` holds no newline byte.
pub open spec fn no_newline(s: Seq<u8>) -> bool {
    forall|i: int| 0 <= i < s.len() ==> s[i] != 10u8
}

/// Whether `l` is one complete line: a newline at its end and nowhere else.
pub open spec fn is_complete_line(l: Seq<u8>) -> bool {
    l.len() > 0 && l.last() == 10u8 && no_newline(l.drop_last())
}

/// The byte sequences held by a list of byte vectors.
pub open spec fn byte_views(v: Seq<Vec<u8>>) -> Seq<Seq<u8>> {
    v.map_values(|x: Vec<u8>| x@)
}

/// Cuts a byte stream into newline-terminated lines, as the model server's
/// streamed replies (one JSON document per line) arrive in arbitrary pieces.
pub struct LineFramer {
    buffer: Vec<u8>,
}

impl View for LineFramer {
    type V = Seq<u8>;

    /// The bytes received after the last complete line.
    closed spec fn view(&self) -> Seq<u8> {
        self.buffer@
    }
}

impl LineFramer {
    /// Whether the held bytes hold no newline (true of every framer).
    pub closed spec fn wf(&self) -> bool {
        no_newline(self.buffer@)
    }

    /// A framer holding nothing.
    pub fn new() -> (f: Self)
        ensures
            f@ == Seq::<u8>::empty(),
            f.wf(),
    {
        LineFramer { buffer: Vec::new() }
    }

    /// Takes the next piece of the stream and returns the lines it completes, in
    /// order, each with its newline. What is left after the last newline is held.
    pub fn push(&mut self, bytes: &[u8]) -> (lines: Vec<Vec<u8>>)
        requires
            old(self).wf(),
        ensures
            final(self).wf(),
            concat_bytes(byte_views(lines@)) + final(self)@ == old(self)@ + bytes@,
            forall|i: int| 0 <= i < lines@.len() ==> is_complete_line(#[trigger] lines@[i]@),
    {
        let mut all: Vec<u8> = Vec::new();
        std::mem::swap(&mut all, &mut self.buffer);
        let mut k: usize = 0;
        let ghost start = all@;
        while k < bytes.len()
            invariant
                k <= bytes.len(),
                all@ == start + bytes@.take(k as int),
            decreases bytes.len() - k,
        {
            all.push(bytes[k]);
            assert(start + bytes@.take(k + 1) =~= start + bytes@.take(k as int) + seq![bytes@[k as int]]);
            k = k + 1;
        }
        assert(bytes@.take(bytes.len() as int) =~= bytes@);
        let mut lines: Vec<Vec<u8>> = Vec::new();
        let mut cur: Vec<u8> = Vec::new();
        let mut i: usize = 0;
        assert(concat_bytes(byte_views(lines@)) + cur@ =~= all@.take(0));
        while i < all.len()
            invariant
                i <= all.len(),
                concat_bytes(byte_views(lines@)) + cur@ == all@.take(i as int),
                no_newline(cur@),
                forall|j: int| 0 <= j < lines@.len() ==> is_complete_line(#[trigger] lines@[j]@),
            decreases all.len() - i,
        {
            let b = all[i];
            let ghost prev_lines = byte_views(lines@);
            let ghost prev_cur = cur@;
            cur.push(b);
            assert(all@.take(i + 1) =~= all@.take(i as int).push(b));
            if b == 10u8 {
                assert(cur@.drop_last() =~= prev_cur);
                let mut done: Vec<u8> = Vec::new();
                std::mem::swap(&mut done, &mut cur);
                lines.push(done);
                assert(byte_views(lines@) =~= prev_lines.push(prev_cur.push(b)));
                assert(byte_views(lines@).drop_last() =~= prev_lines);
                assert(concat_bytes(byte_views(lines@)) + cur@ =~= concat_bytes(prev_lines) + prev_cur.push(b));
            } else {
                assert(concat_bytes(prev_lines) + cur@ =~= concat_bytes(prev_lines) + prev_cur + seq![b]);
            }
            i = i + 1;
        }
        assert(all@.take(all.len() as int) =~= all@);
        self.buffer = cur;
        lines
    }

    /// Ends the stream: returns what is held, if anything, as a last unterminated line.
    pub fn finish(&mut self) -> (rest: Option<Vec<u8>>)
        ensures
            final(self)@ == Seq::<u8>::empty(),
            final(self).wf(),
            match rest {
                Some(r) => old(self)@.len() > 0 && r@ == old(self)@,
                None => old(self)@.len() == 0,
            },
    {
        let mut held: Vec<u8> = Vec::new();
        std::mem::swap(&mut held, &mut self.buffer);
        if held.len() > 0 {
            Some(held)
        } else {
            None
        }
    }
}

/// One progress report of a model download.
#[derive(Debug, Clone, PartialEq)]
pub struct PullModelResponse {
    pub status: String,
    pub digest: Option<String>,
    pub total: Option<u64>,
    pub completed: Option<u64>,
}

/// Descriptive details of a model.
#[derive(Debug, Clone, PartialEq)]
pub struct ModelDetails {
    pub format: Option<String>,
    pub family: Option<String>,
    pub parameter_size: Option<String>,
    pub quantization_level: Option<String>,
}

/// What the server reports about a model.
///
/// `model_info` lists each reported key with its value when that value is a
/// non-negative integer (what JSON's `as_u64` gives), `None` otherwise.
#[derive(Debug, Clone, PartialEq)]
pub struct ModelInfo {
    pub modelfile: String,
    pub parameters: String,
    pub template: String,
    pub details: Option<ModelDetails>,
    pub model_info: Vec<(String, Option<u64>)>,
}

/// The models currently loaded by the server.
#[derive(Debug, Clone, PartialEq)]
pub struct RunningModelsResponse {
    pub models: Vec<RunningModel>,
}

/// A model loaded by the server, with its memory use.
#[derive(Debug, Clone, PartialEq)]
pub struct RunningModel {
    pub name: String,
    pub model: String,
    pub size: u64,
    pub size_vram: u64,
    pub details: Option<ModelDetails>,
}

/// The keys and integer values of model information, as plain values.
pub open spec fn info_entries(v: Seq<(String, Option<u64>)>) -> Seq<(Seq<char>, Option<u64>)> {
    v.map_values(|e: (String, Option<u64>)| (e.0@, e.1))
}

/// The value reported under the first entry named `key`, if there is one.
pub open spec fn lookup(entries: Seq<(Seq<char>, Option<u64>)>, key: Seq<char>) -> Option<Option<u64>>
    decreases entries.len(),
{
    if entries.len() == 0 {
        None
    } else if entries[0].0 == key {
        Some(entries[0].1)
    } else {
        lookup(entries.drop_first(), key)
    }
}

/// The trailing run of non-whitespace characters of `t`.
pub open spec fn last_run(t: Seq<char>) -> Seq<char>
    decreases t.len(),
{
    if t.len() == 0 || spec_is_whitespace(t.last()) {
        Seq::empty()
    } else {
        last_run(t.drop_last()).push(t.last())
    }
}

/// The last whitespace-separated word of `l`, if any (std's
/// `split_whitespace().last()`).
pub open spec fn last_word(l: Seq<char>) -> Option<Seq<char>> {
    let t = trim_end(l);
    if t.len() == 0 {
        None
    } else {
        Some(last_run(t))
    }
}

/// The value of the first line that mentions `num_ctx` and ends in a number.
pub open spec fn num_ctx_in(ls: Seq<Seq<char>>) -> Option<nat>
    decreases ls.len(),
{
    if ls.len() == 0 {
        None
    } else {
        let l = ls[0];
        if contains(l, "num_ctx"@) && last_word(l) is Some && parse_usize(last_word(l)->0) is Some {
            parse_usize(last_word(l)->0)
        } else {
            num_ctx_in(ls.drop_first())
        }
    }
}

/// A reported integer as a context length.
pub open spec fn as_length(v: Option<u64>) -> Option<nat> {
    match v {
        Some(x) => Some((x as usize) as nat),
        None => None,
    }
}

/// The context length a model reports: under `llama.context_length`, else under
/// `context_length`, else a `num_ctx` line of its parameters.
pub open spec fn context_length_of(entries: Seq<(Seq<char>, Option<u64>)>, parameters: Seq<char>) -> Option<nat> {
    match lookup(entries, "llama.context_length"@) {
        Some(v) => as_length(v),
        None => match lookup(entries, "context_length"@) {
            Some(v) => as_length(v),
            None => num_ctx_in(lines(parameters)),
        },
    }
}

/// The first entry named `key`.
fn find_entry(entries: &Vec<(String, Option<u64>)>, key: &str) -> (r: Option<Option<u64>>)
    ensures
        r == lookup(info_entries(entries@), key@),
{
    let ghost es = info_entries(entries@);
    let mut i: usize = 0;
    assert(es.skip(0) =~= es);
    while i < entries.len()
        invariant
            i <= entries.len(),
            es == info_entries(entries@),
            lookup(es, key@) == lookup(es.skip(i as int), key@),
        decreases entries.len() - i,
    {
        assert(es.skip(i as int)[0] == es[i as int]);
        assert(es.skip(i as int).drop_first() =~= es.skip(i + 1));
        if str_eq(entries[i].0.as_str(), key) {
            return Some(entries[i].1);
        }
        i = i + 1;
    }
    None
}

/// The last whitespace-separated word of `l`.
fn last_word_chars(l: &[char]) -> (r: Option<Vec<char>>)
    ensures
        match r {
            Some(w) => last_word(l@) == Some(w@),
            None => last_word(l@) is None,
        },
{
    let mut end: usize = l.len();
    assert(l@.subrange(0, end as int) =~= l@);
    while end > 0 && is_whitespace(l[end - 1])
        invariant
            end <= l.len(),
            trim_end(l@) == trim_end(l@.subrange(0, end as int)),
        decreases end,
    {
        assert(l@.subrange(0, end as int).drop_last() =~= l@.subrange(0, end - 1));
        end = end - 1;
    }
    let ghost t = l@.subrange(0, end as int);
    assert(trim_end(t) == t);
    if end == 0 {
        return None;
    }
    let mut start: usize = end;
    assert(last_run(t) == last_run(l@.subrange(0, start as int)) + l@.subrange(start as int, end as int));
    while start > 0 && !is_whitespace(l[start - 1])
        invariant
            start <= end <= l.len(),
            t == l@.subrange(0, end as int),
            last_run(t) == last_run(l@.subrange(0, start as int)) + l@.subrange(start as int, end as int),
        decreases start,
    {
        let ghost p = l@.subrange(0, start as int);
        assert(p.drop_last() =~= l@.subrange(0, start - 1));
        assert(last_run(p) == last_run(p.drop_last()).push(p.last()));
        assert(l@.subrange(start - 1, end as int) =~= seq![p.last()] + l@.subrange(start as int, end as int));
        start = start - 1;
    }
    assert(last_run(l@.subrange(0, start as int)) =~= Seq::<char>::empty());
    let mut w: Vec<char> = Vec::new();
    let mut k: usize = start;
    while k < end
        invariant
            start <= k <= end <= l.len(),
            w@ == l@.subrange(start as int, k as int),
        decreases end - k,
    {
        w.push(l[k]);
        assert(l@.subrange(start as int, k + 1) =~= l@.subrange(start as int, k as int).push(l@[k as int]));
        k = k + 1;
    }
    assert(last_run(t) =~= w@);
    Some(w)
}

/// The value of the first `num_ctx` line among `ls`.
fn num_ctx_of_lines(ls: &Vec<Vec<char>>) -> (r: Option<usize>)
    ensures
        match r {
            Some(n) => num_ctx_in(views(ls@)) == Some(n as nat),
            None => num_ctx_in(views(ls@)) is None,
        },
{
    let ghost vs = views(ls@);
    let key = chars_of("num_ctx");
    let mut i: usize = 0;
    assert(vs.skip(0) =~= vs);
    while i < ls.len()
        invariant
            i <= ls.len(),
            vs == views(ls@),
            key@ == "num_ctx"@,
            num_ctx_in(vs) == num_ctx_in(vs.skip(i as int)),
        decreases ls.len() - i,
    {
        assert(vs.skip(i as int)[0] == ls@[i as int]@);
        assert(vs.skip(i as int).drop_first() =~= vs.skip(i + 1));
        let line = &ls[i];
        if contains_chars(line.as_slice(), key.as_slice()) {
            match last_word_chars(line.as_slice()) {
                Some(w) => match parse_usize_chars(w.as_slice()) {
                    Some(n) => {
                        return Some(n);
                    },
                    None => {},
                },
                None => {},
            }
        }
        i = i + 1;
    }
    None
}

impl ModelInfo {
    /// The context length this model reports, if any.
    pub fn context_length(&self) -> (r: Option<usize>)
        ensures
            match r {
                Some(n) => context_length_of(info_entries(self.model_info@), self.parameters@) == Some(n as nat),
                None => context_length_of(info_entries(self.model_info@), self.parameters@) is None,
            },
    {
        match find_entry(&self.model_info, "llama.context_length") {
            Some(v) => {
                return match v {
                    Some(x) => Some(x as usize),
                    None => None,
                };
            },
            None => {},
        }
        match find_entry(&self.model_info, "context_length") {
            Some(v) => {
                return match v {
                    Some(x) => Some(x as usize),
                    None => None,
                };
            },
            None => {},
        }
        let cs = chars_of(self.parameters.as_str());
        let ls = lines_of(cs.as_slice());
        num_ctx_of_lines(&ls)
    }
}

} // verus!
