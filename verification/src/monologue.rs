//! Streaming separation of `<thought>...</thought>` sections from model output.
//!
//! The parser is fed the model's text chunk by chunk. Text outside thought tags is
//! reported as `StreamEvent::Content`, text inside them as `StreamEvent::Thought`.
//! A tag may be split across chunks; characters that only look like the start of
//! a tag are held back until they either complete the tag or turn out to be text.
use vstd::prelude::*;
use crate::text::{chars_of, string_of};

verus! {

/// A piece of model output, classified.
#[derive(Debug, PartialEq, Clone)]
pub enum StreamEvent {
    Content(String),
    Thought(String),
}

/// The view of a `StreamEvent`: its kind and its characters.
pub enum EventView {
    Content(Seq<char>),
    Thought(Seq<char>),
}

impl StreamEvent {
    pub open spec fn view(&self) -> EventView {
        match self {
            StreamEvent::Content(s) => EventView::Content(s@),
            StreamEvent::Thought(s) => EventView::Thought(s@),
        }
    }
}

/// The views of a sequence of events.
pub open spec fn events_view(evs: Seq<StreamEvent>) -> Seq<EventView> {
    evs.map_values(|e: StreamEvent| e.view())
}

/// The opening tag of a thought section.
pub open spec fn start_tag() -> Seq<char> {
    seq!['<', 't', 'h', 'o', 'u', 'g', 'h', 't', '>']
}

/// The closing tag of a thought section.
pub open spec fn end_tag() -> Seq<char> {
    seq!['<', '/', 't', 'h', 'o', 'u', 'g', 'h', 't', '>']
}

/// Where the parser stands between two characters.
pub enum ParserState {
    /// Outside a thought.
    Normal,
    /// Outside a thought, having read this proper prefix of the opening tag.
    MatchingStartTag(Seq<char>),
    /// Inside a thought.
    InThought,
    /// Inside a thought, having read this proper prefix of the closing tag.
    MatchingEndTag(Seq<char>),
}

/// One character's effect: the next state and the events it releases.
pub open spec fn step(st: ParserState, c: char) -> (ParserState, Seq<EventView>) {
    match st {
        ParserState::Normal => if c == '<' {
            (ParserState::MatchingStartTag(seq!['<']), Seq::empty())
        } else {
            (ParserState::Normal, seq![EventView::Content(seq![c])])
        },
        ParserState::MatchingStartTag(buf) => {
            let b = buf.push(c);
            if b == start_tag() {
                (ParserState::InThought, Seq::empty())
            } else if b.is_prefix_of(start_tag()) {
                (ParserState::MatchingStartTag(b), Seq::empty())
            } else {
                (ParserState::Normal, seq![EventView::Content(b)])
            }
        },
        ParserState::InThought => if c == '<' {
            (ParserState::MatchingEndTag(seq!['<']), Seq::empty())
        } else {
            (ParserState::InThought, seq![EventView::Thought(seq![c])])
        },
        ParserState::MatchingEndTag(buf) => {
            let b = buf.push(c);
            if b == end_tag() {
                (ParserState::Normal, Seq::empty())
            } else if b.is_prefix_of(end_tag()) {
                (ParserState::MatchingEndTag(b), Seq::empty())
            } else {
                (ParserState::InThought, seq![EventView::Thought(b)])
            }
        },
    }
}

/// Feeding the characters `s` from state `st`: the final state and all events, in order.
pub open spec fn run(st: ParserState, s: Seq<char>) -> (ParserState, Seq<EventView>)
    decreases s.len(),
{
    if s.len() == 0 {
        (st, Seq::empty())
    } else {
        let (mid, evs) = run(st, s.drop_last());
        let (last, evs2) = step(mid, s.last());
        (last, evs + evs2)
    }
}

/// What a flush releases from a state.
pub open spec fn flush_events(st: ParserState) -> Seq<EventView> {
    match st {
        ParserState::MatchingStartTag(buf) => seq![EventView::Content(buf)],
        ParserState::MatchingEndTag(buf) => seq![EventView::Thought(buf)],
        _ => Seq::empty(),
    }
}

enum State {
    Normal,
    MatchingStartTag(Vec<char>),
    InThought,
    MatchingEndTag(Vec<char>),
}

impl State {
    spec fn view(&self) -> ParserState {
        match self {
            State::Normal => ParserState::Normal,
            State::MatchingStartTag(b) => ParserState::MatchingStartTag(b@),
            State::InThought => ParserState::InThought,
            State::MatchingEndTag(b) => ParserState::MatchingEndTag(b@),
        }
    }
}

/// Splits streamed model output into content and thoughts.
pub struct MonologueParser {
    state: State,
}

impl View for MonologueParser {
    type V = ParserState;

    closed spec fn view(&self) -> ParserState {
        self.state.view()
    }
}

fn start_tag_chars() -> (v: Vec<char>)
    ensures
        v@ == start_tag(),
{
    let v = vec!['<', 't', 'h', 'o', 'u', 'g', 'h', 't', '>'];
    assert(v@ =~= start_tag());
    v
}

fn end_tag_chars() -> (v: Vec<char>)
    ensures
        v@ == end_tag(),
{
    let v = vec!['<', '/', 't', 'h', 'o', 'u', 'g', 'h', 't', '>'];
    assert(v@ =~= end_tag());
    v
}

/// Whether `a` and `b` hold the same characters.
fn chars_equal(a: &Vec<char>, b: &Vec<char>) -> (r: bool)
    ensures
        r == (a@ == b@),
{
    if a.len() != b.len() {
        return false;
    }
    let mut i: usize = 0;
    while i < a.len()
        invariant
            a.len() == b.len(),
            i <= a.len(),
            forall|j: int| 0 <= j < i ==> a@[j] == b@[j],
        decreases a.len() - i,
    {
        if a[i] != b[i] {
            return false;
        }
        i = i + 1;
    }
    assert(a@ =~= b@);
    true
}

/// Whether `a` is a prefix of `b`.
fn chars_prefix(a: &Vec<char>, b: &Vec<char>) -> (r: bool)
    ensures
        r == a@.is_prefix_of(b@),
{
    if a.len() > b.len() {
        return false;
    }
    let mut i: usize = 0;
    while i < a.len()
        invariant
            a.len() <= b.len(),
            i <= a.len(),
            forall|j: int| 0 <= j < i ==> a@[j] == b@[j],
        decreases a.len() - i,
    {
        if a[i] != b[i] {
            assert(!a@.is_prefix_of(b@)) by {
                assert(b@.subrange(0, a@.len() as int)[i as int] == b@[i as int]);
            }
            return false;
        }
        i = i + 1;
    }
    assert(a@ =~= b@.subrange(0, a@.len() as int));
    true
}

impl MonologueParser {
    /// A parser outside any thought, with nothing held back.
    pub fn new() -> (p: Self)
        ensures
            p@ == ParserState::Normal,
    {
        MonologueParser { state: State::Normal }
    }

    /// Feeds one character and appends what it releases to `events`.
    fn feed(&mut self, c: char, events: &mut Vec<StreamEvent>)
        ensures
            final(self)@ == step(old(self)@, c).0,
            events_view(final(events)@) == events_view(old(events)@) + step(old(self)@, c).1,
    {
        let ghost evs0 = old(events)@;
        let mut st = State::Normal;
        std::mem::swap(&mut st, &mut self.state);
        match st {
            State::Normal => {
                if c == '<' {
                    let mut b: Vec<char> = Vec::new();
                    b.push('<');
                    assert(b@ =~= seq!['<']);
                    self.state = State::MatchingStartTag(b);
                } else {
                    let mut one: Vec<char> = Vec::new();
                    one.push(c);
                    events.push(StreamEvent::Content(string_of(one.as_slice())));
                }
            },
            State::MatchingStartTag(mut buffer) => {
                buffer.push(c);
                let tag = start_tag_chars();
                if chars_equal(&buffer, &tag) {
                    self.state = State::InThought;
                } else if chars_prefix(&buffer, &tag) {
                    self.state = State::MatchingStartTag(buffer);
                } else {
                    events.push(StreamEvent::Content(string_of(buffer.as_slice())));
                }
            },
            State::InThought => {
                if c == '<' {
                    let mut b: Vec<char> = Vec::new();
                    b.push('<');
                    assert(b@ =~= seq!['<']);
                    self.state = State::MatchingEndTag(b);
                } else {
                    self.state = State::InThought;
                    let mut one: Vec<char> = Vec::new();
                    one.push(c);
                    events.push(StreamEvent::Thought(string_of(one.as_slice())));
                }
            },
            State::MatchingEndTag(mut buffer) => {
                buffer.push(c);
                let tag = end_tag_chars();
                if chars_equal(&buffer, &tag) {
                    self.state = State::Normal;
                } else if chars_prefix(&buffer, &tag) {
                    self.state = State::MatchingEndTag(buffer);
                } else {
                    self.state = State::InThought;
                    events.push(StreamEvent::Thought(string_of(buffer.as_slice())));
                }
            },
        }
        assert(events_view(events@) =~= evs0.map_values(|e: StreamEvent| e.view()) + step(old(self)@, c).1);
    }

    /// Processes one chunk of streamed text and returns the events it releases.
    ///
    /// The parser's state carries over to the next chunk, so a tag split across
    /// chunks is still recognised.
    pub fn process(&mut self, chunk: &str) -> (events: Vec<StreamEvent>)
        ensures
            final(self)@ == run(old(self)@, chunk@).0,
            events_view(events@) == run(old(self)@, chunk@).1,
    {
        let chars = chars_of(chunk);
        let mut events: Vec<StreamEvent> = Vec::new();
        let ghost st0 = self@;
        let mut i: usize = 0;
        assert(chars@.take(0) =~= Seq::<char>::empty());
        assert(events_view(events@) =~= Seq::<EventView>::empty());
        while i < chars.len()
            invariant
                i <= chars.len(),
                chars@ == chunk@,
                self@ == run(st0, chars@.take(i as int)).0,
                events_view(events@) == run(st0, chars@.take(i as int)).1,
            decreases chars.len() - i,
        {
            assert(chars@.take(i + 1).drop_last() =~= chars@.take(i as int));
            self.feed(chars[i], &mut events);
            i = i + 1;
        }
        assert(chars@.take(chars.len() as int) =~= chars@);
        events
    }

    /// Releases anything held back: a partial opening tag as content, a partial
    /// closing tag as thought. The parser is then outside any thought.
    pub fn flush(&mut self) -> (events: Vec<StreamEvent>)
        ensures
            final(self)@ == ParserState::Normal,
            events_view(events@) == flush_events(old(self)@),
    {
        let mut events: Vec<StreamEvent> = Vec::new();
        let mut st = State::Normal;
        std::mem::swap(&mut st, &mut self.state);
        match st {
            State::MatchingStartTag(buffer) => {
                events.push(StreamEvent::Content(string_of(buffer.as_slice())));
            },
            State::MatchingEndTag(buffer) => {
                events.push(StreamEvent::Thought(string_of(buffer.as_slice())));
            },
            _ => {},
        }
        assert(events_view(events@) =~= flush_events(old(self)@));
        events
    }
}

/// Feeding a text in two pieces releases the same events, in the same order, and
/// leaves the parser in the same state, as feeding it whole: how the stream is cut
/// into chunks does not matter.
pub proof fn lemma_chunking_is_irrelevant(st: ParserState, a: Seq<char>, b: Seq<char>)
    ensures
        run(st, a + b).0 == run(run(st, a).0, b).0,
        run(st, a + b).1 == run(st, a).1 + run(run(st, a).0, b).1,
    decreases b.len(),
{
    if b.len() == 0 {
        assert(a + b =~= a);
        assert(run(st, a).1 + Seq::<EventView>::empty() =~= run(st, a).1);
    } else {
        assert((a + b).drop_last() =~= a + b.drop_last());
        assert((a + b).last() == b.last());
        lemma_chunking_is_irrelevant(st, a, b.drop_last());
        let mid = run(run(st, a).0, b.drop_last());
        assert(run(st, a).1 + mid.1 + step(mid.0, b.last()).1
            =~= run(st, a).1 + (mid.1 + step(mid.0, b.last()).1));
    }
}

/// Text without `<`, fed outside a thought, comes out entirely as content, one
/// event per character, and the parser stays outside any thought.
pub proof fn lemma_plain_text_is_content(s: Seq<char>)
    requires
        forall|i: int| 0 <= i < s.len() ==> s[i] != '<',
    ensures
        run(ParserState::Normal, s).0 == ParserState::Normal,
        run(ParserState::Normal, s).1 == s.map_values(|c: char| EventView::Content(seq![c])),
        flush_events(run(ParserState::Normal, s).0).len() == 0,
    decreases s.len(),
{
    if s.len() > 0 {
        lemma_plain_text_is_content(s.drop_last());
        assert(s.map_values(|c: char| EventView::Content(seq![c]))
            =~= s.drop_last().map_values(|c: char| EventView::Content(seq![c]))
                + seq![EventView::Content(seq![s.last()])]);
    } else {
        assert(s.map_values(|c: char| EventView::Content(seq![c])) =~= Seq::<EventView>::empty());
    }
}

/// A parser fed any text from the start never holds back an empty partial tag.
pub proof fn lemma_held_back_is_never_empty(s: Seq<char>)
    ensures
        run(ParserState::Normal, s).0 matches ParserState::MatchingStartTag(b) ==> b.len() > 0,
        run(ParserState::Normal, s).0 matches ParserState::MatchingEndTag(b) ==> b.len() > 0,
    decreases s.len(),
{
    if s.len() > 0 {
        lemma_held_back_is_never_empty(s.drop_last());
    }
}

/// Flushing a parser fed any text from the start releases at most one event,
/// never an empty one; the parser is then as a new one (see `flush`).
pub proof fn lemma_flush_releases_at_most_one(s: Seq<char>)
    ensures
        flush_events(run(ParserState::Normal, s).0).len() <= 1,
        forall|i: int| 0 <= i < flush_events(run(ParserState::Normal, s).0).len() ==> match #[trigger] flush_events(
            run(ParserState::Normal, s).0,
        )[i] {
            EventView::Content(t) => t.len() > 0,
            EventView::Thought(t) => t.len() > 0,
        },
{
    lemma_held_back_is_never_empty(s);
}

/// Text without `<`, fed inside a thought, comes out entirely as thought, one
/// event per character, and the parser stays inside the thought.
pub proof fn lemma_plain_text_in_thought(s: Seq<char>)
    requires
        forall|i: int| 0 <= i < s.len() ==> s[i] != '<',
    ensures
        run(ParserState::InThought, s).0 == ParserState::InThought,
        run(ParserState::InThought, s).1 == s.map_values(|c: char| EventView::Thought(seq![c])),
    decreases s.len(),
{
    if s.len() > 0 {
        lemma_plain_text_in_thought(s.drop_last());
        assert(s.map_values(|c: char| EventView::Thought(seq![c]))
            =~= s.drop_last().map_values(|c: char| EventView::Thought(seq![c]))
                + seq![EventView::Thought(seq![s.last()])]);
    } else {
        assert(s.map_values(|c: char| EventView::Thought(seq![c])) =~= Seq::<EventView>::empty());
    }
}

/// Reading the first `k` characters of the opening tag, outside a thought,
/// holds them back and releases nothing.
proof fn lemma_start_tag_prefix(k: int)
    requires
        1 <= k < 9,
    ensures
        run(ParserState::Normal, start_tag().take(k))
            == (ParserState::MatchingStartTag(start_tag().take(k)), Seq::<EventView>::empty()),
    decreases k,
{
    let tag = start_tag();
    assert(tag.take(k).drop_last() =~= tag.take(k - 1));
    if k == 1 {
        assert(tag.take(0) =~= Seq::<char>::empty());
        assert(tag.take(1) =~= seq!['<']);
    } else {
        lemma_start_tag_prefix(k - 1);
        let b = tag.take(k - 1).push(tag[k - 1]);
        assert(b =~= tag.take(k));
        assert(b.is_prefix_of(tag)) by {
            assert(tag.subrange(0, b.len() as int) =~= b);
        }
        assert(b != tag) by {
            assert(b.len() != tag.len());
        }
        assert(Seq::<EventView>::empty() + Seq::<EventView>::empty() =~= Seq::<EventView>::empty());
    }
}

/// Reading the first `k` characters of the closing tag, inside a thought,
/// holds them back and releases nothing.
proof fn lemma_end_tag_prefix(k: int)
    requires
        1 <= k < 10,
    ensures
        run(ParserState::InThought, end_tag().take(k))
            == (ParserState::MatchingEndTag(end_tag().take(k)), Seq::<EventView>::empty()),
    decreases k,
{
    let tag = end_tag();
    assert(tag.take(k).drop_last() =~= tag.take(k - 1));
    if k == 1 {
        assert(tag.take(0) =~= Seq::<char>::empty());
        assert(tag.take(1) =~= seq!['<']);
    } else {
        lemma_end_tag_prefix(k - 1);
        let b = tag.take(k - 1).push(tag[k - 1]);
        assert(b =~= tag.take(k));
        assert(b.is_prefix_of(tag)) by {
            assert(tag.subrange(0, b.len() as int) =~= b);
        }
        assert(b != tag) by {
            assert(b.len() != tag.len());
        }
        assert(Seq::<EventView>::empty() + Seq::<EventView>::empty() =~= Seq::<EventView>::empty());
    }
}

/// The opening tag enters a thought and the closing tag leaves it, releasing nothing.
pub proof fn lemma_tags()
    ensures
        run(ParserState::Normal, start_tag()) == (ParserState::InThought, Seq::<EventView>::empty()),
        run(ParserState::InThought, end_tag()) == (ParserState::Normal, Seq::<EventView>::empty()),
{
    let s = start_tag();
    lemma_start_tag_prefix(8);
    assert(s.drop_last() =~= s.take(8));
    assert(s.take(8).push(s[8]) =~= s);
    assert(Seq::<EventView>::empty() + Seq::<EventView>::empty() =~= Seq::<EventView>::empty());
    let e = end_tag();
    lemma_end_tag_prefix(9);
    assert(e.drop_last() =~= e.take(9));
    assert(e.take(9).push(e[9]) =~= e);
}

/// A whole thought between two pieces of text, with no other `<`: the first
/// piece comes out as content, the thought as thought and the last piece as
/// content, each character in order, and the parser ends outside any thought
/// with nothing left to flush.
pub proof fn lemma_whole_thought(c1: Seq<char>, t: Seq<char>, c2: Seq<char>)
    requires
        forall|i: int| 0 <= i < c1.len() ==> c1[i] != '<',
        forall|i: int| 0 <= i < t.len() ==> t[i] != '<',
        forall|i: int| 0 <= i < c2.len() ==> c2[i] != '<',
    ensures
        run(ParserState::Normal, c1 + start_tag() + t + end_tag() + c2).0 == ParserState::Normal,
        run(ParserState::Normal, c1 + start_tag() + t + end_tag() + c2).1
            == c1.map_values(|c: char| EventView::Content(seq![c]))
                + t.map_values(|c: char| EventView::Thought(seq![c]))
                + c2.map_values(|c: char| EventView::Content(seq![c])),
        flush_events(run(ParserState::Normal, c1 + start_tag() + t + end_tag() + c2).0).len() == 0,
{
    let n = ParserState::Normal;
    let a2 = c1 + start_tag();
    let a3 = a2 + t;
    let a4 = a3 + end_tag();
    lemma_plain_text_is_content(c1);
    lemma_plain_text_in_thought(t);
    lemma_plain_text_is_content(c2);
    lemma_tags();
    lemma_chunking_is_irrelevant(n, c1, start_tag());
    lemma_chunking_is_irrelevant(n, a2, t);
    lemma_chunking_is_irrelevant(n, a3, end_tag());
    lemma_chunking_is_irrelevant(n, a4, c2);
    let e1 = c1.map_values(|c: char| EventView::Content(seq![c]));
    let e2 = t.map_values(|c: char| EventView::Thought(seq![c]));
    let e3 = c2.map_values(|c: char| EventView::Content(seq![c]));
    assert(run(n, a2).1 =~= e1);
    assert(run(n, a4).1 =~= e1 + e2);
}

} // verus!
