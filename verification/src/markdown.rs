//! Laying out Markdown as styled terminal lines.
//!
//! The document arrives as its syntax tree walked in order: each node opens
//! (with its kind and the plain values the layout reads) and later closes.
//! Paragraphs and headings end their line and add a blank one; list items get
//! a bullet or number; code blocks and tables become lines of their own.
use vstd::prelude::*;
use crate::text::{append_chars, append_str, chars_of, decimal, decimal_chars, lines, lines_of, string_of, views};
use crate::tools::{html_text, html_to_text};
use comrak::arena_tree::NodeEdge::{End, Start};
use comrak::nodes::{ListType, NodeValue};
use comrak::{format_commonmark, parse_document, Arena, Options};

verus! {

/// A colour of the terminal palette.
#[derive(Debug, Clone, Copy, PartialEq, Eq)]
pub enum MdColor {
    Magenta,
    Blue,
    Cyan,
    Yellow,
    DarkGray,
    Rgb(u8, u8, u8),
}

/// How a piece of text is shown.
#[derive(Debug, Clone, Copy, PartialEq, Eq)]
pub struct SpanStyle {
    pub fg: Option<MdColor>,
    pub bg: Option<MdColor>,
    pub bold: bool,
    pub italic: bool,
    pub underlined: bool,
}

/// A piece of text with its style.
#[derive(Debug, Clone)]
pub struct StyledSpan {
    pub text: String,
    pub style: SpanStyle,
}

/// One line of styled text.
#[derive(Debug, Clone)]
pub struct StyledLine {
    pub spans: Vec<StyledSpan>,
}

/// A node of the Markdown tree, by what the layout reads of it.
#[derive(Debug, Clone)]
pub enum MdKind {
    Text(String),
    Code(String),
    Emph,
    Strong,
    /// A link, with its destination.
    Link(String),
    Paragraph,
    /// A heading, with its level.
    Heading(u8),
    /// A list: whether it is numbered, and its first number.
    List(bool, usize),
    /// A code block: its info string and its text.
    CodeBlock(String, String),
    /// A table, written back as CommonMark.
    Table(String),
    /// Any other node: its children are laid out as they are.
    Other,
}

/// A step of the walk over the tree: a node opens, or the last open one closes.
#[derive(Debug, Clone)]
pub enum MdToken {
    Open(MdKind),
    Close,
}

/// A piece of text and its style, as values.
pub type SpanV = (Seq<char>, SpanStyle);

/// The view of a span.
pub open spec fn span_view(s: StyledSpan) -> SpanV {
    (s.text@, s.style)
}

/// The views of spans.
pub open spec fn spans_view(ss: Seq<StyledSpan>) -> Seq<SpanV> {
    ss.map_values(|s: StyledSpan| span_view(s))
}

/// The views of lines.
pub open spec fn lines_view(ls: Seq<StyledLine>) -> Seq<Seq<SpanV>> {
    ls.map_values(|l: StyledLine| spans_view(l.spans@))
}

/// A node's kind, as values.
pub enum KindV {
    Text(Seq<char>),
    Code(Seq<char>),
    Emph,
    Strong,
    Link(Seq<char>),
    Paragraph,
    Heading(u8),
    List(bool, nat),
    CodeBlock(Seq<char>, Seq<char>),
    Table(Seq<char>),
    Other,
}

/// A step of the walk, as values.
pub enum TokenV {
    Open(KindV),
    Close,
}

/// The view of a node's kind.
pub open spec fn kind_view(k: MdKind) -> KindV {
    match k {
        MdKind::Text(t) => KindV::Text(t@),
        MdKind::Code(c) => KindV::Code(c@),
        MdKind::Emph => KindV::Emph,
        MdKind::Strong => KindV::Strong,
        MdKind::Link(u) => KindV::Link(u@),
        MdKind::Paragraph => KindV::Paragraph,
        MdKind::Heading(l) => KindV::Heading(l),
        MdKind::List(o, s) => KindV::List(o, s as nat),
        MdKind::CodeBlock(i, l) => KindV::CodeBlock(i@, l@),
        MdKind::Table(t) => KindV::Table(t@),
        MdKind::Other => KindV::Other,
    }
}

/// The views of the walk's steps.
pub open spec fn tokens_view(ts: Seq<MdToken>) -> Seq<TokenV> {
    ts.map_values(|t: MdToken| match t {
        MdToken::Open(k) => TokenV::Open(kind_view(k)),
        MdToken::Close => TokenV::Close,
    })
}

/// comrak's node: what the node is, and where it stands in the source.
#[verifier::external_type_specification]
#[verifier::external_body]
pub struct ExAst(comrak::nodes::Ast);

/// The nodes of the tree comrak parses from `md` (with tables, strikethrough,
/// autolinks and task lists on), walked in order: each node when it opens,
/// with its CommonMark text when it is a table, and `None` when it closes. A
/// function of the text alone.
pub uninterp spec fn md_nodes(md: Seq<char>) -> Seq<Option<(comrak::nodes::Ast, Seq<char>)>>;

/// comrak's `parse_document` on `md`, its tree walked in order (a table also
/// written back with comrak's `format_commonmark`).
#[verifier::external_body]
fn parse_nodes(md: &str) -> (r: Vec<Option<(comrak::nodes::Ast, String)>>)
    ensures
        r@.map_values(|o: Option<(comrak::nodes::Ast, String)>| match o {
            Some((a, t)) => Some((a, t@)),
            None => None,
        }) == md_nodes(md@),
{
    let arena = Arena::new();
    let mut o = Options::default();
    let e = &mut o.extension;
    (e.table, e.strikethrough, e.autolink, e.tasklist) = (true, true, true, true);
    parse_document(&arena, md, &o).traverse().map(|e| match e {
        Start(n) if matches!(n.data().value, NodeValue::Table(_)) => {
            let mut t = String::new();
            let _ = format_commonmark(n, &o, &mut t);
            Some((n.data().clone(), t))
        },
        Start(n) => Some((n.data().clone(), String::new())),
        End(_) => None,
    }).collect()
}

/// What the layout reads of a comrak node: its kind with the values it
/// carries (a table's text is taken from the walk instead). A function of the
/// node alone.
pub uninterp spec fn node_kind(a: comrak::nodes::Ast) -> KindV;

/// comrak's node value told apart by variant, its fields moved into the
/// layout's kind.
#[verifier::external_body]
fn kind_of(a: &comrak::nodes::Ast) -> (r: MdKind)
    ensures
        kind_view(r) == node_kind(*a),
{
    match &a.value {
        NodeValue::Text(t) => MdKind::Text(t.to_string()),
        NodeValue::Code(c) => MdKind::Code(c.literal.clone()),
        NodeValue::Emph => MdKind::Emph,
        NodeValue::Strong => MdKind::Strong,
        NodeValue::Link(l) => MdKind::Link(l.url.clone()),
        NodeValue::Paragraph => MdKind::Paragraph,
        NodeValue::Heading(h) => MdKind::Heading(h.level),
        NodeValue::List(l) => MdKind::List(matches!(l.list_type, ListType::Ordered), l.start),
        NodeValue::CodeBlock(b) => MdKind::CodeBlock(b.info.clone(), b.literal.clone()),
        NodeValue::Table(_) => MdKind::Table(String::new()),
        _ => MdKind::Other,
    }
}

/// The walk's step for a node as `parse_nodes` gives it.
pub open spec fn node_token(o: Option<(comrak::nodes::Ast, Seq<char>)>) -> TokenV {
    match o {
        Some((a, t)) => TokenV::Open(match node_kind(a) {
            KindV::Table(_) => KindV::Table(t),
            k => k,
        }),
        None => TokenV::Close,
    }
}

/// The steps of the syntax tree comrak parses from `md` (see `md_nodes`).
pub open spec fn md_tokens(md: Seq<char>) -> Seq<TokenV> {
    md_nodes(md).map_values(|o: Option<(comrak::nodes::Ast, Seq<char>)>| node_token(o))
}

/// The steps of the syntax tree comrak parses from `md` (see `md_tokens`).
fn markdown_tokens(md: &str) -> (r: Vec<MdToken>)
    ensures
        tokens_view(r@) == md_tokens(md@),
{
    let nodes = parse_nodes(md);
    let ghost want = md_tokens(md@);
    let mut out: Vec<MdToken> = Vec::new();
    let mut i: usize = 0;
    while i < nodes.len()
        invariant
            i <= nodes.len(),
            want == md_tokens(md@),
            nodes@.map_values(|o: Option<(comrak::nodes::Ast, String)>| match o {
                Some((a, t)) => Some((a, t@)),
                None => None,
            }) == md_nodes(md@),
            tokens_view(out@) == want.take(i as int),
        decreases nodes.len() - i,
    {
        let token = match &nodes[i] {
            Some((a, t)) => {
                let k = kind_of(a);
                let k = match k {
                    MdKind::Table(_) => MdKind::Table(t.clone()),
                    other => other,
                };
                MdToken::Open(k)
            },
            None => MdToken::Close,
        };
        let ghost before = out@;
        out.push(token);
        assert(tokens_view(out@) =~= tokens_view(before).push(want[i as int]));
        assert(want.take(i + 1) =~= want.take(i as int).push(want[i as int]));
        i = i + 1;
    }
    assert(want.take(nodes.len() as int) =~= want);
    out
}

/// The columns a text takes on the terminal (ratatui's `Span::width`): a
/// function of the text alone.
pub uninterp spec fn text_width(s: Seq<char>) -> nat;

/// ratatui's `Span::width` on a span of `text`: the columns it takes.
#[verifier::external_body]
fn span_width(text: &str) -> (r: usize)
    ensures
        r as nat == text_width(text@),
{
    ratatui::text::Span::raw(text).width()
}

/// The HTML comrak makes of CommonMark text, with tables, strikethrough,
/// autolinks and task lists on: a function of the text alone.
pub uninterp spec fn md_html(md: Seq<char>) -> Seq<char>;

/// comrak's `markdown_to_html` with tables, strikethrough, autolinks and task
/// lists on.
#[verifier::external_body]
fn markdown_html(md: &str) -> (r: String)
    ensures
        r@ == md_html(md@),
{
    let mut options = comrak::Options::default();
    options.extension.table = true;
    options.extension.strikethrough = true;
    options.extension.autolink = true;
    options.extension.tasklist = true;
    comrak::markdown_to_html(md, &options)
}

/// The style of plain text.
pub open spec fn plain_style() -> SpanStyle {
    SpanStyle { fg: None, bg: None, bold: false, italic: false, underlined: false }
}

/// `s` in colour `c`.
pub open spec fn with_fg(s: SpanStyle, c: MdColor) -> SpanStyle {
    SpanStyle { fg: Some(c), ..s }
}

/// The style of inline code inside text of style `s`.
pub open spec fn code_style(s: SpanStyle) -> SpanStyle {
    SpanStyle { bg: Some(MdColor::Rgb(65, 69, 89)), fg: Some(MdColor::Rgb(242, 213, 207)), ..s }
}

/// The style of a link's text inside text of style `s`.
pub open spec fn link_style(s: SpanStyle) -> SpanStyle {
    SpanStyle { fg: Some(MdColor::Cyan), underlined: true, ..s }
}

/// The style of a heading of `level` inside text of style `s`.
pub open spec fn heading_style(s: SpanStyle, level: u8) -> SpanStyle {
    SpanStyle {
        bold: true,
        fg: Some(if level == 1 { MdColor::Magenta } else if level == 2 { MdColor::Blue } else { MdColor::Cyan }),
        ..s
    }
}

/// `n` hash signs.
pub open spec fn hashes(n: nat) -> Seq<char>
    decreases n,
{
    if n == 0 { Seq::empty() } else { hashes((n - 1) as nat).push('#') }
}

/// What an open node does when its children close.
pub enum FrameKind {
    Plain,
    /// A link: its destination, and the style around it.
    Link(Seq<char>, SpanStyle),
    Paragraph,
    Heading,
    /// A list: whether it is numbered, and its next number.
    List(bool, nat),
    /// A table: its children are not laid out.
    Table,
    /// A node inside a table.
    Skip,
}

/// An open node: what it does on closing, the style of its children, and
/// whether it is an item of a list (with a line of its own being built).
pub struct Frame {
    pub kind: FrameKind,
    pub style: SpanStyle,
    pub item: bool,
}

/// The layout so far: the finished lines, the lines being built (the last is
/// the current one), and the open nodes.
#[verifier::ext_equal]
pub struct RenderState {
    pub lines: Seq<Seq<SpanV>>,
    pub bufs: Seq<Seq<SpanV>>,
    pub frames: Seq<Frame>,
}

/// The layout before the first step.
pub open spec fn initial_state() -> RenderState {
    RenderState { lines: Seq::empty(), bufs: seq![Seq::empty()], frames: Seq::empty() }
}

/// The style of the text being laid out.
pub open spec fn cur_style(st: RenderState) -> SpanStyle {
    if st.frames.len() == 0 { plain_style() } else { st.frames.last().style }
}

/// The line being built.
pub open spec fn top_buf(st: RenderState) -> Seq<SpanV> {
    if st.bufs.len() == 0 { Seq::empty() } else { st.bufs.last() }
}

/// `sp` added to the line being built.
pub open spec fn push_span(st: RenderState, sp: SpanV) -> RenderState {
    if st.bufs.len() == 0 {
        st
    } else {
        RenderState { bufs: st.bufs.update(st.bufs.len() - 1, st.bufs.last().push(sp)), ..st }
    }
}

/// The line being built finished, and a new one begun.
pub open spec fn flush_top(st: RenderState) -> RenderState {
    if st.bufs.len() == 0 {
        st
    } else {
        RenderState {
            lines: st.lines.push(st.bufs.last()),
            bufs: st.bufs.update(st.bufs.len() - 1, Seq::empty()),
            ..st
        }
    }
}

/// The layout with its finished lines replaced by `ls`.
pub open spec fn with_lines(st: RenderState, ls: Seq<Seq<SpanV>>) -> RenderState {
    RenderState { lines: ls, ..st }
}

/// A blank line added.
pub open spec fn blank_line(st: RenderState) -> RenderState {
    RenderState { lines: st.lines.push(Seq::empty()), ..st }
}

/// A node opened.
pub open spec fn push_frame(st: RenderState, kind: FrameKind, style: SpanStyle, item: bool) -> RenderState {
    RenderState { frames: st.frames.push(Frame { kind, style, item }), ..st }
}

/// The bullet or number that starts an item of list `kind`.
pub open spec fn item_prefix(kind: FrameKind) -> Seq<char> {
    match kind {
        FrameKind::List(ordered, next) => if ordered { " "@ + decimal(next) + ". "@ } else { " • "@ },
        _ => Seq::empty(),
    }
}

/// The lines of a code block: a header with its info string, its lines in
/// green, a rule and a blank line.
pub open spec fn code_block_lines(info: Seq<char>, literal: Seq<char>, s: SpanStyle) -> Seq<Seq<SpanV>> {
    seq![seq![("── "@ + info + " ──"@, with_fg(s, MdColor::DarkGray))]]
        + lines(literal).map_values(|l: Seq<char>| seq![(l, with_fg(s, MdColor::Rgb(166, 209, 137)))])
        + seq![seq![("────────────────"@, with_fg(s, MdColor::DarkGray))], Seq::empty()]
}

/// The text of a table: its CommonMark rendered as HTML, then as text four
/// columns narrower than `width` (nothing where that fails).
pub open spec fn table_text(cm: Seq<char>, width: nat) -> Seq<char> {
    match html_text(md_html(cm), if width >= 4 { (width - 4) as nat } else { 0 }) {
        Ok(t) => t,
        Err(_) => Seq::empty(),
    }
}

/// The lines of a table, in teal, and a blank line.
pub open spec fn table_lines(cm: Seq<char>, width: nat, s: SpanStyle) -> Seq<Seq<SpanV>> {
    lines(table_text(cm, width)).map_values(|l: Seq<char>| seq![(l, with_fg(s, MdColor::Rgb(129, 200, 190)))])
        + seq![Seq::<SpanV>::empty()]
}

/// A node of kind `k` opened with text style `s`.
pub open spec fn open_kind(st: RenderState, k: KindV, s: SpanStyle, item: bool, width: nat) -> RenderState {
    match k {
        KindV::Text(t) => push_frame(push_span(st, (t, s)), FrameKind::Plain, s, item),
        KindV::Code(c) => push_frame(push_span(st, (" "@ + c + " "@, code_style(s))), FrameKind::Plain, s, item),
        KindV::Emph => push_frame(st, FrameKind::Plain, SpanStyle { italic: true, ..s }, item),
        KindV::Strong => push_frame(st, FrameKind::Plain, SpanStyle { bold: true, ..s }, item),
        KindV::Link(u) => push_frame(push_span(st, ("["@, s)), FrameKind::Link(u, s), link_style(s), item),
        KindV::Paragraph => push_frame(st, FrameKind::Paragraph, s, item),
        KindV::Heading(l) => push_frame(
            push_span(st, (hashes(l as nat) + " "@, heading_style(s, l))),
            FrameKind::Heading,
            heading_style(s, l),
            item,
        ),
        KindV::List(o, start) => push_frame(st, FrameKind::List(o, start), s, item),
        KindV::CodeBlock(info, lit) => push_frame(
            RenderState { lines: st.lines + code_block_lines(info, lit, s), ..st },
            FrameKind::Plain,
            s,
            item,
        ),
        KindV::Table(cm) => push_frame(
            RenderState { lines: st.lines + table_lines(cm, width, s), ..st },
            FrameKind::Table,
            s,
            item,
        ),
        KindV::Other => push_frame(st, FrameKind::Plain, s, item),
    }
}

/// Whether the innermost open node is a list.
pub open spec fn in_list(st: RenderState) -> bool {
    st.frames.len() > 0 && st.frames.last().kind is List
}

/// Whether the innermost open node is a table or inside one.
pub open spec fn in_table(st: RenderState) -> bool {
    st.frames.len() > 0 && (st.frames.last().kind is Table || st.frames.last().kind is Skip)
}

/// A node opens: inside a table nothing is laid out; a list's child begins a
/// line of its own with the list's bullet or number in yellow.
pub open spec fn open_step(st: RenderState, k: KindV, width: nat) -> RenderState {
    let s = cur_style(st);
    if in_table(st) {
        push_frame(st, FrameKind::Skip, s, false)
    } else if in_list(st) {
        let st1 = RenderState {
            bufs: st.bufs.push(seq![(item_prefix(st.frames.last().kind), with_fg(s, MdColor::Yellow))]),
            ..st
        };
        open_kind(st1, k, s, true, width)
    } else {
        open_kind(st, k, s, false, width)
    }
}

/// What closing an open node of `kind` does: a link shows its destination; a
/// paragraph ends its line (if it has text) and adds a blank one; a heading ends
/// its line and adds a blank one; a list adds a blank line.
pub open spec fn close_kind(st: RenderState, kind: FrameKind) -> RenderState {
    match kind {
        FrameKind::Link(u, outer) => push_span(st, ("]("@ + u + ")"@, with_fg(outer, MdColor::DarkGray))),
        FrameKind::Paragraph => blank_line(if top_buf(st).len() > 0 { flush_top(st) } else { st }),
        FrameKind::Heading => blank_line(flush_top(st)),
        FrameKind::List(_, _) => blank_line(st),
        _ => st,
    }
}

/// A list item done: its line is kept if it has anything, the list's own line
/// is current again, and the list counts one more item.
pub open spec fn finish_item(st: RenderState) -> RenderState {
    let st2 = if st.bufs.len() > 1 {
        RenderState {
            lines: if st.bufs.last().len() > 0 { st.lines.push(st.bufs.last()) } else { st.lines },
            bufs: st.bufs.drop_last(),
            ..st
        }
    } else {
        st
    };
    match st2.frames.last().kind {
        FrameKind::List(o, next) => RenderState {
            frames: st2.frames.update(
                st2.frames.len() - 1,
                Frame { kind: FrameKind::List(o, if next < usize::MAX { next + 1 } else { next }), ..st2.frames.last() },
            ),
            ..st2
        },
        _ => st2,
    }
}

/// The innermost open node closes.
pub open spec fn close_step(st: RenderState) -> RenderState {
    if st.frames.len() == 0 {
        st
    } else {
        let f = st.frames.last();
        let st2 = close_kind(RenderState { frames: st.frames.drop_last(), ..st }, f.kind);
        if f.item && in_list(st2) { finish_item(st2) } else { st2 }
    }
}

/// One step of the walk.
pub open spec fn render_step(st: RenderState, t: TokenV, width: nat) -> RenderState {
    match t {
        TokenV::Open(k) => open_step(st, k, width),
        TokenV::Close => close_step(st),
    }
}

/// The layout after the steps `ts`.
pub open spec fn render_run(ts: Seq<TokenV>, width: nat) -> RenderState
    decreases ts.len(),
{
    if ts.len() == 0 {
        initial_state()
    } else {
        render_step(render_run(ts.drop_last(), width), ts.last(), width)
    }
}

/// One more step of the walk is one more step of the layout.
pub proof fn lemma_run_push(ts: Seq<TokenV>, t: TokenV, width: nat)
    ensures
        render_run(ts.push(t), width) == render_step(render_run(ts, width), t, width),
{
    assert(ts.push(t).drop_last() =~= ts);
}

/// There is always a line being built.
pub proof fn lemma_always_a_current_line(ts: Seq<TokenV>, width: nat)
    ensures
        render_run(ts, width).bufs.len() >= 1,
    decreases ts.len(),
{
    if ts.len() > 0 {
        lemma_always_a_current_line(ts.drop_last(), width);
    }
}

/// The layout of an inline node holding just the text `t`, opened and closed
/// outside a table or list: `t` is added to the line being built in the style
/// the node gives, and nothing else changes.
proof fn lemma_inline_text(ts: Seq<TokenV>, k: KindV, t: Seq<char>, width: nat, style: SpanStyle)
    requires
        !in_table(render_run(ts, width)),
        !in_list(render_run(ts, width)),
        open_kind(render_run(ts, width), k, cur_style(render_run(ts, width)), false, width)
            == push_frame(render_run(ts, width), FrameKind::Plain, style, false),
    ensures
        ({
            let st = render_run(ts, width);
            let after = render_run(
                ts + seq![TokenV::Open(k), TokenV::Open(KindV::Text(t)), TokenV::Close, TokenV::Close],
                width,
            );
            &&& after.lines == st.lines
            &&& after.frames == st.frames
            &&& after.bufs == st.bufs.update(st.bufs.len() - 1, st.bufs.last().push((t, style)))
        }),
{
    let st = render_run(ts, width);
    lemma_always_a_current_line(ts, width);
    let a = TokenV::Open(k);
    let b = TokenV::Open(KindV::Text(t));
    lemma_run_push(ts, a, width);
    lemma_run_push(ts.push(a), b, width);
    lemma_run_push(ts.push(a).push(b), TokenV::Close, width);
    lemma_run_push(ts.push(a).push(b).push(TokenV::Close), TokenV::Close, width);
    assert(ts + seq![a, b, TokenV::Close, TokenV::Close] =~= ts.push(a).push(b).push(TokenV::Close).push(TokenV::Close));
    let st1 = render_run(ts.push(a), width);
    assert(st1 == push_frame(st, FrameKind::Plain, style, false));
    assert(st1.frames =~= st.frames.push(Frame { kind: FrameKind::Plain, style, item: false }));
    let st2 = render_run(ts.push(a).push(b), width);
    assert(cur_style(st1) == style);
    assert(!in_table(st1) && !in_list(st1));
    let st3 = render_run(ts.push(a).push(b).push(TokenV::Close), width);
    assert(st3.frames =~= st1.frames);
    assert(st3.bufs == st2.bufs);
    let st4 = render_run(ts.push(a).push(b).push(TokenV::Close).push(TokenV::Close), width);
    assert(st4.frames =~= st.frames);
}

/// The layout of a node that adds `sp` to the line being built and has no
/// children, opened and closed outside a table or list.
proof fn lemma_leaf(ts: Seq<TokenV>, k: KindV, sp: SpanV, width: nat)
    requires
        !in_table(render_run(ts, width)),
        !in_list(render_run(ts, width)),
        open_kind(render_run(ts, width), k, cur_style(render_run(ts, width)), false, width)
            == push_frame(push_span(render_run(ts, width), sp), FrameKind::Plain, cur_style(render_run(ts, width)), false),
    ensures
        ({
            let st = render_run(ts, width);
            let after = render_run(ts + seq![TokenV::Open(k), TokenV::Close], width);
            &&& after.lines == st.lines
            &&& after.frames == st.frames
            &&& after.bufs == st.bufs.update(st.bufs.len() - 1, st.bufs.last().push(sp))
        }),
{
    let st = render_run(ts, width);
    lemma_always_a_current_line(ts, width);
    let a = TokenV::Open(k);
    lemma_run_push(ts, a, width);
    lemma_run_push(ts.push(a), TokenV::Close, width);
    assert(ts + seq![a, TokenV::Close] =~= ts.push(a).push(TokenV::Close));
    let st1 = render_run(ts.push(a), width);
    assert(st1.frames.last().item == false);
    let st2 = render_run(ts.push(a).push(TokenV::Close), width);
    assert(st2.frames =~= st.frames);
}

/// Outside a table or list, a text node is laid out on the line being built, in
/// the surrounding style, and nothing else changes.
pub proof fn lemma_text_is_laid_out_in_place(ts: Seq<TokenV>, t: Seq<char>, width: nat)
    requires
        !in_table(render_run(ts, width)),
        !in_list(render_run(ts, width)),
    ensures
        ({
            let st = render_run(ts, width);
            let after = render_run(ts + seq![TokenV::Open(KindV::Text(t)), TokenV::Close], width);
            &&& after.lines == st.lines
            &&& after.frames == st.frames
            &&& after.bufs == st.bufs.update(st.bufs.len() - 1, st.bufs.last().push((t, cur_style(st))))
        }),
{
    let st = render_run(ts, width);
    lemma_leaf(ts, KindV::Text(t), (t, cur_style(st)), width);
}

/// Outside a table or list, inline code is laid out on the line being built
/// with a space on each side, light on a dark background, and nothing else
/// changes.
pub proof fn lemma_inline_code_is_padded(ts: Seq<TokenV>, c: Seq<char>, width: nat)
    requires
        !in_table(render_run(ts, width)),
        !in_list(render_run(ts, width)),
    ensures
        ({
            let st = render_run(ts, width);
            let after = render_run(ts + seq![TokenV::Open(KindV::Code(c)), TokenV::Close], width);
            let style = SpanStyle {
                bg: Some(MdColor::Rgb(65, 69, 89)),
                fg: Some(MdColor::Rgb(242, 213, 207)),
                ..cur_style(st)
            };
            &&& after.lines == st.lines
            &&& after.frames == st.frames
            &&& after.bufs == st.bufs.update(st.bufs.len() - 1, st.bufs.last().push((" "@ + c + " "@, style)))
        }),
{
    let st = render_run(ts, width);
    let style = SpanStyle { bg: Some(MdColor::Rgb(65, 69, 89)), fg: Some(MdColor::Rgb(242, 213, 207)), ..cur_style(st) };
    lemma_leaf(ts, KindV::Code(c), (" "@ + c + " "@, style), width);
}

/// Outside a table or list, a link with text `t` is laid out on the line being
/// built as `[`, then `t` underlined in cyan, then `](` with its destination and
/// `)` in dark grey; nothing else changes.
pub proof fn lemma_link_shows_text_and_destination(ts: Seq<TokenV>, u: Seq<char>, t: Seq<char>, width: nat)
    requires
        !in_table(render_run(ts, width)),
        !in_list(render_run(ts, width)),
    ensures
        ({
            let st = render_run(ts, width);
            let s = cur_style(st);
            let after = render_run(
                ts + seq![TokenV::Open(KindV::Link(u)), TokenV::Open(KindV::Text(t)), TokenV::Close, TokenV::Close],
                width,
            );
            &&& after.lines == st.lines
            &&& after.frames == st.frames
            &&& after.bufs == st.bufs.update(
                st.bufs.len() - 1,
                st.bufs.last().push(("["@, s)).push((t, SpanStyle { fg: Some(MdColor::Cyan), underlined: true, ..s }))
                    .push(("]("@ + u + ")"@, SpanStyle { fg: Some(MdColor::DarkGray), ..s })),
            )
        }),
{
    let st = render_run(ts, width);
    let s = cur_style(st);
    lemma_always_a_current_line(ts, width);
    let a = TokenV::Open(KindV::Link(u));
    let b = TokenV::Open(KindV::Text(t));
    lemma_run_push(ts, a, width);
    lemma_run_push(ts.push(a), b, width);
    lemma_run_push(ts.push(a).push(b), TokenV::Close, width);
    lemma_run_push(ts.push(a).push(b).push(TokenV::Close), TokenV::Close, width);
    assert(ts + seq![a, b, TokenV::Close, TokenV::Close] =~= ts.push(a).push(b).push(TokenV::Close).push(TokenV::Close));
    let st1 = render_run(ts.push(a), width);
    assert(st1.frames =~= st.frames.push(Frame { kind: FrameKind::Link(u, s), style: link_style(s), item: false }));
    assert(!in_table(st1) && !in_list(st1));
    let st3 = render_run(ts.push(a).push(b).push(TokenV::Close), width);
    assert(st3.frames =~= st1.frames);
    let st4 = render_run(ts.push(a).push(b).push(TokenV::Close).push(TokenV::Close), width);
    assert(st4.frames =~= st.frames);
    assert(st4.bufs =~= st.bufs.update(
        st.bufs.len() - 1,
        st.bufs.last().push(("["@, s)).push((t, link_style(s))).push(("]("@ + u + ")"@, with_fg(s, MdColor::DarkGray))),
    ));
}

/// Outside a table or list, a paragraph holding the text `t` ends the line
/// being built with `t` in the surrounding style, then adds a blank line; a new
/// line is begun and no node stays open.
pub proof fn lemma_paragraph_ends_its_line(ts: Seq<TokenV>, t: Seq<char>, width: nat)
    requires
        !in_table(render_run(ts, width)),
        !in_list(render_run(ts, width)),
    ensures
        ({
            let st = render_run(ts, width);
            let after = render_run(
                ts + seq![TokenV::Open(KindV::Paragraph), TokenV::Open(KindV::Text(t)), TokenV::Close, TokenV::Close],
                width,
            );
            &&& after.lines == st.lines.push(st.bufs.last().push((t, cur_style(st)))).push(Seq::empty())
            &&& after.frames == st.frames
            &&& after.bufs == st.bufs.update(st.bufs.len() - 1, Seq::empty())
        }),
{
    let st = render_run(ts, width);
    let s = cur_style(st);
    lemma_always_a_current_line(ts, width);
    let a = TokenV::Open(KindV::Paragraph);
    let b = TokenV::Open(KindV::Text(t));
    lemma_run_push(ts, a, width);
    lemma_run_push(ts.push(a), b, width);
    lemma_run_push(ts.push(a).push(b), TokenV::Close, width);
    lemma_run_push(ts.push(a).push(b).push(TokenV::Close), TokenV::Close, width);
    assert(ts + seq![a, b, TokenV::Close, TokenV::Close] =~= ts.push(a).push(b).push(TokenV::Close).push(TokenV::Close));
    let st1 = render_run(ts.push(a), width);
    assert(st1.frames =~= st.frames.push(Frame { kind: FrameKind::Paragraph, style: s, item: false }));
    assert(!in_table(st1) && !in_list(st1));
    let st3 = render_run(ts.push(a).push(b).push(TokenV::Close), width);
    assert(st3.frames =~= st1.frames);
    assert(st3.bufs =~= st.bufs.update(st.bufs.len() - 1, st.bufs.last().push((t, s))));
    assert(top_buf(st3).len() > 0);
    let st4 = render_run(ts.push(a).push(b).push(TokenV::Close).push(TokenV::Close), width);
    assert(st4.frames =~= st.frames);
    assert(st4.bufs =~= st.bufs.update(st.bufs.len() - 1, Seq::empty()));
    assert(st4.lines =~= st.lines.push(st.bufs.last().push((t, s))).push(Seq::empty()));
}

/// Outside a table or list, a heading of level `l` holding the text `t` ends
/// the line being built with `l` hash signs and a space, then `t`, both bold
/// (magenta for level 1, blue for level 2, cyan below), then adds a blank line.
pub proof fn lemma_heading_ends_its_line(ts: Seq<TokenV>, l: u8, t: Seq<char>, width: nat)
    requires
        !in_table(render_run(ts, width)),
        !in_list(render_run(ts, width)),
    ensures
        ({
            let st = render_run(ts, width);
            let s = cur_style(st);
            let hs = SpanStyle {
                bold: true,
                fg: Some(if l == 1 { MdColor::Magenta } else if l == 2 { MdColor::Blue } else { MdColor::Cyan }),
                ..s
            };
            let after = render_run(
                ts + seq![TokenV::Open(KindV::Heading(l)), TokenV::Open(KindV::Text(t)), TokenV::Close, TokenV::Close],
                width,
            );
            &&& hashes(l as nat).len() == l
            &&& forall|i: int| 0 <= i < l ==> #[trigger] hashes(l as nat)[i] == '#'
            &&& after.lines == st.lines.push(st.bufs.last().push((hashes(l as nat) + " "@, hs)).push((t, hs))).push(
                Seq::empty(),
            )
            &&& after.frames == st.frames
            &&& after.bufs == st.bufs.update(st.bufs.len() - 1, Seq::empty())
        }),
{
    let st = render_run(ts, width);
    let s = cur_style(st);
    let hs = heading_style(s, l);
    lemma_hashes(l as nat);
    lemma_always_a_current_line(ts, width);
    let a = TokenV::Open(KindV::Heading(l));
    let b = TokenV::Open(KindV::Text(t));
    lemma_run_push(ts, a, width);
    lemma_run_push(ts.push(a), b, width);
    lemma_run_push(ts.push(a).push(b), TokenV::Close, width);
    lemma_run_push(ts.push(a).push(b).push(TokenV::Close), TokenV::Close, width);
    assert(ts + seq![a, b, TokenV::Close, TokenV::Close] =~= ts.push(a).push(b).push(TokenV::Close).push(TokenV::Close));
    let st1 = render_run(ts.push(a), width);
    assert(st1.frames =~= st.frames.push(Frame { kind: FrameKind::Heading, style: hs, item: false }));
    assert(!in_table(st1) && !in_list(st1));
    let st3 = render_run(ts.push(a).push(b).push(TokenV::Close), width);
    assert(st3.frames =~= st1.frames);
    let st4 = render_run(ts.push(a).push(b).push(TokenV::Close).push(TokenV::Close), width);
    assert(st4.frames =~= st.frames);
    assert(st4.bufs =~= st.bufs.update(st.bufs.len() - 1, Seq::empty()));
    assert(st4.lines =~= st.lines.push(st.bufs.last().push((hashes(l as nat) + " "@, hs)).push((t, hs))).push(
        Seq::empty(),
    ));
}

/// `n` hash signs are `n` characters, each `#`.
proof fn lemma_hashes(n: nat)
    ensures
        hashes(n).len() == n,
        forall|i: int| 0 <= i < n ==> #[trigger] hashes(n)[i] == '#',
    decreases n,
{
    if n > 0 {
        lemma_hashes((n - 1) as nat);
    }
}

/// Outside a table or list, a list holding one item with a paragraph of text
/// `t` lays out one line: the item's bullet (` • `) or, for a numbered list, its
/// first number `n` as ` n. `, in yellow, then `t`; then a blank line for the
/// paragraph and one for the list. The line being built and the open nodes are
/// as before.
#[verifier::rlimit(60)]
pub proof fn lemma_list_item_line(ts: Seq<TokenV>, ordered: bool, n: nat, t: Seq<char>, width: nat)
    requires
        !in_table(render_run(ts, width)),
        !in_list(render_run(ts, width)),
    ensures
        ({
            let st = render_run(ts, width);
            let s = cur_style(st);
            let bullet = if ordered { " "@ + decimal(n) + ". "@ } else { " • "@ };
            let after = render_run(
                ts + seq![
                    TokenV::Open(KindV::List(ordered, n)),
                    TokenV::Open(KindV::Other),
                    TokenV::Open(KindV::Paragraph),
                    TokenV::Open(KindV::Text(t)),
                    TokenV::Close,
                    TokenV::Close,
                    TokenV::Close,
                    TokenV::Close,
                ],
                width,
            );
            &&& after.lines == st.lines.push(
                seq![(bullet, SpanStyle { fg: Some(MdColor::Yellow), ..s }), (t, s)],
            ).push(Seq::empty()).push(Seq::empty())
            &&& after.frames == st.frames
            &&& after.bufs == st.bufs
        }),
{
    let st = render_run(ts, width);
    let s = cur_style(st);
    let bullet = if ordered { " "@ + decimal(n) + ". "@ } else { " • "@ };
    let y = with_fg(s, MdColor::Yellow);
    lemma_always_a_current_line(ts, width);
    let a1 = TokenV::Open(KindV::List(ordered, n));
    let a2 = TokenV::Open(KindV::Other);
    let a3 = TokenV::Open(KindV::Paragraph);
    let a4 = TokenV::Open(KindV::Text(t));
    let c = TokenV::Close;
    let p1 = ts.push(a1);
    let p2 = p1.push(a2);
    let p3 = p2.push(a3);
    let p4 = p3.push(a4);
    let p5 = p4.push(c);
    let p6 = p5.push(c);
    let p7 = p6.push(c);
    let p8 = p7.push(c);
    assert(ts + seq![a1, a2, a3, a4, c, c, c, c] =~= p8);
    lemma_run_push(ts, a1, width);
    lemma_run_push(p1, a2, width);
    lemma_run_push(p2, a3, width);
    lemma_run_push(p3, a4, width);
    lemma_run_push(p4, c, width);
    lemma_run_push(p5, c, width);
    lemma_run_push(p6, c, width);
    lemma_run_push(p7, c, width);
    let lf = Frame { kind: FrameKind::List(ordered, n), style: s, item: false };
    let s1 = render_run(p1, width);
    assert(s1.frames =~= st.frames.push(lf));
    assert(in_list(s1) && !in_table(s1) && cur_style(s1) == s);
    let s2 = render_run(p2, width);
    let itf = Frame { kind: FrameKind::Plain, style: s, item: true };
    assert(s2.frames =~= st.frames.push(lf).push(itf));
    assert(s2.bufs =~= st.bufs.push(seq![(bullet, y)]));
    assert(!in_list(s2) && !in_table(s2) && cur_style(s2) == s);
    let s3 = render_run(p3, width);
    assert(s3.frames =~= s2.frames.push(Frame { kind: FrameKind::Paragraph, style: s, item: false }));
    assert(!in_list(s3) && !in_table(s3) && cur_style(s3) == s);
    assert(s3.bufs == s2.bufs);
    assert(s3.lines == s2.lines);
    let s4 = render_run(p4, width);
    assert(seq![(bullet, y)].push((t, s)) =~= seq![(bullet, y), (t, s)]);
    assert(s4.bufs =~= st.bufs.push(seq![(bullet, y), (t, s)]));
    assert(s4.lines == s2.lines);
    let s5 = render_run(p5, width);
    assert(s5.frames =~= s3.frames);
    assert(s5.bufs == s4.bufs);
    let s6 = render_run(p6, width);
    assert(s6.frames =~= s2.frames);
    assert(s6.lines =~= st.lines.push(seq![(bullet, y), (t, s)]).push(Seq::empty()));
    assert(s6.bufs =~= st.bufs.push(Seq::empty()));
    let s7 = render_run(p7, width);
    let nx = if n < usize::MAX { n + 1 } else { n };
    assert(s7.frames =~= st.frames.push(Frame { kind: FrameKind::List(ordered, nx), style: s, item: false }));
    assert(s7.bufs =~= st.bufs);
    assert(s7.lines == s6.lines);
    let s8 = render_run(p8, width);
    assert(s8.frames =~= st.frames);
    assert(s8.lines =~= st.lines.push(seq![(bullet, y), (t, s)]).push(Seq::empty()).push(Seq::empty()));
}

/// Outside a table or list, a code block adds lines of its own after those
/// finished: a dark grey header `── info ──`, each line of its text as one green
/// span, a dark grey rule and a blank line. The line being built and the open
/// nodes are as before.
pub proof fn lemma_code_block_lines(ts: Seq<TokenV>, info: Seq<char>, literal: Seq<char>, width: nat)
    requires
        !in_table(render_run(ts, width)),
        !in_list(render_run(ts, width)),
    ensures
        ({
            let st = render_run(ts, width);
            let s = cur_style(st);
            let grey = SpanStyle { fg: Some(MdColor::DarkGray), ..s };
            let green = SpanStyle { fg: Some(MdColor::Rgb(166, 209, 137)), ..s };
            let code = lines(literal);
            let after = render_run(ts + seq![TokenV::Open(KindV::CodeBlock(info, literal)), TokenV::Close], width);
            &&& after.lines.len() == st.lines.len() + code.len() + 3
            &&& after.lines.take(st.lines.len() as int) == st.lines
            &&& after.lines[st.lines.len() as int] == seq![("── "@ + info + " ──"@, grey)]
            &&& forall|i: int| 0 <= i < code.len() ==> #[trigger] after.lines[st.lines.len() + 1 + i] == seq![(code[i], green)]
            &&& after.lines[(st.lines.len() + 1 + code.len()) as int] == seq![("────────────────"@, grey)]
            &&& after.lines[(st.lines.len() + 2 + code.len()) as int] == Seq::<SpanV>::empty()
            &&& after.frames == st.frames
            &&& after.bufs == st.bufs
        }),
{
    let st = render_run(ts, width);
    let a = TokenV::Open(KindV::CodeBlock(info, literal));
    lemma_run_push(ts, a, width);
    lemma_run_push(ts.push(a), TokenV::Close, width);
    assert(ts + seq![a, TokenV::Close] =~= ts.push(a).push(TokenV::Close));
    let st2 = render_run(ts.push(a).push(TokenV::Close), width);
    assert(st2.frames =~= st.frames);
    assert(st2.lines =~= st.lines + code_block_lines(info, literal, cur_style(st)));
}

/// Outside a table or list, emphasised text is laid out on the line being built
/// in the surrounding style made italic, and nothing else changes.
pub proof fn lemma_emphasis_is_italic(ts: Seq<TokenV>, t: Seq<char>, width: nat)
    requires
        !in_table(render_run(ts, width)),
        !in_list(render_run(ts, width)),
    ensures
        ({
            let st = render_run(ts, width);
            let after = render_run(
                ts + seq![TokenV::Open(KindV::Emph), TokenV::Open(KindV::Text(t)), TokenV::Close, TokenV::Close],
                width,
            );
            &&& after.lines == st.lines
            &&& after.frames == st.frames
            &&& after.bufs == st.bufs.update(
                st.bufs.len() - 1,
                st.bufs.last().push((t, SpanStyle { italic: true, ..cur_style(st) })),
            )
        }),
{
    let st = render_run(ts, width);
    lemma_inline_text(ts, KindV::Emph, t, width, SpanStyle { italic: true, ..cur_style(st) });
}

/// Outside a table or list, strong text is laid out on the line being built in
/// the surrounding style made bold, and nothing else changes.
pub proof fn lemma_strong_is_bold(ts: Seq<TokenV>, t: Seq<char>, width: nat)
    requires
        !in_table(render_run(ts, width)),
        !in_list(render_run(ts, width)),
    ensures
        ({
            let st = render_run(ts, width);
            let after = render_run(
                ts + seq![TokenV::Open(KindV::Strong), TokenV::Open(KindV::Text(t)), TokenV::Close, TokenV::Close],
                width,
            );
            &&& after.lines == st.lines
            &&& after.frames == st.frames
            &&& after.bufs == st.bufs.update(
                st.bufs.len() - 1,
                st.bufs.last().push((t, SpanStyle { bold: true, ..cur_style(st) })),
            )
        }),
{
    let st = render_run(ts, width);
    lemma_inline_text(ts, KindV::Strong, t, width, SpanStyle { bold: true, ..cur_style(st) });
}

/// Whether a line takes no columns.
pub open spec fn blank(l: Seq<SpanV>) -> bool {
    forall|i: int| 0 <= i < l.len() ==> text_width(#[trigger] l[i].0) == 0
}

/// The lines without the blank ones at the end.
pub open spec fn trim_blank_end(ls: Seq<Seq<SpanV>>) -> Seq<Seq<SpanV>>
    decreases ls.len(),
{
    if ls.len() > 0 && blank(ls.last()) { trim_blank_end(ls.drop_last()) } else { ls }
}

/// The lines of a document walked as `ts`, `width` columns wide for tables.
pub open spec fn render_md(ts: Seq<TokenV>, width: nat) -> Seq<Seq<SpanV>> {
    trim_blank_end(render_run(ts, width).lines)
}


/// An open node, as the layout keeps it.
enum OpenKind {
    Plain,
    Link(String, SpanStyle),
    Paragraph,
    Heading,
    List(bool, usize),
    Table,
    Skip,
}

struct OpenNode {
    kind: OpenKind,
    style: SpanStyle,
    item: bool,
}

spec fn open_view(f: OpenNode) -> Frame {
    Frame {
        kind: match f.kind {
            OpenKind::Plain => FrameKind::Plain,
            OpenKind::Link(u, s) => FrameKind::Link(u@, s),
            OpenKind::Paragraph => FrameKind::Paragraph,
            OpenKind::Heading => FrameKind::Heading,
            OpenKind::List(o, n) => FrameKind::List(o, n as nat),
            OpenKind::Table => FrameKind::Table,
            OpenKind::Skip => FrameKind::Skip,
        },
        style: f.style,
        item: f.item,
    }
}

spec fn bufs_view(bs: Seq<Vec<StyledSpan>>) -> Seq<Seq<SpanV>> {
    bs.map_values(|b: Vec<StyledSpan>| spans_view(b@))
}

/// The layout under way.
struct Layout {
    lines: Vec<StyledLine>,
    bufs: Vec<Vec<StyledSpan>>,
    frames: Vec<OpenNode>,
}

spec fn layout_view(l: Layout) -> RenderState {
    RenderState {
        lines: lines_view(l.lines@),
        bufs: bufs_view(l.bufs@),
        frames: l.frames@.map_values(|f: OpenNode| open_view(f)),
    }
}

fn span(text: Vec<char>, style: SpanStyle) -> (r: StyledSpan)
    ensures
        span_view(r) == (text@, style),
{
    StyledSpan { text: string_of(text.as_slice()), style }
}

fn plain() -> (r: SpanStyle)
    ensures
        r == plain_style(),
{
    SpanStyle { fg: None, bg: None, bold: false, italic: false, underlined: false }
}

fn fg(s: SpanStyle, c: MdColor) -> (r: SpanStyle)
    ensures
        r == with_fg(s, c),
{
    SpanStyle { fg: Some(c), ..s }
}

impl Layout {
    fn new() -> (r: Layout)
        ensures
            layout_view(r) =~= initial_state(),
    {
        let mut bufs: Vec<Vec<StyledSpan>> = Vec::new();
        bufs.push(Vec::new());
        let r = Layout { lines: Vec::new(), bufs, frames: Vec::new() };
        assert(r.bufs@[0]@ =~= Seq::<StyledSpan>::empty());
        assert(spans_view(r.bufs@[0]@) =~= Seq::<SpanV>::empty());
        assert(bufs_view(r.bufs@) =~= seq![Seq::<SpanV>::empty()]);
        assert(lines_view(r.lines@) =~= Seq::<Seq<SpanV>>::empty());
        r
    }

    fn style(&self) -> (r: SpanStyle)
        ensures
            r == cur_style(layout_view(*self)),
    {
        let n = self.frames.len();
        if n == 0 { plain() } else { self.frames[n - 1].style }
    }

    fn push_span(&mut self, sp: StyledSpan)
        ensures
            layout_view(*final(self)) =~= push_span(layout_view(*old(self)), span_view(sp)),
    {
        if self.bufs.len() > 0 {
            let ghost before = self.bufs@;
            let mut top = self.bufs.pop().unwrap();
            top.push(sp);
            self.bufs.push(top);
            assert(spans_view(top@) =~= spans_view(before.last()@).push(span_view(sp)));
            assert(bufs_view(self.bufs@) =~= bufs_view(before).update(before.len() - 1,
                spans_view(before.last()@).push(span_view(sp))));
        }
    }

    fn add_line(&mut self, spans: Vec<StyledSpan>)
        ensures
            layout_view(*final(self)) =~= with_lines(layout_view(*old(self)),
                layout_view(*old(self)).lines.push(spans_view(spans@))),
    {
        self.lines.push(StyledLine { spans });
        assert(lines_view(self.lines@) =~= lines_view(old(self).lines@).push(spans_view(spans@)));
    }

    fn blank_line(&mut self)
        ensures
            layout_view(*final(self)) =~= blank_line(layout_view(*old(self))),
    {
        self.add_line(Vec::new());
        assert(spans_view(Seq::<StyledSpan>::empty()) =~= Seq::<SpanV>::empty());
    }

    fn flush_top(&mut self)
        ensures
            layout_view(*final(self)) =~= flush_top(layout_view(*old(self))),
    {
        if self.bufs.len() > 0 {
            let ghost before = self.bufs@;
            let top = self.bufs.pop().unwrap();
            self.bufs.push(Vec::new());
            assert(self.bufs@.last()@ =~= Seq::<StyledSpan>::empty());
            assert(spans_view(self.bufs@.last()@) =~= Seq::<SpanV>::empty());
            assert(bufs_view(self.bufs@) =~= bufs_view(before).update(before.len() - 1, Seq::<SpanV>::empty()));
            self.add_line(top);
        }
    }

    fn top_len(&self) -> (r: usize)
        ensures
            r == top_buf(layout_view(*self)).len(),
    {
        let n = self.bufs.len();
        if n == 0 { 0 } else { self.bufs[n - 1].len() }
    }

    fn push_frame(&mut self, kind: OpenKind, style: SpanStyle, item: bool)
        ensures
            layout_view(*final(self)) =~= push_frame(layout_view(*old(self)),
                open_view(OpenNode { kind, style, item }).kind, style, item),
    {
        let ghost f = OpenNode { kind, style, item };
        self.frames.push(OpenNode { kind, style, item });
        assert(self.frames@.map_values(|f: OpenNode| open_view(f)) =~=
            old(self).frames@.map_values(|f: OpenNode| open_view(f)).push(open_view(f)));
    }

    fn add_code_block(&mut self, info: &str, literal: &str, s: SpanStyle)
        ensures
            layout_view(*final(self)) =~= with_lines(layout_view(*old(self)),
                layout_view(*old(self)).lines + code_block_lines(info@, literal@, s)),
    {
        let ghost start = layout_view(*self).lines;
        let mut head: Vec<char> = chars_of("── ");
        append_str(&mut head, info);
        append_str(&mut head, " ──");
        let mut l0: Vec<StyledSpan> = Vec::new();
        l0.push(span(head, fg(s, MdColor::DarkGray)));
        assert(spans_view(l0@) =~= seq![("── "@ + info@ + " ──"@, with_fg(s, MdColor::DarkGray))]);
        self.add_line(l0);
        let cs = chars_of(literal);
        let ls = lines_of(cs.as_slice());
        let ghost body = lines(literal@).map_values(|l: Seq<char>| seq![(l, with_fg(s, MdColor::Rgb(166, 209, 137)))]);
        let mut i: usize = 0;
        while i < ls.len()
            invariant
                i <= ls.len(),
                views(ls@) == lines(literal@),
                body == lines(literal@).map_values(|l: Seq<char>| seq![(l, with_fg(s, MdColor::Rgb(166, 209, 137)))]),
                layout_view(*self) =~= with_lines(layout_view(*old(self)),
                    start + seq![seq![("── "@ + info@ + " ──"@, with_fg(s, MdColor::DarkGray))]] + body.take(i as int)),
            decreases ls.len() - i,
        {
            let mut line: Vec<StyledSpan> = Vec::new();
            line.push(span(ls[i].clone(), fg(s, MdColor::Rgb(166, 209, 137))));
            assert(spans_view(line@) =~= body[i as int]);
            self.add_line(line);
            assert(body.take(i + 1) =~= body.take(i as int).push(body[i as int]));
            i = i + 1;
        }
        assert(body.take(ls.len() as int) =~= body);
        let mut rule: Vec<StyledSpan> = Vec::new();
        rule.push(span(chars_of("────────────────"), fg(s, MdColor::DarkGray)));
        assert(spans_view(rule@) =~= seq![("────────────────"@, with_fg(s, MdColor::DarkGray))]);
        self.add_line(rule);
        self.blank_line();
    }

    fn add_table(&mut self, cm: &str, width: u16, s: SpanStyle)
        ensures
            layout_view(*final(self)) =~= with_lines(layout_view(*old(self)),
                layout_view(*old(self)).lines + table_lines(cm@, width as nat, s)),
    {
        let ghost start = layout_view(*self).lines;
        let html = markdown_html(cm);
        let w: usize = if width >= 4 { (width - 4) as usize } else { 0 };
        let text = match html_to_text(html.as_str(), w) {
            Ok(t) => t,
            Err(_) => String::new(),
        };
        assert(text@ == table_text(cm@, width as nat));
        let cs = chars_of(text.as_str());
        let ls = lines_of(cs.as_slice());
        let ghost body = lines(table_text(cm@, width as nat)).map_values(
            |l: Seq<char>| seq![(l, with_fg(s, MdColor::Rgb(129, 200, 190)))]);
        let mut i: usize = 0;
        while i < ls.len()
            invariant
                i <= ls.len(),
                views(ls@) == lines(table_text(cm@, width as nat)),
                body == lines(table_text(cm@, width as nat)).map_values(
                    |l: Seq<char>| seq![(l, with_fg(s, MdColor::Rgb(129, 200, 190)))]),
                layout_view(*self) =~= with_lines(layout_view(*old(self)), start + body.take(i as int)),
            decreases ls.len() - i,
        {
            let mut line: Vec<StyledSpan> = Vec::new();
            line.push(span(ls[i].clone(), fg(s, MdColor::Rgb(129, 200, 190))));
            assert(spans_view(line@) =~= body[i as int]);
            self.add_line(line);
            assert(body.take(i + 1) =~= body.take(i as int).push(body[i as int]));
            i = i + 1;
        }
        assert(body.take(ls.len() as int) =~= body);
        self.blank_line();
    }
}


fn heading_style_of(s: SpanStyle, level: u8) -> (r: SpanStyle)
    ensures
        r == heading_style(s, level),
{
    let c = if level == 1 { MdColor::Magenta } else if level == 2 { MdColor::Blue } else { MdColor::Cyan };
    SpanStyle { bold: true, fg: Some(c), ..s }
}

fn hash_marks(level: u8) -> (r: Vec<char>)
    ensures
        r@ == hashes(level as nat) + " "@,
{
    let mut r: Vec<char> = Vec::new();
    let mut i: u8 = 0;
    while i < level
        invariant
            i <= level,
            r@ == hashes(i as nat),
        decreases level - i,
    {
        r.push('#');
        i = i + 1;
    }
    append_str(&mut r, " ");
    r
}

impl Layout {
    fn open_kind(&mut self, k: &MdKind, s: SpanStyle, item: bool, width: u16)
        ensures
            layout_view(*final(self)) =~= open_kind(layout_view(*old(self)), kind_view(*k), s, item, width as nat),
    {
        match k {
            MdKind::Text(t) => {
                self.push_span(span(chars_of(t.as_str()), s));
                self.push_frame(OpenKind::Plain, s, item);
            },
            MdKind::Code(c) => {
                let mut t: Vec<char> = chars_of(" ");
                append_str(&mut t, c.as_str());
                append_str(&mut t, " ");
                let st = SpanStyle { bg: Some(MdColor::Rgb(65, 69, 89)), fg: Some(MdColor::Rgb(242, 213, 207)), ..s };
                self.push_span(span(t, st));
                self.push_frame(OpenKind::Plain, s, item);
            },
            MdKind::Emph => self.push_frame(OpenKind::Plain, SpanStyle { italic: true, ..s }, item),
            MdKind::Strong => self.push_frame(OpenKind::Plain, SpanStyle { bold: true, ..s }, item),
            MdKind::Link(u) => {
                self.push_span(span(chars_of("["), s));
                let ls = SpanStyle { fg: Some(MdColor::Cyan), underlined: true, ..s };
                self.push_frame(OpenKind::Link(u.clone(), s), ls, item);
            },
            MdKind::Paragraph => self.push_frame(OpenKind::Paragraph, s, item),
            MdKind::Heading(l) => {
                let hs = heading_style_of(s, *l);
                self.push_span(span(hash_marks(*l), hs));
                self.push_frame(OpenKind::Heading, hs, item);
            },
            MdKind::List(o, start) => self.push_frame(OpenKind::List(*o, *start), s, item),
            MdKind::CodeBlock(info, lit) => {
                self.add_code_block(info.as_str(), lit.as_str(), s);
                self.push_frame(OpenKind::Plain, s, item);
            },
            MdKind::Table(cm) => {
                self.add_table(cm.as_str(), width, s);
                self.push_frame(OpenKind::Table, s, item);
            },
            MdKind::Other => self.push_frame(OpenKind::Plain, s, item),
        }
    }

    fn open(&mut self, k: &MdKind, width: u16)
        ensures
            layout_view(*final(self)) =~= open_step(layout_view(*old(self)), kind_view(*k), width as nat),
    {
        let s = self.style();
        let n = self.frames.len();
        let mut skip = false;
        let mut prefix: Option<Vec<char>> = None;
        if n > 0 {
            match &self.frames[n - 1].kind {
                OpenKind::Table => { skip = true; },
                OpenKind::Skip => { skip = true; },
                OpenKind::List(o, next) => {
                    if *o {
                        let mut p: Vec<char> = chars_of(" ");
                        append_chars(&mut p, decimal_chars(*next).as_slice());
                        append_str(&mut p, ". ");
                        prefix = Some(p);
                    } else {
                        prefix = Some(chars_of(" • "));
                    }
                },
                _ => {},
            }
        }
        let ghost v = layout_view(*self);
        assert(skip == in_table(v));
        assert(prefix is Some == (in_list(v) && !in_table(v)));
        if skip {
            self.push_frame(OpenKind::Skip, s, false);
            return;
        }
        match prefix {
            Some(p) => {
                assert(p@ == item_prefix(v.frames.last().kind));
                let mut b: Vec<StyledSpan> = Vec::new();
                b.push(span(p, fg(s, MdColor::Yellow)));
                let ghost bv = spans_view(b@);
                assert(bv =~= seq![(item_prefix(v.frames.last().kind), with_fg(s, MdColor::Yellow))]);
                self.bufs.push(b);
                assert(bufs_view(self.bufs@) =~= v.bufs.push(bv));
                self.open_kind(k, s, true, width);
            },
            None => {
                self.open_kind(k, s, false, width);
            },
        }
    }

    fn finish_item(&mut self)
        requires
            in_list(layout_view(*old(self))),
        ensures
            layout_view(*final(self)) =~= finish_item(layout_view(*old(self))),
    {
        let ghost v = layout_view(*self);
        if self.bufs.len() > 1 {
            let top = self.bufs.pop().unwrap();
            assert(bufs_view(self.bufs@) =~= v.bufs.drop_last());
            if top.len() > 0 {
                self.add_line(top);
            }
        }
        let ghost v2 = layout_view(*self);
        assert(v2.frames == v.frames);
        let mut f = self.frames.pop().unwrap();
        match f.kind {
            OpenKind::List(o, next) => {
                let nx: usize = if next < usize::MAX { next + 1 } else { next };
                f.kind = OpenKind::List(o, nx);
            },
            _ => {},
        }
        let ghost fv = open_view(f);
        self.frames.push(f);
        assert(self.frames@.map_values(|f: OpenNode| open_view(f)) =~= v2.frames.update(v2.frames.len() - 1, fv));
    }

    fn close(&mut self)
        ensures
            layout_view(*final(self)) =~= close_step(layout_view(*old(self))),
    {
        if self.frames.len() == 0 {
            return;
        }
        let ghost v = layout_view(*self);
        let f = self.frames.pop().unwrap();
        assert(self.frames@.map_values(|f: OpenNode| open_view(f)) =~= v.frames.drop_last());
        let item = f.item;
        match f.kind {
            OpenKind::Link(u, outer) => {
                let mut t: Vec<char> = chars_of("](");
                append_str(&mut t, u.as_str());
                append_str(&mut t, ")");
                self.push_span(span(t, fg(outer, MdColor::DarkGray)));
            },
            OpenKind::Paragraph => {
                if self.top_len() > 0 {
                    self.flush_top();
                }
                self.blank_line();
            },
            OpenKind::Heading => {
                self.flush_top();
                self.blank_line();
            },
            OpenKind::List(_, _) => self.blank_line(),
            _ => {},
        }
        let n = self.frames.len();
        let list_parent = n > 0 && match &self.frames[n - 1].kind {
            OpenKind::List(_, _) => true,
            _ => false,
        };
        assert(list_parent == in_list(layout_view(*self)));
        if item && list_parent {
            self.finish_item();
        }
    }
}

fn is_blank_line(l: &StyledLine) -> (r: bool)
    ensures
        r == blank(spans_view(l.spans@)),
{
    let mut i: usize = 0;
    while i < l.spans.len()
        invariant
            i <= l.spans.len(),
            forall|j: int| 0 <= j < i ==> text_width(#[trigger] spans_view(l.spans@)[j].0) == 0,
        decreases l.spans.len() - i,
    {
        if span_width(l.spans[i].text.as_str()) != 0 {
            assert(spans_view(l.spans@)[i as int].0 == l.spans@[i as int].text@);
            return false;
        }
        i = i + 1;
    }
    true
}

/// A document laid out as styled lines (see `render_md`): the steps of its
/// tree in order, tables rendered `width` columns wide, no blank lines at the end.
pub fn markdown_lines(tokens: &[MdToken], width: u16) -> (r: Vec<StyledLine>)
    ensures
        lines_view(r@) == render_md(tokens_view(tokens@), width as nat),
        r@.len() == 0 || !blank(lines_view(r@).last()),
{
    let mut lay = Layout::new();
    let ghost tv = tokens_view(tokens@);
    let mut i: usize = 0;
    assert(tv.take(0) =~= Seq::<TokenV>::empty());
    while i < tokens.len()
        invariant
            i <= tokens.len(),
            tv == tokens_view(tokens@),
            layout_view(lay) =~= render_run(tv.take(i as int), width as nat),
        decreases tokens.len() - i,
    {
        assert(tv.take(i + 1).drop_last() =~= tv.take(i as int));
        match &tokens[i] {
            MdToken::Open(k) => lay.open(k, width),
            MdToken::Close => lay.close(),
        }
        i = i + 1;
    }
    assert(tv.take(tokens.len() as int) =~= tv);
    let ghost full = lines_view(lay.lines@);
    let mut lines = lay.lines;
    while lines.len() > 0 && is_blank_line(&lines[lines.len() - 1])
        invariant
            trim_blank_end(lines_view(lines@)) == trim_blank_end(full),
        decreases lines.len(),
    {
        let ghost before = lines@;
        lines.pop();
        assert(lines_view(lines@) =~= lines_view(before).drop_last());
    }
    lines
}

/// A Markdown document laid out as styled lines (see `render_md`): its syntax
/// tree as comrak parses it (see `md_tokens`), tables rendered `width` columns
/// wide, no blank lines at the end.
pub fn markdown_to_lines(md: &str, width: u16) -> (r: Vec<StyledLine>)
    ensures
        lines_view(r@) == render_md(md_tokens(md@), width as nat),
        r@.len() == 0 || !blank(lines_view(r@).last()),
{
    let tokens = markdown_tokens(md);
    markdown_lines(tokens.as_slice(), width)
}

} // verus!
