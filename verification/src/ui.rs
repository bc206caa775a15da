//! Text shaping for the chat view: truncating long tool output, adding break
//! opportunities, and measuring how many rows wrapped text takes.
use vstd::prelude::*;
use crate::app::App;
use crate::ollama::{ChatMessage, ToolCall};
use crate::text::{
    append_chars, append_str, chars_of, copy_chars, decimal, decimal_chars, join, join_chars, lines, lines_of,
    string_of, views,
};

verus! {

/// The note that ends a truncated tool output of `total` lines.
pub open spec fn truncation_note(total: nat) -> Seq<char> {
    "\n\n... [Output truncated associated with tool usage. Total: "@ + decimal(total) + " lines]"@
}

/// `text` limited to its first `max_lines` lines, with a note giving the total
/// number of lines; text of at most `max_lines` lines is kept as it is.
pub open spec fn truncated(text: Seq<char>, max_lines: nat) -> Seq<char> {
    let ls = lines(text);
    if ls.len() > max_lines {
        join(ls.take(max_lines as int), "\n"@) + truncation_note(ls.len())
    } else {
        text
    }
}

/// Limits `text` to `max_lines` lines for display.
pub fn truncate_content(text: &str, max_lines: usize) -> (r: String)
    ensures
        r@ == truncated(text@, max_lines as nat),
{
    let cs = chars_of(text);
    let ls = lines_of(cs.as_slice());
    if ls.len() > max_lines {
        let mut head: Vec<Vec<char>> = Vec::new();
        let mut i: usize = 0;
        while i < max_lines
            invariant
                i <= max_lines < ls.len(),
                views(head@) == views(ls@).take(i as int),
            decreases max_lines - i,
        {
            let ghost old_h = views(head@);
            head.push(copy_chars(ls[i].as_slice()));
            assert(views(head@) =~= old_h.push(ls@[i as int]@));
            assert(views(ls@).take(i + 1) =~= views(ls@).take(i as int).push(views(ls@)[i as int]));
            i = i + 1;
        }
        let nl = chars_of("\n");
        let mut out = join_chars(head.as_slice(), nl.as_slice());
        append_str(&mut out, "\n\n... [Output truncated associated with tool usage. Total: ");
        let n = decimal_chars(ls.len());
        append_chars(&mut out, n.as_slice());
        append_str(&mut out, " lines]");
        assert(out@ =~= truncated(text@, max_lines as nat));
        string_of(out.as_slice())
    } else {
        String::from_str(text)
    }
}

/// Whether a line may be broken after `c` in tool output.
pub open spec fn breaks_after(c: char) -> bool {
    c == '/' || c == '_' || c == ','
}

/// `text` with a zero-width space after every `/`, `_` and `,`.
pub open spec fn soft_hyphenated(text: Seq<char>) -> Seq<char>
    decreases text.len(),
{
    if text.len() == 0 {
        Seq::empty()
    } else {
        let rest = soft_hyphenated(text.drop_last());
        if breaks_after(text.last()) {
            rest.push(text.last()).push('\u{200B}')
        } else {
            rest.push(text.last())
        }
    }
}

/// Inserts a zero-width space after every `/`, `_` and `,` so that long paths
/// and identifiers can wrap.
pub fn insert_soft_hyphens(text: &str) -> (r: String)
    ensures
        r@ == soft_hyphenated(text@),
{
    let cs = chars_of(text);
    let mut out: Vec<char> = Vec::new();
    let mut i: usize = 0;
    while i < cs.len()
        invariant
            i <= cs.len(),
            out@ == soft_hyphenated(cs@.take(i as int)),
        decreases cs.len() - i,
    {
        assert(cs@.take(i + 1).drop_last() =~= cs@.take(i as int));
        let c = cs[i];
        out.push(c);
        if c == '/' || c == '_' || c == ',' {
            out.push('\u{200B}');
        }
        i = i + 1;
    }
    assert(cs@.take(cs.len() as int) =~= cs@);
    string_of(out.as_slice())
}

/// Rows taken by one line `w` columns wide when wrapped at `width > 0` columns:
/// at least one, and the width is first reduced modulo 2^16.
pub open spec fn line_rows(w: nat, width: nat) -> nat {
    let lw = w % 65536;
    if lw == 0 {
        1
    } else {
        ((lw + width - 1) as nat) / width
    }
}

/// Rows taken by lines of the given widths when wrapped at `width` columns.
pub open spec fn wrapped_rows(widths: Seq<usize>, width: nat) -> nat
    decreases widths.len(),
{
    if width == 0 || widths.len() == 0 {
        0
    } else {
        wrapped_rows(widths.drop_last(), width) + line_rows(widths.last() as nat, width)
    }
}

/// Estimates the rows that lines of the given display widths take when wrapped
/// at `width` columns (no rows at all for a zero width).
pub fn estimate_wrapped_height(line_widths: &[usize], width: u16) -> (h: u16)
    requires
        wrapped_rows(line_widths@, width as nat) <= u16::MAX,
    ensures
        h == wrapped_rows(line_widths@, width as nat),
{
    if width == 0 {
        return 0;
    }
    let mut height: u16 = 0;
    let mut i: usize = 0;
    while i < line_widths.len()
        invariant
            i <= line_widths.len(),
            width > 0,
            wrapped_rows(line_widths@, width as nat) <= u16::MAX,
            height == wrapped_rows(line_widths@.take(i as int), width as nat),
        decreases line_widths.len() - i,
    {
        assert(line_widths@.take(i + 1).drop_last() =~= line_widths@.take(i as int));
        proof { lemma_wrapped_rows_prefix(line_widths@, width as nat, i + 1); }
        let lw: u16 = (line_widths[i] % 65536) as u16;
        let rows: u16 = if lw == 0 {
            1
        } else {
            ((lw as u32 + width as u32 - 1) / width as u32) as u16
        };
        height = height + rows;
        i = i + 1;
    }
    assert(line_widths@.take(line_widths.len() as int) =~= line_widths@);
    height
}

/// A line never takes more rows at a wider width.
proof fn lemma_line_rows_shrink(w: nat, a: nat, b: nat)
    requires
        0 < a <= b,
    ensures
        line_rows(w, a) >= line_rows(w, b),
{
    let lw = w % 65536;
    if lw != 0 {
        let x1 = (lw + a - 1) as nat;
        let x2 = (lw + b - 1) as nat;
        let q1 = x1 / a;
        let q2 = x2 / b;
        let r1 = x1 % a;
        let r2 = x2 % b;
        vstd::arithmetic::div_mod::lemma_fundamental_div_mod(x1 as int, a as int);
        vstd::arithmetic::div_mod::lemma_fundamental_div_mod(x2 as int, b as int);
        vstd::arithmetic::div_mod::lemma_mod_bound(x1 as int, a as int);
        vstd::arithmetic::div_mod::lemma_mod_bound(x2 as int, b as int);
        assert(q2 <= q1) by (nonlinear_arith)
            requires
                x1 == a * q1 + r1,
                0 <= r1 < a,
                x2 == b * q2 + r2,
                0 <= r2 < b,
                0 < a <= b,
                x1 == lw + a - 1,
                x2 == lw + b - 1,
                lw > 0,
                q1 >= 0,
                q2 >= 0,
        ;
    }
}

/// Wrapped text never takes more rows at a wider width: `estimate_wrapped_height`
/// (whose result is `wrapped_rows`) never grows as the width grows.
pub proof fn lemma_wider_is_never_taller(widths: Seq<usize>, a: nat, b: nat)
    requires
        0 < a <= b,
    ensures
        wrapped_rows(widths, a) >= wrapped_rows(widths, b),
    decreases widths.len(),
{
    if widths.len() > 0 {
        lemma_wider_is_never_taller(widths.drop_last(), a, b);
        lemma_line_rows_shrink(widths.last() as nat, a, b);
    }
}

/// The rows of a prefix never exceed those of the whole.
pub proof fn lemma_wrapped_rows_prefix(widths: Seq<usize>, width: nat, n: int)
    requires
        0 <= n <= widths.len(),
    ensures
        wrapped_rows(widths.take(n), width) <= wrapped_rows(widths, width),
    decreases widths.len(),
{
    if n < widths.len() {
        assert(widths.drop_last().take(n) =~= widths.take(n));
        lemma_wrapped_rows_prefix(widths.drop_last(), width, n);
    } else {
        assert(widths.take(n) =~= widths);
    }
}


/// What a message shows in the conversation view: tool output with break
/// opportunities and cut to thirty lines; a note naming the tools when a reply
/// holds only tool calls; else its text.
pub open spec fn display_text(m: ChatMessage) -> Seq<char> {
    if m.tool_name is Some {
        truncated(soft_hyphenated(m.content@), 30)
    } else {
        match m.tool_calls {
            Some(calls) => if crate::text::is_blank(m.content@) {
                "**Using Tool:** `"@ + join(calls@.map_values(|c: ToolCall| c.function.name@), "`, `"@) + "`"@
            } else {
                m.content@
            },
            None => m.content@,
        }
    }
}

/// The text a message shows (see `display_text`).
pub fn message_display_text(m: &ChatMessage) -> (r: String)
    ensures
        r@ == display_text(*m),
{
    if m.tool_name.is_some() {
        let soft = insert_soft_hyphens(m.content.as_str());
        return truncate_content(soft.as_str(), 30);
    }
    match &m.tool_calls {
        Some(calls) => {
            let cs = chars_of(m.content.as_str());
            if crate::text::is_blank_chars(cs.as_slice()) {
                let ghost names = calls@.map_values(|c: ToolCall| c.function.name@);
                let mut parts: Vec<Vec<char>> = Vec::new();
                let mut i: usize = 0;
                while i < calls.len()
                    invariant
                        i <= calls.len(),
                        names == calls@.map_values(|c: ToolCall| c.function.name@),
                        views(parts@) == names.take(i as int),
                    decreases calls.len() - i,
                {
                    let ghost prev = views(parts@);
                    let n = chars_of(calls[i].function.name.as_str());
                    parts.push(n);
                    assert(views(parts@) =~= prev.push(names[i as int]));
                    assert(names.take(i + 1) =~= names.take(i as int).push(names[i as int]));
                    i = i + 1;
                }
                assert(names.take(calls.len() as int) =~= names);
                let mut out: Vec<char> = chars_of("**Using Tool:** `");
                let joined = join_chars(parts.as_slice(), chars_of("`, `").as_slice());
                append_chars(&mut out, joined.as_slice());
                append_str(&mut out, "`");
                string_of(out.as_slice())
            } else {
                m.content.clone()
            }
        },
        None => m.content.clone(),
    }
}

/// Whether message `i` shows as the "Thinking..." bubble: the reply under way has
/// no text yet.
pub open spec fn is_thinking(app: App, i: int) -> bool {
    app.loading && i == app.messages@.len() - 1 && app.messages@[i].role@ == "assistant"@
        && crate::text::is_blank(app.messages@[i].content@)
}

/// Whether message `i` shows as the "Thinking..." bubble (see `is_thinking`).
pub fn thinking_at(app: &App, i: usize) -> (r: bool)
    requires
        i < app.messages@.len(),
    ensures
        r == is_thinking(*app, i as int),
{
    if !app.loading || i != app.messages.len() - 1 {
        return false;
    }
    let m = &app.messages[i];
    if !crate::text::str_eq(m.role.as_str(), "assistant") {
        return false;
    }
    let cs = chars_of(m.content.as_str());
    crate::text::is_blank_chars(cs.as_slice())
}

/// The width of a message bubble for text `text_width` columns wide: four more
/// for the border and padding, at least 14 and at most `max_width`.
pub open spec fn bubble_width_spec(text_width: u16, max_width: u16) -> u16 {
    let w: int = if text_width + 4 > u16::MAX { u16::MAX as int } else { text_width + 4 };
    (if w < 14 { 14 } else if w > max_width { max_width as int } else { w }) as u16
}

/// The width of a message bubble (see `bubble_width_spec`).
pub fn bubble_width(text_width: u16, max_width: u16) -> (r: u16)
    requires
        max_width >= 14,
    ensures
        r == bubble_width_spec(text_width, max_width),
{
    let w = text_width.saturating_add(4);
    if w < 14 { 14 } else if w > max_width { max_width } else { w }
}

/// The height of a message bubble whose lines have the given widths: the rows
/// they wrap to inside the border, plus two for the border.
pub fn bubble_height(line_widths: &[usize], bubble_width: u16) -> (r: u16)
    requires
        bubble_width >= 4,
        wrapped_rows(line_widths@, (bubble_width - 4) as nat) + 2 <= u16::MAX,
    ensures
        r == wrapped_rows(line_widths@, (bubble_width - 4) as nat) + 2,
{
    estimate_wrapped_height(line_widths, bubble_width - 4) + 2
}

/// The height of a message bubble (see `bubble_height`), or `None` where it is
/// more than a `u16` holds.
pub fn checked_bubble_height(line_widths: &[usize], bubble_width: u16) -> (r: Option<u16>)
    requires
        bubble_width >= 4,
    ensures
        match r {
            Some(h) => h == wrapped_rows(line_widths@, (bubble_width - 4) as nat) + 2,
            None => wrapped_rows(line_widths@, (bubble_width - 4) as nat) + 2 > u16::MAX,
        },
{
    let width: u16 = bubble_width - 4;
    if width == 0 {
        return Some(2);
    }
    let mut height: u32 = 0;
    let mut i: usize = 0;
    while i < line_widths.len()
        invariant
            i <= line_widths.len(),
            width > 0,
            width == bubble_width - 4,
            height == wrapped_rows(line_widths@.take(i as int), width as nat),
            height <= 65533,
        decreases line_widths.len() - i,
    {
        assert(line_widths@.take(i + 1).drop_last() =~= line_widths@.take(i as int));
        let lw: u32 = (line_widths[i] % 65536) as u32;
        let w: u32 = width as u32;
        let rows: u32 = if lw == 0 {
            1
        } else {
            assert((lw + w - 1) as int / w as int <= (lw + w) as int) by (nonlinear_arith)
                requires
                    w >= 1,
                    lw <= 65535,
            ;
            (lw + w - 1) / w
        };
        height = height + rows;
        i = i + 1;
        if height > 65533 {
            proof {
                lemma_wrapped_rows_prefix(line_widths@, width as nat, i as int);
            }
            return None;
        }
    }
    assert(line_widths@.take(line_widths.len() as int) =~= line_widths@);
    Some((height + 2) as u16)
}

/// The sum of the bubble heights.
pub open spec fn heights_sum(hs: Seq<u16>) -> nat
    decreases hs.len(),
{
    if hs.len() == 0 { 0 } else { heights_sum(hs.drop_last()) + hs.last() as nat }
}

/// The height of the bubbles one under another, a blank row between two.
pub open spec fn total_height(hs: Seq<u16>) -> nat {
    heights_sum(hs) + if hs.len() > 0 { (hs.len() - 1) as nat } else { 0 }
}

/// The greatest scroll offset: the part that does not fit in the viewport.
pub open spec fn max_scroll(total: nat, viewport: nat) -> nat {
    if total > viewport { (total - viewport) as nat } else { 0 }
}

/// The scroll offset and follow-the-end flag before the selection is looked at:
/// following the end scrolls to it; scrolling to (or past) the end starts
/// following it.
pub open spec fn scroll_to_fit(scroll: u16, auto: bool, total: nat, viewport: nat) -> (nat, bool) {
    let m = max_scroll(total, viewport);
    if auto {
        (m, true)
    } else if scroll >= m {
        (m, true)
    } else {
        (scroll as nat, false)
    }
}

/// The scroll offset that keeps the selected bubble `sel` in view: scrolled up to
/// its top when it starts above the view, down to its bottom when it ends below
/// (to its top when it is taller than the view).
pub open spec fn scroll_to_selection(scroll: nat, hs: Seq<u16>, sel: Option<usize>, viewport: nat) -> nat {
    match sel {
        Some(i) if i < hs.len() => {
            let top: nat = heights_sum(hs.take(i as int)) + i as nat;
            let bottom: nat = top + hs[i as int] as nat;
            if top < scroll {
                top
            } else if bottom > scroll + viewport {
                if hs[i as int] > viewport { top } else { (bottom - viewport) as nat }
            } else {
                scroll
            }
        },
        _ => scroll,
    }
}

pub proof fn lemma_heights_sum_prefix(hs: Seq<u16>, n: int)
    requires
        0 <= n <= hs.len(),
    ensures
        heights_sum(hs.take(n)) <= heights_sum(hs),
        n < hs.len() ==> heights_sum(hs.take(n + 1)) == heights_sum(hs.take(n)) + hs[n],
    decreases hs.len(),
{
    if n < hs.len() {
        assert(hs.take(n + 1).drop_last() =~= hs.take(n));
        if n + 1 < hs.len() {
            lemma_heights_sum_prefix(hs.drop_last(), n + 1);
            assert(hs.drop_last().take(n + 1) =~= hs.take(n + 1));
        } else {
            assert(hs.take(n + 1) =~= hs);
        }
    } else {
        assert(hs.take(n) =~= hs);
    }
}

/// The height of the bubbles (see `total_height`).
fn sum_heights(heights: &[u16]) -> (r: u16)
    requires
        total_height(heights@) <= u16::MAX,
    ensures
        r as nat == total_height(heights@),
{
    let mut total: u16 = 0;
    let mut i: usize = 0;
    while i < heights.len()
        invariant
            i <= heights.len(),
            total_height(heights@) <= u16::MAX,
            total as nat == heights_sum(heights@.take(i as int)),
        decreases heights.len() - i,
    {
        proof {
            lemma_heights_sum_prefix(heights@, i as int);
            lemma_heights_sum_prefix(heights@, i + 1);
        }
        total = total + heights[i];
        i = i + 1;
    }
    assert(heights@.take(heights.len() as int) =~= heights@);
    if heights.len() > 0 {
        total = total + (heights.len() - 1) as u16;
    }
    total
}

/// Where bubble `sel` starts: the bubbles above it and a blank row after each.
fn bubble_top(heights: &[u16], sel: usize) -> (r: u16)
    requires
        sel < heights.len(),
        total_height(heights@) <= u16::MAX,
    ensures
        r as nat == heights_sum(heights@.take(sel as int)) + sel,
        r as nat + heights@[sel as int] <= total_height(heights@),
{
    let mut offset: u16 = 0;
    let mut k: usize = 0;
    while k < sel
        invariant
            k <= sel < heights.len(),
            total_height(heights@) <= u16::MAX,
            offset as nat == heights_sum(heights@.take(k as int)) + k,
        decreases sel - k,
    {
        proof {
            lemma_heights_sum_prefix(heights@, k as int);
            lemma_heights_sum_prefix(heights@, k + 1);
        }
        offset = offset + heights[k] + 1;
        k = k + 1;
    }
    proof {
        lemma_heights_sum_prefix(heights@, sel as int);
        lemma_heights_sum_prefix(heights@, sel + 1);
    }
    offset
}

/// The height of the bubbles (see `total_height`), or `None` where it is more
/// than a `u16` holds.
pub fn checked_total_height(heights: &[u16]) -> (r: Option<u16>)
    ensures
        match r {
            Some(t) => t as nat == total_height(heights@),
            None => total_height(heights@) > u16::MAX,
        },
{
    let mut total: u32 = 0;
    let mut i: usize = 0;
    while i < heights.len()
        invariant
            i <= heights.len(),
            total as nat == heights_sum(heights@.take(i as int)),
            total <= 65535,
        decreases heights.len() - i,
    {
        proof {
            lemma_heights_sum_prefix(heights@, i as int);
            lemma_heights_sum_prefix(heights@, i + 1);
        }
        total = total + heights[i] as u32;
        i = i + 1;
        if total > 65535 {
            proof {
                lemma_heights_sum_prefix(heights@, i as int);
            }
            return None;
        }
    }
    assert(heights@.take(heights.len() as int) =~= heights@);
    if heights.len() > 0 {
        let gaps: usize = heights.len() - 1;
        if gaps > (65535 - total) as usize {
            return None;
        }
        total = total + gaps as u32;
    }
    Some(total as u16)
}

impl App {
    /// Places the conversation view once its bubbles are measured (their heights
    /// in order): the scroll offset and whether it follows the end (see
    /// `scroll_to_fit` and `scroll_to_selection`).
    pub fn place_chat_view(&mut self, heights: &[u16], viewport: u16)
        requires
            total_height(heights@) <= u16::MAX,
        ensures
            ({
                let fit = scroll_to_fit(old(self).vertical_scroll, old(self).auto_scroll,
                    total_height(heights@), viewport as nat);
                &&& final(self).auto_scroll == fit.1
                &&& final(self).vertical_scroll as nat == scroll_to_selection(fit.0, heights@,
                    old(self).selected_message_index, viewport as nat)
                &&& *final(self) == (App {
                    vertical_scroll: final(self).vertical_scroll,
                    auto_scroll: final(self).auto_scroll,
                    ..*old(self)
                })
            }),
    {
        let total = sum_heights(heights);
        let max: u16 = if total > viewport { total - viewport } else { 0 };
        if self.auto_scroll {
            self.vertical_scroll = max;
        } else if self.vertical_scroll >= max {
            self.vertical_scroll = max;
            self.auto_scroll = true;
        }
        match self.selected_message_index {
            Some(sel) => {
                if sel < heights.len() {
                    let top = bubble_top(heights, sel);
                    let bottom = top + heights[sel];
                    if top < self.vertical_scroll {
                        self.vertical_scroll = top;
                    } else if bottom > self.vertical_scroll + viewport {
                        if heights[sel] > viewport {
                            self.vertical_scroll = top;
                        } else {
                            self.vertical_scroll = bottom - viewport;
                        }
                    }
                }
            },
            None => {},
        }
    }
}

} // verus!
