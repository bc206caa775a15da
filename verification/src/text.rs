//! Character-level text helpers shared by the rest of the library.
//!
//! Strings are reasoned about through their views, sequences of `char`.
use vstd::prelude::*;

verus! {

broadcast use vstd::string::group_string_axioms;

/// Appends one character to a `String`.
///
/// Calls std's `String::push`, which, as its documentation says, appends the
/// given char to the end of the string.
#[verifier::external_body]
pub(crate) fn push_char(s: &mut String, c: char)
    ensures
        final(s)@ == old(s)@.push(c),
{
    s.push(c);
}

/// The characters of `s`, in order.
pub fn chars_of(s: &str) -> (v: Vec<char>)
    ensures
        v@ == s@,
{
    let mut v: Vec<char> = Vec::new();
    for c in it: s.chars()
        invariant
            v@ == it.seq().take(it.index() as int),
            it.seq() == s@,
    {
        v.push(c);
    }
    v
}

/// A `String` holding exactly the given characters.
pub fn string_of(v: &[char]) -> (s: String)
    ensures
        s@ == v@,
{
    let mut s = String::new();
    let mut i: usize = 0;
    while i < v.len()
        invariant
            i <= v.len(),
            s@ == v@.take(i as int),
        decreases v.len() - i,
    {
        push_char(&mut s, v[i]);
        assert(v@.take(i + 1) == v@.take(i as int).push(v@[i as int]));
        i = i + 1;
    }
    assert(v@.take(v.len() as int) == v@);
    s
}

} // verus!

verus! {

/// Splits `s` at every `'\n'`; the separators are dropped. There is always at
/// least one piece.
pub open spec fn split_newlines(s: Seq<char>) -> Seq<Seq<char>>
    decreases s.len(),
{
    if s.len() == 0 {
        seq![Seq::empty()]
    } else {
        let p = split_newlines(s.drop_last());
        if s.last() == '\n' {
            p.push(Seq::empty())
        } else {
            p.update(p.len() - 1, p.last().push(s.last()))
        }
    }
}

pub proof fn lemma_split_newlines_nonempty(s: Seq<char>)
    ensures
        split_newlines(s).len() >= 1,
    decreases s.len(),
{
    if s.len() > 0 {
        lemma_split_newlines_nonempty(s.drop_last());
    }
}

/// Drops one trailing `'\r'`.
pub open spec fn strip_cr(l: Seq<char>) -> Seq<char> {
    if l.len() > 0 && l.last() == '\r' {
        l.drop_last()
    } else {
        l
    }
}

/// The lines of `s`, as std's `str::lines` gives them: pieces between `'\n'`s, a
/// `'\r'` right before a `'\n'` dropped, and no final empty line after a trailing
/// `'\n'` (so the empty text has no lines).
pub open spec fn lines(s: Seq<char>) -> Seq<Seq<char>> {
    let p = split_newlines(s);
    let ended = p.drop_last().map_values(|l: Seq<char>| strip_cr(l));
    if p.last().len() == 0 {
        ended
    } else {
        ended.push(p.last())
    }
}

/// `ls` joined with `sep` between consecutive items.
pub open spec fn join(ls: Seq<Seq<char>>, sep: Seq<char>) -> Seq<char>
    decreases ls.len(),
{
    if ls.len() == 0 {
        Seq::empty()
    } else if ls.len() == 1 {
        ls[0]
    } else {
        join(ls.drop_last(), sep) + sep + ls.last()
    }
}

/// Text without a newline only lengthens the last piece.
pub proof fn lemma_split_append_no_newline(x: Seq<char>, t: Seq<char>)
    requires
        forall|j: int| 0 <= j < t.len() ==> t[j] != '\n',
    ensures
        split_newlines(x + t) == split_newlines(x).update(
            split_newlines(x).len() - 1,
            split_newlines(x).last() + t,
        ),
    decreases t.len(),
{
    lemma_split_newlines_nonempty(x);
    if t.len() == 0 {
        assert(x + t =~= x);
        assert(split_newlines(x).last() + t =~= split_newlines(x).last());
        assert(split_newlines(x).update(split_newlines(x).len() - 1, split_newlines(x).last())
            =~= split_newlines(x));
    } else {
        let t0 = t.drop_last();
        lemma_split_append_no_newline(x, t0);
        assert((x + t).drop_last() =~= x + t0);
        assert((x + t).last() == t.last());
        let q = split_newlines(x);
        let p = split_newlines(x + t0);
        assert(t[t.len() - 1] != '\n');
        assert(p.len() == q.len());
        assert(p.last() == q.last() + t0);
        assert((q.last() + t0).push(t.last()) =~= q.last() + t);
        assert(split_newlines(x + t) == p.update(p.len() - 1, p.last().push((x + t).last())));
        assert(split_newlines(x + t) =~= q.update(q.len() - 1, q.last() + t));
    }
}

/// Splitting pieces without newlines, joined with newlines, gives them back.
pub proof fn lemma_split_join(ks: Seq<Seq<char>>)
    requires
        ks.len() >= 1,
        forall|i: int, j: int| 0 <= i < ks.len() && 0 <= j < ks[i].len() ==> ks[i][j] != '\n',
    ensures
        split_newlines(join(ks, "\n"@)) == ks,
    decreases ks.len(),
{
    reveal_strlit("\n");
    if ks.len() == 1 {
        lemma_split_append_no_newline(Seq::empty(), ks[0]);
        assert(Seq::<char>::empty() + ks[0] =~= ks[0]);
        assert(seq![Seq::<char>::empty()].update(0, Seq::<char>::empty() + ks[0]) =~= ks);
    } else {
        let r = ks.drop_last();
        lemma_split_join(r);
        let x = join(r, "\n"@) + "\n"@;
        assert(x.drop_last() =~= join(r, "\n"@));
        assert(split_newlines(x) == r.push(Seq::empty()));
        lemma_split_append_no_newline(x, ks.last());
        assert(Seq::<char>::empty() + ks.last() =~= ks.last());
        assert(r.push(Seq::empty()).update(r.len() as int, ks.last()) =~= ks);
    }
}

/// The pieces of text without `'\r'` hold neither `'\n'` nor `'\r'`.
pub proof fn lemma_split_pieces_clean(s: Seq<char>)
    requires
        forall|k: int| 0 <= k < s.len() ==> s[k] != '\r',
    ensures
        forall|i: int, j: int|
            0 <= i < split_newlines(s).len() && 0 <= j < split_newlines(s)[i].len() ==> split_newlines(s)[i][j]
                != '\n' && split_newlines(s)[i][j] != '\r',
    decreases s.len(),
{
    if s.len() > 0 {
        lemma_split_pieces_clean(s.drop_last());
        lemma_split_newlines_nonempty(s.drop_last());
    }
}

/// Lines that hold neither `'\n'` nor `'\r'`, the last not empty, joined with
/// newlines and ended with one, read back as the same lines.
pub proof fn lemma_lines_of_joined(ks: Seq<Seq<char>>)
    requires
        ks.len() >= 1,
        ks.last().len() > 0,
        forall|i: int, j: int| 0 <= i < ks.len() && 0 <= j < ks[i].len() ==> ks[i][j] != '\n' && ks[i][j] != '\r',
    ensures
        join(ks, "\n"@).len() > 0,
        join(ks, "\n"@).last() == ks.last().last(),
        lines(join(ks, "\n"@) + "\n"@) == ks,
{
    reveal_strlit("\n");
    lemma_split_join(ks);
    let jn = join(ks, "\n"@);
    if ks.len() > 1 {
        assert(jn == join(ks.drop_last(), "\n"@) + "\n"@ + ks.last());
    }
    let x = jn + "\n"@;
    assert(x.drop_last() =~= jn);
    assert(split_newlines(x) == ks.push(Seq::empty()));
    assert(split_newlines(x).drop_last() =~= ks);
    assert forall|i: int| 0 <= i < ks.len() implies strip_cr(#[trigger] ks[i]) == ks[i] by {
        if ks[i].len() > 0 {
            assert(ks[i][ks[i].len() - 1] != '\r');
        }
    }
    assert(ks.map_values(|l: Seq<char>| strip_cr(l)) =~= ks);
}

/// The lines of text without `'\r'` are its pieces between newlines (the last
/// dropped when empty), and hold neither `'\n'` nor `'\r'`.
pub proof fn lemma_lines_clean(s: Seq<char>)
    requires
        forall|k: int| 0 <= k < s.len() ==> s[k] != '\r',
    ensures
        forall|i: int, j: int|
            0 <= i < lines(s).len() && 0 <= j < lines(s)[i].len() ==> lines(s)[i][j] != '\n' && lines(s)[i][j]
                != '\r',
{
    let p = split_newlines(s);
    lemma_split_pieces_clean(s);
    lemma_split_newlines_nonempty(s);
    assert forall|i: int| 0 <= i < p.drop_last().len() implies strip_cr(#[trigger] p.drop_last()[i]) == p.drop_last()[i] by {
        assert(p.drop_last()[i] == p[i]);
        if p[i].len() > 0 {
            assert(p[i][p[i].len() - 1] != '\r');
        }
    }
    assert(p.drop_last().map_values(|l: Seq<char>| strip_cr(l)) =~= p.drop_last());
    if p.last().len() != 0 {
        assert(p.drop_last().push(p.last()) =~= p);
    }
}

/// The decimal digit for `d < 10`.
pub open spec fn digit(d: nat) -> char {
    if d == 0 { '0' } else if d == 1 { '1' } else if d == 2 { '2' } else if d == 3 { '3' }
    else if d == 4 { '4' } else if d == 5 { '5' } else if d == 6 { '6' } else if d == 7 { '7' }
    else if d == 8 { '8' } else { '9' }
}

/// The decimal numeral of `n`, without sign or leading zeros.
pub open spec fn decimal(n: nat) -> Seq<char>
    decreases n,
{
    if n < 10 {
        seq![digit(n)]
    } else {
        decimal(n / 10).push(digit(n % 10))
    }
}

/// Whether `p` occurs in `s` starting at index `i`.
pub open spec fn matches_at(s: Seq<char>, p: Seq<char>, i: int) -> bool {
    0 <= i && i + p.len() <= s.len() && s.subrange(i, i + p.len()) == p
}

/// Whether `p` occurs somewhere in `s` (as std's `str::contains` tests).
pub open spec fn contains(s: Seq<char>, p: Seq<char>) -> bool {
    exists|i: int| matches_at(s, p, i)
}

/// Whether `s` begins with `p`.
pub open spec fn starts_with(s: Seq<char>, p: Seq<char>) -> bool {
    p.is_prefix_of(s)
}

/// The number of bytes of the UTF-8 encoding of `s` (what std's `len` gives).
pub open spec fn byte_len(s: Seq<char>) -> nat {
    vstd::utf8::encode_utf8(s).len()
}

/// The length std's `str::len` reports for the text `s`: its UTF-8 byte count,
/// as a `usize`.
pub open spec fn str_len(s: Seq<char>) -> nat {
    (byte_len(s) as usize) as nat
}

/// Whether `c` has the Unicode `White_Space` property (what std's
/// `char::is_whitespace` tests): tab to carriage return, space, next line,
/// no-break space, ogham space mark, en quad to hair space, line and paragraph
/// separators, narrow no-break space, medium mathematical space and ideographic
/// space.
pub open spec fn spec_is_whitespace(c: char) -> bool {
    let n = c as u32;
    (0x9 <= n <= 0xD) || n == 0x20 || n == 0x85 || n == 0xA0 || n == 0x1680 || (0x2000 <= n <= 0x200A)
        || n == 0x2028 || n == 0x2029 || n == 0x202F || n == 0x205F || n == 0x3000
}

/// Whether `c` is whitespace (see `spec_is_whitespace`).
pub fn is_whitespace(c: char) -> (r: bool)
    ensures
        r == spec_is_whitespace(c),
{
    let n = c as u32;
    (0x9 <= n && n <= 0xD) || n == 0x20 || n == 0x85 || n == 0xA0 || n == 0x1680 || (0x2000 <= n && n <= 0x200A)
        || n == 0x2028 || n == 0x2029 || n == 0x202F || n == 0x205F || n == 0x3000
}

/// `s` without leading whitespace.
pub open spec fn trim_start(s: Seq<char>) -> Seq<char>
    decreases s.len(),
{
    if s.len() > 0 && spec_is_whitespace(s[0]) {
        trim_start(s.drop_first())
    } else {
        s
    }
}

/// `s` without trailing whitespace.
pub open spec fn trim_end(s: Seq<char>) -> Seq<char>
    decreases s.len(),
{
    if s.len() > 0 && spec_is_whitespace(s.last()) {
        trim_end(s.drop_last())
    } else {
        s
    }
}

/// `s` without leading or trailing whitespace (std's `str::trim`).
pub open spec fn trim(s: Seq<char>) -> Seq<char> {
    trim_end(trim_start(s))
}

/// Whether `s` is nothing but whitespace (possibly nothing at all).
pub open spec fn is_blank(s: Seq<char>) -> bool {
    forall|i: int| 0 <= i < s.len() ==> spec_is_whitespace(s[i])
}

pub proof fn lemma_trim_start_suffix(s: Seq<char>)
    ensures
        exists|k: int| 0 <= k <= s.len() && trim_start(s) == s.subrange(k, s.len() as int)
            && forall|j: int| 0 <= j < k ==> spec_is_whitespace(s[j]),
        trim_start(s).len() > 0 ==> !spec_is_whitespace(trim_start(s)[0]),
    decreases s.len(),
{
    if s.len() > 0 && spec_is_whitespace(s[0]) {
        lemma_trim_start_suffix(s.drop_first());
        let k = choose|k: int| 0 <= k <= s.drop_first().len()
            && trim_start(s.drop_first()) == s.drop_first().subrange(k, s.drop_first().len() as int)
            && forall|j: int| 0 <= j < k ==> spec_is_whitespace(s.drop_first()[j]);
        assert(s.drop_first().subrange(k, s.drop_first().len() as int) =~= s.subrange(k + 1, s.len() as int));
        assert forall|j: int| 0 <= j < k + 1 implies spec_is_whitespace(s[j]) by {
            if j > 0 {
                assert(s[j] == s.drop_first()[j - 1]);
            }
        }
    } else {
        assert(s.subrange(0, s.len() as int) =~= s);
    }
}

pub proof fn lemma_trim_end_prefix(s: Seq<char>)
    ensures
        exists|k: int| 0 <= k <= s.len() && trim_end(s) == s.subrange(0, k)
            && forall|j: int| k <= j < s.len() ==> spec_is_whitespace(s[j]),
        trim_end(s).len() > 0 ==> !spec_is_whitespace(trim_end(s).last()),
    decreases s.len(),
{
    if s.len() > 0 && spec_is_whitespace(s.last()) {
        lemma_trim_end_prefix(s.drop_last());
        let k = choose|k: int| 0 <= k <= s.drop_last().len()
            && trim_end(s.drop_last()) == s.drop_last().subrange(0, k)
            && forall|j: int| k <= j < s.drop_last().len() ==> spec_is_whitespace(s.drop_last()[j]);
        assert(s.drop_last().subrange(0, k) =~= s.subrange(0, k));
        assert forall|j: int| k <= j < s.len() implies spec_is_whitespace(s[j]) by {
            if j < s.len() - 1 {
                assert(s[j] == s.drop_last()[j]);
            }
        }
    } else {
        assert(s.subrange(0, s.len() as int) =~= s);
    }
}

/// Trimming leaves nothing exactly when the text is blank.
pub proof fn lemma_trim_empty_iff_blank(s: Seq<char>)
    ensures
        (trim(s).len() == 0) == is_blank(s),
    decreases s.len(),
{
    if s.len() > 0 && spec_is_whitespace(s[0]) {
        lemma_trim_empty_iff_blank(s.drop_first());
        assert(is_blank(s) == is_blank(s.drop_first())) by {
            if is_blank(s.drop_first()) {
                assert forall|i: int| 0 <= i < s.len() implies spec_is_whitespace(s[i]) by {
                    if i > 0 { assert(s[i] == s.drop_first()[i - 1]); }
                }
            }
        }
    } else {
        lemma_trim_end_prefix(s);
        if s.len() > 0 {
            assert(!is_blank(s));
            let k = choose|k: int| 0 <= k <= s.len() && trim_end(s) == s.subrange(0, k)
                && forall|j: int| k <= j < s.len() ==> spec_is_whitespace(s[j]);
            if k == 0 {
                assert(spec_is_whitespace(s[0]));
            }
        }
    }
}

} // verus!

verus! {

/// The character sequences held by a list of character vectors.
pub open spec fn views(v: Seq<Vec<char>>) -> Seq<Seq<char>> {
    v.map_values(|x: Vec<char>| x@)
}

/// The pieces of `s` between `'\n'`s (see `split_newlines`).
pub fn split_newlines_of(s: &[char]) -> (r: Vec<Vec<char>>)
    ensures
        views(r@) == split_newlines(s@),
{
    let mut pieces: Vec<Vec<char>> = Vec::new();
    let mut cur: Vec<char> = Vec::new();
    let mut i: usize = 0;
    assert(s@.take(0) =~= Seq::<char>::empty());
    assert(views(pieces@).push(cur@) =~= split_newlines(s@.take(0)));
    while i < s.len()
        invariant
            i <= s.len(),
            views(pieces@).push(cur@) == split_newlines(s@.take(i as int)),
        decreases s.len() - i,
    {
        let ghost before = s@.take(i as int);
        assert(s@.take(i + 1).drop_last() =~= before);
        assert(s@.take(i + 1).last() == s@[i as int]);
        proof { lemma_split_newlines_nonempty(before); }
        if s[i] == '\n' {
            let mut done: Vec<char> = Vec::new();
            std::mem::swap(&mut done, &mut cur);
            pieces.push(done);
            assert(views(pieces@).push(cur@) =~= split_newlines(before).push(Seq::empty()));
        } else {
            cur.push(s[i]);
            assert(views(pieces@).push(cur@) =~= split_newlines(before).update(
                split_newlines(before).len() - 1, split_newlines(before).last().push(s@[i as int])));
        }
        i = i + 1;
    }
    assert(s@.take(s.len() as int) =~= s@);
    let ghost prev = views(pieces@);
    pieces.push(cur);
    assert(views(pieces@) =~= prev.push(pieces@.last()@));
    pieces
}

/// The lines of `s` (see `lines`).
pub fn lines_of(s: &[char]) -> (r: Vec<Vec<char>>)
    ensures
        views(r@) == lines(s@),
{
    let mut pieces: Vec<Vec<char>> = Vec::new();
    let mut cur: Vec<char> = Vec::new();
    let mut i: usize = 0;
    assert(s@.take(0) =~= Seq::<char>::empty());
    assert(views(pieces@).push(cur@) =~= split_newlines(s@.take(0)));
    while i < s.len()
        invariant
            i <= s.len(),
            views(pieces@).push(cur@) == split_newlines(s@.take(i as int)),
        decreases s.len() - i,
    {
        let ghost before = s@.take(i as int);
        assert(s@.take(i + 1).drop_last() =~= before);
        assert(s@.take(i + 1).last() == s@[i as int]);
        proof { lemma_split_newlines_nonempty(before); }
        if s[i] == '\n' {
            let mut done: Vec<char> = Vec::new();
            std::mem::swap(&mut done, &mut cur);
            pieces.push(done);
            assert(views(pieces@).push(cur@) =~= split_newlines(before).push(Seq::empty()));
        } else {
            cur.push(s[i]);
            assert(views(pieces@).push(cur@) =~= split_newlines(before).update(
                split_newlines(before).len() - 1, split_newlines(before).last().push(s@[i as int])));
        }
        i = i + 1;
    }
    assert(s@.take(s.len() as int) =~= s@);
    let ghost p = split_newlines(s@);
    proof { lemma_split_newlines_nonempty(s@); }
    assert(p.drop_last() =~= views(pieces@));
    assert(p.last() == cur@);
    let mut r: Vec<Vec<char>> = Vec::new();
    let mut j: usize = 0;
    while j < pieces.len()
        invariant
            j <= pieces.len(),
            p.len() >= 1,
            p.drop_last() == views(pieces@),
            views(r@) == p.drop_last().take(j as int).map_values(|l: Seq<char>| strip_cr(l)),
        decreases pieces.len() - j,
    {
        let mut line = pieces[j].clone();
        let n = line.len();
        if n > 0 && line[n - 1] == '\r' {
            line.pop();
        }
        assert(line@ == strip_cr(pieces@[j as int]@));
        assert(p.drop_last()[j as int] == pieces@[j as int]@);
        let ghost old_r = views(r@);
        r.push(line);
        proof {
            let q = p.drop_last().take(j + 1).map_values(|l: Seq<char>| strip_cr(l));
            let q0 = p.drop_last().take(j as int).map_values(|l: Seq<char>| strip_cr(l));
            assert(q.len() == j + 1);
            assert forall|k: int| 0 <= k < j implies q[k] == q0[k] by {}
            assert(views(r@) =~= old_r.push(strip_cr(pieces@[j as int]@)));
            assert(views(r@) =~= q);
        }
        j = j + 1;
    }
    assert(p.drop_last().take(pieces.len() as int) =~= p.drop_last());
    if cur.len() > 0 {
        r.push(cur);
        assert(views(r@) =~= lines(s@));
    } else {
        assert(views(r@) =~= lines(s@));
    }
    r
}

/// `ls` joined with `sep` (see `join`).
pub fn join_chars(ls: &[Vec<char>], sep: &[char]) -> (r: Vec<char>)
    ensures
        r@ == join(views(ls@), sep@),
{
    let mut r: Vec<char> = Vec::new();
    let mut i: usize = 0;
    while i < ls.len()
        invariant
            i <= ls.len(),
            r@ == join(views(ls@).take(i as int), sep@),
        decreases ls.len() - i,
    {
        let ghost prev = r@;
        if i > 0 {
            append_chars(&mut r, sep);
        }
        append_chars(&mut r, ls[i].as_slice());
        assert(views(ls@).take(i + 1).drop_last() =~= views(ls@).take(i as int));
        if i == 0 {
            assert(prev =~= Seq::<char>::empty());
            assert(r@ =~= views(ls@).take(1)[0]);
        } else {
            assert(r@ =~= prev + sep@ + views(ls@)[i as int]);
        }
        i = i + 1;
    }
    assert(views(ls@).take(ls.len() as int) =~= views(ls@));
    r
}

/// Appends the characters of `b` to `a`.
pub fn append_chars(a: &mut Vec<char>, b: &[char])
    ensures
        final(a)@ == old(a)@ + b@,
{
    let mut i: usize = 0;
    while i < b.len()
        invariant
            i <= b.len(),
            a@ == old(a)@ + b@.take(i as int),
        decreases b.len() - i,
    {
        a.push(b[i]);
        assert(old(a)@ + b@.take(i + 1) =~= old(a)@ + b@.take(i as int) + seq![b@[i as int]]);
        i = i + 1;
    }
    assert(b@.take(b.len() as int) =~= b@);
}

/// Appends the characters of `s` to `a`.
pub fn append_str(a: &mut Vec<char>, s: &str)
    ensures
        final(a)@ == old(a)@ + s@,
{
    let cs = chars_of(s);
    append_chars(a, cs.as_slice());
}

/// The decimal digit character for `d < 10`.
pub fn digit_char(d: usize) -> (c: char)
    requires
        d < 10,
    ensures
        c == digit(d as nat),
{
    if d == 0 { '0' } else if d == 1 { '1' } else if d == 2 { '2' } else if d == 3 { '3' }
    else if d == 4 { '4' } else if d == 5 { '5' } else if d == 6 { '6' } else if d == 7 { '7' }
    else if d == 8 { '8' } else { '9' }
}

/// The decimal numeral of `n` (what `n.to_string()` gives).
pub fn decimal_chars(n: usize) -> (r: Vec<char>)
    ensures
        r@ == decimal(n as nat),
    decreases n,
{
    if n < 10 {
        let mut r: Vec<char> = Vec::new();
        r.push(digit_char(n));
        assert(r@ =~= decimal(n as nat));
        r
    } else {
        let mut r = decimal_chars(n / 10);
        r.push(digit_char(n % 10));
        r
    }
}

/// The first index at or after `from` where `p` occurs in `s`, if any.
pub fn find_from(s: &[char], p: &[char], from: usize) -> (r: Option<usize>)
    requires
        from <= s.len(),
    ensures
        match r {
            Some(i) => from <= i && matches_at(s@, p@, i as int)
                && forall|j: int| from <= j < i ==> !matches_at(s@, p@, j),
            None => forall|j: int| from <= j ==> !matches_at(s@, p@, j),
        },
{
    if p.len() > s.len() {
        return None;
    }
    let mut i: usize = from;
    loop
        invariant
            from <= i <= s.len(),
            p.len() <= s.len(),
            forall|j: int| from <= j < i ==> !matches_at(s@, p@, j),
        decreases s.len() - i,
    {
        if s.len() - i < p.len() {
            return None;
        }
        if matches_here(s, p, i) {
            return Some(i);
        }
        if i == s.len() {
            return None;
        }
        i = i + 1;
    }
}

/// Whether `p` occurs in `s` at index `i`.
pub fn matches_here(s: &[char], p: &[char], i: usize) -> (r: bool)
    ensures
        r == matches_at(s@, p@, i as int),
{
    if i > s.len() || p.len() > s.len() - i {
        return false;
    }
    let mut k: usize = 0;
    while k < p.len()
        invariant
            k <= p.len(),
            i + p.len() <= s.len(),
            forall|j: int| 0 <= j < k ==> s@[i + j] == p@[j],
        decreases p.len() - k,
    {
        if s[i + k] != p[k] {
            assert(s@.subrange(i as int, i + p.len())[k as int] != p@[k as int]);
            return false;
        }
        k = k + 1;
    }
    assert(s@.subrange(i as int, i + p.len()) =~= p@);
    true
}

/// Whether `p` occurs in `s`.
pub fn contains_chars(s: &[char], p: &[char]) -> (r: bool)
    ensures
        r == contains(s@, p@),
{
    match find_from(s, p, 0) {
        Some(i) => true,
        None => false,
    }
}

/// Whether `s` begins with `p`.
pub fn starts_with_chars(s: &[char], p: &[char]) -> (r: bool)
    ensures
        r == starts_with(s@, p@),
{
    let r = matches_here(s, p, 0);
    assert(r == p@.is_prefix_of(s@)) by {
        if p@.len() <= s@.len() {
            assert(s@.subrange(0, p@.len() as int) =~= s@.subrange(0int, 0int + p@.len()));
        }
    }
    r
}

/// `s` without leading or trailing whitespace.
pub fn trim_chars(s: &[char]) -> (r: Vec<char>)
    ensures
        r@ == trim(s@),
{
    let mut a: usize = 0;
    assert(s@.subrange(0, s.len() as int) =~= s@);
    while a < s.len() && is_whitespace(s[a])
        invariant
            a <= s.len(),
            trim_start(s@) == trim_start(s@.subrange(a as int, s.len() as int)),
        decreases s.len() - a,
    {
        assert(s@.subrange(a as int, s.len() as int).drop_first() =~= s@.subrange(a + 1, s.len() as int));
        a = a + 1;
    }
    let ghost t = s@.subrange(a as int, s.len() as int);
    assert(trim_start(s@) == t) by {
        assert(s@.subrange(0, s.len() as int) =~= s@);
    }
    let mut b: usize = s.len();
    while b > a && is_whitespace(s[b - 1])
        invariant
            a <= b <= s.len(),
            t == s@.subrange(a as int, s.len() as int),
            trim_end(t) == trim_end(s@.subrange(a as int, b as int)),
        decreases b,
    {
        assert(s@.subrange(a as int, b as int).drop_last() =~= s@.subrange(a as int, b - 1));
        b = b - 1;
    }
    let mut r: Vec<char> = Vec::new();
    let mut k: usize = a;
    while k < b
        invariant
            a <= k <= b,
            b <= s.len(),
            r@ == s@.subrange(a as int, k as int),
        decreases b - k,
    {
        r.push(s[k]);
        assert(s@.subrange(a as int, k + 1) =~= s@.subrange(a as int, k as int).push(s@[k as int]));
        k = k + 1;
    }
    r
}

/// Whether `s` is nothing but whitespace.
pub fn is_blank_chars(s: &[char]) -> (r: bool)
    ensures
        r == is_blank(s@),
{
    let mut i: usize = 0;
    while i < s.len()
        invariant
            i <= s.len(),
            forall|j: int| 0 <= j < i ==> spec_is_whitespace(s@[j]),
        decreases s.len() - i,
    {
        if !is_whitespace(s[i]) {
            return false;
        }
        i = i + 1;
    }
    true
}

} // verus!

verus! {

/// A copy of `v`.
pub fn copy_chars(v: &[char]) -> (r: Vec<char>)
    ensures
        r@ == v@,
{
    let mut r: Vec<char> = Vec::new();
    append_chars(&mut r, v);
    r
}

} // verus!

verus! {

/// Whether `a` and `b` hold the same characters.
pub fn chars_eq(a: &[char], b: &[char]) -> (r: bool)
    ensures
        r == (a@ == b@),
{
    if a.len() != b.len() {
        return false;
    }
    let mut i: usize = 0;
    while i < a.len()
        invariant
            a.len() == b.len(),
            i <= a.len(),
            forall|j: int| 0 <= j < i ==> a@[j] == b@[j],
        decreases a.len() - i,
    {
        if a[i] != b[i] {
            return false;
        }
        i = i + 1;
    }
    assert(a@ =~= b@);
    true
}

/// Whether the string `s` equals the text `t`.
pub fn str_eq(s: &str, t: &str) -> (r: bool)
    ensures
        r == (s@ == t@),
{
    let a = chars_of(s);
    let b = chars_of(t);
    chars_eq(a.as_slice(), b.as_slice())
}

/// Whether `c` is an ASCII decimal digit.
pub open spec fn is_digit(c: char) -> bool {
    '0' <= c <= '9'
}

/// The value of a string of decimal digits.
pub open spec fn digits_value(s: Seq<char>) -> nat
    decreases s.len(),
{
    if s.len() == 0 {
        0
    } else {
        digits_value(s.drop_last()) * 10 + (s.last() as nat - '0' as nat) as nat
    }
}

/// `s` without one leading `+`.
pub open spec fn unsigned_part(s: Seq<char>) -> Seq<char> {
    if s.len() > 0 && s[0] == '+' { s.drop_first() } else { s }
}

/// Whether every character of `s` is a decimal digit.
pub open spec fn all_digits(s: Seq<char>) -> bool {
    forall|i: int| 0 <= i < s.len() ==> is_digit(#[trigger] s[i])
}

/// What std's `str::parse::<usize>` gives: an optional `+`, then one or more
/// ASCII digits whose value fits in a `usize`.
pub open spec fn parse_usize(s: Seq<char>) -> Option<nat> {
    let d = unsigned_part(s);
    if d.len() == 0 || !all_digits(d) {
        None
    } else if digits_value(d) > usize::MAX {
        None
    } else {
        Some(digits_value(d))
    }
}

pub proof fn lemma_digits_value_monotone(s: Seq<char>, n: int)
    requires
        0 <= n <= s.len(),
        forall|i: int| 0 <= i < s.len() ==> is_digit(s[i]),
    ensures
        digits_value(s.take(n)) <= digits_value(s),
    decreases s.len(),
{
    if n < s.len() {
        assert(s.drop_last().take(n) =~= s.take(n));
        lemma_digits_value_monotone(s.drop_last(), n);
    } else {
        assert(s.take(n) =~= s);
    }
}

/// Parses a decimal `usize` as std's `str::parse::<usize>` does.
pub fn parse_usize_chars(s: &[char]) -> (r: Option<usize>)
    ensures
        r matches Some(v) ==> parse_usize(s@) == Some(v as nat),
        r is None ==> parse_usize(s@) is None,
{
    let start: usize = if s.len() > 0 && s[0] == '+' { 1 } else { 0 };
    let ghost d = unsigned_part(s@);
    assert(d =~= s@.subrange(start as int, s.len() as int));
    if start == s.len() {
        return None;
    }
    let mut i: usize = start;
    while i < s.len()
        invariant
            start <= i <= s.len(),
            d == s@.subrange(start as int, s.len() as int),
            d == unsigned_part(s@),
            forall|j: int| start <= j < i ==> is_digit(s@[j]),
        decreases s.len() - i,
    {
        if !(s[i] >= '0' && s[i] <= '9') {
            assert(!is_digit(d[i - start]));
            assert(!all_digits(d));
            return None;
        }
        i = i + 1;
    }
    let mut v: usize = 0;
    let mut k: usize = start;
    while k < s.len()
        invariant
            start <= k <= s.len(),
            d == s@.subrange(start as int, s.len() as int),
            d == unsigned_part(s@),
            forall|j: int| 0 <= j < d.len() ==> is_digit(d[j]),
            v as nat == digits_value(d.take(k - start)),
        decreases s.len() - k,
    {
        assert(d.take(k - start + 1).drop_last() =~= d.take(k - start));
        assert(d.take(k - start + 1).last() == s@[k as int]);
        let dv: usize = ((s[k] as u32) - ('0' as u32)) as usize;
        assert(digits_value(d.take(k - start + 1)) == v as nat * 10 + dv as nat);
        assert(all_digits(d));
        match v.checked_mul(10) {
            Some(m) => match m.checked_add(dv) {
                Some(n) => {
                    v = n;
                },
                None => {
                    proof { lemma_digits_value_monotone(d, k - start + 1); }
                    return None;
                },
            },
            None => {
                proof { lemma_digits_value_monotone(d, k - start + 1); }
                return None;
            },
        }
        k = k + 1;
    }
    assert(d.take(s.len() - start) =~= d);
    Some(v)
}

} // verus!

verus! {

/// What std's `str::to_uppercase` gives for `s`.
pub uninterp spec fn spec_to_uppercase(s: Seq<char>) -> Seq<char>;

/// std's `str::to_uppercase`: `s` with every character mapped to its Unicode
/// uppercase form. The result is a function of `s` alone; what it is for
/// particular characters is not stated.
#[verifier::external_body]
pub(crate) fn to_uppercase(s: &str) -> (r: String)
    ensures
        r@ == spec_to_uppercase(s@),
{
    s.to_uppercase()
}


/// What std's `str::to_lowercase` gives for `s`.
pub uninterp spec fn spec_to_lowercase(s: Seq<char>) -> Seq<char>;

/// std's `str::to_lowercase`: `s` with every character mapped to its Unicode
/// lowercase form. The result is a function of `s` alone; what it is for
/// particular characters is not stated.
#[verifier::external_body]
pub(crate) fn to_lowercase(s: &str) -> (r: String)
    ensures
        r@ == spec_to_lowercase(s@),
{
    s.to_lowercase()
}

/// `s` without the copies of `c` at its start.
pub open spec fn drop_leading(s: Seq<char>, c: char) -> Seq<char>
    decreases s.len(),
{
    if s.len() > 0 && s[0] == c { drop_leading(s.drop_first(), c) } else { s }
}

/// `s` without the copies of `c` at its end.
pub open spec fn drop_trailing(s: Seq<char>, c: char) -> Seq<char>
    decreases s.len(),
{
    if s.len() > 0 && s.last() == c { drop_trailing(s.drop_last(), c) } else { s }
}

/// `s` without the copies of `c` at either end (std's `trim_matches` with a char).
pub open spec fn strip_char(s: Seq<char>, c: char) -> Seq<char> {
    drop_trailing(drop_leading(s, c), c)
}

/// `s` without the copies of `c` at either end (see `strip_char`).
pub fn strip_char_chars(s: &[char], c: char) -> (r: Vec<char>)
    ensures
        r@ == strip_char(s@, c),
{
    let mut i: usize = 0;
    assert(s@.skip(0) =~= s@);
    while i < s.len() && s[i] == c
        invariant
            i <= s.len(),
            drop_leading(s@, c) == drop_leading(s@.skip(i as int), c),
        decreases s.len() - i,
    {
        assert(s@.skip(i as int).drop_first() =~= s@.skip(i + 1));
        i = i + 1;
    }
    let ghost t = s@.skip(i as int);
    let mut j: usize = s.len();
    while j > i && s[j - 1] == c
        invariant
            i <= j <= s.len(),
            t == s@.skip(i as int),
            drop_trailing(t, c) == drop_trailing(s@.subrange(i as int, j as int), c),
        decreases j - i,
    {
        assert(s@.subrange(i as int, j as int).drop_last() =~= s@.subrange(i as int, j - 1));
        j = j - 1;
    }
    assert(s@.skip(i as int) =~= s@.subrange(i as int, s.len() as int));
    let mut r: Vec<char> = Vec::new();
    let mut k: usize = i;
    while k < j
        invariant
            i <= k <= j,
            j <= s.len(),
            r@ == s@.subrange(i as int, k as int),
        decreases j - k,
    {
        r.push(s[k]);
        assert(r@ =~= s@.subrange(i as int, k + 1));
        k = k + 1;
    }
    r
}

} // verus!
