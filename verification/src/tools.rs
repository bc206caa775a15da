//! The logic of the tools the model can call: checking paths, building the
//! command lines they run, and shaping what those commands print into the text
//! the model reads. The program around the library runs the commands and touches
//! the files.
use vstd::prelude::*;
use crate::ollama::strings_view;
use crate::args::{count_arg, flag_or, opt_text, required_arg, text_arg, text_or, texts_arg, missing, ToolArgs};
use crate::text::{
    append_chars, append_str, chars_of, contains, contains_chars, decimal, decimal_chars, find_from,
    is_blank, is_blank_chars, join, join_chars, lines, lines_of, matches_at, starts_with,
    starts_with_chars, str_eq, str_len, string_of, views, lemma_lines_clean, lemma_lines_of_joined,
};

verus! {

/// The user's home directory as text, when the platform reports one (the
/// `directories` crate's `BaseDirs::new` and `home_dir`). Nothing is promised of
/// the result: it depends on the machine.
#[verifier::external_body]
fn home_dir() -> (r: Option<String>) {
    directories::BaseDirs::new().map(|b| b.home_dir().to_string_lossy().to_string())
}

/// `path` with a leading `~` standing for the home directory `home`: `~` alone
/// becomes the home directory and `~/...` a path inside it; other paths, and any
/// path when there is no home directory, stay as they are.
pub open spec fn expanded(path: Seq<char>, home: Option<Seq<char>>) -> Seq<char> {
    match home {
        Some(h) => if path == "~"@ {
            h
        } else if starts_with(path, "~/"@) {
            h + path.skip(1)
        } else {
            path
        },
        None => path,
    }
}

/// Expands a leading `~` with the given home directory (see `expanded`).
pub fn expand_with_home(path: &str, home: Option<String>) -> (r: String)
    ensures
        r@ == expanded(path@, crate::ollama::opt_view(home)),
{
    match home {
        Some(h) => {
            let cs = chars_of(path);
            if str_eq(path, "~") {
                h
            } else if starts_with_chars(cs.as_slice(), chars_of("~/").as_slice()) {
                proof { reveal_strlit("~/"); }
                let mut out: Vec<char> = chars_of(h.as_str());
                let rest = cs.as_slice().split_at(1).1;
                assert(rest@ =~= path@.skip(1));
                append_chars(&mut out, rest);
                string_of(out.as_slice())
            } else {
                String::from_str(path)
            }
        },
        None => String::from_str(path),
    }
}

/// Expands a leading `~` to the user's home directory (see `expanded`); a path
/// that does not begin with `~` is returned as it is.
pub fn expand_path(path: &str) -> (r: String)
    ensures
        exists|h: Option<Seq<char>>| r@ == expanded(path@, h),
        !(path@ == "~"@ || starts_with(path@, "~/"@)) ==> r@ == path@,
{
    let home = home_dir();
    let ghost h = crate::ollama::opt_view(home);
    let r = expand_with_home(path, home);
    assert(r@ == expanded(path@, h));
    r
}

/// The first of `patterns` that occurs in `path`, if any.
pub open spec fn first_contained(path: Seq<char>, patterns: Seq<Seq<char>>) -> Option<Seq<char>>
    decreases patterns.len(),
{
    if patterns.len() == 0 {
        None
    } else if contains(path, patterns[0]) {
        Some(patterns[0])
    } else {
        first_contained(path, patterns.drop_first())
    }
}

/// Why a path may not be touched, if it may not: a `..` in it, or an ignored
/// pattern occurring in it (the first such one is named).
pub open spec fn path_refusal(path: Seq<char>, ignored: Seq<Seq<char>>) -> Option<Seq<char>> {
    if contains(path, ".."@) {
        Some("Security: '..' not allowed"@)
    } else {
        match first_contained(path, ignored) {
            Some(p) => Some("Access denied: Path contains ignored pattern '"@ + p + "'"@),
            None => None,
        }
    }
}

/// Checks that the file tools may touch `path` (see `path_refusal`).
pub fn check_path_access(path: &str, ignored: &[String]) -> (r: Result<(), String>)
    ensures
        match path_refusal(path@, strings_view(ignored@)) {
            Some(msg) => r matches Err(e) && e@ == msg,
            None => r is Ok,
        },
{
    let cs = chars_of(path);
    if contains_chars(cs.as_slice(), chars_of("..").as_slice()) {
        return Err(String::from_str("Security: '..' not allowed"));
    }
    let mut i: usize = 0;
    assert(strings_view(ignored@).skip(0) =~= strings_view(ignored@));
    while i < ignored.len()
        invariant
            i <= ignored.len(),
            cs@ == path@,
            !contains(path@, ".."@),
            first_contained(path@, strings_view(ignored@)) == first_contained(path@, strings_view(ignored@).skip(i as int)),
        decreases ignored.len() - i,
    {
        assert(strings_view(ignored@).skip(i as int).drop_first() =~= strings_view(ignored@).skip(i + 1));
        let p = chars_of(ignored[i].as_str());
        if contains_chars(cs.as_slice(), p.as_slice()) {
            let mut msg: Vec<char> = chars_of("Access denied: Path contains ignored pattern '");
            append_chars(&mut msg, p.as_slice());
            append_str(&mut msg, "'");
            assert(strings_view(ignored@).skip(i as int)[0] == p@);
            return Err(string_of(msg.as_slice()));
        }
        i = i + 1;
    }
    Ok(())
}

/// At most the first `n` lines of a command's output, joined by newlines, with
/// `more` added when lines were left out.
pub open spec fn first_lines(out: Seq<char>, n: nat, more: Seq<char>) -> Seq<char> {
    let ls = lines(out);
    if ls.len() > n {
        join(ls.take(n as int), "\n"@) + more
    } else {
        join(ls, "\n"@)
    }
}

/// What a listing command's output becomes: `empty` when it printed nothing but
/// whitespace, else its first `n` lines (see `first_lines`).
pub open spec fn listing_text(out: Seq<char>, n: nat, empty: Seq<char>, more: Seq<char>) -> Seq<char> {
    if is_blank(out) { empty } else { first_lines(out, n, more) }
}

/// Shapes a listing command's output (see `listing_text`).
pub fn listing_output(out: &str, n: usize, empty: &str, more: &str) -> (r: String)
    ensures
        r@ == listing_text(out@, n as nat, empty@, more@),
{
    let cs = chars_of(out);
    if is_blank_chars(cs.as_slice()) {
        return String::from_str(empty);
    }
    let ls = lines_of(cs.as_slice());
    if ls.len() > n {
        let head = ls.as_slice().split_at(n).0;
        assert(views(head@) =~= lines(out@).take(n as int));
        let mut r = join_chars(head, chars_of("\n").as_slice());
        append_str(&mut r, more);
        string_of(r.as_slice())
    } else {
        let r = join_chars(ls.as_slice(), chars_of("\n").as_slice());
        string_of(r.as_slice())
    }
}

/// The decimal numeral of a signed number.
pub open spec fn signed_decimal(n: int) -> Seq<char> {
    if n < 0 { "-"@ + decimal((-n) as nat) } else { decimal(n as nat) }
}

/// The decimal numeral of `n` (see `signed_decimal`).
pub fn signed_decimal_text(n: i32) -> (r: Vec<char>)
    ensures
        r@ == signed_decimal(n as int),
{
    if n < 0 {
        let m: u32 = if n == i32::MIN { 2147483648u32 } else { (0 - n) as u32 };
        let mut r: Vec<char> = chars_of("-");
        let d = decimal_chars(m as usize);
        append_chars(&mut r, d.as_slice());
        r
    } else {
        decimal_chars(n as usize)
    }
}


/// The texts `f` gives for each of `items`, one after another.
pub open spec fn flat_map(items: Seq<Seq<char>>, f: spec_fn(Seq<char>) -> Seq<Seq<char>>) -> Seq<Seq<char>>
    decreases items.len(),
{
    if items.len() == 0 {
        Seq::empty()
    } else {
        flat_map(items.drop_last(), f) + f(items.last())
    }
}

/// Appends a copy of `s` to `v`.
fn push_text(v: &mut Vec<String>, s: &str)
    ensures
        strings_view(final(v)@) == strings_view(old(v)@).push(s@),
{
    let ghost prev = strings_view(v@);
    v.push(String::from_str(s));
    assert(strings_view(v@) =~= prev.push(s@));
}

/// `a` followed by `b`.
fn concat2(a: &str, b: &str) -> (r: String)
    ensures
        r@ == a@ + b@,
{
    let mut t: Vec<char> = chars_of(a);
    append_str(&mut t, b);
    string_of(t.as_slice())
}

/// `a`, `b` and `c` one after another.
fn concat3(a: &str, b: &str, c: &str) -> (r: String)
    ensures
        r@ == a@ + b@ + c@,
{
    let mut t: Vec<char> = chars_of(a);
    append_str(&mut t, b);
    append_str(&mut t, c);
    string_of(t.as_slice())
}

/// The `find` arguments that leave out an ignored pattern, as a directory and as
/// a last path component.
pub open spec fn find_exclusion(ig: Seq<char>) -> Seq<Seq<char>> {
    seq!["-not"@, "-path"@, "*/"@ + ig + "/*"@, "-not"@, "-path"@, "*/"@ + ig]
}

/// The `rg` arguments that leave out an ignored pattern.
pub open spec fn rg_exclusion(ig: Seq<char>) -> Seq<Seq<char>> {
    seq!["-g"@, "!"@ + ig, "-g"@, "!"@ + ig + "/"@]
}

/// The `grep` arguments that leave out an ignored pattern.
pub open spec fn grep_exclusion(ig: Seq<char>) -> Seq<Seq<char>> {
    seq!["--exclude-dir="@ + ig, "--exclude="@ + ig, "--exclude="@ + ig + "/"@]
}

/// Appends the `find` exclusions of `ignored` to `v`.
fn push_find_exclusions(v: &mut Vec<String>, ignored: &[String])
    ensures
        strings_view(final(v)@) == strings_view(old(v)@) + flat_map(strings_view(ignored@), |ig: Seq<char>| find_exclusion(ig)),
{
    let ghost start = strings_view(v@);
    let mut i: usize = 0;
    assert(strings_view(ignored@).take(0) =~= Seq::<Seq<char>>::empty());
    assert(start + Seq::<Seq<char>>::empty() =~= start);
    while i < ignored.len()
        invariant
            i <= ignored.len(),
            strings_view(v@) == start + flat_map(strings_view(ignored@).take(i as int), |ig: Seq<char>| find_exclusion(ig)),
        decreases ignored.len() - i,
    {
        let ig = ignored[i].as_str();
        let ghost before = strings_view(v@);
        push_text(v, "-not");
        push_text(v, "-path");
        let a = concat3("*/", ig, "/*");
        push_text(v, a.as_str());
        push_text(v, "-not");
        push_text(v, "-path");
        let b = concat2("*/", ig);
        push_text(v, b.as_str());
        assert(strings_view(ignored@).take(i + 1).drop_last() =~= strings_view(ignored@).take(i as int));
        assert(strings_view(v@) =~= before + find_exclusion(ig@));
        i = i + 1;
    }
    assert(strings_view(ignored@).take(ignored.len() as int) =~= strings_view(ignored@));
}

/// The tool that lists a directory.
pub struct ListDirectoryTool {
    pub ignored_patterns: Vec<String>,
}

/// The arguments of `find` for listing the directory `path`.
pub open spec fn list_args(path: Seq<char>, ignored: Seq<Seq<char>>) -> Seq<Seq<char>> {
    seq![path, "-maxdepth"@, "1"@] + flat_map(ignored, |ig: Seq<char>| find_exclusion(ig)) + seq!["-ls"@]
}

impl ListDirectoryTool {
    /// The arguments of `find` for listing `path` (see `list_args`).
    pub fn find_args(&self, path: &str) -> (r: Vec<String>)
        ensures
            strings_view(r@) == list_args(path@, strings_view(self.ignored_patterns@)),
    {
        let mut v: Vec<String> = Vec::new();
        push_text(&mut v, path);
        push_text(&mut v, "-maxdepth");
        push_text(&mut v, "1");
        push_find_exclusions(&mut v, self.ignored_patterns.as_slice());
        push_text(&mut v, "-ls");
        assert(strings_view(v@) =~= list_args(path@, strings_view(self.ignored_patterns@)));
        v
    }

    /// What the tool answers, from whether `find` succeeded and what it printed.
    pub fn output(&self, success: bool, stdout: &str, stderr: &str) -> (r: Result<String, String>)
        ensures
            success ==> (r matches Ok(t) && t@ == listing_text(stdout@, 50,
                "Directory is empty or all items ignored."@, "\n... (truncated)"@)),
            !success ==> (r matches Err(e) && e@ == "List directory failed: "@ + stderr@),
    {
        if !success {
            return Err(concat2("List directory failed: ", stderr));
        }
        Ok(listing_output(stdout, 50, "Directory is empty or all items ignored.", "\n... (truncated)"))
    }
}

/// The tool that finds files by name.
pub struct FileSearchTool {
    pub ignored_patterns: Vec<String>,
}

/// The arguments of `find` for files named like `name` under `path`.
pub open spec fn search_args(path: Seq<char>, name: Seq<char>, ignored: Seq<Seq<char>>) -> Seq<Seq<char>> {
    seq![path] + flat_map(ignored, |ig: Seq<char>| find_exclusion(ig)) + seq!["-name"@, name, "-ls"@]
}

impl FileSearchTool {
    /// The arguments of `find` (see `search_args`).
    pub fn find_args(&self, path: &str, name: &str) -> (r: Vec<String>)
        ensures
            strings_view(r@) == search_args(path@, name@, strings_view(self.ignored_patterns@)),
    {
        let mut v: Vec<String> = Vec::new();
        push_text(&mut v, path);
        push_find_exclusions(&mut v, self.ignored_patterns.as_slice());
        push_text(&mut v, "-name");
        push_text(&mut v, name);
        push_text(&mut v, "-ls");
        assert(strings_view(v@) =~= search_args(path@, name@, strings_view(self.ignored_patterns@)));
        v
    }

    /// What the tool answers, from whether `find` succeeded and what it printed.
    pub fn output(&self, success: bool, stdout: &str, stderr: &str) -> (r: Result<String, String>)
        ensures
            success ==> (r matches Ok(t) && t@ == listing_text(stdout@, 20, "No files found."@, "\n... (and more)"@)),
            !success ==> (r matches Err(e) && e@ == "Find command failed: "@ + stderr@),
    {
        if !success {
            return Err(concat2("Find command failed: ", stderr));
        }
        Ok(listing_output(stdout, 20, "No files found.", "\n... (and more)"))
    }
}

/// The tool that searches files for a text.
pub struct GrepTool {
    pub ignored_patterns: Vec<String>,
}

/// The arguments of `rg` for the search.
pub open spec fn rg_args_spec(pattern: Seq<char>, path: Seq<char>, recursive: bool, case_insensitive: bool, ignored: Seq<Seq<char>>) -> Seq<Seq<char>> {
    seq!["--color=never"@, "--vimgrep"@, "--smart-case"@, if case_insensitive { "-i"@ } else { "-s"@ }]
        + (if recursive { Seq::empty() } else { seq!["--max-depth=1"@] })
        + flat_map(ignored, |ig: Seq<char>| rg_exclusion(ig))
        + seq!["--max-columns=1000"@, "-I"@, pattern, path]
}

/// The arguments of `grep` for the search, when `rg` cannot be run.
pub open spec fn grep_args_spec(pattern: Seq<char>, path: Seq<char>, recursive: bool, case_insensitive: bool, ignored: Seq<Seq<char>>) -> Seq<Seq<char>> {
    seq!["--color=never"@, "-n"@, "-I"@, "-H"@]
        + (if recursive { seq!["-r"@] } else { Seq::empty() })
        + (if case_insensitive { seq!["-i"@] } else { Seq::empty() })
        + flat_map(ignored, |ig: Seq<char>| grep_exclusion(ig))
        + seq![pattern, path]
}

/// What `grep` printed becomes: an error for an exit code other than 0, 1 and 2;
/// "No matches found." for blank output; else the first fifty lines, with a note
/// when some directories could not be read (exit code 2).
pub open spec fn grep_text(code: i32, stdout: Seq<char>, stderr: Seq<char>) -> Result<Seq<char>, Seq<char>> {
    if code != 0 && code != 1 && code != 2 {
        Err("Grep failed with exit code "@ + signed_decimal(code as int) + ": "@ + stderr)
    } else if is_blank(stdout) {
        Ok("No matches found."@)
    } else {
        let head = join(lines(stdout).take(if lines(stdout).len() > 50 { 50 } else { lines(stdout).len() as int }), "\n"@);
        if code == 2 {
            Ok(head + "\n\n(Note: Some directories were skipped due to permission errors)"@)
        } else {
            Ok(head)
        }
    }
}

impl GrepTool {
    /// The arguments of `rg` (see `rg_args_spec`).
    pub fn rg_args(&self, pattern: &str, path: &str, recursive: bool, case_insensitive: bool) -> (r: Vec<String>)
        ensures
            strings_view(r@) == rg_args_spec(pattern@, path@, recursive, case_insensitive, strings_view(self.ignored_patterns@)),
    {
        let mut v: Vec<String> = Vec::new();
        push_text(&mut v, "--color=never");
        push_text(&mut v, "--vimgrep");
        push_text(&mut v, "--smart-case");
        if case_insensitive {
            push_text(&mut v, "-i");
        } else {
            push_text(&mut v, "-s");
        }
        if !recursive {
            push_text(&mut v, "--max-depth=1");
        }
        let ghost start = strings_view(v@);
        let ignored = self.ignored_patterns.as_slice();
        let mut i: usize = 0;
        assert(strings_view(ignored@).take(0) =~= Seq::<Seq<char>>::empty());
        assert(start + Seq::<Seq<char>>::empty() =~= start);
        while i < ignored.len()
            invariant
                i <= ignored.len(),
                strings_view(v@) == start + flat_map(strings_view(ignored@).take(i as int), |ig: Seq<char>| rg_exclusion(ig)),
            decreases ignored.len() - i,
        {
            let ig = ignored[i].as_str();
            let ghost before = strings_view(v@);
            push_text(&mut v, "-g");
            let a = concat2("!", ig);
            push_text(&mut v, a.as_str());
            push_text(&mut v, "-g");
            let b = concat3("!", ig, "/");
            push_text(&mut v, b.as_str());
            assert(strings_view(ignored@).take(i + 1).drop_last() =~= strings_view(ignored@).take(i as int));
                assert(strings_view(v@) =~= before + rg_exclusion(ig@));
            i = i + 1;
        }
        assert(strings_view(ignored@).take(ignored.len() as int) =~= strings_view(ignored@));
        push_text(&mut v, "--max-columns=1000");
        push_text(&mut v, "-I");
        push_text(&mut v, pattern);
        push_text(&mut v, path);
        assert(strings_view(v@) =~= rg_args_spec(pattern@, path@, recursive, case_insensitive, strings_view(self.ignored_patterns@)));
        v
    }

    /// What `rg` printed becomes, when its exit code (`None` when it has none)
    /// says it ran: 0 or 1. Otherwise `None`, and `grep` is run instead.
    pub fn rg_output(&self, code: Option<i32>, stdout: &str) -> (r: Option<String>)
        ensures
            match code {
                Some(c) if c == 0 || c == 1 => r matches Some(t)
                    && t@ == listing_text(stdout@, 50, "No matches found."@, "\n... (truncated)"@),
                _ => r is None,
            },
    {
        match code {
            Some(c) => {
                if c == 0 || c == 1 {
                    Some(listing_output(stdout, 50, "No matches found.", "\n... (truncated)"))
                } else {
                    None
                }
            },
            None => None,
        }
    }

    /// The arguments of `grep` (see `grep_args_spec`).
    pub fn grep_args(&self, pattern: &str, path: &str, recursive: bool, case_insensitive: bool) -> (r: Vec<String>)
        ensures
            strings_view(r@) == grep_args_spec(pattern@, path@, recursive, case_insensitive, strings_view(self.ignored_patterns@)),
    {
        let mut v: Vec<String> = Vec::new();
        push_text(&mut v, "--color=never");
        push_text(&mut v, "-n");
        push_text(&mut v, "-I");
        push_text(&mut v, "-H");
        if recursive {
            push_text(&mut v, "-r");
        }
        if case_insensitive {
            push_text(&mut v, "-i");
        }
        let ghost start = strings_view(v@);
        let ignored = self.ignored_patterns.as_slice();
        let mut i: usize = 0;
        assert(strings_view(ignored@).take(0) =~= Seq::<Seq<char>>::empty());
        assert(start + Seq::<Seq<char>>::empty() =~= start);
        while i < ignored.len()
            invariant
                i <= ignored.len(),
                strings_view(v@) == start + flat_map(strings_view(ignored@).take(i as int), |ig: Seq<char>| grep_exclusion(ig)),
            decreases ignored.len() - i,
        {
            let ig = ignored[i].as_str();
            let ghost before = strings_view(v@);
            let a = concat2("--exclude-dir=", ig);
            push_text(&mut v, a.as_str());
            let b = concat2("--exclude=", ig);
            push_text(&mut v, b.as_str());
            let c = concat3("--exclude=", ig, "/");
            push_text(&mut v, c.as_str());
            assert(strings_view(ignored@).take(i + 1).drop_last() =~= strings_view(ignored@).take(i as int));
                assert(strings_view(v@) =~= before + grep_exclusion(ig@));
            i = i + 1;
        }
        assert(strings_view(ignored@).take(ignored.len() as int) =~= strings_view(ignored@));
        push_text(&mut v, pattern);
        push_text(&mut v, path);
        assert(strings_view(v@) =~= grep_args_spec(pattern@, path@, recursive, case_insensitive, strings_view(self.ignored_patterns@)));
        v
    }

    /// What the tool answers from `grep`'s exit code (-1 when it has none) and
    /// output (see `grep_text`).
    pub fn grep_output(&self, code: i32, stdout: &str, stderr: &str) -> (r: Result<String, String>)
        ensures
            match grep_text(code, stdout@, stderr@) {
                Ok(t) => r matches Ok(x) && x@ == t,
                Err(t) => r matches Err(x) && x@ == t,
            },
    {
        if code != 0 && code != 1 && code != 2 {
            let mut m: Vec<char> = chars_of("Grep failed with exit code ");
            let d = signed_decimal_text(code);
            append_chars(&mut m, d.as_slice());
            append_str(&mut m, ": ");
            append_str(&mut m, stderr);
            return Err(string_of(m.as_slice()));
        }
        let head = listing_output(stdout, 50, "No matches found.", "");
        let cs = chars_of(stdout);
        if is_blank_chars(cs.as_slice()) {
            return Ok(head);
        }
        proof {
            reveal_strlit("");
            let ls = lines(stdout@);
            if ls.len() <= 50 {
                assert(ls.take(ls.len() as int) =~= ls);
            }
            assert(join(ls.take(50), "\n"@) + ""@ =~= join(ls.take(50), "\n"@));
        }
        if code == 2 {
            Ok(concat2(head.as_str(), "\n\n(Note: Some directories were skipped due to permission errors)"))
        } else {
            Ok(head)
        }
    }
}


/// The text of the first `n` bytes of the UTF-8 encoding of `s`.
pub open spec fn byte_prefix(s: Seq<char>, n: nat) -> Seq<char> {
    vstd::utf8::decode_utf8(vstd::utf8::encode_utf8(s).take(n as int))
}

/// `s` cut to its first `n` bytes with `note` added, when it is longer than that.
pub open spec fn cut_text(s: Seq<char>, n: nat, note: Seq<char>) -> Seq<char> {
    if str_len(s) > n { byte_prefix(s, n) + note } else { s }
}

/// Whether `s` can be cut at byte `n`: it is no longer than that, or a character
/// starts there (slicing elsewhere panics).
pub open spec fn cut_ok(s: Seq<char>, n: nat) -> bool {
    str_len(s) > n ==> vstd::utf8::is_char_boundary(vstd::utf8::encode_utf8(s), n as int)
}

/// Whether `s` can be cut at byte `n` (see `cut_ok`).
pub fn can_cut(s: &str, n: usize) -> (r: bool)
    ensures
        r == cut_ok(s@, n as nat),
{
    if s.len() > n {
        s.is_char_boundary(n)
    } else {
        true
    }
}

/// Cuts `s` to its first `n` bytes, adding `note` when it was longer (see
/// `cut_text`).
pub fn cut_to_bytes(s: &str, n: usize, note: &str) -> (r: String)
    requires
        cut_ok(s@, n as nat),
    ensures
        r@ == cut_text(s@, n as nat, note@),
{
    if s.len() > n {
        let (head, _tail) = s.split_at(n);
        proof {
            vstd::utf8::encode_utf8_decode_utf8(head@);
            assert(vstd::utf8::encode_utf8(head@) =~= vstd::utf8::encode_utf8(s@).take(n as int));
        }
        concat2(head, note)
    } else {
        String::from_str(s)
    }
}

/// Whether an argument holds one of the shell's operators.
pub open spec fn has_shell_operator(arg: Seq<char>) -> bool {
    contains(arg, "|"@) || contains(arg, "&&"@) || contains(arg, ";"@) || contains(arg, ">"@)
        || contains(arg, ">>"@) || contains(arg, "<"@) || contains(arg, "&"@)
}

/// How a command is run.
#[derive(Debug, Clone, PartialEq)]
pub enum CommandPlan {
    /// Through the shell, as this command line.
    Shell(String),
    /// Directly, with the arguments as given.
    Direct,
}

/// The text std's `{:?}` gives for a list of strings.
pub uninterp spec fn debug_list(items: Seq<Seq<char>>) -> Seq<char>;

/// std's `Debug` formatting of a list of strings (`["a", "b"]`, each string
/// quoted and escaped).
#[verifier::external_body]
fn debug_list_text(items: &[String]) -> (r: String)
    ensures
        r@ == debug_list(strings_view(items@)),
{
    format!("{:?}", items)
}

/// The text a command leaves for the model: its output when it succeeded (a
/// note when that is blank), else both its outputs.
pub open spec fn command_result_spec(success: bool, stdout: Seq<char>, stderr: Seq<char>) -> Seq<char> {
    if success {
        if is_blank(stdout) { "Command succeeded with no output."@ } else { stdout }
    } else {
        "Command failed:\nstdout: "@ + stdout + "\nstderr: "@ + stderr
    }
}

/// The tool that runs an allowed command.
pub struct RunCommandTool {
    pub allowed_commands: Vec<String>,
}

impl RunCommandTool {
    /// How to run `command` with `args`: refused unless the command is allowed;
    /// through the shell (the command and its arguments joined by spaces) when an
    /// argument holds a shell operator; else directly.
    pub fn plan(&self, command: &str, args: &[String]) -> (r: Result<CommandPlan, String>)
        ensures
            !strings_view(self.allowed_commands@).contains(command@) ==> (r matches Err(e)
                && e@ == "Command '"@ + command@ + "' is not allowed. Allowed commands: "@
                    + debug_list(strings_view(self.allowed_commands@))),
            strings_view(self.allowed_commands@).contains(command@) ==> match r {
                Ok(CommandPlan::Shell(line)) => (exists|i: int| 0 <= i < args@.len() && has_shell_operator(#[trigger] args@[i]@))
                    && line@ == command@ + " "@ + join(strings_view(args@), " "@),
                Ok(CommandPlan::Direct) => forall|i: int| 0 <= i < args@.len() ==> !has_shell_operator(#[trigger] args@[i]@),
                Err(_) => false,
            },
    {
        let allowed = self.allowed_commands.as_slice();
        let mut k: usize = 0;
        let mut found = false;
        while k < allowed.len() && !found
            invariant
                k <= allowed.len(),
                found ==> strings_view(allowed@).contains(command@),
                !found ==> forall|j: int| 0 <= j < k ==> strings_view(allowed@)[j] != command@,
            decreases allowed.len() - k,
        {
            if str_eq(allowed[k].as_str(), command) {
                found = true;
                assert(strings_view(allowed@)[k as int] == command@);
            }
            k = k + 1;
        }
        if !found {
            let mut m: Vec<char> = chars_of("Command '");
            append_str(&mut m, command);
            append_str(&mut m, "' is not allowed. Allowed commands: ");
            let d = debug_list_text(allowed);
            append_str(&mut m, d.as_str());
            return Err(string_of(m.as_slice()));
        }
        let mut i: usize = 0;
        let mut shell = false;
        while i < args.len() && !shell
            invariant
                i <= args.len(),
                shell ==> exists|j: int| 0 <= j < args@.len() && has_shell_operator(#[trigger] args@[j]@),
                !shell ==> forall|j: int| 0 <= j < i ==> !has_shell_operator(#[trigger] args@[j]@),
            decreases args.len() - i,
        {
            if shell_operator_in(args[i].as_str()) {
                shell = true;
            }
            i = i + 1;
        }
        if shell {
            let joined = crate::app::join_strings(args, " ");
            let mut line: Vec<char> = chars_of(command);
            append_str(&mut line, " ");
            append_str(&mut line, joined.as_str());
            Ok(CommandPlan::Shell(string_of(line.as_slice())))
        } else {
            Ok(CommandPlan::Direct)
        }
    }

    /// The text the model gets (see `command_result_spec`), before it is cut to
    /// five thousand bytes.
    pub fn command_result(&self, success: bool, stdout: &str, stderr: &str) -> (r: String)
        ensures
            r@ == command_result_spec(success, stdout@, stderr@),
    {
        if success {
            let cs = chars_of(stdout);
            if is_blank_chars(cs.as_slice()) {
                String::from_str("Command succeeded with no output.")
            } else {
                String::from_str(stdout)
            }
        } else {
            let mut m: Vec<char> = chars_of("Command failed:\nstdout: ");
            append_str(&mut m, stdout);
            append_str(&mut m, "\nstderr: ");
            append_str(&mut m, stderr);
            string_of(m.as_slice())
        }
    }

    /// What the tool answers: the command's text cut to five thousand bytes.
    pub fn output(&self, success: bool, stdout: &str, stderr: &str) -> (r: String)
        requires
            cut_ok(command_result_spec(success, stdout@, stderr@), 5000),
        ensures
            r@ == cut_text(command_result_spec(success, stdout@, stderr@), 5000, "... (truncated)"@),
    {
        let text = self.command_result(success, stdout, stderr);
        cut_to_bytes(text.as_str(), 5000, "... (truncated)")
    }
}

/// Whether `arg` holds a shell operator (see `has_shell_operator`).
fn shell_operator_in(arg: &str) -> (r: bool)
    ensures
        r == has_shell_operator(arg@),
{
    let cs = chars_of(arg);
    let s = cs.as_slice();
    contains_chars(s, chars_of("|").as_slice()) || contains_chars(s, chars_of("&&").as_slice())
        || contains_chars(s, chars_of(";").as_slice()) || contains_chars(s, chars_of(">").as_slice())
        || contains_chars(s, chars_of(">>").as_slice()) || contains_chars(s, chars_of("<").as_slice())
        || contains_chars(s, chars_of("&").as_slice())
}


/// `k` spaces.
pub open spec fn spaces(k: nat) -> Seq<char> {
    Seq::new(k, |i: int| ' ')
}

/// The line number `n` right-aligned in four columns (`{:4}`).
pub open spec fn padded4(n: nat) -> Seq<char> {
    let d = decimal(n);
    if d.len() < 4 { spaces((4 - d.len()) as nat) + d } else { d }
}

/// The lines of `content`, each behind its number and `" | "`, joined by newlines.
pub open spec fn numbered_text(content: Seq<char>) -> Seq<char> {
    let ls = lines(content);
    join(Seq::new(ls.len(), |i: int| padded4((i + 1) as nat) + " | "@ + ls[i]), "\n"@)
}

/// A span of lines of a file kept for the knowledge base: its text and its first
/// and last line (counted from 1).
#[derive(Debug, Clone, PartialEq)]
pub struct ChunkSpan {
    pub content: String,
    pub start_line: usize,
    pub end_line: usize,
}

/// The view of a span: its text and its lines.
pub open spec fn span_view(c: ChunkSpan) -> (Seq<char>, nat, nat) {
    (c.content@, c.start_line as nat, c.end_line as nat)
}

/// The spans of `size` lines from line `start` on, each starting `step` lines
/// after the one before, the last reaching the end; spans of fifty bytes or less
/// are left out.
pub open spec fn spans_from(ls: Seq<Seq<char>>, start: nat, size: nat, step: nat) -> Seq<(Seq<char>, nat, nat)>
    decreases ls.len() - start,
{
    if start >= ls.len() || step == 0 {
        Seq::empty()
    } else {
        let end: nat = if start + size < ls.len() { start + size } else { ls.len() };
        let text = join(ls.subrange(start as int, end as int), "\n"@);
        let here = if str_len(text) > 50 { seq![(text, start + 1, end)] } else { Seq::empty() };
        if end == ls.len() || start + step >= ls.len() { here } else { here + spans_from(ls, start + step, size, step) }
    }
}

/// The spans of `content` (see `spans_from`), `size` lines long and overlapping
/// by `overlap` lines.
pub fn chunk_lines(content: &str, size: usize, overlap: usize) -> (r: Vec<ChunkSpan>)
    requires
        overlap < size,
    ensures
        r@.map_values(|c: ChunkSpan| span_view(c)) == spans_from(lines(content@), 0, size as nat, (size - overlap) as nat),
{
    let cs = chars_of(content);
    let ls = lines_of(cs.as_slice());
    let ghost lv = views(ls@);
    let step: usize = size - overlap;
    let mut out: Vec<ChunkSpan> = Vec::new();
    let mut start: usize = 0;
    assert(out@.map_values(|c: ChunkSpan| span_view(c)) + spans_from(lv, 0, size as nat, step as nat) =~= spans_from(lv, 0, size as nat, step as nat));
    while start < ls.len()
        invariant
            start <= ls.len(),
            lv == views(ls@),
            step == size - overlap,
            step > 0,
            out@.map_values(|c: ChunkSpan| span_view(c)) + spans_from(lv, start as nat, size as nat, step as nat)
                == spans_from(lv, 0, size as nat, step as nat),
        decreases ls.len() - start,
    {
        let ghost prev = out@.map_values(|c: ChunkSpan| span_view(c));
        let end: usize = if ls.len() - start > size { start + size } else { ls.len() };
        let part = ls.as_slice().split_at(end).0.split_at(start).1;
        assert(views(part@) =~= lv.subrange(start as int, end as int));
        let text = join_chars(part, chars_of("\n").as_slice());
        let text = string_of(text.as_slice());
        if text.as_str().len() > 50 {
            out.push(ChunkSpan { content: text, start_line: start + 1, end_line: end });
        }
        let ghost now = out@.map_values(|c: ChunkSpan| span_view(c));
        if end == ls.len() {
            assert(now + spans_from(lv, ls.len() as nat, size as nat, step as nat) =~= spans_from(lv, 0, size as nat, step as nat));
            start = ls.len();
        } else {
            assert(now + spans_from(lv, (start + step) as nat, size as nat, step as nat) =~= spans_from(lv, 0, size as nat, step as nat));
            start = start + step;
        }
    }
    out
}

/// The tool that reads a file.
pub struct CatTool {
    pub ignored_patterns: Vec<String>,
}

impl CatTool {
    /// The text shown for a file's `content`: numbered lines, or the content as it
    /// is (before it is cut to fifty thousand bytes).
    pub fn display(&self, content: &str, numbered: bool) -> (r: String)
        ensures
            r@ == if numbered { numbered_text(content@) } else { content@ },
    {
        if !numbered {
            return String::from_str(content);
        }
        let cs = chars_of(content);
        let ls = lines_of(cs.as_slice());
        let ghost lv = views(ls@);
        let ghost want = Seq::new(lv.len(), |i: int| padded4((i + 1) as nat) + " | "@ + lv[i]);
        let mut out: Vec<Vec<char>> = Vec::new();
        let mut i: usize = 0;
        while i < ls.len()
            invariant
                i <= ls.len(),
                lv == views(ls@),
                want == Seq::new(lv.len(), |i: int| padded4((i + 1) as nat) + " | "@ + lv[i]),
                views(out@) == want.take(i as int),
            decreases ls.len() - i,
        {
            let mut line = padded_number(i + 1);
            append_str(&mut line, " | ");
            append_chars(&mut line, ls[i].as_slice());
            let ghost prev = views(out@);
            assert(line@ == want[i as int]);
            out.push(line);
            assert(views(out@) =~= prev.push(want[i as int]));
            assert(want.take(i + 1) =~= want.take(i as int).push(want[i as int]));
            i = i + 1;
        }
        assert(want.take(ls.len() as int) =~= want);
        let joined = join_chars(out.as_slice(), chars_of("\n").as_slice());
        string_of(joined.as_slice())
    }

    /// What the tool answers: the display text cut to fifty thousand bytes.
    pub fn output(&self, content: &str, numbered: bool) -> (r: String)
        requires
            cut_ok(if numbered { numbered_text(content@) } else { content@ }, 50000),
        ensures
            r@ == cut_text(if numbered { numbered_text(content@) } else { content@ }, 50000,
                "... (truncated at 50k chars)"@),
    {
        let d = self.display(content, numbered);
        cut_to_bytes(d.as_str(), 50000, "... (truncated at 50k chars)")
    }
}

/// The number `n` right-aligned in four columns (see `padded4`).
fn padded_number(n: usize) -> (r: Vec<char>)
    ensures
        r@ == padded4(n as nat),
{
    let d = decimal_chars(n);
    if d.len() < 4 {
        let mut r: Vec<char> = Vec::new();
        let k: usize = 4 - d.len();
        let mut i: usize = 0;
        while i < k
            invariant
                i <= k,
                r@ == spaces(i as nat),
            decreases k - i,
        {
            r.push(' ');
            assert(r@ =~= spaces((i + 1) as nat));
            i = i + 1;
        }
        append_chars(&mut r, d.as_slice());
        r
    } else {
        d
    }
}

/// The error for a line range that is not one: it must start at line 1 or later
/// and not end before it starts.
pub open spec fn range_error(start: nat, end: nat) -> Option<Seq<char>> {
    if start == 0 || end < start {
        Some("Invalid line range: "@ + decimal(start) + "-"@ + decimal(end))
    } else {
        None
    }
}

/// The file after lines `start` to `end` (from 1, inclusive) are replaced by
/// `new` (removed when `new` is empty), ending with a newline; an error when
/// `start` lies past the line after the last.
pub open spec fn edited_text(content: Seq<char>, start: nat, end: nat, new: Seq<char>) -> Result<Seq<char>, Seq<char>> {
    let ls = lines(content);
    if start > ls.len() + 1 {
        Err("Start line "@ + decimal(start) + " is beyond end of file ("@ + decimal(ls.len()) + " lines)"@)
    } else {
        let kept = ls.take(start - 1)
            + (if new.len() == 0 { Seq::empty() } else { seq![new] })
            + (if end < ls.len() { ls.skip(end as int) } else { Seq::empty() });
        let joined = join(kept, "\n"@);
        Ok(if joined.len() > 0 && joined.last() == '\n' { joined } else { joined + "\n"@ })
    }
}

/// Editing lines `start` to `end` of a file replaces exactly those lines: the
/// edited file reads as the lines before `start`, then `new` as one line (none
/// when it is empty), then every line after `end`, in order. Stated for files
/// without `'\r'` whose last line is not blank, a one-line `new`, and a range
/// that ends before the last line.
pub proof fn lemma_edit_replaces_exactly_the_range(content: Seq<char>, start: nat, end: nat, new: Seq<char>)
    requires
        1 <= start <= end < lines(content).len(),
        lines(content).last().len() > 0,
        forall|k: int| 0 <= k < content.len() ==> content[k] != '\r',
        forall|k: int| 0 <= k < new.len() ==> new[k] != '\n' && new[k] != '\r',
    ensures
        edited_text(content, start, end, new) matches Ok(t) && lines(t) == lines(content).take(start - 1)
            + (if new.len() == 0 { Seq::<Seq<char>>::empty() } else { seq![new] })
            + lines(content).skip(end as int),
        edited_text(content, start, end, new) matches Ok(t) && lines(t).len() == lines(content).len() - (end
            - start + 1) + (if new.len() == 0 { 0int } else { 1int }),
{
    let ls = lines(content);
    lemma_lines_clean(content);
    let mid: Seq<Seq<char>> = if new.len() == 0 { Seq::empty() } else { seq![new] };
    let kept = ls.take(start - 1) + mid + ls.skip(end as int);
    assert(kept.last() == ls.last());
    assert forall|i: int, j: int| 0 <= i < kept.len() && 0 <= j < kept[i].len() implies kept[i][j] != '\n'
        && kept[i][j] != '\r' by {
        if i < start - 1 {
            assert(kept[i] == ls[i]);
        } else if i < start - 1 + mid.len() {
            assert(kept[i] == new);
        } else {
            assert(kept[i] == ls[i - (start - 1) - mid.len() + end]);
        }
    }
    lemma_lines_of_joined(kept);
    reveal_strlit("\n");
}

/// An edit succeeds exactly when its first line is at most one past the last
/// line of the file; otherwise it is refused with the line count.
pub proof fn lemma_edit_fails_only_past_the_end(content: Seq<char>, start: nat, end: nat, new: Seq<char>)
    ensures
        edited_text(content, start, end, new) is Ok <==> start <= lines(content).len() + 1,
        start > lines(content).len() + 1 ==> edited_text(content, start, end, new) == Err::<Seq<char>, Seq<char>>(
            "Start line "@ + decimal(start) + " is beyond end of file ("@ + decimal(lines(content).len())
                + " lines)"@,
        ),
        edited_text(content, start, end, new) matches Ok(t) ==> t.len() > 0 && t.last() == '\n',
{
    reveal_strlit("\n");
}

/// The tool that replaces a range of lines.
pub struct EditFileTool {
    pub ignored_patterns: Vec<String>,
}

impl EditFileTool {
    /// What the tool answers once lines `start` to `end` of `path` are replaced.
    pub fn done_text(&self, start: usize, end: usize, path: &str) -> (r: String)
        ensures
            r@ == "Successfully updated lines "@ + decimal(start as nat) + "-"@ + decimal(end as nat) + " in "@ + path@,
    {
        let mut t: Vec<char> = chars_of("Successfully updated lines ");
        append_chars(&mut t, decimal_chars(start).as_slice());
        append_str(&mut t, "-");
        append_chars(&mut t, decimal_chars(end).as_slice());
        append_str(&mut t, " in ");
        append_str(&mut t, path);
        string_of(t.as_slice())
    }

    /// Checks the line range (see `range_error`).
    pub fn check_range(&self, start: usize, end: usize) -> (r: Result<(), String>)
        ensures
            match range_error(start as nat, end as nat) {
                Some(m) => r matches Err(e) && e@ == m,
                None => r is Ok,
            },
    {
        if start == 0 || end < start {
            let mut m: Vec<char> = chars_of("Invalid line range: ");
            append_chars(&mut m, decimal_chars(start).as_slice());
            append_str(&mut m, "-");
            append_chars(&mut m, decimal_chars(end).as_slice());
            return Err(string_of(m.as_slice()));
        }
        Ok(())
    }

    /// The edited file (see `edited_text`); the range is a valid one.
    pub fn edit(&self, content: &str, start: usize, end: usize, new: &str) -> (r: Result<String, String>)
        requires
            range_error(start as nat, end as nat) is None,
        ensures
            match edited_text(content@, start as nat, end as nat, new@) {
                Ok(t) => r matches Ok(x) && x@ == t,
                Err(t) => r matches Err(x) && x@ == t,
            },
    {
        let cs = chars_of(content);
        let ls = lines_of(cs.as_slice());
        let ghost lv = views(ls@);
        if start - 1 > ls.len() {
            let mut m: Vec<char> = chars_of("Start line ");
            append_chars(&mut m, decimal_chars(start).as_slice());
            append_str(&mut m, " is beyond end of file (");
            append_chars(&mut m, decimal_chars(ls.len()).as_slice());
            append_str(&mut m, " lines)");
            return Err(string_of(m.as_slice()));
        }
        let mut kept: Vec<Vec<char>> = Vec::new();
        let mut i: usize = 0;
        while i < start - 1
            invariant
                i <= start - 1,
                start - 1 <= ls.len(),
                lv == views(ls@),
                views(kept@) == lv.take(i as int),
            decreases start - 1 - i,
        {
            let ghost prev = views(kept@);
            kept.push(ls[i].clone());
            assert(views(kept@) =~= prev.push(lv[i as int]));
            assert(lv.take(i + 1) =~= lv.take(i as int).push(lv[i as int]));
            i = i + 1;
        }
        let ghost before = views(kept@);
        if !new.is_empty() {
            kept.push(chars_of(new));
        }
        proof { reveal_strlit(""); }
        let ghost with_new = views(kept@);
        assert(with_new =~= before + (if new@.len() == 0 { Seq::<Seq<char>>::empty() } else { seq![new@] }));
        let k0: usize = if end < ls.len() { end } else { ls.len() };
        let mut k: usize = k0;
        assert(with_new + lv.subrange(k0 as int, k0 as int) =~= with_new);
        while k < ls.len()
            invariant
                k0 <= k <= ls.len(),
                lv == views(ls@),
                views(kept@) == with_new + lv.subrange(k0 as int, k as int),
            decreases ls.len() - k,
        {
            let ghost prev = views(kept@);
            kept.push(ls[k].clone());
            assert(views(kept@) =~= prev.push(lv[k as int]));
            assert(lv.subrange(k0 as int, k + 1) =~= lv.subrange(k0 as int, k as int).push(lv[k as int]));
            k = k + 1;
        }
        proof {
            if end < ls.len() {
                assert(lv.subrange(k0 as int, ls.len() as int) =~= lv.skip(end as int));
            } else {
                assert(lv.subrange(k0 as int, k as int) =~= Seq::<Seq<char>>::empty());
            }
        }
        let ghost want = lv.take(start - 1)
            + (if new@.len() == 0 { Seq::<Seq<char>>::empty() } else { seq![new@] })
            + (if end < lv.len() { lv.skip(end as int) } else { Seq::<Seq<char>>::empty() });
        assert(views(kept@) =~= want);
        let mut joined = join_chars(kept.as_slice(), chars_of("\n").as_slice());
        let ghost j0 = joined@;
        let n = joined.len();
        if !(n > 0 && joined[n - 1] == '\n') {
            joined.push('\n');
            assert(joined@ =~= j0 + "\n"@) by { reveal_strlit("\n"); }
        }
        Ok(string_of(joined.as_slice()))
    }
}


/// How many times `p` (not empty) occurs in `s` from index `i` on, counting
/// occurrences that do not overlap, from the left.
pub open spec fn count_from(s: Seq<char>, p: Seq<char>, i: int) -> nat
    decreases s.len() - i,
{
    if p.len() == 0 || i < 0 || i + p.len() > s.len() {
        0
    } else if matches_at(s, p, i) {
        1 + count_from(s, p, i + p.len())
    } else {
        count_from(s, p, i + 1)
    }
}

/// How many times `p` occurs in `s` as std's `match_indices` counts: without
/// overlaps, from the left; the empty text occurs before each character and at
/// the end.
pub open spec fn match_count(s: Seq<char>, p: Seq<char>) -> nat {
    if p.len() == 0 { s.len() + 1 } else { count_from(s, p, 0) }
}

/// With no occurrence of `p` at or after `i`, the count from `i` is nought.
pub proof fn lemma_count_none(s: Seq<char>, p: Seq<char>, i: int)
    requires
        p.len() > 0,
        i >= 0,
        forall|j: int| i <= j ==> !matches_at(s, p, j),
    ensures
        count_from(s, p, i) == 0,
    decreases s.len() - i,
{
    if i + p.len() <= s.len() {
        lemma_count_none(s, p, i + 1);
    }
}

/// With the first occurrence at or after `i` at `k`, the count from `i` is one
/// more than the count after that occurrence.
pub proof fn lemma_count_first(s: Seq<char>, p: Seq<char>, i: int, k: int)
    requires
        p.len() > 0,
        0 <= i <= k,
        matches_at(s, p, k),
        forall|j: int| i <= j < k ==> !matches_at(s, p, j),
    ensures
        count_from(s, p, i) == 1 + count_from(s, p, k + p.len()),
    decreases k - i,
{
    if i < k {
        lemma_count_first(s, p, i + 1, k);
    }
}

/// Where `p` first occurs in `s` (meaningful when it occurs).
pub open spec fn first_match(s: Seq<char>, p: Seq<char>) -> int {
    choose|i: int| matches_at(s, p, i) && forall|j: int| 0 <= j < i ==> !matches_at(s, p, j)
}

/// The file after replacing the one occurrence of `old` by `new`: an error when
/// `old` does not occur or occurs more than once.
pub open spec fn replaced_text(content: Seq<char>, old: Seq<char>, new: Seq<char>) -> Result<Seq<char>, Seq<char>> {
    let n = match_count(content, old);
    if n == 0 {
        Err("Could not find exact match for specified old_text"@)
    } else if n > 1 {
        Err("Found multiple matches for old_text. Please provide more context to make it unique."@)
    } else if old.len() == 0 {
        Ok(new)
    } else {
        let i = first_match(content, old);
        Ok(content.take(i) + new + content.skip(i + old.len()))
    }
}

/// An occurrence at or after `a` is counted.
proof fn lemma_count_at_least_one(s: Seq<char>, p: Seq<char>, a: int, m: int)
    requires
        p.len() > 0,
        0 <= a <= m,
        matches_at(s, p, m),
    ensures
        count_from(s, p, a) >= 1,
    decreases m - a,
{
    if !matches_at(s, p, a) {
        lemma_count_at_least_one(s, p, a + 1, m);
    }
}

/// Two occurrences that do not overlap, at or after `a`, are both counted.
proof fn lemma_count_at_least_two(s: Seq<char>, p: Seq<char>, a: int, m1: int, m2: int)
    requires
        p.len() > 0,
        0 <= a <= m1,
        m1 + p.len() <= m2,
        matches_at(s, p, m1),
        matches_at(s, p, m2),
    ensures
        count_from(s, p, a) >= 2,
    decreases m1 - a,
{
    if matches_at(s, p, a) {
        lemma_count_at_least_one(s, p, a + p.len(), m2);
    } else {
        lemma_count_at_least_two(s, p, a + 1, m1, m2);
    }
}

/// A text (not empty) that does not occur in the file cannot be replaced.
pub proof fn lemma_missing_text_is_refused(content: Seq<char>, old: Seq<char>, new: Seq<char>)
    requires
        old.len() > 0,
        forall|j: int| !matches_at(content, old, j),
    ensures
        replaced_text(content, old, new) == Err::<Seq<char>, Seq<char>>(
            "Could not find exact match for specified old_text"@,
        ),
{
    lemma_count_none(content, old, 0);
}

/// A text that occurs twice without overlapping is refused as ambiguous, and
/// the file is left as it was.
pub proof fn lemma_repeated_text_is_refused(content: Seq<char>, old: Seq<char>, new: Seq<char>, i: int, j: int)
    requires
        old.len() > 0,
        i + old.len() <= j,
        matches_at(content, old, i),
        matches_at(content, old, j),
    ensures
        replaced_text(content, old, new) == Err::<Seq<char>, Seq<char>>(
            "Found multiple matches for old_text. Please provide more context to make it unique."@,
        ),
{
    lemma_count_at_least_two(content, old, 0, i, j);
}

/// When `old` (not empty) occurs in `content` at `i` and nowhere else, the
/// replacement succeeds with `content` where that occurrence is swapped for
/// `new`, whatever `new` is, the empty text included.
pub proof fn lemma_unique_match_is_replaced(content: Seq<char>, old: Seq<char>, new: Seq<char>, i: int)
    requires
        old.len() > 0,
        0 <= i && i + old.len() <= content.len(),
        content.subrange(i, i + old.len()) == old,
        forall|j: int| j != i ==> !matches_at(content, old, j),
    ensures
        replaced_text(content, old, new) == Ok::<Seq<char>, Seq<char>>(
            content.subrange(0, i) + new + content.subrange(i + old.len(), content.len() as int),
        ),
        (content.subrange(0, i) + new + content.subrange(i + old.len(), content.len() as int)).len()
            == content.len() - old.len() + new.len(),
{
    assert(matches_at(content, old, i));
    lemma_count_none(content, old, i + old.len());
    lemma_count_first(content, old, 0, i);
    assert(match_count(content, old) == 1);
    let f = first_match(content, old);
    assert(matches_at(content, old, f) && forall|j: int| 0 <= j < f ==> !matches_at(content, old, j));
    assert(f == i);
    assert(content.take(i) =~= content.subrange(0, i));
    assert(content.skip(i + old.len()) =~= content.subrange(i + old.len(), content.len() as int));
}

/// The tool that replaces a text in a file.
pub struct ReplaceTextTool {
    pub ignored_patterns: Vec<String>,
}

impl ReplaceTextTool {
    /// What the tool answers once `path` is changed.
    pub fn done_text(&self, path: &str) -> (r: String)
        ensures
            r@ == "Successfully modified "@ + path@,
    {
        concat2("Successfully modified ", path)
    }

    /// Replaces the single occurrence of `old` in `content` by `new` (see
    /// `replaced_text`).
    pub fn replace(&self, content: &str, old: &str, new: &str) -> (r: Result<String, String>)
        ensures
            match replaced_text(content@, old@, new@) {
                Ok(t) => r matches Ok(x) && x@ == t,
                Err(t) => r matches Err(x) && x@ == t,
            },
    {
        let s = chars_of(content);
        let p = chars_of(old);
        if p.len() == 0 {
            if s.len() == 0 {
                return Ok(String::from_str(new));
            }
            return Err(String::from_str(
                "Found multiple matches for old_text. Please provide more context to make it unique.",
            ));
        }
        match find_from(s.as_slice(), p.as_slice(), 0) {
            None => {
                proof { lemma_count_none(s@, p@, 0); }
                Err(String::from_str("Could not find exact match for specified old_text"))
            },
            Some(i) => {
                proof { lemma_count_first(s@, p@, 0, i as int); }
                let plen = p.len();
                assert(i + plen <= s.len());
                let next: usize = i + plen;
                match find_from(s.as_slice(), p.as_slice(), next) {
                    Some(k) => {
                        proof { lemma_count_first(s@, p@, (i + p.len()) as int, k as int); }
                        Err(String::from_str(
                            "Found multiple matches for old_text. Please provide more context to make it unique.",
                        ))
                    },
                    None => {
                        proof {
                            lemma_count_none(s@, p@, (i + p.len()) as int);
                            assert(matches_at(s@, p@, i as int) && forall|j: int| 0 <= j < i ==> !matches_at(s@, p@, j));
                            let c = first_match(s@, p@);
                            assert(c == i);
                        }
                        let mut out: Vec<char> = Vec::new();
                        let head = s.as_slice().split_at(i).0;
                        append_chars(&mut out, head);
                        append_str(&mut out, new);
                        let tail = s.as_slice().split_at(i + p.len()).1;
                        append_chars(&mut out, tail);
                        assert(head@ =~= s@.take(i as int));
                        assert(tail@ =~= s@.skip(i + p@.len()));
                        Ok(string_of(out.as_slice()))
                    },
                }
            },
        }
    }
}


/// The tool that writes a file.
pub struct WriteFileTool {
    pub ignored_patterns: Vec<String>,
}

impl WriteFileTool {
    /// What the tool answers once `path` was written (or appended to).
    pub fn done_text(&self, path: &str, append: bool) -> (r: String)
        ensures
            r@ == (if append { "Successfully appended to "@ } else { "Successfully wrote to "@ }) + path@,
    {
        if append { concat2("Successfully appended to ", path) } else { concat2("Successfully wrote to ", path) }
    }
}

/// The tool that deletes a file.
pub struct DeleteFileTool {
    pub ignored_patterns: Vec<String>,
}

impl DeleteFileTool {
    /// What the tool answers, from whether `path` exists (it is deleted when it
    /// does).
    pub fn outcome(&self, path: &str, exists: bool) -> (r: Result<String, String>)
        ensures
            exists ==> (r matches Ok(t) && t@ == "Successfully deleted "@ + path@),
            !exists ==> (r matches Err(e) && e@ == "File does not exist: "@ + path@),
    {
        if exists { Ok(concat2("Successfully deleted ", path)) } else { Err(concat2("File does not exist: ", path)) }
    }
}

/// `dir` joined with the relative path `name`, with a `/` between them unless
/// `dir` is empty or already ends with one.
pub open spec fn path_join(dir: Seq<char>, name: Seq<char>) -> Seq<char> {
    if dir.len() == 0 { name } else if dir.last() == '/' { dir + name } else { dir + "/"@ + name }
}

/// `dir` joined with `name` (see `path_join`).
pub fn join_path(dir: &str, name: &str) -> (r: String)
    ensures
        r@ == path_join(dir@, name@),
{
    let d = chars_of(dir);
    let n = d.len();
    if n == 0 {
        String::from_str(name)
    } else if d[n - 1] == '/' {
        concat2(dir, name)
    } else {
        concat3(dir, "/", name)
    }
}

/// The Python installation the tools run scripts with: a virtual environment.
pub struct PythonRuntime {
    pub venv_path: String,
}

/// What a script leaves for the model: its output, and its error output under a
/// heading when there is any.
pub open spec fn script_text(stdout: Seq<char>, stderr: Seq<char>) -> Seq<char> {
    if stderr.len() == 0 { stdout } else { stdout + "\n\nSTDERR:\n"@ + stderr }
}

impl PythonRuntime {
    /// The environment's interpreter: `bin/python` inside it.
    pub fn get_python_path(&self) -> (r: String)
        ensures
            r@ == path_join(path_join(self.venv_path@, "bin"@), "python"@),
    {
        let bin = join_path(self.venv_path.as_str(), "bin");
        join_path(bin.as_str(), "python")
    }

    /// The text of a script's run (see `script_text`).
    pub fn script_output(&self, stdout: &str, stderr: &str) -> (r: String)
        ensures
            r@ == script_text(stdout@, stderr@),
    {
        if stderr.is_empty() {
            String::from_str(stdout)
        } else {
            concat3(stdout, "\n\nSTDERR:\n", stderr)
        }
    }

    /// The arguments of `uv` that install `packages` for the environment's
    /// interpreter; `None` when there are no packages ("No packages requested.").
    pub fn install_args(&self, packages: &[String]) -> (r: Option<Vec<String>>)
        ensures
            packages@.len() == 0 ==> r is None,
            packages@.len() > 0 ==> (r matches Some(v) && strings_view(v@) == seq!["pip"@, "install"@, "--quiet"@, "-p"@,
                path_join(path_join(self.venv_path@, "bin"@), "python"@)] + strings_view(packages@)),
    {
        if packages.len() == 0 {
            return None;
        }
        let mut v: Vec<String> = Vec::new();
        push_text(&mut v, "pip");
        push_text(&mut v, "install");
        push_text(&mut v, "--quiet");
        push_text(&mut v, "-p");
        let py = self.get_python_path();
        push_text(&mut v, py.as_str());
        let ghost head = strings_view(v@);
        let mut i: usize = 0;
        assert(head + strings_view(packages@).take(0) =~= head);
        while i < packages.len()
            invariant
                i <= packages.len(),
                strings_view(v@) == head + strings_view(packages@).take(i as int),
            decreases packages.len() - i,
        {
            push_text(&mut v, packages[i].as_str());
            assert(strings_view(packages@).take(i + 1) =~= strings_view(packages@).take(i as int).push(packages@[i as int]@));
            i = i + 1;
        }
        assert(strings_view(packages@).take(packages.len() as int) =~= strings_view(packages@));
        Some(v)
    }
}

/// Whether `i` is where `p` first occurs in `s`.
pub open spec fn is_first_match(s: Seq<char>, p: Seq<char>, i: int) -> bool {
    matches_at(s, p, i) && forall|j: int| 0 <= j < i ==> !matches_at(s, p, j)
}

/// The tool that runs a Python script, installing a missing module once.
pub struct RunPythonTool {
    pub runtime: PythonRuntime,
}

impl RunPythonTool {
    /// The module a script's output reports missing: the name quoted after the
    /// first "No module named '", when the output holds "ModuleNotFoundError: No
    /// module named" and the quote is closed.
    pub fn missing_module(&self, output: &str) -> (r: Option<String>)
        ensures
            !contains(output@, "ModuleNotFoundError: No module named"@) ==> r is None,
            r matches Some(m) ==> exists|i: int, e: int|
                is_first_match(output@, "No module named '"@, i)
                && #[trigger] is_first_match(output@.skip(i + 17), "'"@, e)
                && m@ == output@.skip(i + 17).take(e),
            (contains(output@, "ModuleNotFoundError: No module named"@)
                && exists|i: int, e: int| is_first_match(output@, "No module named '"@, i)
                    && #[trigger] is_first_match(output@.skip(i + 17), "'"@, e)) ==> r is Some,
    {
        let s = chars_of(output);
        if !contains_chars(s.as_slice(), chars_of("ModuleNotFoundError: No module named").as_slice()) {
            return None;
        }
        let marker = chars_of("No module named '");
        proof { reveal_strlit("No module named '"); }
        match find_from(s.as_slice(), marker.as_slice(), 0) {
            None => {
                proof {
                    assert forall|i: int, e: int| !(is_first_match(output@, "No module named '"@, i)
                        && #[trigger] is_first_match(output@.skip(i + 17), "'"@, e)) by {
                        if is_first_match(output@, "No module named '"@, i) {
                            assert(matches_at(s@, marker@, i));
                        }
                    }
                }
                None
            },
            Some(start) => {
                assert(start + 17 <= s.len());
                let rest = s.as_slice().split_at(start + 17).1;
                assert(rest@ =~= output@.skip(start + 17));
                let quote = chars_of("'");
                match find_from(rest, quote.as_slice(), 0) {
                    None => {
                        proof {
                            assert forall|i: int, e: int| !(is_first_match(output@, "No module named '"@, i)
                                && #[trigger] is_first_match(output@.skip(i + 17), "'"@, e)) by {
                                if is_first_match(output@, "No module named '"@, i) {
                                    assert(i == start);
                                    if is_first_match(output@.skip(i + 17), "'"@, e) {
                                        assert(matches_at(rest@, quote@, e));
                                    }
                                }
                            }
                        }
                        None
                    },
                    Some(end) => {
                        let name = rest.split_at(end).0;
                        proof {
                            assert(is_first_match(output@, "No module named '"@, start as int));
                            assert(is_first_match(output@.skip(start + 17), "'"@, end as int));
                            assert forall|i: int, e: int| is_first_match(output@, "No module named '"@, i)
                                && #[trigger] is_first_match(output@.skip(i + 17), "'"@, e) implies i == start && e == end by {
                                if i < start {
                                    assert(!matches_at(s@, marker@, i));
                                } else if i > start {
                                    assert(!matches_at(output@, "No module named '"@, start as int));
                                }
                                if e < end {
                                    assert(!matches_at(rest@, quote@, e));
                                } else if e > end {
                                    assert(!matches_at(output@.skip(i + 17), "'"@, end as int));
                                }
                            }
                        }
                        Some(string_of(name))
                    },
                }
            },
        }
    }

    /// The note put before the output when a module is installed.
    pub fn install_note(&self, module: &str) -> (r: String)
        ensures
            r@ == "(Auto-installing missing package: '"@ + module@ + "'...)\n"@,
    {
        concat3("(Auto-installing missing package: '", module, "'...)\n")
    }

    /// What the tool answers when installing `module` failed with `error`.
    pub fn install_failed_text(&self, module: &str, error: &str, output: &str) -> (r: String)
        ensures
            r@ == "(Auto-installing missing package: '"@ + module@ + "'...)\n"@
                + "Failed to auto-install package '"@ + module@ + "': "@ + error@
                + "\n\nOriginal Output:\n"@ + output@,
    {
        let mut t: Vec<char> = chars_of(self.install_note(module).as_str());
        append_str(&mut t, "Failed to auto-install package '");
        append_str(&mut t, module);
        append_str(&mut t, "': ");
        append_str(&mut t, error);
        append_str(&mut t, "\n\nOriginal Output:\n");
        append_str(&mut t, output);
        string_of(t.as_slice())
    }

    /// What the tool answers when `module` was installed and the script run again.
    pub fn installed_text(&self, module: &str, retry_output: &str) -> (r: String)
        ensures
            r@ == "(Auto-installing missing package: '"@ + module@ + "'...)\n"@
                + "Package installed successfully.\n\n"@ + retry_output@,
    {
        let mut t: Vec<char> = chars_of(self.install_note(module).as_str());
        append_str(&mut t, "Package installed successfully.\n\n");
        append_str(&mut t, retry_output);
        string_of(t.as_slice())
    }
}


/// regex's `Regex`: a compiled regular expression.
#[verifier::external_type_specification]
#[verifier::external_body]
pub struct ExRegex(regex::Regex);

/// Whether the regex crate accepts `pattern` (its `Regex::new` succeeds): a
/// function of the pattern alone.
pub uninterp spec fn regex_compiles(pattern: Seq<char>) -> bool;

/// Whether the regular expression `pattern` matches somewhere in `text` (regex's
/// `Regex::is_match`): a function of the two alone.
pub uninterp spec fn regex_matches(pattern: Seq<char>, text: Seq<char>) -> bool;

/// A regular expression, compiled, with the text it was compiled from. Values
/// are made only by `compile`, so the two always agree.
pub struct Pattern {
    source: String,
    compiled: regex::Regex,
}

impl Pattern {
    /// The text the expression was compiled from.
    pub closed spec fn source(&self) -> Seq<char> {
        self.source@
    }

    /// regex's `Regex::new` on `source`: the compiled expression, or `None` where
    /// the crate refuses the pattern.
    #[verifier::external_body]
    pub(crate) fn compile(source: &str) -> (r: Option<Pattern>)
        ensures
            r is Some <==> regex_compiles(source@),
            r matches Some(p) ==> p.source() == source@,
    {
        match regex::Regex::new(source) {
            Ok(compiled) => Some(Pattern { source: source.to_string(), compiled }),
            Err(_) => None,
        }
    }

    /// regex's `Regex::is_match`: whether the expression matches somewhere in `text`.
    #[verifier::external_body]
    pub(crate) fn is_match(&self, text: &str) -> (r: bool)
        ensures
            r == regex_matches(self.source(), text@),
    {
        self.compiled.is_match(text)
    }
}

/// Whether some pattern of `patterns` occurs in `path`.
fn contains_any(path: &str, patterns: &[String]) -> (r: bool)
    ensures
        r == first_contained(path@, strings_view(patterns@)) is Some,
{
    let cs = chars_of(path);
    let mut i: usize = 0;
    assert(strings_view(patterns@).skip(0) =~= strings_view(patterns@));
    while i < patterns.len()
        invariant
            i <= patterns.len(),
            cs@ == path@,
            first_contained(path@, strings_view(patterns@)) == first_contained(path@, strings_view(patterns@).skip(i as int)),
        decreases patterns.len() - i,
    {
        assert(strings_view(patterns@).skip(i as int).drop_first() =~= strings_view(patterns@).skip(i + 1));
        let p = chars_of(patterns[i].as_str());
        if contains_chars(cs.as_slice(), p.as_slice()) {
            return true;
        }
        i = i + 1;
    }
    false
}

/// The pattern a file extension calls for: 0 for Rust, 1 for Python, 2 for
/// Markdown.
pub open spec fn pattern_index(extension: Seq<char>) -> Option<usize> {
    if extension == "rs"@ { Some(0usize) } else if extension == "py"@ { Some(1usize) }
    else if extension == "md"@ { Some(2usize) } else { None::<usize> }
}

/// The definitions found in lines `ls` of the file at `path`: each line the
/// pattern matches, with its number (from 1), in order.
pub open spec fn line_hits(pattern: Seq<char>, path: Seq<char>, ls: Seq<Seq<char>>) -> Seq<Seq<char>>
    decreases ls.len(),
{
    if ls.len() == 0 {
        Seq::empty()
    } else {
        line_hits(pattern, path, ls.drop_last()) + if regex_matches(pattern, ls.last()) {
            seq![hit_text(path, ls.len() as nat, ls.last())]
        } else {
            Seq::<Seq<char>>::empty()
        }
    }
}

/// The definitions found in the first lines of a file come first among those of
/// the whole file.
pub proof fn lemma_line_hits_prefix(pattern: Seq<char>, path: Seq<char>, ls: Seq<Seq<char>>, j: int)
    requires
        0 <= j <= ls.len(),
    ensures
        line_hits(pattern, path, ls.take(j)).len() <= line_hits(pattern, path, ls).len(),
        line_hits(pattern, path, ls).take(line_hits(pattern, path, ls.take(j)).len() as int)
            == line_hits(pattern, path, ls.take(j)),
    decreases ls.len(),
{
    if j == ls.len() {
        assert(ls.take(j) =~= ls);
    } else {
        lemma_line_hits_prefix(pattern, path, ls.drop_last(), j);
        assert(ls.drop_last().take(j) =~= ls.take(j));
        let a = line_hits(pattern, path, ls.drop_last());
        let k = line_hits(pattern, path, ls.take(j)).len() as int;
        assert(line_hits(pattern, path, ls).take(k) =~= a.take(k));
    }
}

/// The tool that finds where a symbol is defined.
pub struct SymbolSearchTool {
    pub ignored_patterns: Vec<String>,
}

/// The regular expressions that find a definition of `q`: in Rust, Python and
/// Markdown files.
pub open spec fn symbol_patterns(q: Seq<char>) -> (Seq<char>, Seq<char>, Seq<char>) {
    (
        "(fn\\s+"@ + q + "\\b|struct\\s+"@ + q + "\\b|trait\\s+"@ + q + "\\b|enum\\s+"@ + q
            + "\\b|type\\s+"@ + q + "\\b|impl.*"@ + q + "\\b)"@,
        "(def\\s+"@ + q + "\\b|class\\s+"@ + q + "\\b)"@,
        "(^#+\\s+.*"@ + q + "\\b)"@,
    )
}

/// A definition found: the file, the line number (from 1) and the trimmed line.
pub open spec fn hit_text(path: Seq<char>, line_no: nat, line: Seq<char>) -> Seq<char> {
    path + ":"@ + decimal(line_no) + ": "@ + crate::text::trim(line)
}

impl SymbolSearchTool {
    /// The patterns for `query` (see `symbol_patterns`).
    pub fn patterns(&self, query: &str) -> (r: (String, String, String))
        ensures
            (r.0@, r.1@, r.2@) == symbol_patterns(query@),
    {
        let mut rs: Vec<char> = chars_of("(fn\\s+");
        append_str(&mut rs, query);
        append_str(&mut rs, "\\b|struct\\s+");
        append_str(&mut rs, query);
        append_str(&mut rs, "\\b|trait\\s+");
        append_str(&mut rs, query);
        append_str(&mut rs, "\\b|enum\\s+");
        append_str(&mut rs, query);
        append_str(&mut rs, "\\b|type\\s+");
        append_str(&mut rs, query);
        append_str(&mut rs, "\\b|impl.*");
        append_str(&mut rs, query);
        append_str(&mut rs, "\\b)");
        let mut py: Vec<char> = chars_of("(def\\s+");
        append_str(&mut py, query);
        append_str(&mut py, "\\b|class\\s+");
        append_str(&mut py, query);
        append_str(&mut py, "\\b)");
        let mut md: Vec<char> = chars_of("(^#+\\s+.*");
        append_str(&mut md, query);
        append_str(&mut md, "\\b)");
        (string_of(rs.as_slice()), string_of(py.as_slice()), string_of(md.as_slice()))
    }

    /// Which pattern a file's extension calls for: 0 for Rust, 1 for Python, 2
    /// for Markdown; other files are not searched.
    pub fn pattern_for(&self, extension: &str) -> (r: Option<usize>)
        ensures
            r == (if extension@ == "rs"@ { Some(0usize) } else if extension@ == "py"@ { Some(1usize) }
                else if extension@ == "md"@ { Some(2usize) } else { None::<usize> }),
    {
        if str_eq(extension, "rs") { Some(0) } else if str_eq(extension, "py") { Some(1) }
        else if str_eq(extension, "md") { Some(2) } else { None }
    }

    /// The definition patterns for `query` (see `symbol_patterns`), compiled in
    /// that order; `None` when the regex crate refuses one of them.
    pub fn compiled_patterns(&self, query: &str) -> (r: Option<Vec<Pattern>>)
        ensures
            ({
                let (a, b, c) = symbol_patterns(query@);
                match r {
                    Some(v) => v@.len() == 3 && v@[0].source() == a && v@[1].source() == b
                        && v@[2].source() == c,
                    None => !(regex_compiles(a) && regex_compiles(b) && regex_compiles(c)),
                }
            }),
    {
        let (rs, py, md) = self.patterns(query);
        let a = match Pattern::compile(rs.as_str()) {
            Some(p) => p,
            None => return None,
        };
        let b = match Pattern::compile(py.as_str()) {
            Some(p) => p,
            None => return None,
        };
        let c = match Pattern::compile(md.as_str()) {
            Some(p) => p,
            None => return None,
        };
        let mut v: Vec<Pattern> = Vec::new();
        v.push(a);
        v.push(b);
        v.push(c);
        Some(v)
    }

    /// Which of the patterns a file is searched with: none when an extension is
    /// asked for and the file has another, when its path holds an ignored
    /// pattern, or when its extension has no pattern (see `pattern_index`).
    pub fn file_pattern(&self, path: &str, extension: Option<&str>, wanted: Option<&str>) -> (r: Option<usize>)
        ensures
            r == (if (wanted is Some && opt_str_view(extension) != opt_str_view(wanted))
                || first_contained(path@, strings_view(self.ignored_patterns@)) is Some {
                None::<usize>
            } else {
                match extension {
                    Some(e) => pattern_index(e@),
                    None => None::<usize>,
                }
            }),
    {
        match wanted {
            Some(w) => match extension {
                Some(e) => {
                    if !str_eq(e, w) {
                        return None;
                    }
                },
                None => {
                    return None;
                },
            },
            None => {},
        }
        if contains_any(path, self.ignored_patterns.as_slice()) {
            return None;
        }
        match extension {
            Some(e) => self.pattern_for(e),
            None => None,
        }
    }

    /// Adds the definitions found in `content` to `hits`, in order, stopping once
    /// there are `limit` hits in all (see `line_hits`).
    pub fn scan_file(&self, pattern: &Pattern, path: &str, content: &str, hits: &mut Vec<String>, limit: usize)
        requires
            old(hits)@.len() < limit,
        ensures
            ({
                let found = line_hits(pattern.source(), path@, lines(content@));
                let room = (limit - old(hits)@.len()) as int;
                strings_view(final(hits)@) == strings_view(old(hits)@)
                    + (if found.len() <= room { found } else { found.take(room) })
            }),
    {
        let cs = chars_of(content);
        let ls = lines_of(cs.as_slice());
        let ghost lv = views(ls@);
        let ghost start = strings_view(hits@);
        let ghost room = (limit - hits@.len()) as int;
        let mut i: usize = 0;
        assert(lv.take(0) =~= Seq::<Seq<char>>::empty());
        while i < ls.len()
            invariant
                i <= ls.len(),
                lv == views(ls@),
                lv == lines(content@),
                room == limit - old(hits)@.len(),
                start == strings_view(old(hits)@),
                hits@.len() < limit,
                strings_view(hits@) == start + line_hits(pattern.source(), path@, lv.take(i as int)),
                line_hits(pattern.source(), path@, lv.take(i as int)).len() < room,
            decreases ls.len() - i,
        {
            let ghost before = strings_view(hits@);
            assert(lv.take(i + 1).drop_last() =~= lv.take(i as int));
            let line = string_of(ls[i].as_slice());
            assert(line@ == lv[i as int]);
            if pattern.is_match(line.as_str()) {
                let h = self.hit(path, i + 1, line.as_str());
                hits.push(h);
                assert(strings_view(hits@) =~= before.push(h@));
                assert(strings_view(hits@) =~= start + line_hits(pattern.source(), path@, lv.take(i + 1)));
                if hits.len() >= limit {
                    proof {
                        lemma_line_hits_prefix(pattern.source(), path@, lv, i + 1);
                    }
                    return;
                }
            } else {
                assert(strings_view(hits@) =~= start + line_hits(pattern.source(), path@, lv.take(i + 1)));
            }
            i = i + 1;
        }
        assert(lv.take(ls.len() as int) =~= lv);
    }

    /// A definition found (see `hit_text`).
    pub fn hit(&self, path: &str, line_no: usize, line: &str) -> (r: String)
        ensures
            r@ == hit_text(path@, line_no as nat, line@),
    {
        let mut t: Vec<char> = chars_of(path);
        append_str(&mut t, ":");
        append_chars(&mut t, decimal_chars(line_no).as_slice());
        append_str(&mut t, ": ");
        let cs = chars_of(line);
        let trimmed = crate::text::trim_chars(cs.as_slice());
        append_chars(&mut t, trimmed.as_slice());
        string_of(t.as_slice())
    }

    /// What the tool answers from the definitions found (at most twenty are
    /// gathered).
    pub fn answer(&self, query: &str, hits: &[String]) -> (r: String)
        ensures
            hits@.len() == 0 ==> r@ == "No definitions found for symbol '"@ + query@ + "'."@,
            hits@.len() > 0 ==> r@ == join(strings_view(hits@), "\n"@),
    {
        if hits.len() == 0 {
            concat3("No definitions found for symbol '", query, "'.")
        } else {
            crate::app::join_strings(hits, "\n")
        }
    }
}

/// The pieces of a text the knowledge base stores: its lines between `'\n'`s,
/// trimmed, leaving out the blank ones.
pub open spec fn text_chunks(text: Seq<char>) -> Seq<Seq<char>> {
    crate::text::split_newlines(text).map_values(|l: Seq<char>| crate::text::trim(l))
        .filter(|l: Seq<char>| l.len() > 0)
}

/// Splits a text for the knowledge base (see `text_chunks`).
pub fn chunk_text(text: &str) -> (r: Vec<String>)
    ensures
        strings_view(r@) == text_chunks(text@),
{
    let cs = chars_of(text);
    let pieces = crate::text::split_newlines_of(cs.as_slice());
    let ghost trimmed = views(pieces@).map_values(|l: Seq<char>| crate::text::trim(l));
    let mut out: Vec<String> = Vec::new();
    let mut i: usize = 0;
    proof { reveal(Seq::filter); }
    assert(trimmed.take(0).filter(|l: Seq<char>| l.len() > 0) =~= Seq::<Seq<char>>::empty());
    while i < pieces.len()
        invariant
            i <= pieces.len(),
            trimmed == views(pieces@).map_values(|l: Seq<char>| crate::text::trim(l)),
            strings_view(out@) == trimmed.take(i as int).filter(|l: Seq<char>| l.len() > 0),
        decreases pieces.len() - i,
    {
        let t = crate::text::trim_chars(pieces[i].as_slice());
        assert(t@ == trimmed[i as int]);
        proof { reveal(Seq::filter); }
        assert(trimmed.take(i + 1).drop_last() =~= trimmed.take(i as int));
        if t.len() > 0 {
            let ghost prev = strings_view(out@);
            out.push(string_of(t.as_slice()));
            assert(strings_view(out@) =~= prev.push(t@));
        }
        i = i + 1;
    }
    assert(trimmed.take(pieces.len() as int) =~= trimmed);
    out
}

/// The knowledge base's findings as added to the user's message: nothing when
/// there are none, else a heading and the findings separated by rules.
pub open spec fn rag_context_text(results: Seq<Seq<char>>) -> Option<Seq<char>> {
    if results.len() == 0 {
        None
    } else {
        Some("\n\n[Relevant Context from Tools]:\n"@ + join(results, "\n---\n"@))
    }
}

/// The context for a reply from the knowledge base's findings (see
/// `rag_context_text`).
pub fn rag_context(results: &[String]) -> (r: Option<String>)
    ensures
        crate::ollama::opt_view(r) == rag_context_text(strings_view(results@)),
{
    if results.len() == 0 {
        None
    } else {
        let j = crate::app::join_strings(results, "\n---\n");
        Some(concat2("\n\n[Relevant Context from Tools]:\n", j.as_str()))
    }
}

/// A search result: title, address and snippet, each as given.
#[derive(Debug, Clone, PartialEq)]
pub struct SearchHit {
    pub title: Option<String>,
    pub url: Option<String>,
    pub content: Option<String>,
}

/// A text, or `fallback` when there is none.
pub open spec fn or_text(t: Option<String>, fallback: Seq<char>) -> Seq<char> {
    match t {
        Some(x) => x@,
        None => fallback,
    }
}

/// How the `i`-th result (from 0) is shown to the model.
pub open spec fn hit_entry(i: nat, h: SearchHit) -> Seq<char> {
    decimal(i + 1) + ". ["@ + or_text(h.title, "No Title"@) + "]("@ + or_text(h.url, "No URL"@) + ")\n   "@
        + or_text(h.content, ""@) + "\n\n"@
}

/// How the `i`-th result is kept in the knowledge base.
pub open spec fn hit_record(h: SearchHit) -> Seq<char> {
    "Source: "@ + or_text(h.url, "No URL"@) + "\nTitle: "@ + or_text(h.title, "No Title"@) + "\nContent: "@
        + or_text(h.content, ""@) + "\n\n"@
}

/// The entries of the first `n` results, one after another.
pub open spec fn hits_text(hits: Seq<SearchHit>, n: nat) -> Seq<char>
    decreases n,
{
    if n == 0 { Seq::empty() } else { hits_text(hits, (n - 1) as nat) + hit_entry((n - 1) as nat, hits[n - 1]) }
}

/// The records of the first `n` results, one after another.
pub open spec fn hits_records(hits: Seq<SearchHit>, n: nat) -> Seq<char>
    decreases n,
{
    if n == 0 { Seq::empty() } else { hits_records(hits, (n - 1) as nat) + hit_record(hits[n - 1]) }
}

/// How the `i`-th result is shown and kept (see `hit_entry` and `hit_record`).
fn hit_texts(i: usize, h: &SearchHit) -> (r: (Vec<char>, Vec<char>))
    requires
        i < usize::MAX,
    ensures
        r.0@ == hit_entry(i as nat, *h),
        r.1@ == hit_record(*h),
{
    let title: &str = match &h.title { Some(t) => t.as_str(), None => "No Title" };
    let url: &str = match &h.url { Some(u) => u.as_str(), None => "No URL" };
    let content: &str = match &h.content { Some(c) => c.as_str(), None => "" };
    let mut out: Vec<char> = decimal_chars(i + 1);
    append_str(&mut out, ". [");
    append_str(&mut out, title);
    append_str(&mut out, "](");
    append_str(&mut out, url);
    append_str(&mut out, ")\n   ");
    append_str(&mut out, content);
    append_str(&mut out, "\n\n");
    let mut all: Vec<char> = chars_of("Source: ");
    append_str(&mut all, url);
    append_str(&mut all, "\nTitle: ");
    append_str(&mut all, title);
    append_str(&mut all, "\nContent: ");
    append_str(&mut all, content);
    append_str(&mut all, "\n\n");
    (out, all)
}

/// What html2text makes of an HTML page laid out `width` columns wide: the
/// text, or the error it reports. A function of the page and the width alone.
pub uninterp spec fn html_text(html: Seq<char>, width: nat) -> Result<Seq<char>, Seq<char>>;

/// html2text's `from_read` on the page's UTF-8 bytes: its text at `width`
/// columns, or the text of the error it reports.
#[verifier::external_body]
pub(crate) fn html_to_text(html: &str, width: usize) -> (r: Result<String, String>)
    ensures
        html_text(html@, width as nat) == (match r {
            Ok(t) => Ok::<Seq<char>, Seq<char>>(t@),
            Err(e) => Err::<Seq<char>, Seq<char>>(e@),
        }),
{
    match html2text::from_read(html.as_bytes(), width) {
        Ok(t) => Ok(t),
        Err(e) => Err(e.to_string()),
    }
}

/// The tool that searches the web.
pub struct WebSearchTool {
    pub searxng_url: String,
}

impl WebSearchTool {
    /// The address of the search service's search endpoint.
    pub fn search_url(&self) -> (r: String)
        ensures
            r@ == (if self.searxng_url@.len() > 0 && self.searxng_url@.last() == '/' {
                self.searxng_url@
            } else {
                self.searxng_url@ + "/"@
            }) + "search"@,
    {
        let cs = chars_of(self.searxng_url.as_str());
        let n = cs.len();
        if n > 0 && cs[n - 1] == '/' {
            concat2(self.searxng_url.as_str(), "search")
        } else {
            concat3(self.searxng_url.as_str(), "/", "search")
        }
    }

    /// The text of a page fetched by URL: html2text's rendering at 120 columns,
    /// or the error it reports (see `html_text`).
    pub fn page_text(&self, html: &str) -> (r: Result<String, String>)
        ensures
            html_text(html@, 120) == (match r {
                Ok(t) => Ok::<Seq<char>, Seq<char>>(t@),
                Err(e) => Err::<Seq<char>, Seq<char>>(e@),
            }),
    {
        html_to_text(html, 120)
    }

    /// What the tool answers for a page fetched by URL: its text, cut to twenty
    /// thousand bytes with a note when longer.
    pub fn page_answer(&self, text: &str) -> (r: String)
        requires
            cut_ok(text@, 20000),
        ensures
            r@ == cut_text(text@, 20000, "\n... (truncated)"@),
    {
        cut_to_bytes(text, 20000, "\n... (truncated)")
    }

    /// What the tool answers from the results, and what it keeps in the knowledge
    /// base: the first five results, or a note that there were none (then nothing
    /// is kept).
    pub fn answer(&self, query: &str, hits: &[SearchHit]) -> (r: (String, String))
        ensures
            hits@.len() == 0 ==> r.0@ == "No results found for query: '"@ + query@ + "'."@ && r.1@.len() == 0,
            hits@.len() > 0 ==> r.0@ == hits_text(hits@, if hits@.len() < 5 { hits@.len() } else { 5 })
                && r.1@ == hits_records(hits@, if hits@.len() < 5 { hits@.len() } else { 5 }),
    {
        if hits.len() == 0 {
            return (concat3("No results found for query: '", query, "'."), String::new());
        }
        let n: usize = if hits.len() < 5 { hits.len() } else { 5 };
        let mut out: Vec<char> = Vec::new();
        let mut all: Vec<char> = Vec::new();
        let mut i: usize = 0;
        while i < n
            invariant
                i <= n,
                n <= hits.len(),
                out@ == hits_text(hits@, i as nat),
                all@ == hits_records(hits@, i as nat),
            decreases n - i,
        {
            let (e, rec) = hit_texts(i, &hits[i]);
            append_chars(&mut out, e.as_slice());
            append_chars(&mut all, rec.as_slice());
            assert(out@ =~= hits_text(hits@, (i + 1) as nat));
            assert(all@ =~= hits_records(hits@, (i + 1) as nat));
            i = i + 1;
        }
        (string_of(out.as_slice()), string_of(all.as_slice()))
    }
}

/// The collection a stored chunk belongs to when none is named.
pub fn default_collection() -> (r: String)
    ensures
        r@ == "default"@,
{
    String::from_str("default")
}

/// Whether a chunk of collection `c` may be searched under `filter`: every chunk
/// when no collection is named, else only those of that collection.
pub open spec fn in_scope(c: Seq<char>, filter: Option<Seq<char>>) -> bool {
    match filter {
        Some(f) => c == f,
        None => true,
    }
}

/// The view of an optional text.
pub open spec fn opt_str_view(o: Option<&str>) -> Option<Seq<char>> {
    match o {
        Some(f) => Some(f@),
        None => None,
    }
}

/// The indices, in order, of the chunks a search may look at, given each chunk's
/// collection: a search in one collection never sees another's chunks.
pub fn searchable_chunks(collections: &[String], filter: Option<&str>) -> (r: Vec<usize>)
    ensures
        forall|k: int| 0 <= k < r@.len() ==> #[trigger] r@[k] < collections@.len()
            && in_scope(collections@[r@[k] as int]@, opt_str_view(filter)),
        forall|k: int, l: int| 0 <= k < l < r@.len() ==> r@[k] < r@[l],
        forall|i: int| 0 <= i < collections@.len() && in_scope(#[trigger] collections@[i]@, opt_str_view(filter))
            ==> r@.contains(i as usize),
{
    let mut r: Vec<usize> = Vec::new();
    let mut i: usize = 0;
    while i < collections.len()
        invariant
            i <= collections.len(),
            forall|k: int| 0 <= k < r@.len() ==> #[trigger] r@[k] < i
                && in_scope(collections@[r@[k] as int]@, opt_str_view(filter)),
            forall|k: int, l: int| 0 <= k < l < r@.len() ==> r@[k] < r@[l],
            forall|j: int| 0 <= j < i && in_scope(#[trigger] collections@[j]@, opt_str_view(filter))
                ==> r@.contains(j as usize),
        decreases collections.len() - i,
    {
        let keep = match filter {
            Some(f) => str_eq(collections[i].as_str(), f),
            None => true,
        };
        let ghost prev = r@;
        if keep {
            r.push(i);
            assert(in_scope(collections@[i as int]@, opt_str_view(filter)));
            assert forall|k: int| 0 <= k < r@.len() implies #[trigger] r@[k] < i + 1
                && in_scope(collections@[r@[k] as int]@, opt_str_view(filter)) by {
                if k < prev.len() {
                    assert(r@[k] == prev[k]);
                }
            }
            assert forall|k: int, l: int| 0 <= k < l < r@.len() implies r@[k] < r@[l] by {
                if l < prev.len() {
                    assert(r@[k] == prev[k] && r@[l] == prev[l]);
                } else {
                    assert(r@[k] == prev[k]);
                    assert(prev[k] < i);
                }
            }
            assert forall|j: int| 0 <= j < i + 1 && in_scope(#[trigger] collections@[j]@, opt_str_view(filter))
                implies r@.contains(j as usize) by {
                if j < i {
                    assert(prev.contains(j as usize));
                    let w = choose|w: int| 0 <= w < prev.len() && prev[w] == j as usize;
                    assert(r@[w] == j as usize);
                } else {
                    assert(r@[r@.len() - 1] == i);
                }
            }
        } else {
            assert(!in_scope(collections@[i as int]@, opt_str_view(filter)));
        }
        i = i + 1;
    }
    r
}


/// The path of the first knowledge base named `name`.
pub open spec fn kb_path(kbs: Seq<(String, String)>, name: Seq<char>) -> Option<Seq<char>>
    decreases kbs.len(),
{
    if kbs.len() == 0 {
        None
    } else if kbs[0].0@ == name {
        Some(kbs[0].1@)
    } else {
        kb_path(kbs.drop_first(), name)
    }
}

/// One search result as the model reads it.
pub open spec fn match_entry(i: nat, r: Seq<char>) -> Seq<char> {
    decimal(i + 1) + ". "@ + crate::text::trim(r) + "\n\n"@
}

/// The numbered results, one after another.
pub open spec fn match_entries(rs: Seq<Seq<char>>) -> Seq<char>
    decreases rs.len(),
{
    if rs.len() == 0 { Seq::empty() } else { match_entries(rs.drop_last()) + match_entry((rs.len() - 1) as nat, rs.last()) }
}

/// Whether `r` is `p` with its leading `~` expanded for some home directory.
pub open spec fn expands_to(r: Seq<char>, p: Seq<char>) -> bool {
    exists|h: Option<Seq<char>>| r == expanded(p, h)
}

/// The tool that searches the knowledge base by meaning.
pub struct SemanticSearchTool {
    pub ignored_patterns: Vec<String>,
    pub knowledge_bases: Vec<(String, String)>,
}

impl SemanticSearchTool {
    /// What to index and under which collection, for the `index_path` the model
    /// gave: a named knowledge base indexes its directory under its own name; any
    /// other text is a directory indexed under "default". The path has its leading
    /// `~` expanded.
    pub fn target(&self, index_path: &str) -> (r: (String, String))
        ensures
            match kb_path(self.knowledge_bases@, index_path@) {
                Some(p) => expands_to(r.0@, p) && r.1@ == index_path@,
                None => expands_to(r.0@, index_path@) && r.1@ == "default"@,
            },
    {
        let kbs = &self.knowledge_bases;
        let mut i: usize = 0;
        assert(kbs@.skip(0) =~= kbs@);
        while i < kbs.len()
            invariant
                i <= kbs.len(),
                kbs@ == self.knowledge_bases@,
                kb_path(kbs@, index_path@) == kb_path(kbs@.skip(i as int), index_path@),
            decreases kbs.len() - i,
        {
            assert(kbs@.skip(i as int)[0] == kbs@[i as int]);
            assert(kbs@.skip(i as int).drop_first() =~= kbs@.skip(i + 1));
            if str_eq(kbs[i].0.as_str(), index_path) {
                assert(kb_path(kbs@, index_path@) == Some(kbs@[i as int].1@));
                let p = expand_path(kbs[i].1.as_str());
                let ghost h = choose|h: Option<Seq<char>>| p@ == expanded(kbs@[i as int].1@, h);
                assert(p@ == expanded(kbs@[i as int].1@, h));
                assert(expands_to(p@, kbs@[i as int].1@));
                return (p, String::from_str(index_path));
            }
            i = i + 1;
        }
        let p = expand_path(index_path);
        let ghost h = choose|h: Option<Seq<char>>| p@ == expanded(index_path@, h);
        assert(expands_to(p@, index_path@));
        (p, String::from_str("default"))
    }

    /// What the tool answers from the results of a search in `collection` (all
    /// collections when `None`), noting when indexing is still under way.
    pub fn answer(&self, query: &str, results: &[String], collection: Option<&str>, indexing: bool) -> (r: String)
        ensures
            results@.len() == 0 ==> r@ == (if indexing {
                "No matches yet (Indexing in progress in background). Check status messages."@
            } else {
                "No relevant conceptual matches found."@
            }),
            results@.len() > 0 ==> r@ == "Top conceptual matches for '"@ + query@ + "' (Collection: "@
                + (match collection { Some(c) => c@, None => "ALL"@ }) + "):\n\n"@
                + match_entries(strings_view(results@))
                + (if indexing { "\n(Note: Background indexing is active, results may improve shortly.)"@ } else { ""@ }),
    {
        if results.len() == 0 {
            if indexing {
                return String::from_str("No matches yet (Indexing in progress in background). Check status messages.");
            }
            return String::from_str("No relevant conceptual matches found.");
        }
        let mut t: Vec<char> = chars_of("Top conceptual matches for '");
        append_str(&mut t, query);
        append_str(&mut t, "' (Collection: ");
        match collection {
            Some(c) => append_str(&mut t, c),
            None => append_str(&mut t, "ALL"),
        }
        append_str(&mut t, "):\n\n");
        let ghost head = t@;
        let mut i: usize = 0;
        assert(strings_view(results@).take(0) =~= Seq::<Seq<char>>::empty());
        while i < results.len()
            invariant
                i <= results.len(),
                t@ == head + match_entries(strings_view(results@).take(i as int)),
            decreases results.len() - i,
        {
            assert(strings_view(results@).take(i + 1).drop_last() =~= strings_view(results@).take(i as int));
            append_chars(&mut t, decimal_chars(i + 1).as_slice());
            append_str(&mut t, ". ");
            let cs = chars_of(results[i].as_str());
            append_chars(&mut t, crate::text::trim_chars(cs.as_slice()).as_slice());
            append_str(&mut t, "\n\n");
            i = i + 1;
        }
        assert(strings_view(results@).take(results.len() as int) =~= strings_view(results@));
        let ghost body = t@;
        if indexing {
            append_str(&mut t, "\n(Note: Background indexing is active, results may improve shortly.)");
        } else {
            proof { reveal_strlit(""); }
            assert(body + ""@ =~= body);
        }
        string_of(t.as_slice())
    }
}


/// The first `n` characters of `s` (all of it when shorter).
pub open spec fn first_chars(s: Seq<char>, n: nat) -> Seq<char> {
    if s.len() <= n { s } else { s.take(n as int) }
}

/// Whether a page read over HTTP looks unusable, so that a browser renders it
/// instead: it failed, is under five hundred bytes, or asks for JavaScript.
pub open spec fn needs_browser_spec(fetched: Option<Seq<char>>) -> bool {
    match fetched {
        None => true,
        Some(t) => str_len(t) < 500 || contains(crate::text::spec_to_lowercase(t), "enable javascript"@)
            || contains(crate::text::spec_to_lowercase(t), "you need to enable javascript"@),
    }
}

/// The tool that reads a web page.
pub struct ReadUrlTool {}

impl ReadUrlTool {
    /// Whether to render the page in a browser (see `needs_browser_spec`); `None`
    /// when the request failed or was refused.
    pub fn needs_browser(&self, fetched: Option<&str>) -> (r: bool)
        ensures
            r == needs_browser_spec(match fetched { Some(t) => Some(t@), None => None }),
    {
        match fetched {
            None => true,
            Some(t) => {
                if t.len() < 500 {
                    return true;
                }
                let lower = crate::text::to_lowercase(t);
                let cs = chars_of(lower.as_str());
                contains_chars(cs.as_slice(), chars_of("enable javascript").as_slice())
                    || contains_chars(cs.as_slice(), chars_of("you need to enable javascript").as_slice())
            },
        }
    }

    /// The text of a page read over HTTP: html2text's rendering at 120 columns,
    /// empty when it reports an error (see `html_text`).
    pub fn page_text(&self, html: &str) -> (r: String)
        ensures
            r@ == (match html_text(html@, 120) {
                Ok(t) => t,
                Err(_) => Seq::<char>::empty(),
            }),
    {
        match html_to_text(html, 120) {
            Ok(t) => t,
            Err(_) => String::new(),
        }
    }

    /// The query with the quotes a model may put round it taken off: single
    /// quotes at either end first, then double quotes.
    pub fn clean_query(&self, query: &str) -> (r: String)
        ensures
            r@ == crate::text::strip_char(crate::text::strip_char(query@, '\''), '"'),
    {
        let cs = chars_of(query);
        let a = crate::text::strip_char_chars(cs.as_slice(), '\'');
        let b = crate::text::strip_char_chars(a.as_slice(), '"');
        string_of(b.as_slice())
    }

    /// What the tool answers when the page was read but could not be indexed:
    /// the error and the page's first two thousand characters.
    pub fn index_failed_text(&self, error: &str, text: &str) -> (r: String)
        ensures
            r@ == "Fetched content but failed to index: "@ + error@ + "\n\n"@ + first_chars(text@, 2000),
    {
        let cs = chars_of(text);
        let n: usize = if cs.len() <= 2000 { cs.len() } else { 2000 };
        let head = cs.as_slice().split_at(n).0;
        let mut t: Vec<char> = chars_of("Fetched content but failed to index: ");
        append_str(&mut t, error);
        append_str(&mut t, "\n\n");
        append_chars(&mut t, head);
        string_of(t.as_slice())
    }

    /// The page text once the browser was tried: its text when it rendered; else
    /// what HTTP gave with a warning, or an error when HTTP gave nothing.
    pub fn after_browser(&self, http_text: &str, browser: Result<String, String>) -> (r: Result<String, String>)
        ensures
            match browser {
                Ok(b) => r matches Ok(t) && t@ == b@,
                Err(e) => if http_text@.len() == 0 {
                    r matches Err(m) && m@ == "Failed to read URL via HTTP and Browser: "@ + e@
                } else {
                    r matches Ok(t) && t@ == "(Warning: Browser rendering failed, showing raw extraction)\n"@ + http_text@
                },
            },
    {
        match browser {
            Ok(b) => Ok(b),
            Err(e) => {
                if http_text.is_empty() {
                    Err(concat2("Failed to read URL via HTTP and Browser: ", e.as_str()))
                } else {
                    Ok(concat2("(Warning: Browser rendering failed, showing raw extraction)\n", http_text))
                }
            },
        }
    }

    /// What the tool answers once the page is indexed: the sections found for a
    /// query (or the page's beginning when none are), else the page itself, cut
    /// to twenty thousand bytes.
    pub fn answer(&self, url: &str, text: &str, query: Option<&str>, sections: &[String]) -> (r: String)
        requires
            query is None ==> cut_ok(text@, 20000),
        ensures
            match query {
                Some(q) => if sections@.len() == 0 {
                    r@ == "Page indexed, but no sections found matching query '"@ + q@
                        + "'.\nHere is the beginning of the page:\n\n"@ + first_chars(text@, 2000)
                } else {
                    r@ == "Found "@ + decimal(sections@.len()) + " relevant sections for '"@ + q@ + "' in "@
                        + url@ + ":\n\n"@ + join(strings_view(sections@), "\n\n---\n\n"@)
                },
                None => if str_len(text@) > 20000 {
                    r@ == "Page indexed successfully. Showing first 20k chars:\n\n"@ + byte_prefix(text@, 20000)
                        + "... (truncated)\n\n(Tip: You can now use `semantic_search` or call `read_url` again with a `query` to find specific info on this page)"@
                } else {
                    r@ == text@ + "\n\n(Page content indexed)"@
                },
            },
    {
        match query {
            Some(q) => {
                if sections.len() == 0 {
                    let cs = chars_of(text);
                    let n: usize = if cs.len() <= 2000 { cs.len() } else { 2000 };
                    let head = cs.as_slice().split_at(n).0;
                    assert(head@ =~= first_chars(text@, 2000));
                    let mut t: Vec<char> = chars_of("Page indexed, but no sections found matching query '");
                    append_str(&mut t, q);
                    append_str(&mut t, "'.\nHere is the beginning of the page:\n\n");
                    append_chars(&mut t, head);
                    string_of(t.as_slice())
                } else {
                    let mut t: Vec<char> = chars_of("Found ");
                    append_chars(&mut t, decimal_chars(sections.len()).as_slice());
                    append_str(&mut t, " relevant sections for '");
                    append_str(&mut t, q);
                    append_str(&mut t, "' in ");
                    append_str(&mut t, url);
                    append_str(&mut t, ":\n\n");
                    let j = crate::app::join_strings(sections, "\n\n---\n\n");
                    append_str(&mut t, j.as_str());
                    string_of(t.as_slice())
                }
            },
            None => {
                if text.len() > 20000 {
                    let head = cut_to_bytes(text, 20000, "");
                    proof { reveal_strlit(""); }
                    let mut t: Vec<char> = chars_of("Page indexed successfully. Showing first 20k chars:\n\n");
                    append_str(&mut t, head.as_str());
                    append_str(&mut t, "... (truncated)\n\n(Tip: You can now use `semantic_search` or call `read_url` again with a `query` to find specific info on this page)");
                    assert(head@ =~= byte_prefix(text@, 20000));
                    string_of(t.as_slice())
                } else {
                    concat2(text, "\n\n(Page content indexed)")
                }
            },
        }
    }
}

/// The tool that keeps a fact in memory.
pub struct MemoryTool {}

impl MemoryTool {
    /// What the tool answers once `fact` is kept.
    pub fn done_text(&self, fact: &str) -> (r: String)
        ensures
            r@ == "Successfully remembered: "@ + fact@,
    {
        concat2("Successfully remembered: ", fact)
    }
}

/// What the model asked a tool for, once its arguments are read.
impl GrepTool {
    /// The pattern, directory (default "."), whether to search recursively
    /// (default yes) and whether to ignore case (default no); a request without
    /// a pattern is refused.
    pub fn resolve(&self, args: &ToolArgs) -> (r: Result<(String, String, bool, bool), String>)
        ensures
            match required_arg(*args, "pattern"@) {
                Err(e) => r matches Err(x) && x@ == e,
                Ok(p) => r matches Ok(v) && v.0@ == p && v.1@ == text_or(*args, "path"@, "."@)
                    && v.2 == flag_or(*args, "recursive"@, true) && v.3 == flag_or(*args, "case_insensitive"@, false),
            },
    {
        let pattern = match args.required("pattern") {
            Ok(p) => p,
            Err(e) => return Err(e),
        };
        Ok((pattern, args.text_or("path", "."), args.flag_or("recursive", true), args.flag_or("case_insensitive", false)))
    }
}

impl CatTool {
    /// The file and whether to number its lines (default yes); a request
    /// without a path is refused.
    pub fn resolve(&self, args: &ToolArgs) -> (r: Result<(String, bool), String>)
        ensures
            match required_arg(*args, "path"@) {
                Err(e) => r matches Err(x) && x@ == e,
                Ok(p) => r matches Ok(v) && v.0@ == p && v.1 == flag_or(*args, "numbered"@, true),
            },
    {
        let path = match args.required("path") {
            Ok(p) => p,
            Err(e) => return Err(e),
        };
        Ok((path, args.flag_or("numbered", true)))
    }
}

impl ListDirectoryTool {
    /// The directory to list (default ".").
    pub fn resolve(&self, args: &ToolArgs) -> (r: String)
        ensures
            r@ == text_or(*args, "path"@, "."@),
    {
        args.text_or("path", ".")
    }
}

impl FileSearchTool {
    /// The name to look for and the directory (default "."); a request without
    /// a name is refused.
    pub fn resolve(&self, args: &ToolArgs) -> (r: Result<(String, String), String>)
        ensures
            match required_arg(*args, "name"@) {
                Err(e) => r matches Err(x) && x@ == e,
                Ok(n) => r matches Ok(v) && v.0@ == n && v.1@ == text_or(*args, "path"@, "."@),
            },
    {
        let name = match args.required("name") {
            Ok(n) => n,
            Err(e) => return Err(e),
        };
        Ok((name, args.text_or("path", ".")))
    }
}

impl WriteFileTool {
    /// The file, the text and whether to append (default no); a request without
    /// a path, then one without content, is refused.
    pub fn resolve(&self, args: &ToolArgs) -> (r: Result<(String, String, bool), String>)
        ensures
            match (required_arg(*args, "path"@), required_arg(*args, "content"@)) {
                (Err(e), _) => r matches Err(x) && x@ == e,
                (Ok(_), Err(e)) => r matches Err(x) && x@ == e,
                (Ok(p), Ok(c)) => r matches Ok(v) && v.0@ == p && v.1@ == c && v.2 == flag_or(*args, "append"@, false),
            },
    {
        let path = match args.required("path") {
            Ok(p) => p,
            Err(e) => return Err(e),
        };
        let content = match args.required("content") {
            Ok(c) => c,
            Err(e) => return Err(e),
        };
        Ok((path, content, args.flag_or("append", false)))
    }
}

impl EditFileTool {
    /// The file, the first and last lines to replace and the new text (default
    /// none); a request without a path, then without a start line, then without
    /// an end line (each a whole number), is refused.
    pub fn resolve(&self, args: &ToolArgs) -> (r: Result<(String, u64, u64, String), String>)
        ensures
            match required_arg(*args, "path"@) {
                Err(e) => r matches Err(x) && x@ == e,
                Ok(p) => match (count_arg(*args, "start_line"@), count_arg(*args, "end_line"@)) {
                    (None, _) => r matches Err(x) && x@ == missing("start_line"@),
                    (Some(_), None) => r matches Err(x) && x@ == missing("end_line"@),
                    (Some(a), Some(b)) => r matches Ok(v) && v.0@ == p && v.1 == a && v.2 == b
                        && v.3@ == text_or(*args, "content"@, ""@),
                },
            },
    {
        let path = match args.required("path") {
            Ok(p) => p,
            Err(e) => return Err(e),
        };
        let start = match args.count("start_line") {
            Some(n) => n,
            None => return Err(crate::args::missing_text("start_line")),
        };
        let end = match args.count("end_line") {
            Some(n) => n,
            None => return Err(crate::args::missing_text("end_line")),
        };
        Ok((path, start, end, args.text_or("content", "")))
    }
}

impl ReplaceTextTool {
    /// The file, the text to find and its replacement; a request without a
    /// path, then the old text, then the new text, is refused.
    pub fn resolve(&self, args: &ToolArgs) -> (r: Result<(String, String, String), String>)
        ensures
            match (required_arg(*args, "path"@), required_arg(*args, "old_text"@), required_arg(*args, "new_text"@)) {
                (Err(e), _, _) => r matches Err(x) && x@ == e,
                (Ok(_), Err(e), _) => r matches Err(x) && x@ == e,
                (Ok(_), Ok(_), Err(e)) => r matches Err(x) && x@ == e,
                (Ok(p), Ok(o), Ok(n)) => r matches Ok(v) && v.0@ == p && v.1@ == o && v.2@ == n,
            },
    {
        let path = match args.required("path") {
            Ok(p) => p,
            Err(e) => return Err(e),
        };
        let old = match args.required("old_text") {
            Ok(p) => p,
            Err(e) => return Err(e),
        };
        let new = match args.required("new_text") {
            Ok(p) => p,
            Err(e) => return Err(e),
        };
        Ok((path, old, new))
    }
}

impl DeleteFileTool {
    /// The file to delete; a request without a path is refused.
    pub fn resolve(&self, args: &ToolArgs) -> (r: Result<String, String>)
        ensures
            match required_arg(*args, "path"@) {
                Err(e) => r matches Err(x) && x@ == e,
                Ok(p) => r matches Ok(v) && v@ == p,
            },
    {
        args.required("path")
    }
}

impl SymbolSearchTool {
    /// The symbol, the directory (default ".") and the extension to keep to, if
    /// any; a request without a query is refused.
    pub fn resolve(&self, args: &ToolArgs) -> (r: Result<(String, String, Option<String>), String>)
        ensures
            match required_arg(*args, "query"@) {
                Err(e) => r matches Err(x) && x@ == e,
                Ok(q) => r matches Ok(v) && v.0@ == q && v.1@ == text_or(*args, "path"@, "."@)
                    && opt_text(v.2) == text_arg(*args, "file_extension"@),
            },
    {
        let query = match args.required("query") {
            Ok(q) => q,
            Err(e) => return Err(e),
        };
        Ok((query, args.text_or("path", "."), args.text("file_extension")))
    }
}

/// A semantic search to run: the query, what to index first (a directory and
/// its collection) if anything, and the collection to search (all when `None`).
pub struct SearchPlan {
    pub query: String,
    pub index: Option<(String, String)>,
    pub collection: Option<String>,
}

impl SemanticSearchTool {
    /// The search the arguments ask for: a named knowledge base or directory
    /// (`index_path`) is indexed (see `target`) and searched alone; `refresh`
    /// alone indexes "." into "default" and searches everything; otherwise
    /// nothing is indexed. A request without a query is refused.
    pub fn plan(&self, args: &ToolArgs) -> (r: Result<SearchPlan, String>)
        ensures
            match required_arg(*args, "query"@) {
                Err(e) => r matches Err(x) && x@ == e,
                Ok(q) => r matches Ok(p) && p.query@ == q && match text_arg(*args, "index_path"@) {
                    Some(ip) => p.index matches Some(t) && p.collection matches Some(c) && c@ == t.1@
                        && match kb_path(self.knowledge_bases@, ip) {
                            Some(d) => expands_to(t.0@, d) && t.1@ == ip,
                            None => expands_to(t.0@, ip) && t.1@ == "default"@,
                        },
                    None => p.collection is None && if flag_or(*args, "refresh"@, false) {
                        p.index matches Some(t) && t.0@ == "."@ && t.1@ == "default"@
                    } else {
                        p.index is None
                    },
                },
            },
    {
        let query = match args.required("query") {
            Ok(q) => q,
            Err(e) => return Err(e),
        };
        match args.text("index_path") {
            Some(ip) => {
                let t = self.target(ip.as_str());
                let c = t.1.clone();
                Ok(SearchPlan { query, index: Some(t), collection: Some(c) })
            },
            None => {
                let index = if args.flag_or("refresh", false) {
                    Some((String::from_str("."), String::from_str("default")))
                } else {
                    None
                };
                Ok(SearchPlan { query, index, collection: None })
            },
        }
    }

    /// The status message when indexing `path` into `collection` starts.
    pub fn started_text(&self, path: &str, collection: &str) -> (r: String)
        ensures
            r@ == "Started indexing '"@ + path@ + "' into collection '"@ + collection@ + "'..."@,
    {
        let mut t: Vec<char> = chars_of("Started indexing '");
        append_str(&mut t, path);
        append_str(&mut t, "' into collection '");
        append_str(&mut t, collection);
        append_str(&mut t, "'...");
        string_of(t.as_slice())
    }

    /// The status message when indexing `path` added `count` chunks.
    pub fn completed_text(&self, path: &str, count: usize) -> (r: String)
        ensures
            r@ == "Completed indexing '"@ + path@ + "': "@ + decimal(count as nat) + " chunks added."@,
    {
        let mut t: Vec<char> = chars_of("Completed indexing '");
        append_str(&mut t, path);
        append_str(&mut t, "': ");
        append_chars(&mut t, decimal_chars(count).as_slice());
        append_str(&mut t, " chunks added.");
        string_of(t.as_slice())
    }

    /// The status message when indexing `path` failed with `error`.
    pub fn failed_text(&self, path: &str, error: &str) -> (r: String)
        ensures
            r@ == "Indexing failed for '"@ + path@ + "': "@ + error@,
    {
        let mut t: Vec<char> = chars_of("Indexing failed for '");
        append_str(&mut t, path);
        append_str(&mut t, "': ");
        append_str(&mut t, error);
        string_of(t.as_slice())
    }
}

/// A web request: a page to fetch, or a search with its category.
pub enum WebRequest {
    Page(String),
    Search(String, String),
}

impl WebSearchTool {
    /// A non-empty `url` fetches that page; otherwise `query` is searched in
    /// `category` (default "general"), and a request with neither is refused.
    pub fn resolve(&self, args: &ToolArgs) -> (r: Result<WebRequest, String>)
        ensures
            match text_arg(*args, "url"@) {
                Some(u) if u.len() > 0 => r matches Ok(WebRequest::Page(x)) && x@ == u,
                _ => match text_arg(*args, "query"@) {
                    Some(q) => r matches Ok(WebRequest::Search(x, c)) && x@ == q
                        && c@ == text_or(*args, "category"@, "general"@),
                    None => r matches Err(x) && x@ == "Missing 'query' argument (or 'url')"@,
                },
            },
    {
        match args.text("url") {
            Some(u) => {
                if chars_of(u.as_str()).len() > 0 {
                    return Ok(WebRequest::Page(u));
                }
            },
            None => {},
        }
        match args.text("query") {
            Some(q) => Ok(WebRequest::Search(q, args.text_or("category", "general"))),
            None => Err(String::from_str("Missing 'query' argument (or 'url')")),
        }
    }
}

impl ReadUrlTool {
    /// The page and the query to look for in it, if any; a request without a
    /// URL is refused.
    pub fn resolve(&self, args: &ToolArgs) -> (r: Result<(String, Option<String>), String>)
        ensures
            match required_arg(*args, "url"@) {
                Err(e) => r matches Err(x) && x@ == e,
                Ok(u) => r matches Ok(v) && v.0@ == u && opt_text(v.1) == text_arg(*args, "query"@),
            },
    {
        let url = match args.required("url") {
            Ok(u) => u,
            Err(e) => return Err(e),
        };
        Ok((url, args.text("query")))
    }
}

impl MemoryTool {
    /// The fact to keep; a request without one is refused.
    pub fn resolve(&self, args: &ToolArgs) -> (r: Result<String, String>)
        ensures
            match required_arg(*args, "fact"@) {
                Err(e) => r matches Err(x) && x@ == e,
                Ok(f) => r matches Ok(v) && v@ == f,
            },
    {
        args.required("fact")
    }
}

impl RunCommandTool {
    /// The command and its arguments (none when absent; an element that is not
    /// text counts as empty); a request without a command is refused.
    pub fn resolve(&self, args: &ToolArgs) -> (r: Result<(String, Vec<String>), String>)
        ensures
            match required_arg(*args, "command"@) {
                Err(e) => r matches Err(x) && x@ == e,
                Ok(c) => r matches Ok(v) && v.0@ == c && v.1@.map_values(|s: String| s@) == texts_arg(*args, "args"@),
            },
    {
        let command = match args.required("command") {
            Ok(c) => c,
            Err(e) => return Err(e),
        };
        Ok((command, args.texts("args")))
    }
}

} // verus!
