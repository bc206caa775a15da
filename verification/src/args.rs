//! The arguments the model gives a tool, as plain values: each named argument
//! with its text, flag, count or list of texts.
use vstd::prelude::*;
use crate::text::{append_str, chars_of, str_eq, string_of};

verus! {

/// One argument's value, as far as the tools read it.
#[derive(Debug, Clone, PartialEq)]
pub enum ArgValue {
    Text(String),
    Flag(bool),
    /// A whole number that is not negative.
    Count(u64),
    /// A list: each element's text, or `None` where it is not text.
    Texts(Vec<Option<String>>),
    /// Anything else (null, another number, an object).
    Other,
}

/// A tool's named arguments, in the order given.
#[derive(Debug, Clone, PartialEq)]
pub struct ToolArgs {
    pub fields: Vec<(String, ArgValue)>,
}

/// The value of the first argument named `key`.
pub open spec fn arg_lookup(fields: Seq<(String, ArgValue)>, key: Seq<char>) -> Option<ArgValue>
    decreases fields.len(),
{
    if fields.len() == 0 {
        None
    } else if fields[0].0@ == key {
        Some(fields[0].1)
    } else {
        arg_lookup(fields.drop_first(), key)
    }
}

/// The text of argument `key`, when it is text.
pub open spec fn text_arg(a: ToolArgs, key: Seq<char>) -> Option<Seq<char>> {
    match arg_lookup(a.fields@, key) {
        Some(ArgValue::Text(s)) => Some(s@),
        _ => None,
    }
}

/// The text of argument `key`, or `default` when it is absent or not text.
pub open spec fn text_or(a: ToolArgs, key: Seq<char>, default: Seq<char>) -> Seq<char> {
    match text_arg(a, key) {
        Some(t) => t,
        None => default,
    }
}

/// The flag of argument `key`, or `default` when it is absent or not a flag.
pub open spec fn flag_or(a: ToolArgs, key: Seq<char>, default: bool) -> bool {
    match arg_lookup(a.fields@, key) {
        Some(ArgValue::Flag(b)) => b,
        _ => default,
    }
}

/// The count of argument `key`, when it is a whole number that is not negative.
pub open spec fn count_arg(a: ToolArgs, key: Seq<char>) -> Option<u64> {
    match arg_lookup(a.fields@, key) {
        Some(ArgValue::Count(n)) => Some(n),
        _ => None,
    }
}

/// The texts of list argument `key` (an element that is not text counts as
/// empty text); no texts when it is absent or not a list.
pub open spec fn texts_arg(a: ToolArgs, key: Seq<char>) -> Seq<Seq<char>> {
    match arg_lookup(a.fields@, key) {
        Some(ArgValue::Texts(v)) => v@.map_values(|o: Option<String>| match o {
            Some(s) => s@,
            None => Seq::<char>::empty(),
        }),
        _ => Seq::empty(),
    }
}

/// The refusal when argument `key` is missing.
pub open spec fn missing(key: Seq<char>) -> Seq<char> {
    "Missing '"@ + key + "' argument"@
}

/// The text of a required argument, or the refusal naming it.
pub open spec fn required_arg(a: ToolArgs, key: Seq<char>) -> Result<Seq<char>, Seq<char>> {
    match text_arg(a, key) {
        Some(t) => Ok(t),
        None => Err(missing(key)),
    }
}

/// The view of an optional text.
pub open spec fn opt_text(o: Option<String>) -> Option<Seq<char>> {
    match o {
        Some(s) => Some(s@),
        None => None,
    }
}

/// The refusal when argument `key` is missing (see `missing`).
pub fn missing_text(key: &str) -> (r: String)
    ensures
        r@ == missing(key@),
{
    let mut m: Vec<char> = chars_of("Missing '");
    append_str(&mut m, key);
    append_str(&mut m, "' argument");
    string_of(m.as_slice())
}

impl ToolArgs {
    /// The value of the first argument named `key` (see `arg_lookup`).
    pub fn find(&self, key: &str) -> (r: Option<&ArgValue>)
        ensures
            match r {
                Some(v) => arg_lookup(self.fields@, key@) == Some(*v),
                None => arg_lookup(self.fields@, key@) is None,
            },
    {
        let mut i: usize = 0;
        assert(self.fields@.skip(0) =~= self.fields@);
        while i < self.fields.len()
            invariant
                i <= self.fields.len(),
                arg_lookup(self.fields@, key@) == arg_lookup(self.fields@.skip(i as int), key@),
            decreases self.fields.len() - i,
        {
            assert(self.fields@.skip(i as int).drop_first() =~= self.fields@.skip(i + 1));
            assert(self.fields@.skip(i as int)[0] == self.fields@[i as int]);
            if str_eq(self.fields[i].0.as_str(), key) {
                return Some(&self.fields[i].1);
            }
            i = i + 1;
        }
        None
    }

    /// The text of argument `key` (see `text_arg`).
    pub fn text(&self, key: &str) -> (r: Option<String>)
        ensures
            opt_text(r) == text_arg(*self, key@),
    {
        match self.find(key) {
            Some(ArgValue::Text(s)) => Some(s.clone()),
            _ => None,
        }
    }

    /// The text of a required argument, or the refusal naming it (see
    /// `required_arg`).
    pub fn required(&self, key: &str) -> (r: Result<String, String>)
        ensures
            match required_arg(*self, key@) {
                Ok(t) => r matches Ok(x) && x@ == t,
                Err(e) => r matches Err(x) && x@ == e,
            },
    {
        match self.text(key) {
            Some(t) => Ok(t),
            None => Err(missing_text(key)),
        }
    }

    /// The text of argument `key`, or `default` (see `text_or`).
    pub fn text_or(&self, key: &str, default: &str) -> (r: String)
        ensures
            r@ == text_or(*self, key@, default@),
    {
        match self.text(key) {
            Some(t) => t,
            None => String::from_str(default),
        }
    }

    /// The flag of argument `key`, or `default` (see `flag_or`).
    pub fn flag_or(&self, key: &str, default: bool) -> (r: bool)
        ensures
            r == flag_or(*self, key@, default),
    {
        match self.find(key) {
            Some(ArgValue::Flag(b)) => *b,
            _ => default,
        }
    }

    /// The count of argument `key` (see `count_arg`).
    pub fn count(&self, key: &str) -> (r: Option<u64>)
        ensures
            r == count_arg(*self, key@),
    {
        match self.find(key) {
            Some(ArgValue::Count(n)) => Some(*n),
            _ => None,
        }
    }

    /// The texts of list argument `key` (see `texts_arg`).
    pub fn texts(&self, key: &str) -> (r: Vec<String>)
        ensures
            r@.map_values(|s: String| s@) == texts_arg(*self, key@),
    {
        let mut out: Vec<String> = Vec::new();
        match self.find(key) {
            Some(ArgValue::Texts(v)) => {
                let ghost want = v@.map_values(|o: Option<String>| match o {
                    Some(s) => s@,
                    None => Seq::<char>::empty(),
                });
                let mut i: usize = 0;
                while i < v.len()
                    invariant
                        i <= v.len(),
                        want == v@.map_values(|o: Option<String>| match o {
                            Some(s) => s@,
                            None => Seq::<char>::empty(),
                        }),
                        out@.map_values(|s: String| s@) == want.take(i as int),
                    decreases v.len() - i,
                {
                    let t = match &v[i] {
                        Some(s) => s.clone(),
                        None => String::new(),
                    };
                    assert(t@ == want[i as int]);
                    let ghost before = out@;
                    out.push(t);
                    assert(out@.map_values(|s: String| s@) =~= before.map_values(|s: String| s@).push(want[i as int]));
                    assert(out@.map_values(|s: String| s@) =~= want.take(i + 1));
                    i = i + 1;
                }
                assert(want.take(v.len() as int) =~= want);
            },
            _ => {
                assert(out@.map_values(|s: String| s@) =~= Seq::<Seq<char>>::empty());
            },
        }
        out
    }
}

} // verus!
