//! The message-template language and its verified substitution engine.
//!
//! A template is ordinary text in which `{name}` stands for the value
//! bound to `name`. `{{` and `}}` are escapes for literal braces. A `{`
//! inside a placeholder, a `}` that closes nothing, and an unterminated
//! `{` are all malformed; a well-formed placeholder whose name is not
//! bound is reported together with the offending name.

use vstd::prelude::*;
use crate::text::str_eq;
use vstd::string::StrSliceExecFns;
use vstd::string::StringExecFns;

verus! {

/// Why a substitution failed: an unknown placeholder name, or a template
/// whose braces are malformed.
#[derive(Debug, PartialEq, Eq)]
pub enum FormatError {
    /// The template holds `{name}` for a `name` that no value is bound to;
    /// carries that name.
    KeyError(String),
    /// The template's braces are malformed: a stray `}`, a `{` inside a
    /// placeholder, or a placeholder that never closes.
    Invalid,
}

/// Mathematical image of a [`FormatError`].
pub enum SubstError {
    KeyError(Seq<char>),
    Invalid,
}

impl View for FormatError {
    type V = SubstError;

    open spec fn view(&self) -> SubstError {
        match self {
            FormatError::KeyError(k) => SubstError::KeyError(k@),
            FormatError::Invalid => SubstError::Invalid,
        }
    }
}

/// Puts `c` in front of the text of a successful substitution; passes an
/// error through.
pub open spec fn prepend_char(c: char, r: Result<Seq<char>, SubstError>) -> Result<
    Seq<char>,
    SubstError,
> {
    match r {
        Ok(s) => Ok(seq![c] + s),
        Err(e) => Err(e),
    }
}

/// Puts `v` in front of the text of a successful substitution; passes an
/// error through.
pub open spec fn prepend_seq(v: Seq<char>, r: Result<Seq<char>, SubstError>) -> Result<
    Seq<char>,
    SubstError,
> {
    match r {
        Ok(s) => Ok(v + s),
        Err(e) => Err(e),
    }
}

/// Meaning of the template `t` from position `i` on, outside any
/// placeholder, with the bindings `m`.
pub open spec fn scan(t: Seq<char>, i: int, m: Map<Seq<char>, Seq<char>>) -> Result<
    Seq<char>,
    SubstError,
>
    decreases t.len() - i,
{
    if i >= t.len() || i < 0 {
        Ok(Seq::empty())
    } else if t[i] == '{' {
        if i + 1 < t.len() && t[i + 1] == '{' {
            prepend_char('{', scan(t, i + 2, m))
        } else {
            scan_key(t, i + 1, i + 1, m)
        }
    } else if t[i] == '}' {
        if i + 1 < t.len() && t[i + 1] == '}' {
            prepend_char('}', scan(t, i + 2, m))
        } else {
            Err(SubstError::Invalid)
        }
    } else {
        prepend_char(t[i], scan(t, i + 1, m))
    }
}

/// Meaning of the template `t` from position `j` on, inside a placeholder
/// whose name began at `start`, with the bindings `m`.
pub open spec fn scan_key(t: Seq<char>, j: int, start: int, m: Map<Seq<char>, Seq<char>>) -> Result<
    Seq<char>,
    SubstError,
>
    decreases t.len() - j,
{
    if j >= t.len() || j < 0 {
        Err(SubstError::Invalid)
    } else if t[j] == '}' {
        if m.contains_key(t.subrange(start, j)) {
            prepend_seq(m[t.subrange(start, j)], scan(t, j + 1, m))
        } else {
            Err(SubstError::KeyError(t.subrange(start, j)))
        }
    } else if t[j] == '{' {
        Err(SubstError::Invalid)
    } else {
        scan_key(t, j + 1, start, m)
    }
}

/// Meaning of the whole template `t` with the bindings `m`: the template's
/// text with every `{name}` replaced by `m[name]`, or the first error.
pub open spec fn spec_substitute(t: Seq<char>, m: Map<Seq<char>, Seq<char>>) -> Result<
    Seq<char>,
    SubstError,
> {
    scan(t, 0, m)
}

/// Image of an executable substitution result in the world of sequences.
pub open spec fn subst_result_view(r: Result<String, FormatError>) -> Result<
    Seq<char>,
    SubstError,
> {
    match r {
        Ok(s) => Ok(s@),
        Err(e) => Err(e@),
    }
}

/// The five values a log record binds its placeholders to.
pub struct SubstVars {
    pub timestamp: String,
    pub level: String,
    pub file: String,
    pub line: String,
    pub args: String,
}

impl View for SubstVars {
    type V = Map<Seq<char>, Seq<char>>;

    open spec fn view(&self) -> Map<Seq<char>, Seq<char>> {
        map![
            "timestamp"@ => self.timestamp@,
            "level"@ => self.level@,
            "file"@ => self.file@,
            "line"@ => self.line@,
            "args"@ => self.args@,
        ]
    }
}

/// The five placeholder names are pairwise different strings.
proof fn lemma_keys_distinct()
    ensures
        "timestamp"@ != "level"@,
        "timestamp"@ != "file"@,
        "timestamp"@ != "line"@,
        "timestamp"@ != "args"@,
        "level"@ != "file"@,
        "level"@ != "line"@,
        "level"@ != "args"@,
        "file"@ != "line"@,
        "file"@ != "args"@,
        "line"@ != "args"@,
{
    reveal_strlit("timestamp");
    reveal_strlit("level");
    reveal_strlit("file");
    reveal_strlit("line");
    reveal_strlit("args");
    assert("timestamp"@.len() == 9);
    assert("level"@.len() == 5);
    assert("file"@[0] == 'f');
    assert("line"@[0] == 'l');
    assert("args"@[0] == 'a');
}

impl SubstVars {
    /// Finds the value bound to `key`, or nothing when `key` is not one of
    /// the five placeholder names.
    pub fn lookup(&self, key: &str) -> (r: Option<&String>)
        ensures
            match r {
                Some(v) => self@.contains_key(key@) && v@ == self@[key@],
                None => !self@.contains_key(key@),
            },
    {
        proof {
            lemma_keys_distinct();
        }
        if str_eq(key, "timestamp") {
            Some(&self.timestamp)
        } else if str_eq(key, "level") {
            Some(&self.level)
        } else if str_eq(key, "file") {
            Some(&self.file)
        } else if str_eq(key, "line") {
            Some(&self.line)
        } else if str_eq(key, "args") {
            Some(&self.args)
        } else {
            None
        }
    }
}

/// Law: the template holding exactly the `args` placeholder renders to
/// precisely the value bound to `args`, with no other decoration,
/// whatever the other bindings hold.
pub proof fn lemma_template_args(m: Map<Seq<char>, Seq<char>>)
    requires
        m.contains_key("args"@),
    ensures
        spec_substitute("{args}"@, m) == Ok::<Seq<char>, SubstError>(m["args"@]),
{
    reveal_strlit("{args}");
    reveal_strlit("args");
    let t = "{args}"@;
    assert(t.len() == 6);
    assert(t.subrange(1, 5) =~= "args"@);
    assert(scan(t, 6, m) == Ok::<Seq<char>, SubstError>(Seq::<char>::empty()));
    assert(scan_key(t, 5, 1, m) == prepend_seq(m["args"@], scan(t, 6, m)));
    assert(scan_key(t, 4, 1, m) == scan_key(t, 5, 1, m));
    assert(scan_key(t, 3, 1, m) == scan_key(t, 4, 1, m));
    assert(scan_key(t, 2, 1, m) == scan_key(t, 3, 1, m));
    assert(scan_key(t, 1, 1, m) == scan_key(t, 2, 1, m));
    assert(scan(t, 0, m) == scan_key(t, 1, 1, m));
    assert(m["args"@] + Seq::<char>::empty() =~= m["args"@]);
}

/// Substitutes the bindings of `vars` into the template `t`, following
/// [`spec_substitute`] exactly.
pub fn substitute(t: &str, vars: &SubstVars) -> (r: Result<String, FormatError>)
    ensures
        subst_result_view(r) == spec_substitute(t@, vars@),
{
    scan_exec(t, 0, vars)
}

/// Runs [`scan`] at position `i`.
fn scan_exec(t: &str, i: usize, vars: &SubstVars) -> (r: Result<String, FormatError>)
    requires
        i <= t@.len(),
    ensures
        subst_result_view(r) == scan(t@, i as int, vars@),
    decreases t@.len() - i,
{
    let n = t.unicode_len();
    if i >= n {
        return Ok(String::new());
    }
    let c = t.get_char(i);
    if c == '{' {
        if i + 1 < n && t.get_char(i + 1) == '{' {
            match scan_exec(t, i + 2, vars) {
                Ok(rest) => {
                    let head = t.substring_char(i, i + 1);
                    let mut out = head.to_owned();
                    out.append(rest.as_str());
                    proof {
                        assert(out@ =~= seq!['{'] + rest@);
                    }
                    Ok(out)
                },
                Err(e) => Err(e),
            }
        } else {
            scan_key_exec(t, i + 1, i + 1, vars)
        }
    } else if c == '}' {
        if i + 1 < n && t.get_char(i + 1) == '}' {
            match scan_exec(t, i + 2, vars) {
                Ok(rest) => {
                    let head = t.substring_char(i, i + 1);
                    let mut out = head.to_owned();
                    out.append(rest.as_str());
                    proof {
                        assert(out@ =~= seq!['}'] + rest@);
                    }
                    Ok(out)
                },
                Err(e) => Err(e),
            }
        } else {
            Err(FormatError::Invalid)
        }
    } else {
        match scan_exec(t, i + 1, vars) {
            Ok(rest) => {
                let head = t.substring_char(i, i + 1);
                let mut out = head.to_owned();
                out.append(rest.as_str());
                proof {
                    assert(out@ =~= seq![t@[i as int]] + rest@);
                }
                Ok(out)
            },
            Err(e) => Err(e),
        }
    }
}

/// Runs [`scan_key`] at position `j` for a placeholder whose name began
/// at `start`.
fn scan_key_exec(t: &str, j: usize, start: usize, vars: &SubstVars) -> (r: Result<
    String,
    FormatError,
>)
    requires
        start <= j <= t@.len(),
    ensures
        subst_result_view(r) == scan_key(t@, j as int, start as int, vars@),
    decreases t@.len() - j,
{
    let n = t.unicode_len();
    if j >= n {
        return Err(FormatError::Invalid);
    }
    let c = t.get_char(j);
    if c == '}' {
        let key = t.substring_char(start, j);
        match vars.lookup(key) {
            Some(v) => {
                match scan_exec(t, j + 1, vars) {
                    Ok(rest) => {
                        let mut out = v.clone();
                        out.append(rest.as_str());
                        Ok(out)
                    },
                    Err(e) => Err(e),
                }
            },
            None => Err(FormatError::KeyError(key.to_owned())),
        }
    } else if c == '{' {
        Err(FormatError::Invalid)
    } else {
        scan_key_exec(t, j + 1, start, vars)
    }
}

} // verus!
