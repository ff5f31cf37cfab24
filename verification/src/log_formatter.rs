//! Renders one log record into a line of text.
//!
//! A formatter owns a message template and a timestamp pattern. With no
//! custom template it produces the built-in default layout
//! `[<timestamp>] <LEVEL> [<file>:<line>] <message>`, which never fails.
//! A custom template goes through the placeholder substitution of
//! [`crate::template`], whose errors the caller is expected to recover
//! from by falling back to the default layout. An empty timestamp
//! pattern means the clock is never consulted and the timestamp is the
//! empty string.

use vstd::prelude::*;
use crate::clock::Clock;
use crate::level::Level;
use crate::record::Record;
use crate::record::RecordView;
use crate::template::FormatError;
use crate::template::SubstError;
use crate::template::SubstVars;
use crate::template::spec_substitute;
use crate::template::subst_result_view;
use crate::template::substitute;
use crate::text::dec_u32;
use crate::text::level_name;
use crate::text::spec_dec;
use crate::text::spec_level_name;
use vstd::string::StrSliceExecFns;
use vstd::string::StringExecFns;

verus! {

/// The pair of (message template, timestamp pattern) that controls how
/// records are rendered.
#[derive(Clone, Copy)]
pub struct LogFormatter {
    /// strftime-style pattern for `{timestamp}`; the empty pattern turns
    /// the timestamp off and the clock is then never consulted.
    pub timestamp_format: &'static str,
    /// The custom message template; consulted only when `use_strfmt`.
    pub msg_format: &'static str,
    /// Whether a custom message template was set; when false the built-in
    /// default layout is used.
    pub use_strfmt: bool,
}

/// The line number a record renders as: its own, or `0` when it has none.
pub open spec fn spec_line_num(line: Option<u32>) -> u32 {
    match line {
        Some(l) => l,
        None => 0u32,
    }
}

/// The file name a record renders as: its own, or `<no_file>` when it has
/// none.
pub open spec fn spec_file_str(file: Option<Seq<char>>) -> Seq<char> {
    match file {
        Some(f) => f,
        None => "<no_file>"@,
    }
}

/// The values the five placeholders are bound to when rendering a record
/// whose timestamp rendered as `ts`.
pub open spec fn spec_vars(ts: Seq<char>, r: RecordView) -> Map<Seq<char>, Seq<char>> {
    map![
        "timestamp"@ => ts,
        "level"@ => spec_level_name(r.level),
        "file"@ => spec_file_str(r.file),
        "line"@ => spec_dec(spec_line_num(r.line) as nat),
        "args"@ => r.args,
    ]
}

/// The built-in default layout: `[<timestamp>] <LEVEL> [<file>:<line>]
/// <message>`.
pub open spec fn spec_default_layout(ts: Seq<char>, r: RecordView) -> Seq<char> {
    "["@ + ts + "] "@ + spec_level_name(r.level) + " ["@ + spec_file_str(r.file) + ":"@
        + spec_dec(spec_line_num(r.line) as nat) + "] "@ + r.args
}

/// What the formatter `f` makes of a record whose timestamp rendered as
/// `ts`: the default layout (never failing) without a custom template,
/// else the template substitution with its possible error.
pub open spec fn spec_msg(f: LogFormatter, r: RecordView, ts: Seq<char>) -> Result<
    Seq<char>,
    SubstError,
> {
    if f.use_strfmt {
        spec_substitute(f.msg_format@, spec_vars(ts, r))
    } else {
        Ok(spec_default_layout(ts, r))
    }
}

/// The line a sink writes for a record: the formatter's text when it
/// succeeds, else the default layout for that same record and timestamp.
/// The fallback on a template error is part of the sink contract.
pub open spec fn spec_rendered_line(f: LogFormatter, r: RecordView, ts: Seq<char>) -> Seq<char> {
    match spec_msg(f, r, ts) {
        Ok(m) => m,
        Err(_) => spec_default_layout(ts, r),
    }
}

/// Law: rendering is deterministic. Two renders with the same formatter
/// state, the same record fields and the same timestamp text produce the
/// same result, byte for byte — so repeated output can differ only in
/// the timestamp, and only when the pattern is non-empty.
pub proof fn lemma_render_deterministic(
    f1: LogFormatter,
    f2: LogFormatter,
    r1: RecordView,
    r2: RecordView,
    ts1: Seq<char>,
    ts2: Seq<char>,
)
    requires
        f1 == f2,
        r1 == r2,
        ts1 == ts2,
    ensures
        spec_msg(f1, r1, ts1) == spec_msg(f2, r2, ts2),
        spec_rendered_line(f1, r1, ts1) == spec_rendered_line(f2, r2, ts2),
{
}

/// Law: a formatter whose template is exactly `{args}` renders any
/// record to precisely its message body, with no other decoration.
pub proof fn lemma_args_template_renders_body(f: LogFormatter, r: RecordView, ts: Seq<char>)
    requires
        f.use_strfmt,
        f.msg_format@ == "{args}"@,
    ensures
        spec_msg(f, r, ts) == Ok::<Seq<char>, SubstError>(r.args),
{
    crate::template::lemma_template_args(spec_vars(ts, r));
}

impl LogFormatter {
    /// A formatter with the default layout and the ISO 8601 / RFC 3339
    /// timestamp pattern `%+`.
    pub fn new() -> (f: LogFormatter)
        ensures
            f.timestamp_format@ == "%+"@,
            !f.use_strfmt,
    {
        LogFormatter { timestamp_format: "%+", msg_format: "", use_strfmt: false }
    }

    /// Sets the strftime-style timestamp pattern. The empty pattern turns
    /// the timestamp off: it renders as the empty string and the clock is
    /// never consulted.
    pub fn timestamp_format(&mut self, format: &'static str) -> (r: &mut Self)
        ensures
            *r == (LogFormatter {
                timestamp_format: format,
                msg_format: old(self).msg_format,
                use_strfmt: old(self).use_strfmt,
            }),
            *final(self) == *final(r),
    {
        self.timestamp_format = format;
        self
    }

    /// Sets a custom message template over the placeholders `{timestamp}`,
    /// `{level}`, `{file}`, `{line}` and `{args}`.
    pub fn msg_format(&mut self, format: &'static str) -> (r: &mut Self)
        ensures
            *r == (LogFormatter {
                timestamp_format: old(self).timestamp_format,
                msg_format: format,
                use_strfmt: true,
            }),
            *final(self) == *final(r),
    {
        self.use_strfmt = true;
        self.msg_format = format;
        self
    }

    /// The line number `record` renders as.
    pub fn line(&self, record: &Record) -> (n: u32)
        ensures
            n == spec_line_num(record@.line),
    {
        match record.line {
            Some(l) => l,
            None => 0,
        }
    }

    /// The file name `record` renders as.
    pub fn file(&self, record: &Record) -> (s: String)
        ensures
            s@ == spec_file_str(record@.file),
    {
        match &record.file {
            Some(f) => f.clone(),
            None => {
                let s: &'static str = "<no_file>";
                s.to_owned()
            },
        }
    }

    /// Renders the timestamp for one record: the empty string — without
    /// consulting the clock — when the pattern is empty, else one clock
    /// query through the pattern.
    pub fn timestamp<C: Clock>(&self, clock: &mut C) -> (ts: String)
        ensures
            self.timestamp_format@.len() == 0 ==> *final(clock) == *old(clock) && ts@
                == Seq::<char>::empty(),
            self.timestamp_format@.len() > 0 ==> final(clock).outputs() == old(
                clock,
            ).outputs().push(ts@),
    {
        if self.timestamp_format.unicode_len() == 0 {
            String::new()
        } else {
            clock.now_formatted(self.timestamp_format)
        }
    }

    /// Renders `record` with the timestamp text `ts`: the default layout
    /// when no custom template is set (this never fails), else the
    /// template substitution, whose result or error is exactly that of
    /// [`spec_msg`].
    pub fn msg_with_timestamp(&self, record: &Record, ts: &str) -> (r: Result<String, FormatError>)
        ensures
            subst_result_view(r) == spec_msg(*self, record@, ts@),
    {
        if self.use_strfmt {
            let vars = SubstVars {
                timestamp: ts.to_owned(),
                level: level_name(record.level).to_owned(),
                file: self.file(record),
                line: dec_u32(self.line(record)),
                args: record.args.clone(),
            };
            proof {
                assert(vars@ =~= spec_vars(ts@, record@));
            }
            substitute(self.msg_format, &vars)
        } else {
            Ok(self.default_msg(record, ts))
        }
    }

    /// Renders `record` through this formatter, taking the timestamp from
    /// `clock` (or omitting it for an empty pattern, without consulting
    /// the clock).
    pub fn msg<C: Clock>(&self, record: &Record, clock: &mut C) -> (r: Result<String, FormatError>)
        ensures
            self.timestamp_format@.len() == 0 ==> *final(clock) == *old(clock) && subst_result_view(
                r,
            ) == spec_msg(*self, record@, Seq::<char>::empty()),
            self.timestamp_format@.len() > 0 ==> exists|ts: Seq<char>|
                final(clock).outputs() == old(clock).outputs().push(ts) && subst_result_view(r)
                    == spec_msg(*self, record@, ts),
    {
        let ts = self.timestamp(clock);
        let r = self.msg_with_timestamp(record, ts.as_str());
        proof {
            if self.timestamp_format@.len() > 0 {
                assert(final(clock).outputs() == old(clock).outputs().push(ts@)
                    && subst_result_view(r) == spec_msg(*self, record@, ts@));
            }
        }
        r
    }

    /// Renders `record` in the built-in default layout with the timestamp
    /// text `ts`; this path never fails.
    pub fn default_msg(&self, record: &Record, ts: &str) -> (r: String)
        ensures
            r@ == spec_default_layout(ts@, record@),
    {
        let open_b: &'static str = "[";
        let mut out = open_b.to_owned();
        out.append(ts);
        out.append("] ");
        out.append(level_name(record.level));
        out.append(" [");
        let file = self.file(record);
        out.append(file.as_str());
        out.append(":");
        let line = dec_u32(self.line(record));
        out.append(line.as_str());
        out.append("] ");
        out.append(record.args.as_str());
        proof {
            assert(out@ =~= spec_default_layout(ts@, record@));
        }
        out
    }
}

} // verus!
