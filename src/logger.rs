//! A leveled logger gated by one configured threshold.
//!
//! The logger decides what is emitted and hands the lines back; writing them
//! to the diagnostic stream is left to the caller.
use std::sync::Arc;
use vstd::prelude::*;

use crate::config::FdkEnv;
use crate::error::FdkError;

verus! {

/// Severity of debug output: shown only when the threshold is lowered to it.
pub const FDK_LOG_DEBUG: u32 = 0;

/// Severity of messages that name no severity, and the default threshold.
pub const FDK_LOG_DEFAULT: u32 = 1;

pub open spec fn is_decimal_digit(c: char) -> bool {
    '0' <= c && c <= '9'
}

/// The number written by the decimal digits `d`, most significant first.
pub open spec fn decimal_value(d: Seq<char>) -> int
    decreases d.len(),
{
    if d.len() == 0 {
        0
    } else {
        decimal_value(d.drop_last()) * 10 + (d.last() as int - '0' as int)
    }
}

/// The `u32` written in `s`: an optional `+`, then one or more decimal
/// digits whose value fits in 32 bits. `None` for anything else.
pub open spec fn decimal_u32(s: Seq<char>) -> Option<u32> {
    let d = if s.len() > 0 && s[0] == '+' {
        s.skip(1)
    } else {
        s
    };
    if d.len() > 0 && (forall|i: int| 0 <= i < d.len() ==> is_decimal_digit(#[trigger] d[i]))
        && decimal_value(d) <= u32::MAX {
        Some(decimal_value(d) as u32)
    } else {
        None
    }
}

/// Relies on `str::parse::<u32>` (`u32::from_str`): it accepts an optional
/// `+` followed by one or more ASCII decimal digits whose value fits in a
/// `u32`, and fails on anything else (a `-`, whitespace, an empty string).
#[verifier::external_body]
fn parse_u32(s: &str) -> (r: Option<u32>)
    ensures
        r == decimal_u32(s@),
{
    s.parse::<u32>().ok()
}

/// The threshold configured by `FDK_LOG_THRESHOLD`: its value when it parses
/// as a `u32`, the default otherwise.
pub open spec fn threshold_of(setting: Option<Seq<char>>) -> u32 {
    match setting {
        Some(s) => match decimal_u32(s) {
            Some(t) => t,
            None => FDK_LOG_DEFAULT,
        },
        None => FDK_LOG_DEFAULT,
    }
}

/// The severity a message is emitted at: the default when none is named.
pub open spec fn level_of(log_level: Option<u32>) -> u32 {
    match log_level {
        Some(l) => l,
        None => FDK_LOG_DEFAULT,
    }
}

/// `frames` with `sep` between each two neighbours.
pub open spec fn joined(frames: Seq<Seq<char>>, sep: Seq<char>) -> Seq<char>
    decreases frames.len(),
{
    if frames.len() == 0 {
        Seq::empty()
    } else if frames.len() == 1 {
        frames[0]
    } else {
        joined(frames.drop_last(), sep) + sep + frames.last()
    }
}

pub open spec fn string_views(v: Seq<String>) -> Seq<Seq<char>> {
    v.map_values(|s: String| s@)
}

/// The lines that reporting `err` emits under `threshold`: its message at
/// the default severity, then its backtrace, newline-joined, at debug
/// severity.
pub open spec fn error_lines(err: FdkError, threshold: u32) -> Seq<Seq<char>> {
    let message = if FDK_LOG_DEFAULT >= threshold {
        seq![err.message@]
    } else {
        Seq::empty()
    };
    let trace = if FDK_LOG_DEBUG >= threshold {
        seq![joined(string_views(err.backtrace@), seq!['\n'])]
    } else {
        Seq::empty()
    };
    message + trace
}

/// The frames joined with newlines, in order.
fn join_lines(frames: &Vec<String>) -> (r: String)
    ensures
        r@ == joined(string_views(frames@), seq!['\n']),
{
    let mut r = String::new();
    let n = frames.len();
    let mut i: usize = 0;
    while i < n
        invariant
            n == frames@.len(),
            i <= n,
            r@ == joined(string_views(frames@.take(i as int)), seq!['\n']),
        decreases n - i,
    {
        proof {
            reveal_strlit("\n");
            assert(string_views(frames@.take(i + 1)).drop_last() =~= string_views(
                frames@.take(i as int),
            ));
        }
        if i > 0 {
            r.append("\n");
        }
        r.append(frames[i].as_str());
        i = i + 1;
    }
    proof {
        assert(frames@.take(n as int) =~= frames@);
    }
    r
}

/// The logger: decides by the configured threshold which messages are
/// emitted.
#[derive(Debug, Clone)]
pub struct FdkRunner {
    pub env_context: Arc<FdkEnv>,
}

impl FdkRunner {
    pub fn new(env_context: Arc<FdkEnv>) -> (r: Self)
        ensures
            r.env_context == env_context,
    {
        FdkRunner { env_context }
    }

    /// The configured threshold, as a value.
    pub open spec fn threshold(&self) -> u32 {
        threshold_of(
            match self.env_context.fdk_log_threshold {
                Some(s) => Some(s@),
                None => None,
            },
        )
    }

    /// The minimum severity emitted: `FDK_LOG_THRESHOLD` where it parses,
    /// `FDK_LOG_DEFAULT` where it is absent or does not.
    pub fn get_log_threshold(&self) -> (r: u32)
        ensures
            r == self.threshold(),
    {
        match &self.env_context.fdk_log_threshold {
            Some(setting) => match parse_u32(setting.as_str()) {
                Some(t) => t,
                None => FDK_LOG_DEFAULT,
            },
            None => FDK_LOG_DEFAULT,
        }
    }

    /// The line to emit for `content` at `log_level` (the default severity
    /// when `None`): the content itself when the severity reaches the
    /// threshold, nothing otherwise.
    pub fn log(&self, content: &str, log_level: Option<u32>) -> (r: Option<String>)
        ensures
            r is Some <==> level_of(log_level) >= self.threshold(),
            r matches Some(line) ==> line@ == content@,
    {
        let level = match log_level {
            Some(l) => l,
            None => FDK_LOG_DEFAULT,
        };
        if level >= self.get_log_threshold() {
            Some(content.to_owned())
        } else {
            None
        }
    }

    /// The lines that reporting `err` emits, in order: its message at the
    /// default severity, then its backtrace frames joined with newlines at
    /// debug severity.
    pub fn log_error(&self, err: FdkError) -> (r: Vec<String>)
        ensures
            string_views(r@) == error_lines(err, self.threshold()),
    {
        let mut lines: Vec<String> = Vec::new();
        if let Some(line) = self.log(err.message.as_str(), None) {
            lines.push(line);
        }
        let trace = join_lines(&err.backtrace);
        if let Some(line) = self.log(trace.as_str(), Some(FDK_LOG_DEBUG)) {
            lines.push(line);
        }
        proof {
            assert(string_views(lines@) =~= error_lines(err, self.threshold()));
        }
        lines
    }

    /// `content` at debug severity.
    pub fn debug(&self, content: &str) -> (r: Option<String>)
        ensures
            r is Some <==> FDK_LOG_DEBUG >= self.threshold(),
            r matches Some(line) ==> line@ == content@,
    {
        self.log(content, Some(FDK_LOG_DEBUG))
    }
}

} // verus!
