//! The five severity levels and the resolution of verbosity indicators.
use vstd::prelude::*;
use vstd::string::StrSliceExecFns;

verus! {

/// A log severity level, ordered from most severe (`Error`) to least
/// severe (`Trace`).
#[derive(Clone, Copy, Debug, PartialEq, Eq, Structural)]
pub enum SeverityLevel {
    Error,
    Warn,
    Info,
    Debug,
    Trace,
}

/// A verbosity indicator: either a small integer or a level name.
pub enum VerbosityIndicator {
    Number(u64),
    Name(String),
}

/// The level that a numeric verbosity indicator selects: 1 through 5 select
/// `Error` through `Trace`; everything else defaults to `Info`.
pub open spec fn level_of_verbosity(n: int) -> SeverityLevel {
    if n == 1 {
        SeverityLevel::Error
    } else if n == 2 {
        SeverityLevel::Warn
    } else if n == 3 {
        SeverityLevel::Info
    } else if n == 4 {
        SeverityLevel::Debug
    } else if n == 5 {
        SeverityLevel::Trace
    } else {
        SeverityLevel::Info
    }
}

/// ASCII case folding of one character: uppercase letters map to their
/// lowercase counterpart, every other character stays as it is.
pub open spec fn lower_char(c: char) -> char {
    if 'A' <= c && c <= 'Z' {
        ((c as u8) + 32) as char
    } else {
        c
    }
}

/// A string folded to lowercase, character by character.
pub open spec fn lower_seq(s: Seq<char>) -> Seq<char> {
    s.map_values(|c: char| lower_char(c))
}

/// The level that a level name selects, compared case-insensitively;
/// anything that is not a level name defaults to `Info`.
pub open spec fn level_of_name(s: Seq<char>) -> SeverityLevel {
    let low = lower_seq(s);
    if low == "error"@ {
        SeverityLevel::Error
    } else if low == "warn"@ {
        SeverityLevel::Warn
    } else if low == "info"@ {
        SeverityLevel::Info
    } else if low == "debug"@ {
        SeverityLevel::Debug
    } else if low == "trace"@ {
        SeverityLevel::Trace
    } else {
        SeverityLevel::Info
    }
}

/// The level that an indicator of either kind selects.
pub open spec fn level_of_indicator(v: &VerbosityIndicator) -> SeverityLevel {
    match v {
        VerbosityIndicator::Number(n) => level_of_verbosity(*n as int),
        VerbosityIndicator::Name(s) => level_of_name(s@),
    }
}

/// Folds one character to lowercase, as `lower_char` describes.
fn to_lower(c: char) -> (r: char)
    ensures
        r == lower_char(c),
{
    if 'A' <= c && c <= 'Z' {
        ((c as u8) + 32) as char
    } else {
        c
    }
}

/// Decides whether `s`, folded to lowercase, is exactly the string `t`.
fn matches_lower(s: &str, t: &str) -> (b: bool)
    ensures
        b == (lower_seq(s@) == t@),
{
    let n = s.unicode_len();
    if n != t.unicode_len() {
        return false;
    }
    let mut i: usize = 0;
    while i < n
        invariant
            n == s@.len(),
            n == t@.len(),
            i <= n,
            forall|j: int| 0 <= j < i ==> lower_char(s@[j]) == t@[j],
        decreases n - i,
    {
        let c = to_lower(s.get_char(i));
        let d = t.get_char(i);
        if c != d {
            proof {
                assert(lower_seq(s@)[i as int] != t@[i as int]);
            }
            return false;
        }
        i = i + 1;
    }
    proof {
        assert(lower_seq(s@) =~= t@);
    }
    true
}

/// Resolves a level name, case-insensitively; unrecognized names yield `Info`.
pub fn resolve_name(s: &str) -> (r: SeverityLevel)
    ensures
        r == level_of_name(s@),
{
    if matches_lower(s, "error") {
        SeverityLevel::Error
    } else if matches_lower(s, "warn") {
        SeverityLevel::Warn
    } else if matches_lower(s, "info") {
        SeverityLevel::Info
    } else if matches_lower(s, "debug") {
        SeverityLevel::Debug
    } else if matches_lower(s, "trace") {
        SeverityLevel::Trace
    } else {
        SeverityLevel::Info
    }
}

/// Resolves a numeric verbosity; 1 through 5 select `Error` through `Trace`,
/// everything else yields `Info`.
pub fn resolve_verbosity(n: usize) -> (r: SeverityLevel)
    ensures
        r == level_of_verbosity(n as int),
{
    match n {
        1 => SeverityLevel::Error,
        2 => SeverityLevel::Warn,
        3 => SeverityLevel::Info,
        4 => SeverityLevel::Debug,
        5 => SeverityLevel::Trace,
        _ => SeverityLevel::Info,
    }
}

/// Resolves an indicator of either kind. The result is a pure function of
/// the indicator's value: two calls on equal inputs yield equal results,
/// and nothing else is touched.
pub fn resolve_level(v: &VerbosityIndicator) -> (r: SeverityLevel)
    ensures
        r == level_of_indicator(v),
{
    match v {
        VerbosityIndicator::Number(n) => {
            if *n > 5 {
                SeverityLevel::Info
            } else {
                resolve_verbosity(*n as usize)
            }
        },
        VerbosityIndicator::Name(s) => resolve_name(s.as_str()),
    }
}

/// Law: the numeric indicators 1 through 5 select `Error`, `Warn`, `Info`,
/// `Debug` and `Trace`, in that order.
pub proof fn lemma_verbosity_levels()
    ensures
        level_of_verbosity(1) == SeverityLevel::Error,
        level_of_verbosity(2) == SeverityLevel::Warn,
        level_of_verbosity(3) == SeverityLevel::Info,
        level_of_verbosity(4) == SeverityLevel::Debug,
        level_of_verbosity(5) == SeverityLevel::Trace,
{
}

/// Law: the numeric indicator 0, and every indicator at or above 6, selects
/// the `Info` default.
pub proof fn lemma_verbosity_default(n: int)
    ensures
        n == 0 || n >= 6 ==> level_of_verbosity(n) == SeverityLevel::Info,
{
}

/// Law: every case variant of a level name selects that level; that is, any
/// string whose lowercase folding is `"error"` resolves to `Error`, and so
/// on for the other four names.
pub proof fn lemma_name_levels(s: Seq<char>)
    ensures
        lower_seq(s) == "error"@ ==> level_of_name(s) == SeverityLevel::Error,
        lower_seq(s) == "warn"@ ==> level_of_name(s) == SeverityLevel::Warn,
        lower_seq(s) == "info"@ ==> level_of_name(s) == SeverityLevel::Info,
        lower_seq(s) == "debug"@ ==> level_of_name(s) == SeverityLevel::Debug,
        lower_seq(s) == "trace"@ ==> level_of_name(s) == SeverityLevel::Trace,
{
    reveal_strlit("error");
    reveal_strlit("warn");
    reveal_strlit("info");
    reveal_strlit("debug");
    reveal_strlit("trace");
    assert("warn"@ != "error"@) by {
        assert("warn"@.len() != "error"@.len());
    }
    assert("info"@ != "error"@) by {
        assert("info"@.len() != "error"@.len());
    }
    assert("info"@ != "warn"@) by {
        assert("info"@[0] != "warn"@[0]);
    }
    assert("debug"@ != "error"@) by {
        assert("debug"@[0] != "error"@[0]);
    }
    assert("debug"@ != "warn"@) by {
        assert("debug"@.len() != "warn"@.len());
    }
    assert("debug"@ != "info"@) by {
        assert("debug"@.len() != "info"@.len());
    }
    assert("trace"@ != "error"@) by {
        assert("trace"@[0] != "error"@[0]);
    }
    assert("trace"@ != "warn"@) by {
        assert("trace"@.len() != "warn"@.len());
    }
    assert("trace"@ != "info"@) by {
        assert("trace"@.len() != "info"@.len());
    }
    assert("trace"@ != "debug"@) by {
        assert("trace"@[0] != "debug"@[0]);
    }
}

/// Law: a string that is no case variant of a level name selects the `Info`
/// default.
pub proof fn lemma_name_default(s: Seq<char>)
    ensures
        lower_seq(s) != "error"@ && lower_seq(s) != "warn"@ && lower_seq(s) != "info"@
            && lower_seq(s) != "debug"@ && lower_seq(s) != "trace"@ ==> level_of_name(s)
            == SeverityLevel::Info,
{
}

} // verus!
