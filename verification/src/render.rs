//! Rendering of one log line: a severity tag padded to five characters, a
//! timestamp, and the message, with optional ANSI styling of the tag and the
//! timestamp.
use vstd::prelude::*;
use vstd::string::StringExecFns;

use crate::levels::SeverityLevel;

verus! {

/// The severity tag of a level: its name, left-justified and padded to five
/// characters.
pub open spec fn tag_of(l: SeverityLevel) -> Seq<char> {
    match l {
        SeverityLevel::Error => "ERROR"@,
        SeverityLevel::Warn => "WARN "@,
        SeverityLevel::Info => "INFO "@,
        SeverityLevel::Debug => "DEBUG"@,
        SeverityLevel::Trace => "TRACE"@,
    }
}

/// The ANSI sequence that turns on the bold, level-specific color of a tag:
/// red for `Error`, yellow for `Warn`, green for `Info`, cyan for `Debug`,
/// magenta for `Trace`.
pub open spec fn style_of(l: SeverityLevel) -> Seq<char> {
    match l {
        SeverityLevel::Error => "\u{1b}[1;31m"@,
        SeverityLevel::Warn => "\u{1b}[1;33m"@,
        SeverityLevel::Info => "\u{1b}[1;32m"@,
        SeverityLevel::Debug => "\u{1b}[1;36m"@,
        SeverityLevel::Trace => "\u{1b}[1;35m"@,
    }
}

/// The ANSI sequence that turns on the bold, dark-orange timestamp color.
pub open spec fn time_style() -> Seq<char> {
    "\u{1b}[1;38;2;159;80;1m"@
}

/// The ANSI sequence that turns all styling off again.
pub open spec fn style_reset() -> Seq<char> {
    "\u{1b}[0m"@
}

/// One rendered log line, without its trailing newline: the bracketed
/// severity tag, then the bracketed timestamp, then the message. When
/// `styled` holds, the tag and the timestamp carry their ANSI styling;
/// otherwise the line is plain text.
pub open spec fn rendered_line(
    l: SeverityLevel,
    ts: Seq<char>,
    msg: Seq<char>,
    styled: bool,
) -> Seq<char> {
    if styled {
        "["@ + style_of(l) + tag_of(l) + style_reset() + "]["@ + time_style() + ts
            + style_reset() + "]"@ + msg
    } else {
        "["@ + tag_of(l) + "]["@ + ts + "]"@ + msg
    }
}

/// The severity tag of a level, as `tag_of` describes it.
pub fn tag_str(l: SeverityLevel) -> (r: &'static str)
    ensures
        r@ == tag_of(l),
{
    match l {
        SeverityLevel::Error => "ERROR",
        SeverityLevel::Warn => "WARN ",
        SeverityLevel::Info => "INFO ",
        SeverityLevel::Debug => "DEBUG",
        SeverityLevel::Trace => "TRACE",
    }
}

/// The ANSI color sequence of a level's tag, as `style_of` describes it.
fn style_str(l: SeverityLevel) -> (r: &'static str)
    ensures
        r@ == style_of(l),
{
    match l {
        SeverityLevel::Error => "\u{1b}[1;31m",
        SeverityLevel::Warn => "\u{1b}[1;33m",
        SeverityLevel::Info => "\u{1b}[1;32m",
        SeverityLevel::Debug => "\u{1b}[1;36m",
        SeverityLevel::Trace => "\u{1b}[1;35m",
    }
}

/// Renders one log line from a level, a timestamp and a message, exactly as
/// `rendered_line` describes it.
pub fn render_line(l: SeverityLevel, ts: &str, msg: &str, styled: bool) -> (r: String)
    ensures
        r@ == rendered_line(l, ts@, msg@, styled),
{
    let mut out = String::new();
    out.append("[");
    if styled {
        out.append(style_str(l));
        out.append(tag_str(l));
        out.append("\u{1b}[0m");
        out.append("][");
        out.append("\u{1b}[1;38;2;159;80;1m");
        out.append(ts);
        out.append("\u{1b}[0m");
    } else {
        out.append(tag_str(l));
        out.append("][");
        out.append(ts);
    }
    out.append("]");
    out.append(msg);
    proof {
        assert(out@ =~= rendered_line(l, ts@, msg@, styled));
    }
    out
}

} // verus!
