use log_setup::SeverityLevel;
use log_setup::render_line;

#[test]
fn test_render_plain_line() {
    let line = render_line(
        SeverityLevel::Trace,
        "2021-08-22T15:49:01",
        "This is a trace message",
        false,
    );
    assert_eq!(line.as_str(), "[TRACE][2021-08-22T15:49:01]This is a trace message");
}

#[test]
fn test_render_tags_padded() {
    assert_eq!(
        render_line(SeverityLevel::Error, "t", "m", false).as_str(),
        "[ERROR][t]m"
    );
    assert_eq!(
        render_line(SeverityLevel::Warn, "t", "m", false).as_str(),
        "[WARN ][t]m"
    );
    assert_eq!(
        render_line(SeverityLevel::Info, "t", "m", false).as_str(),
        "[INFO ][t]m"
    );
    assert_eq!(
        render_line(SeverityLevel::Debug, "t", "m", false).as_str(),
        "[DEBUG][t]m"
    );
    assert_eq!(
        render_line(SeverityLevel::Trace, "t", "m", false).as_str(),
        "[TRACE][t]m"
    );
}

#[test]
fn test_render_message_untouched() {
    let line = render_line(SeverityLevel::Info, "2021-08-22T15:49:01", "  spaced  out  ", false);
    assert_eq!(line.as_str(), "[INFO ][2021-08-22T15:49:01]  spaced  out  ");
}

#[test]
fn test_render_styled_line() {
    let line = render_line(
        SeverityLevel::Error,
        "2021-08-22T15:49:01",
        "This is an error message",
        true,
    );
    assert_eq!(
        line.as_str(),
        "[\u{1b}[1;31mERROR\u{1b}[0m][\u{1b}[1;38;2;159;80;1m2021-08-22T15:49:01\u{1b}[0m]This is an error message"
    );
}

#[test]
fn test_render_styled_colors() {
    assert!(render_line(SeverityLevel::Warn, "t", "m", true)
        .as_str()
        .contains("\u{1b}[1;33mWARN \u{1b}[0m"));
    assert!(render_line(SeverityLevel::Info, "t", "m", true)
        .as_str()
        .contains("\u{1b}[1;32mINFO \u{1b}[0m"));
    assert!(render_line(SeverityLevel::Debug, "t", "m", true)
        .as_str()
        .contains("\u{1b}[1;36mDEBUG\u{1b}[0m"));
    assert!(render_line(SeverityLevel::Trace, "t", "m", true)
        .as_str()
        .contains("\u{1b}[1;35mTRACE\u{1b}[0m"));
}
