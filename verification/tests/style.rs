use diagnostic_report::severity::Severity;
use diagnostic_report::style::{styled, Style};

#[test]
fn colors_wrap_the_text_in_control_sequences() {
    assert_eq!(Style::BrightRed.paint("error"), "\x1b[91merror\x1b[39m");
    assert_eq!(Style::BrightYellow.paint("warning"), "\x1b[93mwarning\x1b[39m");
    assert_eq!(Style::BrightWhite.paint("info"), "\x1b[97minfo\x1b[39m");
    assert_eq!(Style::BrightCyan.paint("hint"), "\x1b[96mhint\x1b[39m");
}

#[test]
fn bold_resets_all_attributes() {
    assert_eq!(Style::Bold.paint("42"), "\x1b[1m42\x1b[0m");
}

#[test]
fn each_severity_has_its_color() {
    assert_eq!(Style::for_severity(Severity::Error), Style::BrightRed);
    assert_eq!(Style::for_severity(Severity::Warning), Style::BrightYellow);
    assert_eq!(Style::for_severity(Severity::Information), Style::BrightWhite);
    assert_eq!(Style::for_severity(Severity::Hint), Style::BrightCyan);
}

#[test]
fn without_color_the_text_is_unchanged() {
    assert_eq!(styled(Style::BrightRed, "error", false), "error");
    assert_eq!(styled(Style::Bold, "undefined-global", false), "undefined-global");
    assert_eq!(styled(Style::Bold, "undefined-global", true), "\x1b[1mundefined-global\x1b[0m");
}
