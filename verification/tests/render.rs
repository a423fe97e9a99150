use diagnostic_report::diagnostic::{
    Diagnostic, DiagnosticCode, Location, Position, Range, RelatedInformation,
};
use diagnostic_report::render::{
    assemble_diagnostic, render_diagnostic, render_header, render_labelled_message,
    render_location, render_position, render_range, render_related, restates, severity_label,
    Layout, INDENT_WIDTH,
};
use diagnostic_report::uri::Uri;

const PLAIN: Layout = Layout { width: 76, color: false };
const COLOR: Layout = Layout { width: 76, color: true };

fn at(line: u32, character: u32) -> Position {
    Position { line, character }
}

fn span(a: (u32, u32), b: (u32, u32)) -> Range {
    Range { start: at(a.0, a.1), end: at(b.0, b.1) }
}

fn diagnostic(range: Range, severity: Option<i32>, message: &str) -> Diagnostic {
    Diagnostic {
        range,
        severity,
        code: None,
        message: message.to_string(),
        related_information: None,
    }
}

fn related(uri: &str, range: Range, message: &str) -> RelatedInformation {
    RelatedInformation {
        location: Location { uri: Uri::parse(uri).unwrap(), range },
        message: message.to_string(),
    }
}

#[test]
fn layout_leaves_room_for_the_indent() {
    assert_eq!(INDENT_WIDTH, 4);
    assert_eq!(Layout::for_terminal(80, false), Some(Layout { width: 76, color: false }));
    assert_eq!(Layout::for_terminal(4, true), Some(Layout { width: 0, color: true }));
    assert_eq!(Layout::for_terminal(3, false), None);
    assert_eq!(Layout::for_terminal(0, true), None);
    assert_eq!(
        Layout::for_terminal(usize::MAX, false),
        Some(Layout { width: usize::MAX - 4, color: false })
    );
}

#[test]
fn a_position_is_line_colon_character() {
    assert_eq!(render_position(at(0, 0)), "0:0");
    assert_eq!(render_position(at(12, 7)), "12:7");
    assert_eq!(render_position(at(u32::MAX, u32::MAX)), "4294967295:4294967295");
}

#[test]
fn a_point_range_is_a_single_position() {
    assert_eq!(render_range(span((3, 4), (3, 4))), "3:4");
    assert_eq!(render_range(span((0, 0), (0, 0))), "0:0");
    assert!(!render_range(span((10, 20), (10, 20))).contains('-'));
}

#[test]
fn a_wider_range_is_start_dash_end() {
    assert_eq!(render_range(span((3, 4), (3, 9))), "3:4-3:9");
    assert_eq!(render_range(span((1, 0), (2, 0))), "1:0-2:0");
    assert_eq!(render_range(span((5, 5), (0, 0))), "5:5-0:0");
}

#[test]
fn severity_labels_are_plain_without_color() {
    assert_eq!(severity_label(1, false), "error");
    assert_eq!(severity_label(2, false), "warning");
    assert_eq!(severity_label(3, false), "info");
    assert_eq!(severity_label(4, false), "hint");
}

#[test]
fn severity_labels_are_styled_with_color() {
    assert_eq!(severity_label(1, true), "\x1b[91merror\x1b[39m");
    assert_eq!(severity_label(2, true), "\x1b[93mwarning\x1b[39m");
    assert_eq!(severity_label(3, true), "\x1b[97minfo\x1b[39m");
    assert_eq!(severity_label(4, true), "\x1b[96mhint\x1b[39m");
}

#[test]
fn an_unknown_severity_has_no_label() {
    assert_eq!(severity_label(0, false), "");
    assert_eq!(severity_label(5, true), "");
    assert_eq!(severity_label(-3, true), "");
}

#[test]
fn a_location_is_shown_relative_to_the_root() {
    let location = Location {
        uri: Uri::parse("file:///proj/lib/util.lua").unwrap(),
        range: span((4, 1), (4, 8)),
    };
    assert_eq!(render_location(&location, "/proj"), "lib/util.lua:4:1-4:8");
    assert_eq!(render_location(&location, "/proj/src"), "../lib/util.lua:4:1-4:8");
}

#[test]
fn a_location_without_a_path_shows_its_uri() {
    let location = Location {
        uri: Uri::parse("HTTPS://Example.com/a.lua").unwrap(),
        range: span((1, 2), (1, 2)),
    };
    assert_eq!(render_location(&location, "/proj"), "https://example.com/a.lua:1:2");
}

#[test]
fn a_diagnostic_has_a_header_and_an_indented_message() {
    let d = diagnostic(span((0, 0), (0, 0)), Some(1), "bad");
    assert_eq!(render_diagnostic("a.lua", &d, "/proj", &PLAIN), "a.lua:0:0\n    error: bad\n");
}

#[test]
fn a_diagnostic_without_severity_starts_with_a_colon() {
    let d = diagnostic(span((2, 1), (2, 5)), None, "something");
    assert_eq!(
        render_diagnostic("src/a.lua", &d, "/proj", &PLAIN),
        "src/a.lua:2:1-2:5\n    : something\n"
    );
}

#[test]
fn a_code_stands_in_square_brackets() {
    let mut d = diagnostic(span((7, 3), (7, 9)), Some(2), "Undefined global `foo`.");
    d.code = Some(DiagnosticCode::Text("undefined-global".to_string()));
    assert_eq!(
        render_diagnostic("a.lua", &d, "/proj", &PLAIN),
        "a.lua:7:3-7:9 [undefined-global]\n    warning: Undefined global `foo`.\n"
    );
    d.code = Some(DiagnosticCode::Number(-12));
    assert_eq!(
        render_diagnostic("a.lua", &d, "/proj", &PLAIN),
        "a.lua:7:3-7:9 [-12]\n    warning: Undefined global `foo`.\n"
    );
}

#[test]
fn color_styles_the_label_and_the_code_only() {
    let mut d = diagnostic(span((7, 3), (7, 9)), Some(4), "unused");
    d.code = Some(DiagnosticCode::Number(41));
    assert_eq!(
        render_diagnostic("a.lua", &d, "/proj", &COLOR),
        "a.lua:7:3-7:9 [\x1b[1m41\x1b[0m]\n    \x1b[96mhint\x1b[39m: unused\n"
    );
}

#[test]
fn a_long_message_is_wrapped_and_every_line_indented() {
    let d = diagnostic(span((1, 1), (1, 1)), Some(2), "alpha beta gamma delta epsilon");
    let narrow = Layout { width: 20, color: false };
    assert_eq!(
        render_diagnostic("a.lua", &d, "/proj", &narrow),
        "a.lua:1:1\n    warning: alpha\n    beta gamma delta\n    epsilon\n"
    );
}

#[test]
fn lines_of_the_message_are_kept() {
    let d = diagnostic(span((1, 1), (1, 1)), Some(3), "first\nsecond");
    assert_eq!(
        render_diagnostic("a.lua", &d, "/proj", &PLAIN),
        "a.lua:1:1\n    info: first\n    second\n"
    );
}

#[test]
fn related_information_follows_with_a_bullet() {
    let mut d = diagnostic(span((9, 0), (9, 3)), Some(2), "Duplicate field `x`.");
    d.related_information = Some(vec![
        related("file:///proj/a.lua", span((3, 0), (3, 3)), "first defined here"),
        related("file:///proj/lib/b.lua", span((1, 1), (1, 1)), "also here"),
    ]);
    assert_eq!(
        render_diagnostic("a.lua", &d, "/proj", &PLAIN),
        "a.lua:9:0-9:3\n    warning: Duplicate field `x`.\n    \u{2022} a.lua:3:0-3:3: first defined here\n    \u{2022} lib/b.lua:1:1: also here\n"
    );
}

#[test]
fn related_information_without_message_ends_after_its_location() {
    let mut d = diagnostic(span((9, 0), (9, 3)), Some(2), "Duplicate field `x`.");
    d.related_information =
        Some(vec![related("file:///proj/a.lua", span((3, 0), (3, 3)), "")]);
    assert_eq!(
        render_diagnostic("a.lua", &d, "/proj", &PLAIN),
        "a.lua:9:0-9:3\n    warning: Duplicate field `x`.\n    \u{2022} a.lua:3:0-3:3\n"
    );
}

#[test]
fn every_related_location_has_a_line_of_its_own() {
    let mut d = diagnostic(span((9, 0), (9, 3)), Some(2), "Duplicate field `x`.");
    d.related_information = Some(vec![
        related("file:///proj/a.lua", span((3, 0), (3, 3)), ""),
        related("file:///proj/b.lua", span((4, 0), (4, 3)), ""),
        related("file:///proj/c.lua", span((5, 0), (5, 3)), "here"),
    ]);
    assert_eq!(
        render_diagnostic("a.lua", &d, "/proj", &PLAIN),
        "a.lua:9:0-9:3\n    warning: Duplicate field `x`.\n    \u{2022} a.lua:3:0-3:3\n    \u{2022} b.lua:4:0-4:3\n    \u{2022} c.lua:5:0-5:3: here\n"
    );
}

#[test]
fn the_header_ends_its_line() {
    let mut d = diagnostic(span((7, 3), (7, 9)), Some(2), "m");
    assert_eq!(render_header("src/a.lua", &d, false), "src/a.lua:7:3-7:9\n");
    d.code = Some(DiagnosticCode::Text("unused-local".to_string()));
    assert_eq!(render_header("src/a.lua", &d, false), "src/a.lua:7:3-7:9 [unused-local]\n");
    assert_eq!(
        render_header("src/a.lua", &d, true),
        "src/a.lua:7:3-7:9 [\x1b[1munused-local\x1b[0m]\n"
    );
}

#[test]
fn the_message_goes_into_wrapping_behind_its_label() {
    assert_eq!(render_labelled_message(&diagnostic(span((0, 0), (0, 0)), Some(1), "bad"), false), "error: bad");
    assert_eq!(render_labelled_message(&diagnostic(span((0, 0), (0, 0)), None, "bad"), true), ": bad");
    assert_eq!(render_labelled_message(&diagnostic(span((0, 0), (0, 0)), Some(8), "bad"), true), ": bad");
    assert_eq!(
        render_labelled_message(&diagnostic(span((0, 0), (0, 0)), Some(3), ""), true),
        "\x1b[97minfo\x1b[39m: "
    );
}

#[test]
fn related_information_is_a_line_or_nothing() {
    let range = span((9, 0), (9, 3));
    let d = diagnostic(range, Some(2), "m");
    assert_eq!(render_related(&related("file:///proj/a.lua", range, "m"), &d, "/proj"), "");
    assert_eq!(render_related(&related("file:///proj/a.lua", range, ""), &d, "/proj"), "");
    assert_eq!(
        render_related(&related("file:///proj/a.lua", range, "n"), &d, "/proj"),
        "    \u{2022} a.lua:9:0-9:3: n\n"
    );
    assert_eq!(
        render_related(&related("file:///proj/a.lua", span((1, 1), (1, 1)), ""), &d, "/proj"),
        "    \u{2022} a.lua:1:1\n"
    );
}

#[test]
fn a_diagnostic_is_put_together_around_its_wrapped_message() {
    let mut d = diagnostic(span((9, 0), (9, 3)), Some(2), "ignored here");
    d.code = Some(DiagnosticCode::Number(7));
    assert_eq!(
        assemble_diagnostic("a.lua", &d, "/proj", false, "  one\n  two"),
        "a.lua:9:0-9:3 [7]\n  one\n  two\n"
    );
    d.related_information =
        Some(vec![related("https://example.com/x", span((1, 2), (3, 4)), "see")]);
    assert_eq!(
        assemble_diagnostic("a.lua", &d, "/proj", false, ""),
        "a.lua:9:0-9:3 [7]\n\n    \u{2022} https://example.com/x:1:2-3:4: see\n"
    );
}

#[test]
fn related_information_that_restates_the_diagnostic_is_left_out() {
    let range = span((9, 0), (9, 3));
    let mut d = diagnostic(range, Some(2), "Duplicate field `x`.");
    let plain = render_diagnostic("a.lua", &d, "/proj", &PLAIN);
    d.related_information = Some(vec![
        related("file:///proj/a.lua", range, "Duplicate field `x`."),
        related("file:///proj/other.lua", range, ""),
    ]);
    assert_eq!(render_diagnostic("a.lua", &d, "/proj", &PLAIN), plain);
    d.related_information = Some(vec![]);
    assert_eq!(render_diagnostic("a.lua", &d, "/proj", &PLAIN), plain);
}

#[test]
fn related_information_is_kept_where_range_or_message_differs() {
    let range = span((9, 0), (9, 3));
    let mut d = diagnostic(range, Some(2), "Duplicate field `x`.");
    d.related_information = Some(vec![
        related("file:///proj/a.lua", range, "Duplicate field `x`."),
        related("file:///proj/a.lua", range, "another note"),
        related("file:///proj/a.lua", span((9, 0), (9, 4)), "Duplicate field `x`."),
        related("file:///proj/a.lua", span((8, 0), (9, 3)), ""),
    ]);
    assert_eq!(
        render_diagnostic("a.lua", &d, "/proj", &PLAIN),
        "a.lua:9:0-9:3\n    warning: Duplicate field `x`.\n    \u{2022} a.lua:9:0-9:3: another note\n    \u{2022} a.lua:9:0-9:4: Duplicate field `x`.\n    \u{2022} a.lua:8:0-9:3\n"
    );
}

#[test]
fn restates_asks_for_the_same_range_and_no_new_message() {
    let range = span((9, 0), (9, 3));
    let d = diagnostic(range, Some(2), "m");
    assert!(restates(&related("file:///proj/a.lua", range, "m"), &d));
    assert!(restates(&related("file:///elsewhere.lua", range, ""), &d));
    assert!(!restates(&related("file:///proj/a.lua", range, "n"), &d));
    assert!(!restates(&related("file:///proj/a.lua", span((9, 0), (9, 2)), "m"), &d));
    assert!(!restates(&related("file:///proj/a.lua", span((9, 1), (9, 3)), ""), &d));
}
