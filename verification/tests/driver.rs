use diagnostic_report::diagnostic::{Diagnostic, Position, Range};
use diagnostic_report::driver::{analyzer_arguments, next_action, Action, Event, Settings};
use diagnostic_report::error::Failure;
use diagnostic_report::pipeline::Run;
use diagnostic_report::render::Layout;
use diagnostic_report::report::DiagnosticsReport;
use diagnostic_report::severity::{Severity, ThresholdConfig};

fn settings() -> Settings {
    Settings {
        project: ".".to_string(),
        root: "/proj".to_string(),
        thresholds: ThresholdConfig::new(Severity::Warning, Severity::Hint),
        layout: Layout { width: 76, color: false },
    }
}

fn stop(failure: Failure) -> Action {
    Action::Finish { run: Run { text: String::new(), outcome: Err(failure) } }
}

fn output(text: &str) -> Event {
    Event::Output { bytes: text.as_bytes().to_vec() }
}

#[test]
fn the_analyzer_is_asked_to_check_the_project() {
    assert_eq!(
        analyzer_arguments("some/project"),
        vec!["--check", "some/project", "--checklevel", "Information"]
    );
}

#[test]
fn a_run_starts_with_the_analyzer() {
    assert_eq!(
        next_action(Event::Start, &settings()),
        Action::RunAnalyzer {
            arguments: vec![
                "--check".to_string(),
                ".".to_string(),
                "--checklevel".to_string(),
                "Information".to_string(),
            ],
        }
    );
}

#[test]
fn an_analyzer_that_does_not_start_ends_the_run() {
    assert_eq!(next_action(Event::SpawnFailed, &settings()), stop(Failure::SpawnFailure));
}

#[test]
fn an_analyzer_that_exits_with_status_one_ends_the_run_at_once() {
    let event = Event::Exited { success: false, status: "exit status: 1".to_string() };
    assert_eq!(
        next_action(event, &settings()),
        stop(Failure::AnalyzerFailure { status: "exit status: 1".to_string() })
    );
}

#[test]
fn the_output_is_taken_once_the_analyzer_has_ended_well() {
    let event = Event::Exited { success: true, status: "exit status: 0".to_string() };
    assert_eq!(next_action(event, &settings()), Action::CollectOutput);
}

#[test]
fn lost_output_ends_the_run() {
    assert_eq!(next_action(Event::OutputLost, &settings()), stop(Failure::StreamFailure));
}

#[test]
fn the_report_is_loaded_from_the_path_in_the_output() {
    assert_eq!(
        next_action(output("Diagnosis completed, see /tmp/check.json\n"), &settings()),
        Action::LoadReport { path: "/tmp/check.json".to_string() }
    );
}

#[test]
fn an_empty_line_after_the_path_does_not_hide_it() {
    assert_eq!(
        next_action(output("done /tmp/r.json\n\n"), &settings()),
        Action::LoadReport { path: "/tmp/r.json".to_string() }
    );
}

#[test]
fn an_empty_last_line_ends_the_run_without_a_report_being_read() {
    assert_eq!(
        next_action(output("\n"), &settings()),
        stop(Failure::NoPathToken { line: String::new() })
    );
    assert_eq!(
        next_action(output("\n\n"), &settings()),
        stop(Failure::NoPathToken { line: String::new() })
    );
}

#[test]
fn a_last_line_without_a_token_ends_the_run_without_a_report_being_read() {
    assert_eq!(
        next_action(output("Diagnosis completed, see /tmp/check.json\n \t \n"), &settings()),
        stop(Failure::NoPathToken { line: " \t ".to_string() })
    );
}

#[test]
fn output_without_lines_ends_the_run() {
    assert_eq!(next_action(output(""), &settings()), stop(Failure::EmptyOutput));
}

#[test]
fn output_that_is_no_text_ends_the_run() {
    let event = Event::Output { bytes: vec![b'/', 0xfe, b'\n'] };
    assert_eq!(next_action(event, &settings()), stop(Failure::InvalidOutput));
}

#[test]
fn a_report_that_cannot_be_had_ends_the_run() {
    let path = "/tmp/check.json".to_string();
    assert_eq!(
        next_action(Event::ReportMissing { path: path.clone() }, &settings()),
        stop(Failure::ReportFileMissing { path: path.clone() })
    );
    assert_eq!(
        next_action(Event::ReportUnreadable { path: path.clone() }, &settings()),
        stop(Failure::ReadFailure { path: path.clone() })
    );
    let reason = "expected value at line 1 column 1".to_string();
    assert_eq!(
        next_action(
            Event::ReportMalformed { path: path.clone(), reason: reason.clone() },
            &settings()
        ),
        stop(Failure::MalformedReport { path, reason })
    );
}

#[test]
fn a_loaded_report_is_run_over() {
    let at = Position { line: 0, character: 0 };
    let mut report = DiagnosticsReport::new();
    report.insert(
        "file:///proj/a.lua".to_string(),
        vec![Diagnostic {
            range: Range { start: at, end: at },
            severity: Some(1),
            code: None,
            message: "bad".to_string(),
            related_information: None,
        }],
    );
    assert_eq!(
        next_action(Event::ReportLoaded { report }, &settings()),
        Action::Finish {
            run: Run {
                text: "\na.lua:0:0\n    error: bad\n\n".to_string(),
                outcome: Err(Failure::AggregateFailure { count: 1 }),
            },
        }
    );
}

#[test]
fn a_loaded_report_without_failures_passes() {
    assert_eq!(
        next_action(Event::ReportLoaded { report: DiagnosticsReport::new() }, &settings()),
        Action::Finish { run: Run { text: String::new(), outcome: Ok(()) } }
    );
}
