//! The decisions of a whole run, one at a time: what happened comes in as an
//! event, what to do next goes out as an action. Whoever drives a run starts
//! with `Event::Start`, carries out each action and hands back what came of
//! it, until the action is `Finish`.

use crate::error::{Failure, FailureView};
use crate::locate::{decode_output, decoded_output, report_path, report_path_text};
use crate::pipeline::{render_report, report_run, Run, RunView};
use crate::render::Layout;
use crate::report::{DiagnosticsReport, ReportEntryView};
use crate::severity::ThresholdConfig;
use vstd::prelude::*;

verus! {

/// What a run is configured with.
#[derive(Clone, Debug, PartialEq, Eq)]
pub struct Settings {
    /// The project path as it is handed to the analyzer.
    pub project: String,
    /// The absolute path of the project, against which files are shown and filtered.
    pub root: String,
    pub thresholds: ThresholdConfig,
    pub layout: Layout,
}

/// The settings, with the text of each string they carry.
pub struct SettingsView {
    pub project: Seq<char>,
    pub root: Seq<char>,
    pub thresholds: ThresholdConfig,
    pub layout: Layout,
}

impl DeepView for Settings {
    type V = SettingsView;

    open spec fn deep_view(&self) -> SettingsView {
        SettingsView {
            project: self.project@,
            root: self.root@,
            thresholds: self.thresholds,
            layout: self.layout,
        }
    }
}

impl View for Settings {
    type V = SettingsView;

    open spec fn view(&self) -> SettingsView {
        self.deep_view()
    }
}

/// What happened in a run.
pub enum Event {
    /// Nothing yet.
    Start,
    /// The analyzer could not be started.
    SpawnFailed,
    /// The analyzer ended; `status` describes how.
    Exited { success: bool, status: String },
    /// The analyzer's output could not be read to its end.
    OutputLost,
    /// The analyzer's whole output.
    Output { bytes: Vec<u8> },
    /// No file exists at the report's path.
    ReportMissing { path: String },
    /// The report file could not be read.
    ReportUnreadable { path: String },
    /// The report file holds no diagnostics report; `reason` is what the
    /// parser said of it.
    ReportMalformed { path: String, reason: String },
    /// The report.
    ReportLoaded { report: DiagnosticsReport },
}

/// An event, with the text of each string it carries.
pub enum EventView {
    Start,
    SpawnFailed,
    Exited { success: bool, status: Seq<char> },
    OutputLost,
    Output { bytes: Seq<u8> },
    ReportMissing { path: Seq<char> },
    ReportUnreadable { path: Seq<char> },
    ReportMalformed { path: Seq<char>, reason: Seq<char> },
    ReportLoaded { report: Seq<ReportEntryView> },
}

impl View for Event {
    type V = EventView;

    open spec fn view(&self) -> EventView {
        match self {
            Event::Start => EventView::Start,
            Event::SpawnFailed => EventView::SpawnFailed,
            Event::Exited { success, status } => EventView::Exited {
                success: *success,
                status: status@,
            },
            Event::OutputLost => EventView::OutputLost,
            Event::Output { bytes } => EventView::Output { bytes: bytes@ },
            Event::ReportMissing { path } => EventView::ReportMissing { path: path@ },
            Event::ReportUnreadable { path } => EventView::ReportUnreadable { path: path@ },
            Event::ReportMalformed { path, reason } => EventView::ReportMalformed {
                path: path@,
                reason: reason@,
            },
            Event::ReportLoaded { report } => EventView::ReportLoaded { report: report@ },
        }
    }
}

/// What to do next in a run.
#[derive(Debug, PartialEq, Eq)]
pub enum Action {
    /// Start the analyzer with these arguments and wait for it to end,
    /// reading its output as it comes.
    RunAnalyzer { arguments: Vec<String> },
    /// Take the output that was read.
    CollectOutput,
    /// Read the report file at this path.
    LoadReport { path: String },
    /// Print the run's text and end with its outcome.
    Finish { run: Run },
}

/// An action, with the text of each string it carries.
pub enum ActionView {
    RunAnalyzer { arguments: Seq<Seq<char>> },
    CollectOutput,
    LoadReport { path: Seq<char> },
    Finish { run: RunView },
}

impl View for Action {
    type V = ActionView;

    open spec fn view(&self) -> ActionView {
        match self {
            Action::RunAnalyzer { arguments } => ActionView::RunAnalyzer {
                arguments: arguments.deep_view(),
            },
            Action::CollectOutput => ActionView::CollectOutput,
            Action::LoadReport { path } => ActionView::LoadReport { path: path@ },
            Action::Finish { run } => ActionView::Finish { run: run@ },
        }
    }
}

/// The arguments for the analyzer: check the project, and report every
/// diagnostic down to the level of an information, so that all filtering is
/// left to the thresholds.
pub open spec fn analyzer_arguments_text(project: Seq<char>) -> Seq<Seq<char>> {
    seq!["--check"@, project, "--checklevel"@, "Information"@]
}

/// A run that printed nothing and failed.
pub open spec fn failed_run(failure: FailureView) -> RunView {
    RunView { text: Seq::empty(), outcome: Err(failure) }
}

/// The path of the report file that the analyzer's output names.
pub open spec fn located_report(bytes: Seq<u8>) -> Result<Seq<char>, FailureView> {
    match decoded_output(bytes) {
        Ok(text) => report_path_text(text),
        Err(failure) => Err(failure),
    }
}

/// What to do after an event. The steps of a run follow one another without
/// a way back: start the analyzer; once it has ended well, take its output;
/// find the report's path in it; load the report; run over it. Every failure
/// ends the run at once, so that an analyzer that ended badly or an output
/// without a token on its last line that is not empty leads to no report
/// being read.
pub open spec fn next_action_spec(event: EventView, settings: SettingsView) -> ActionView {
    match event {
        EventView::Start => ActionView::RunAnalyzer {
            arguments: analyzer_arguments_text(settings.project),
        },
        EventView::SpawnFailed => ActionView::Finish { run: failed_run(FailureView::SpawnFailure) },
        EventView::Exited { success, status } => if success {
            ActionView::CollectOutput
        } else {
            ActionView::Finish { run: failed_run(FailureView::AnalyzerFailure { status }) }
        },
        EventView::OutputLost => ActionView::Finish { run: failed_run(FailureView::StreamFailure) },
        EventView::Output { bytes } => match located_report(bytes) {
            Ok(path) => ActionView::LoadReport { path },
            Err(failure) => ActionView::Finish { run: failed_run(failure) },
        },
        EventView::ReportMissing { path } => ActionView::Finish {
            run: failed_run(FailureView::ReportFileMissing { path }),
        },
        EventView::ReportUnreadable { path } => ActionView::Finish {
            run: failed_run(FailureView::ReadFailure { path }),
        },
        EventView::ReportMalformed { path, reason } => ActionView::Finish {
            run: failed_run(FailureView::MalformedReport { path, reason }),
        },
        EventView::ReportLoaded { report } => ActionView::Finish {
            run: report_run(report, settings.root, settings.thresholds, settings.layout),
        },
    }
}

/// A report is read only after the analyzer's output named its path, and
/// never after a failure: the only event that leads to `LoadReport` is an
/// output whose last line that is not empty holds a token.
pub proof fn lemma_report_is_read_only_when_located(event: EventView, settings: SettingsView)
    ensures
        next_action_spec(event, settings) is LoadReport <==> (event matches EventView::Output {
            bytes,
        } && located_report(bytes) is Ok),
        event matches EventView::Exited { success, status } ==> (!success ==> next_action_spec(
            event,
            settings,
        ) == (ActionView::Finish { run: failed_run(FailureView::AnalyzerFailure { status }) })),
{
}

/// The arguments for the analyzer.
pub fn analyzer_arguments(project: &str) -> (arguments: Vec<String>)
    ensures
        arguments.deep_view() == analyzer_arguments_text(project@),
{
    let mut arguments: Vec<String> = Vec::new();
    arguments.push(String::from_str("--check"));
    arguments.push(String::from_str(project));
    arguments.push(String::from_str("--checklevel"));
    arguments.push(String::from_str("Information"));
    assert(arguments.deep_view() =~= analyzer_arguments_text(project@));
    arguments
}

fn failed(failure: Failure) -> (action: Action)
    ensures
        action@ == (ActionView::Finish { run: failed_run(failure@) }),
{
    Action::Finish { run: Run { text: String::new(), outcome: Err(failure) } }
}

/// Decides what to do after an event.
pub fn next_action(event: Event, settings: &Settings) -> (action: Action)
    ensures
        action@ == next_action_spec(event@, settings@),
{
    match event {
        Event::Start => Action::RunAnalyzer {
            arguments: analyzer_arguments(settings.project.as_str()),
        },
        Event::SpawnFailed => failed(Failure::SpawnFailure),
        Event::Exited { success, status } => {
            if success {
                Action::CollectOutput
            } else {
                failed(Failure::AnalyzerFailure { status })
            }
        },
        Event::OutputLost => failed(Failure::StreamFailure),
        Event::Output { bytes } => {
            match decode_output(bytes) {
                Ok(text) => match report_path(text.as_str()) {
                    Ok(path) => Action::LoadReport { path },
                    Err(failure) => failed(failure),
                },
                Err(failure) => failed(failure),
            }
        },
        Event::ReportMissing { path } => failed(Failure::ReportFileMissing { path }),
        Event::ReportUnreadable { path } => failed(Failure::ReadFailure { path }),
        Event::ReportMalformed { path, reason } => failed(
            Failure::MalformedReport { path, reason },
        ),
        Event::ReportLoaded { report } => Action::Finish {
            run: render_report(
                &report,
                settings.root.as_str(),
                &settings.thresholds,
                &settings.layout,
            ),
        },
    }
}

} // verus!
