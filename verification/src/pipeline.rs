//! From a loaded report to the text of a run and its outcome: every entry in
//! the order of the URIs, entries outside the project left out, diagnostics
//! filtered by the `show` threshold and counted by the `fail` threshold.

use crate::diagnostic::{Diagnostic, DiagnosticView};
use crate::error::{Failure, FailureView};
use crate::render::{diagnostic_text, render_diagnostic, Layout};
use crate::report::{DiagnosticsReport, ReportEntry, ReportEntryView};
use crate::severity::ThresholdConfig;
use crate::uri::{parsed_uri, Uri, UriView};
use vstd::prelude::*;

verus! {

/// What a part of a report comes to: the text to print and the number of
/// diagnostics that count as failures.
#[derive(Clone, Debug, PartialEq, Eq)]
pub struct Summary {
    pub text: String,
    pub failures: u128,
}

/// A summary, with its text and its count as a natural number.
pub struct SummaryView {
    pub text: Seq<char>,
    pub failures: nat,
}

impl DeepView for Summary {
    type V = SummaryView;

    open spec fn deep_view(&self) -> SummaryView {
        SummaryView { text: self.text@, failures: self.failures as nat }
    }
}

impl View for Summary {
    type V = SummaryView;

    open spec fn view(&self) -> SummaryView {
        self.deep_view()
    }
}

/// How a run ended: what it printed, and whether it succeeded.
#[derive(Debug, PartialEq, Eq)]
pub struct Run {
    pub text: String,
    pub outcome: Result<(), Failure>,
}

/// A run, with the text of each string it carries.
pub struct RunView {
    pub text: Seq<char>,
    pub outcome: Result<(), FailureView>,
}

impl DeepView for Run {
    type V = RunView;

    open spec fn deep_view(&self) -> RunView {
        RunView {
            text: self.text@,
            outcome: match self.outcome {
                Ok(_) => Ok(()),
                Err(failure) => Err(failure@),
            },
        }
    }
}

impl View for Run {
    type V = RunView;

    open spec fn view(&self) -> RunView {
        self.deep_view()
    }
}

/// The text of the diagnostics of one file that the thresholds show, each
/// after an empty line's worth of line break, in the order of the list.
pub open spec fn shown_text(
    path: Seq<char>,
    list: Seq<DiagnosticView>,
    root: Seq<char>,
    thresholds: ThresholdConfig,
    layout: Layout,
) -> Seq<char>
    decreases list.len(),
{
    if list.len() == 0 {
        Seq::empty()
    } else {
        let before = shown_text(path, list.drop_last(), root, thresholds, layout);
        if thresholds.shows_spec(list.last().severity) {
            before + "\n"@ + diagnostic_text(path, list.last(), root, layout)
        } else {
            before
        }
    }
}

/// The number of diagnostics in a list that count as failures.
pub open spec fn failure_count(list: Seq<DiagnosticView>, thresholds: ThresholdConfig) -> nat
    decreases list.len(),
{
    if list.len() == 0 {
        0
    } else {
        let before = failure_count(list.drop_last(), thresholds);
        if thresholds.counts_spec(list.last().severity) {
            before + 1
        } else {
            before
        }
    }
}

/// What the diagnostics of the file that `uri` names come to. A URI with
/// another scheme than `file` is a failure. A file outside the project adds
/// nothing: no text and no failures. A `file` URI that names no path counts
/// as inside the project, and its diagnostics are shown under the URI's text.
pub open spec fn file_outcome(
    uri: UriView,
    list: Seq<DiagnosticView>,
    root: Seq<char>,
    thresholds: ThresholdConfig,
    layout: Layout,
) -> Result<SummaryView, FailureView> {
    match uri.shown_path(root) {
        Err(failure) => Err(failure),
        Ok(path) => if uri.in_project(root) {
            Ok(
                SummaryView {
                    text: shown_text(path, list, root, thresholds, layout),
                    failures: failure_count(list, thresholds),
                },
            )
        } else {
            Ok(SummaryView { text: Seq::empty(), failures: 0 })
        },
    }
}

/// What one entry of a report comes to: that of its file, once its key is
/// parsed. A key that is no URI is a failure.
pub open spec fn entry_outcome(
    entry: ReportEntryView,
    root: Seq<char>,
    thresholds: ThresholdConfig,
    layout: Layout,
) -> Result<SummaryView, FailureView> {
    match parsed_uri(entry.uri) {
        None => Err(FailureView::InvalidUri { uri: entry.uri }),
        Some(uri) => file_outcome(uri, entry.diagnostics, root, thresholds, layout),
    }
}

/// What the entries come to, taken in their order up to the first that
/// fails: the text of the entries before it, and the failure or the count.
pub open spec fn entries_outcome(
    entries: Seq<ReportEntryView>,
    root: Seq<char>,
    thresholds: ThresholdConfig,
    layout: Layout,
) -> (Seq<char>, Result<nat, FailureView>)
    decreases entries.len(),
{
    if entries.len() == 0 {
        (Seq::empty(), Ok(0))
    } else {
        let before = entries_outcome(entries.drop_last(), root, thresholds, layout);
        match before.1 {
            Err(_) => before,
            Ok(count) => match entry_outcome(entries.last(), root, thresholds, layout) {
                Err(failure) => (before.0, Err(failure)),
                Ok(summary) => (before.0 + summary.text, Ok(count + summary.failures)),
            },
        }
    }
}

/// The run over a report. It fails with the first entry that fails. Else it
/// succeeds where no diagnostic counts as a failure; where some do, a line
/// break ends the text and the run fails with their number.
pub open spec fn report_run(
    entries: Seq<ReportEntryView>,
    root: Seq<char>,
    thresholds: ThresholdConfig,
    layout: Layout,
) -> RunView {
    let (text, result) = entries_outcome(entries, root, thresholds, layout);
    match result {
        Err(failure) => RunView { text, outcome: Err(failure) },
        Ok(count) => if count > 0 {
            RunView { text: text + "\n"@, outcome: Err(FailureView::AggregateFailure { count }) }
        } else {
            RunView { text, outcome: Ok(()) }
        },
    }
}

/// No more diagnostics count as failures than there are.
pub proof fn lemma_failure_count_bound(list: Seq<DiagnosticView>, thresholds: ThresholdConfig)
    ensures
        failure_count(list, thresholds) <= list.len(),
    decreases list.len(),
{
    if list.len() > 0 {
        lemma_failure_count_bound(list.drop_last(), thresholds);
    }
}

/// A diagnostic that the thresholds do not show changes neither the text nor
/// the count; one that is shown but does not count changes the text only.
pub proof fn lemma_one_more_diagnostic(
    path: Seq<char>,
    list: Seq<DiagnosticView>,
    diagnostic: DiagnosticView,
    root: Seq<char>,
    thresholds: ThresholdConfig,
    layout: Layout,
)
    ensures
        !thresholds.shows_spec(diagnostic.severity) ==> shown_text(
            path,
            list.push(diagnostic),
            root,
            thresholds,
            layout,
        ) == shown_text(path, list, root, thresholds, layout) && failure_count(
            list.push(diagnostic),
            thresholds,
        ) == failure_count(list, thresholds),
        thresholds.shows_spec(diagnostic.severity) ==> shown_text(
            path,
            list.push(diagnostic),
            root,
            thresholds,
            layout,
        ) == shown_text(path, list, root, thresholds, layout) + "\n"@ + diagnostic_text(
            path,
            diagnostic,
            root,
            layout,
        ),
        failure_count(list.push(diagnostic), thresholds) == failure_count(list, thresholds) + (
        if thresholds.counts_spec(diagnostic.severity) {
            1nat
        } else {
            0nat
        }),
{
    assert(list.push(diagnostic).drop_last() =~= list);
}

/// An entry whose file lies outside the project leaves no trace in a run: the
/// entries with it come to what the entries without it come to.
pub proof fn lemma_entry_outside_project_adds_nothing(
    entries: Seq<ReportEntryView>,
    entry: ReportEntryView,
    root: Seq<char>,
    thresholds: ThresholdConfig,
    layout: Layout,
)
    requires
        parsed_uri(entry.uri) matches Some(uri) && uri.shown_path(root) is Ok && !uri.in_project(
            root,
        ),
    ensures
        entries_outcome(entries.push(entry), root, thresholds, layout) == entries_outcome(
            entries,
            root,
            thresholds,
            layout,
        ),
        report_run(entries.push(entry), root, thresholds, layout) == report_run(
            entries,
            root,
            thresholds,
            layout,
        ),
{
    assert(entries.push(entry).drop_last() =~= entries);
    let before = entries_outcome(entries, root, thresholds, layout);
    let after = entries_outcome(entries.push(entry), root, thresholds, layout);
    if before.1 is Ok {
        assert(after.0 =~= before.0);
    }
}

/// A file fails for its scheme alone, and then with `UnsupportedUriScheme`.
/// The diagnostics of a `file` URI that names no path are shown under the
/// URI's text and counted like any others.
pub proof fn lemma_only_another_scheme_fails(
    uri: UriView,
    list: Seq<DiagnosticView>,
    root: Seq<char>,
    thresholds: ThresholdConfig,
    layout: Layout,
)
    ensures
        file_outcome(uri, list, root, thresholds, layout) is Err <==> uri.scheme != "file"@,
        uri.scheme != "file"@ ==> file_outcome(uri, list, root, thresholds, layout) == Err::<
            SummaryView,
            FailureView,
        >(FailureView::UnsupportedUriScheme { uri: uri.text, scheme: uri.scheme }),
        uri.scheme == "file"@ && uri.file_path is None ==> file_outcome(
            uri,
            list,
            root,
            thresholds,
            layout,
        ) == Ok::<SummaryView, FailureView>(
            SummaryView {
                text: shown_text(uri.text, list, root, thresholds, layout),
                failures: failure_count(list, thresholds),
            },
        ),
{
}

/// Once an entry has failed, the entries after it change nothing.
pub proof fn lemma_failure_ends_run(
    entries: Seq<ReportEntryView>,
    n: int,
    root: Seq<char>,
    thresholds: ThresholdConfig,
    layout: Layout,
)
    requires
        0 <= n <= entries.len(),
        entries_outcome(entries.take(n), root, thresholds, layout).1 is Err,
    ensures
        entries_outcome(entries, root, thresholds, layout) == entries_outcome(
            entries.take(n),
            root,
            thresholds,
            layout,
        ),
    decreases entries.len(),
{
    if n == entries.len() {
        assert(entries.take(n) =~= entries);
    } else {
        assert(entries.drop_last().take(n) =~= entries.take(n));
        lemma_failure_ends_run(entries.drop_last(), n, root, thresholds, layout);
    }
}

/// Writes the diagnostics of the file that `uri` names and counts the failures.
pub fn render_file(
    uri: &Uri,
    diagnostics: &Vec<Diagnostic>,
    root: &str,
    thresholds: &ThresholdConfig,
    layout: &Layout,
) -> (outcome: Result<Summary, Failure>)
    ensures
        match file_outcome(uri@, diagnostics.deep_view(), root@, *thresholds, *layout) {
            Ok(view) => outcome matches Ok(summary) && summary@ == view,
            Err(view) => outcome matches Err(failure) && failure@ == view,
        },
{
    let path = match uri.to_shown_path(root) {
        Ok(path) => path,
        Err(failure) => {
            return Err(failure);
        },
    };
    if !uri.in_project(root) {
        return Ok(Summary { text: String::new(), failures: 0 });
    }
    let ghost list = diagnostics.deep_view();
    let mut text = String::new();
    let mut failures: u128 = 0;
    let mut i: usize = 0;
    while i < diagnostics.len()
        invariant
            i <= diagnostics.len(),
            list == diagnostics.deep_view(),
            text@ == shown_text(path@, list.take(i as int), root@, *thresholds, *layout),
            failures == failure_count(list.take(i as int), *thresholds),
            failures <= i,
        decreases diagnostics.len() - i,
    {
        let diagnostic = &diagnostics[i];
        proof {
            assert(list.take(i + 1) =~= list.take(i as int).push(diagnostic@));
            lemma_one_more_diagnostic(
                path@,
                list.take(i as int),
                diagnostic@,
                root@,
                *thresholds,
                *layout,
            );
        }
        if thresholds.shows(diagnostic.severity) {
            if thresholds.counts(diagnostic.severity) {
                failures += 1;
            }
            text.append("\n");
            text.append(render_diagnostic(path.as_str(), diagnostic, root, layout).as_str());
        }
        i += 1;
    }
    assert(list.take(i as int) =~= list);
    Ok(Summary { text, failures })
}

/// Writes the diagnostics of one entry of a report and counts the failures.
/// What comes of it depends on the entry, the root, the thresholds and the
/// layout alone.
pub fn render_entry(
    entry: &ReportEntry,
    root: &str,
    thresholds: &ThresholdConfig,
    layout: &Layout,
) -> (outcome: Result<Summary, Failure>)
    ensures
        match entry_outcome(entry@, root@, *thresholds, *layout) {
            Ok(view) => outcome matches Ok(summary) && summary@ == view,
            Err(view) => outcome matches Err(failure) && failure@ == view,
        },
{
    match Uri::parse(entry.uri.as_str()) {
        Ok(uri) => render_file(&uri, &entry.diagnostics, root, thresholds, layout),
        Err(failure) => Err(failure),
    }
}

/// Runs over a report: writes what the thresholds show of each entry inside
/// the project, in the ascending order of the URIs, and counts what fails.
/// What comes of it depends on the report, the root, the thresholds and the
/// layout alone, so that a second run over the same report reads the same.
pub fn render_report(
    report: &DiagnosticsReport,
    root: &str,
    thresholds: &ThresholdConfig,
    layout: &Layout,
) -> (run: Run)
    ensures
        run@ == report_run(report@, root@, *thresholds, *layout),
{
    let entries = report.entries();
    let ghost views = entries.deep_view();
    let mut text = String::new();
    let mut failures: u128 = 0;
    let mut i: usize = 0;
    while i < entries.len()
        invariant
            i <= entries.len(),
            views == entries.deep_view(),
            views == report@,
            entries_outcome(views.take(i as int), root@, *thresholds, *layout) == (
                text@,
                Ok::<nat, FailureView>(failures as nat),
            ),
            failures <= i * 0xffff_ffff_ffff_ffff,
        decreases entries.len() - i,
    {
        let entry = &entries[i];
        proof {
            assert(views.take(i + 1).drop_last() =~= views.take(i as int));
            assert(views.take(i + 1).last() == entry@);
            lemma_failure_count_bound(entry@.diagnostics, *thresholds);
        }
        match render_entry(entry, root, thresholds, layout) {
            Ok(summary) => {
                assert(summary.failures <= entry.diagnostics.len());
                text.append(summary.text.as_str());
                failures += summary.failures;
            },
            Err(failure) => {
                let run = Run { text, outcome: Err(failure) };
                proof {
                    let stopped = entries_outcome(views.take(i + 1), root@, *thresholds, *layout);
                    assert(stopped == (run.text@, Err::<nat, FailureView>(failure@)));
                    lemma_failure_ends_run(views, i + 1, root@, *thresholds, *layout);
                }
                return run;
            },
        }
        i += 1;
    }
    assert(views.take(i as int) =~= views);
    if failures > 0 {
        text.append("\n");
        Run { text, outcome: Err(Failure::AggregateFailure { count: failures }) }
    } else {
        Run { text, outcome: Ok(()) }
    }
}

} // verus!
