//! The diagnostics of a report: positions, ranges, codes and related locations.

use crate::uri::{Uri, UriView};
use vstd::prelude::*;

verus! {

/// A place in a text document: line and character, both counted from zero.
#[derive(Clone, Copy, Debug, PartialEq, Eq, Structural)]
pub struct Position {
    pub line: u32,
    pub character: u32,
}

/// The text between two positions. Where `start` equals `end` the range names a point.
#[derive(Clone, Copy, Debug, PartialEq, Eq, Structural)]
pub struct Range {
    pub start: Position,
    pub end: Position,
}

/// The code of a diagnostic: a number or a name.
#[derive(Clone, Debug, PartialEq, Eq)]
pub enum DiagnosticCode {
    Number(i32),
    Text(String),
}

/// A range in the document that a URI names.
#[derive(Clone, Debug, PartialEq, Eq)]
pub struct Location {
    pub uri: Uri,
    pub range: Range,
}

/// Another place that a diagnostic refers to, with a note on it.
#[derive(Clone, Debug, PartialEq, Eq)]
pub struct RelatedInformation {
    pub location: Location,
    pub message: String,
}

/// One reported issue.
#[derive(Clone, Debug, PartialEq, Eq)]
pub struct Diagnostic {
    pub range: Range,
    /// The severity as the report gives it: 1 for an error up to 4 for a hint.
    /// Other numbers are kept as they are.
    pub severity: Option<i32>,
    pub code: Option<DiagnosticCode>,
    pub message: String,
    pub related_information: Option<Vec<RelatedInformation>>,
}

/// A code, with the text of a name.
pub enum DiagnosticCodeView {
    Number(int),
    Text(Seq<char>),
}

/// A location, with the text of its URI.
pub struct LocationView {
    pub uri: UriView,
    pub range: Range,
}

/// Related information, with the text of each string it carries.
pub struct RelatedInformationView {
    pub location: LocationView,
    pub message: Seq<char>,
}

/// A diagnostic, with the text of each string it carries.
pub struct DiagnosticView {
    pub range: Range,
    pub severity: Option<i32>,
    pub code: Option<DiagnosticCodeView>,
    pub message: Seq<char>,
    pub related_information: Option<Seq<RelatedInformationView>>,
}

impl DeepView for DiagnosticCode {
    type V = DiagnosticCodeView;

    open spec fn deep_view(&self) -> DiagnosticCodeView {
        match self {
            DiagnosticCode::Number(number) => DiagnosticCodeView::Number(*number as int),
            DiagnosticCode::Text(name) => DiagnosticCodeView::Text(name@),
        }
    }
}

impl View for DiagnosticCode {
    type V = DiagnosticCodeView;

    open spec fn view(&self) -> DiagnosticCodeView {
        self.deep_view()
    }
}

impl DeepView for Location {
    type V = LocationView;

    open spec fn deep_view(&self) -> LocationView {
        LocationView { uri: self.uri.deep_view(), range: self.range }
    }
}

impl View for Location {
    type V = LocationView;

    open spec fn view(&self) -> LocationView {
        self.deep_view()
    }
}

impl DeepView for RelatedInformation {
    type V = RelatedInformationView;

    open spec fn deep_view(&self) -> RelatedInformationView {
        RelatedInformationView { location: self.location.deep_view(), message: self.message@ }
    }
}

impl View for RelatedInformation {
    type V = RelatedInformationView;

    open spec fn view(&self) -> RelatedInformationView {
        self.deep_view()
    }
}

impl DeepView for Diagnostic {
    type V = DiagnosticView;

    open spec fn deep_view(&self) -> DiagnosticView {
        DiagnosticView {
            range: self.range,
            severity: self.severity,
            code: self.code.deep_view(),
            message: self.message@,
            related_information: self.related_information.deep_view(),
        }
    }
}

impl View for Diagnostic {
    type V = DiagnosticView;

    open spec fn view(&self) -> DiagnosticView {
        self.deep_view()
    }
}

impl Range {
    /// Whether the range names a single position.
    pub open spec fn is_point(self) -> bool {
        self.start == self.end
    }
}

} // verus!
