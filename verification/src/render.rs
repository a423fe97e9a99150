//! The text of one diagnostic: a header with path, range and code, the
//! wrapped message under it, and a line for each related location.

use crate::diagnostic::{
    Diagnostic, DiagnosticCode, DiagnosticCodeView, DiagnosticView, Location, LocationView,
    Position, Range, RelatedInformation, RelatedInformationView,
};
use crate::severity::{lemma_label_names_one_level, lemma_rank_round_trip};
use crate::severity::{Severity, ThresholdConfig};
use crate::style::{styled, styled_text, Style};
use crate::text::{decimal, decimal_text, signed_decimal, signed_decimal_text};
use crate::text::{is_digit, lemma_decimal_text_is_digits, lemma_decimal_text_names_one_number};
use vstd::prelude::*;

verus! {

/// The number of columns by which the message is indented under its header.
pub const INDENT_WIDTH: usize = 4;

/// The indent of the message lines.
pub open spec fn indent_text() -> Seq<char> {
    "    "@
}

/// How to lay out a diagnostic: the width to wrap the message to, and whether
/// to style the severity label and the code.
#[derive(Clone, Copy, Debug, PartialEq, Eq, Structural)]
pub struct Layout {
    pub width: usize,
    pub color: bool,
}

impl Layout {
    /// The layout for a terminal of so many columns: the message is wrapped to
    /// the columns less the indent. `None` for a terminal narrower than the indent.
    pub fn for_terminal(columns: usize, color: bool) -> (layout: Option<Layout>)
        ensures
            columns >= INDENT_WIDTH ==> layout == Some(
                Layout { width: (columns - INDENT_WIDTH) as usize, color },
            ),
            columns < INDENT_WIDTH ==> layout is None,
    {
        if columns >= INDENT_WIDTH {
            Some(Layout { width: columns - INDENT_WIDTH, color })
        } else {
            None
        }
    }
}

/// The text wrapped to lines of at most `width` columns, each line after `indent`.
pub uninterp spec fn filled_text(text: Seq<char>, width: nat, indent: Seq<char>) -> Seq<char>;

/// `fill` of the textwrap crate, with `Options::new(width)` and `indent` as
/// the indent of the first and of every later line. The contract names the
/// outcome as a function of the three arguments and states nothing else of it.
#[verifier::external_body]
fn fill(text: &str, width: usize, indent: &str) -> (out: String)
    ensures
        out@ == filled_text(text@, width as nat, indent@),
{
    textwrap::fill(
        text,
        textwrap::Options::new(width).initial_indent(indent).subsequent_indent(indent),
    )
}

/// A position as `line:character`.
pub open spec fn position_text(position: Position) -> Seq<char> {
    decimal_text(position.line as nat) + ":"@ + decimal_text(position.character as nat)
}

/// A range as `start-end`, or as the one position where it names a point.
pub open spec fn range_text(range: Range) -> Seq<char> {
    if range.is_point() {
        position_text(range.start)
    } else {
        position_text(range.start) + "-"@ + position_text(range.end)
    }
}

/// The label of a severity number, styled where `color` is set. A number that
/// stands for no level has an empty label.
pub open spec fn severity_label_text(severity: i32, color: bool) -> Seq<char> {
    match Severity::of_rank(severity as int) {
        Some(level) => styled_text(Style::of_severity(level), level.label_text(), color),
        None => Seq::empty(),
    }
}

/// A code as it is written: a number in decimal, a name as it is.
pub open spec fn code_text(code: DiagnosticCodeView) -> Seq<char> {
    match code {
        DiagnosticCodeView::Number(number) => signed_decimal_text(number),
        DiagnosticCodeView::Text(name) => name,
    }
}

/// The header line: `path:range`, then the code in square brackets where there is one.
pub open spec fn header_text(path: Seq<char>, diagnostic: DiagnosticView, color: bool) -> Seq<
    char,
> {
    let place = path + ":"@ + range_text(diagnostic.range);
    match diagnostic.code {
        Some(code) => place + " ["@ + styled_text(Style::Bold, code_text(code), color) + "]\n"@,
        None => place + "\n"@,
    }
}

/// The message before it is wrapped: the severity label, a colon, the message.
pub open spec fn labelled_message_text(diagnostic: DiagnosticView, color: bool) -> Seq<char> {
    let label = match diagnostic.severity {
        Some(severity) => severity_label_text(severity, color),
        None => Seq::empty(),
    };
    label + ": "@ + diagnostic.message
}

/// A related location as `path:range`, the path relative to the project root.
/// Where the URI has no path to show, the URI stands in its place.
pub open spec fn location_text(location: LocationView, root: Seq<char>) -> Seq<char> {
    let place = match location.uri.relative_path(root) {
        Ok(path) => path,
        Err(_) => location.uri.text,
    };
    place + ":"@ + range_text(location.range)
}

/// Whether related information only restates its diagnostic: it has the
/// diagnostic's range, and no message or the diagnostic's message.
pub open spec fn is_redundant(
    information: RelatedInformationView,
    diagnostic: DiagnosticView,
) -> bool {
    information.location.range == diagnostic.range && (information.message.len() == 0
        || information.message == diagnostic.message)
}

/// What one piece of related information adds to the text: nothing where it
/// is redundant, else a line of its own: a bullet, the location and, where
/// there is a message, a colon and the message.
pub open spec fn related_text(
    information: RelatedInformationView,
    diagnostic: DiagnosticView,
    root: Seq<char>,
) -> Seq<char> {
    if is_redundant(information, diagnostic) {
        Seq::empty()
    } else if information.message.len() == 0 {
        "    \u{2022} "@ + location_text(information.location, root) + "\n"@
    } else {
        "    \u{2022} "@ + location_text(information.location, root) + ": "@ + information.message
            + "\n"@
    }
}

/// What a list of related information adds to the text, in the list's order.
pub open spec fn related_list_text(
    list: Seq<RelatedInformationView>,
    diagnostic: DiagnosticView,
    root: Seq<char>,
) -> Seq<char>
    decreases list.len(),
{
    if list.len() == 0 {
        Seq::empty()
    } else {
        related_list_text(list.drop_last(), diagnostic, root) + related_text(
            list.last(),
            diagnostic,
            root,
        )
    }
}

/// The text of a diagnostic around its wrapped message: the header line, the
/// wrapped message and a line break, then the lines of the related information.
pub open spec fn diagnostic_text_around(
    path: Seq<char>,
    diagnostic: DiagnosticView,
    root: Seq<char>,
    color: bool,
    wrapped: Seq<char>,
) -> Seq<char> {
    let head = header_text(path, diagnostic, color) + wrapped + "\n"@;
    match diagnostic.related_information {
        Some(list) => head + related_list_text(list, diagnostic, root),
        None => head,
    }
}

/// The whole text of a diagnostic in the file shown as `path`, in a project
/// at `root`: the text around the labelled message, wrapped to the layout's
/// width behind the indent.
pub open spec fn diagnostic_text(
    path: Seq<char>,
    diagnostic: DiagnosticView,
    root: Seq<char>,
    layout: Layout,
) -> Seq<char> {
    diagnostic_text_around(
        path,
        diagnostic,
        root,
        layout.color,
        filled_text(
            labelled_message_text(diagnostic, layout.color),
            layout.width as nat,
            indent_text(),
        ),
    )
}

/// A position's text holds digits and one colon, so no dash.
pub proof fn lemma_position_text_has_no_dash(position: Position)
    ensures
        !position_text(position).contains('-'),
{
    reveal_strlit(":");
    lemma_decimal_text_is_digits(position.line as nat);
    lemma_decimal_text_is_digits(position.character as nat);
    let line = decimal_text(position.line as nat);
    let character = decimal_text(position.character as nat);
    let text = position_text(position);
    assert forall|i: int| 0 <= i < text.len() implies text[i] != '-' by {
        if i < line.len() {
            assert(is_digit(line[i]));
        } else if i == line.len() {
            assert(text[i] == ':');
        } else {
            assert(text[i] == character[i - line.len() - 1]);
            assert(is_digit(character[i - line.len() - 1]));
        }
    }
}

/// A range that names a point is written as that one position, with no dash
/// in it. Any other range is written with a dash between its two positions.
pub proof fn lemma_point_range_is_one_position(range: Range)
    ensures
        range.start == range.end ==> range_text(range) == position_text(range.start)
            && !range_text(range).contains('-'),
        range.start != range.end ==> range_text(range).contains('-'),
{
    lemma_position_text_has_no_dash(range.start);
    if range.start != range.end {
        reveal_strlit("-");
        let start = position_text(range.start);
        assert(range_text(range)[start.len() as int] == '-');
    }
}

/// Two texts that each begin with a stretch free of a mark, followed by the
/// mark, are equal only where the stretches are equal and what follows the
/// mark is equal.
proof fn lemma_split_at_first_mark(
    a: Seq<char>,
    x: Seq<char>,
    b: Seq<char>,
    y: Seq<char>,
    mark: char,
)
    requires
        !a.contains(mark),
        !b.contains(mark),
        a + seq![mark] + x == b + seq![mark] + y,
    ensures
        a == b,
        x == y,
{
    let left = a + seq![mark] + x;
    let right = b + seq![mark] + y;
    if a.len() < b.len() {
        assert(left[a.len() as int] == mark);
        assert(right[a.len() as int] == b[a.len() as int]);
        assert(b.contains(mark));
    } else if b.len() < a.len() {
        assert(right[b.len() as int] == mark);
        assert(left[b.len() as int] == a[b.len() as int]);
        assert(a.contains(mark));
    }
    assert(a =~= left.take(a.len() as int));
    assert(b =~= right.take(b.len() as int));
    assert(x =~= left.skip(a.len() as int + 1));
    assert(y =~= right.skip(b.len() as int + 1));
}

/// Two positions with the same text are the same position.
pub proof fn lemma_position_text_names_one_position(p: Position, q: Position)
    requires
        position_text(p) == position_text(q),
    ensures
        p == q,
{
    reveal_strlit(":");
    assert(":"@ =~= seq![':']);
    lemma_decimal_text_is_digits(p.line as nat);
    lemma_decimal_text_is_digits(q.line as nat);
    let a = decimal_text(p.line as nat);
    let b = decimal_text(q.line as nat);
    assert(!a.contains(':')) by {
        if a.contains(':') {
            let i = choose|i: int| 0 <= i < a.len() && a[i] == ':';
            assert(is_digit(a[i]));
        }
    }
    assert(!b.contains(':')) by {
        if b.contains(':') {
            let i = choose|i: int| 0 <= i < b.len() && b[i] == ':';
            assert(is_digit(b[i]));
        }
    }
    lemma_split_at_first_mark(
        a,
        decimal_text(p.character as nat),
        b,
        decimal_text(q.character as nat),
        ':',
    );
    lemma_decimal_text_names_one_number(p.line as nat, q.line as nat);
    lemma_decimal_text_names_one_number(p.character as nat, q.character as nat);
}

/// Two ranges with the same text are the same range: the text that a range
/// is written as gives the range back.
pub proof fn lemma_range_text_names_one_range(r: Range, s: Range)
    requires
        range_text(r) == range_text(s),
    ensures
        r == s,
{
    reveal_strlit("-");
    assert("-"@ =~= seq!['-']);
    lemma_point_range_is_one_position(r);
    lemma_point_range_is_one_position(s);
    if r.start == r.end && s.start == s.end {
        lemma_position_text_names_one_position(r.start, s.start);
    } else if r.start != r.end && s.start != s.end {
        lemma_position_text_has_no_dash(r.start);
        lemma_position_text_has_no_dash(s.start);
        lemma_split_at_first_mark(
            position_text(r.start),
            position_text(r.end),
            position_text(s.start),
            position_text(s.end),
            '-',
        );
        lemma_position_text_names_one_position(r.start, s.start);
        lemma_position_text_names_one_position(r.end, s.end);
    }
}

/// Related information with the range and the message of its diagnostic adds
/// nothing to the text, and neither does one with that range and no message.
pub proof fn lemma_restated_information_is_omitted(
    information: RelatedInformationView,
    diagnostic: DiagnosticView,
    root: Seq<char>,
)
    requires
        information.location.range == diagnostic.range,
        information.message == diagnostic.message || information.message.len() == 0,
    ensures
        related_text(information, diagnostic, root) == Seq::<char>::empty(),
{
}

/// A list of related information in which every piece is redundant adds
/// nothing to the text: the diagnostic reads as one without related information.
pub proof fn lemma_redundant_list_is_omitted(
    path: Seq<char>,
    diagnostic: DiagnosticView,
    root: Seq<char>,
    layout: Layout,
)
    requires
        diagnostic.related_information matches Some(list) && forall|i: int|
            0 <= i < list.len() ==> is_redundant(#[trigger] list[i], diagnostic),
    ensures
        diagnostic_text(path, diagnostic, root, layout) == diagnostic_text(
            path,
            DiagnosticView { related_information: None, ..diagnostic },
            root,
            layout,
        ),
{
    let list = diagnostic.related_information->0;
    let bare = DiagnosticView { related_information: None, ..diagnostic };
    lemma_redundant_prefix_is_empty(list, diagnostic, root);
    assert(header_text(path, diagnostic, layout.color) == header_text(path, bare, layout.color));
    assert(labelled_message_text(diagnostic, layout.color) == labelled_message_text(
        bare,
        layout.color,
    ));
    assert(diagnostic_text(path, diagnostic, root, layout) =~= diagnostic_text(
        path,
        bare,
        root,
        layout,
    ));
}

proof fn lemma_redundant_prefix_is_empty(
    list: Seq<RelatedInformationView>,
    diagnostic: DiagnosticView,
    root: Seq<char>,
)
    requires
        forall|i: int| 0 <= i < list.len() ==> is_redundant(#[trigger] list[i], diagnostic),
    ensures
        related_list_text(list, diagnostic, root) == Seq::<char>::empty(),
    decreases list.len(),
{
    if list.len() > 0 {
        lemma_redundant_prefix_is_empty(list.drop_last(), diagnostic, root);
        assert(is_redundant(list[list.len() - 1], diagnostic));
        assert(related_list_text(list, diagnostic, root) =~= Seq::<char>::empty());
    }
}

/// The label that a diagnostic is written with names its severity level, and
/// so settles what the diagnostic adds to the count of failures: two known
/// levels with the same label, styled or not, are one level, shown alike and
/// counted alike under any thresholds.
pub proof fn lemma_label_settles_the_count(
    a: i32,
    b: i32,
    color: bool,
    thresholds: ThresholdConfig,
)
    requires
        Severity::of_rank(a as int) is Some,
        Severity::of_rank(b as int) is Some,
        severity_label_text(a, color) == severity_label_text(b, color),
    ensures
        a == b,
        thresholds.shows_spec(Some(a)) == thresholds.shows_spec(Some(b)),
        thresholds.counts_spec(Some(a)) == thresholds.counts_spec(Some(b)),
{
    let x = Severity::of_rank(a as int)->0;
    let y = Severity::of_rank(b as int)->0;
    lemma_rank_round_trip(x, a as int);
    lemma_rank_round_trip(y, b as int);
    if color {
        let p = severity_label_text(a, color);
        let q = severity_label_text(b, color);
        assert(p[3] == Style::of_severity(x).prefix()[3]);
        assert(q[3] == Style::of_severity(y).prefix()[3]);
        assert(Style::of_severity(x) == Style::of_severity(y));
    } else {
        lemma_label_names_one_level(x, y);
    }
    assert(x == y);
}

/// Writes a position as `line:character`.
pub fn render_position(position: Position) -> (text: String)
    ensures
        text@ == position_text(position),
{
    let mut text = decimal(position.line as u128);
    text.append(":");
    text.append(decimal(position.character as u128).as_str());
    text
}

/// Writes a range as `start-end`, or as the one position where it names a point.
pub fn render_range(range: Range) -> (text: String)
    ensures
        text@ == range_text(range),
{
    if range.start == range.end {
        render_position(range.start)
    } else {
        let mut text = render_position(range.start);
        text.append("-");
        text.append(render_position(range.end).as_str());
        text
    }
}

/// Writes the label of a severity number, styled where `color` is set.
pub fn severity_label(severity: i32, color: bool) -> (label: String)
    ensures
        label@ == severity_label_text(severity, color),
{
    match Severity::from_code(severity) {
        Some(level) => styled(Style::for_severity(level), level.label(), color),
        None => String::new(),
    }
}

/// Writes a related location as `path:range`.
pub fn render_location(location: &Location, root: &str) -> (text: String)
    ensures
        text@ == location_text(location@, root@),
{
    let mut text = match location.uri.to_relative_path(root) {
        Ok(path) => path,
        Err(_) => location.uri.text.clone(),
    };
    text.append(":");
    text.append(render_range(location.range).as_str());
    text
}

/// Writes the header line of a diagnostic: `path:range`, the code in square
/// brackets where there is one, and a line break.
pub fn render_header(path: &str, diagnostic: &Diagnostic, color: bool) -> (text: String)
    ensures
        text@ == header_text(path@, diagnostic@, color),
{
    let mut text = String::from_str(path);
    text.append(":");
    text.append(render_range(diagnostic.range).as_str());
    match &diagnostic.code {
        Some(code) => {
            let plain = match code {
                DiagnosticCode::Number(number) => signed_decimal(*number),
                DiagnosticCode::Text(name) => name.clone(),
            };
            assert(plain@ == code_text(code@));
            text.append(" [");
            text.append(styled(Style::Bold, plain.as_str(), color).as_str());
            text.append("]\n");
        },
        None => {
            text.append("\n");
        },
    }
    text
}

/// Writes the message as it goes into wrapping: the severity label, a colon
/// and the message.
pub fn render_labelled_message(diagnostic: &Diagnostic, color: bool) -> (text: String)
    ensures
        text@ == labelled_message_text(diagnostic@, color),
{
    let mut text = match diagnostic.severity {
        Some(severity) => severity_label(severity, color),
        None => String::new(),
    };
    text.append(": ");
    text.append(diagnostic.message.as_str());
    text
}

/// Whether related information only restates its diagnostic.
pub fn restates(information: &RelatedInformation, diagnostic: &Diagnostic) -> (redundant: bool)
    ensures
        redundant == is_redundant(information@, diagnostic@),
{
    information.location.range == diagnostic.range && (information.message.as_str().is_empty()
        || information.message == diagnostic.message)
}

/// Writes the line of one piece of related information, or nothing where it
/// restates the diagnostic.
pub fn render_related(
    information: &RelatedInformation,
    diagnostic: &Diagnostic,
    root: &str,
) -> (text: String)
    ensures
        text@ == related_text(information@, diagnostic@, root@),
{
    if restates(information, diagnostic) {
        String::new()
    } else {
        let mut text = String::from_str("    \u{2022} ");
        text.append(render_location(&information.location, root).as_str());
        if !information.message.as_str().is_empty() {
            text.append(": ");
            text.append(information.message.as_str());
        }
        text.append("\n");
        text
    }
}

/// Puts a diagnostic together around its wrapped message: the header line,
/// the wrapped message and a line break, and a line for each piece of related
/// information that does not restate the diagnostic.
pub fn assemble_diagnostic(
    path: &str,
    diagnostic: &Diagnostic,
    root: &str,
    color: bool,
    wrapped: &str,
) -> (text: String)
    ensures
        text@ == diagnostic_text_around(path@, diagnostic@, root@, color, wrapped@),
{
    let mut text = render_header(path, diagnostic, color);
    text.append(wrapped);
    text.append("\n");
    let ghost head = text@;
    match &diagnostic.related_information {
        Some(list) => {
            let mut i: usize = 0;
            while i < list.len()
                invariant
                    i <= list.len(),
                    text@ == head + related_list_text(
                        list.deep_view().take(i as int),
                        diagnostic@,
                        root@,
                    ),
                decreases list.len() - i,
            {
                let piece = render_related(&list[i], diagnostic, root);
                proof {
                    let views = list.deep_view();
                    let next = views.take(i + 1);
                    assert(next.drop_last() =~= views.take(i as int));
                    assert(next.last() == list[i as int]@);
                }
                text.append(piece.as_str());
                i += 1;
            }
            assert(list.deep_view().take(i as int) =~= list.deep_view());
        },
        None => {},
    }
    text
}

/// Writes a diagnostic in the file shown as `path`, for a project at `root`:
/// the header line, the wrapped and indented message line, and a line for each
/// piece of related information that does not restate the diagnostic.
pub fn render_diagnostic(path: &str, diagnostic: &Diagnostic, root: &str, layout: &Layout) -> (text:
    String)
    ensures
        text@ == diagnostic_text(path@, diagnostic@, root@, *layout),
{
    let message = render_labelled_message(diagnostic, layout.color);
    let wrapped = fill(message.as_str(), layout.width, "    ");
    assemble_diagnostic(path, diagnostic, root, layout.color, wrapped.as_str())
}

} // verus!
