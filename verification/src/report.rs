//! A diagnostics report: for each file URI the diagnostics of that file, kept
//! in the order of the URIs so that a report is always read in the same order.

use crate::diagnostic::{Diagnostic, DiagnosticView};
use vstd::prelude::*;
use vstd::string::StringSliceAdditionalSpecFns;
use vstd::utf8::{decode_utf8, encode_utf8, encode_utf8_decode_utf8};

verus! {

/// Whether `a` comes before `b` when the two are compared byte by byte: at the
/// first place where they differ `a` has the smaller byte, or `a` ends there
/// and `b` goes on.
pub open spec fn bytes_precede(a: Seq<u8>, b: Seq<u8>) -> bool
    decreases a.len(),
{
    if b.len() == 0 {
        false
    } else if a.len() == 0 {
        true
    } else if a[0] == b[0] {
        bytes_precede(a.skip(1), b.skip(1))
    } else {
        a[0] < b[0]
    }
}

/// Whether the key `a` comes before the key `b`: the order of their UTF-8 bytes.
pub open spec fn key_precedes(a: Seq<char>, b: Seq<char>) -> bool {
    bytes_precede(encode_utf8(a), encode_utf8(b))
}

/// No byte string comes before itself.
pub proof fn lemma_bytes_precede_irreflexive(a: Seq<u8>)
    ensures
        !bytes_precede(a, a),
    decreases a.len(),
{
    if a.len() > 0 {
        lemma_bytes_precede_irreflexive(a.skip(1));
    }
}

/// The order on byte strings is transitive.
pub proof fn lemma_bytes_precede_transitive(a: Seq<u8>, b: Seq<u8>, c: Seq<u8>)
    requires
        bytes_precede(a, b),
        bytes_precede(b, c),
    ensures
        bytes_precede(a, c),
    decreases a.len(),
{
    if a.len() > 0 && a[0] == b[0] && b[0] == c[0] {
        lemma_bytes_precede_transitive(a.skip(1), b.skip(1), c.skip(1));
    }
}

/// Of two different byte strings one comes before the other.
pub proof fn lemma_bytes_precede_total(a: Seq<u8>, b: Seq<u8>)
    ensures
        a == b || bytes_precede(a, b) || bytes_precede(b, a),
    decreases a.len(),
{
    if a.len() > 0 && b.len() > 0 && a[0] == b[0] {
        lemma_bytes_precede_total(a.skip(1), b.skip(1));
        if a.skip(1) == b.skip(1) {
            assert(a =~= seq![a[0]] + a.skip(1));
            assert(b =~= seq![b[0]] + b.skip(1));
        }
    } else if a.len() == 0 && b.len() == 0 {
        assert(a =~= b);
    }
}

/// The order on keys is a strict total order: no key precedes itself, the
/// order is transitive, and of two different keys one precedes the other.
pub proof fn lemma_key_order(a: Seq<char>, b: Seq<char>, c: Seq<char>)
    ensures
        !key_precedes(a, a),
        key_precedes(a, b) && key_precedes(b, c) ==> key_precedes(a, c),
        key_precedes(a, b) ==> !key_precedes(b, a),
        a == b || key_precedes(a, b) || key_precedes(b, a),
{
    lemma_bytes_precede_irreflexive(encode_utf8(a));
    if key_precedes(a, b) && key_precedes(b, c) {
        lemma_bytes_precede_transitive(encode_utf8(a), encode_utf8(b), encode_utf8(c));
    }
    if key_precedes(a, b) && key_precedes(b, a) {
        lemma_bytes_precede_transitive(encode_utf8(a), encode_utf8(b), encode_utf8(a));
    }
    lemma_bytes_precede_total(encode_utf8(a), encode_utf8(b));
    if encode_utf8(a) == encode_utf8(b) {
        encode_utf8_decode_utf8(a);
        encode_utf8_decode_utf8(b);
        assert(a == decode_utf8(encode_utf8(a)));
    }
}

/// How one key stands to another in the order of keys.
#[derive(Clone, Copy, Debug, PartialEq, Eq, Structural)]
pub enum KeyOrder {
    Before,
    Same,
    After,
}

/// Compares two keys by their UTF-8 bytes.
pub fn key_order(a: &str, b: &str) -> (order: KeyOrder)
    ensures
        order == KeyOrder::Before <==> key_precedes(a@, b@),
        order == KeyOrder::Same <==> a@ == b@,
        order == KeyOrder::After <==> key_precedes(b@, a@),
{
    let x = a.as_bytes();
    let y = b.as_bytes();
    proof {
        lemma_key_order(a@, b@, a@);
    }
    let mut i: usize = 0;
    assert(x@.skip(0) =~= x@ && y@.skip(0) =~= y@);
    while i < x.len() && i < y.len() && x[i] == y[i]
        invariant
            i <= x.len(),
            i <= y.len(),
            bytes_precede(x@, y@) == bytes_precede(x@.skip(i as int), y@.skip(i as int)),
            bytes_precede(y@, x@) == bytes_precede(y@.skip(i as int), x@.skip(i as int)),
        decreases x.len() - i,
    {
        assert(x@.skip(i as int).skip(1) =~= x@.skip(i + 1));
        assert(y@.skip(i as int).skip(1) =~= y@.skip(i + 1));
        i += 1;
    }
    if i < x.len() && i < y.len() {
        if x[i] < y[i] {
            KeyOrder::Before
        } else {
            KeyOrder::After
        }
    } else if i < y.len() {
        KeyOrder::Before
    } else if i < x.len() {
        KeyOrder::After
    } else {
        KeyOrder::Same
    }
}

/// The diagnostics of one file.
#[derive(Clone, Debug, PartialEq, Eq)]
pub struct ReportEntry {
    pub uri: String,
    pub diagnostics: Vec<Diagnostic>,
}

/// An entry, with the text of each string it carries.
pub struct ReportEntryView {
    pub uri: Seq<char>,
    pub diagnostics: Seq<DiagnosticView>,
}

impl DeepView for ReportEntry {
    type V = ReportEntryView;

    open spec fn deep_view(&self) -> ReportEntryView {
        ReportEntryView { uri: self.uri@, diagnostics: self.diagnostics.deep_view() }
    }
}

impl View for ReportEntry {
    type V = ReportEntryView;

    open spec fn view(&self) -> ReportEntryView {
        self.deep_view()
    }
}

/// Whether the keys of the entries ascend strictly. Such a list holds no key twice.
pub open spec fn ascending(entries: Seq<ReportEntryView>) -> bool {
    forall|i: int, j: int|
        0 <= i < j < entries.len() ==> key_precedes(
            (#[trigger] entries[i]).uri,
            (#[trigger] entries[j]).uri,
        )
}

/// The entries with one more: where the list holds the new entry's key, the
/// new entry stands in place of the old one; else it stands where the order
/// of the keys puts it.
pub open spec fn inserted(entries: Seq<ReportEntryView>, entry: ReportEntryView) -> Seq<
    ReportEntryView,
>
    decreases entries.len(),
{
    if entries.len() == 0 {
        seq![entry]
    } else if key_precedes(entries.last().uri, entry.uri) {
        entries.push(entry)
    } else if entries.last().uri == entry.uri {
        entries.drop_last().push(entry)
    } else {
        inserted(entries.drop_last(), entry).push(entries.last())
    }
}

/// The diagnostics that the entries hold for a key, if they hold the key.
pub open spec fn lookup(entries: Seq<ReportEntryView>, uri: Seq<char>) -> Option<
    Seq<DiagnosticView>,
>
    decreases entries.len(),
{
    if entries.len() == 0 {
        None
    } else if entries.last().uri == uri {
        Some(entries.last().diagnostics)
    } else {
        lookup(entries.drop_last(), uri)
    }
}

/// Inserting into an ascending list gives an ascending list. It holds the new
/// entry under its key and, under every other key, what the list held before.
pub proof fn lemma_inserted(entries: Seq<ReportEntryView>, entry: ReportEntryView, other: Seq<char>)
    requires
        ascending(entries),
    ensures
        ascending(inserted(entries, entry)),
        lookup(inserted(entries, entry), entry.uri) == Some(entry.diagnostics),
        other != entry.uri ==> lookup(inserted(entries, entry), other) == lookup(entries, other),
        inserted(entries, entry).len() == if lookup(entries, entry.uri) is Some {
            entries.len()
        } else {
            entries.len() + 1
        },
    decreases entries.len(),
{
    let result = inserted(entries, entry);
    if entries.len() == 0 {
        assert(result.drop_last() =~= entries);
    } else {
        let last = entries.last();
        let rest = entries.drop_last();
        assert(ascending(rest));
        if key_precedes(last.uri, entry.uri) {
            assert(result.drop_last() =~= entries);
            assert forall|i: int, j: int| 0 <= i < j < result.len() implies key_precedes(
                (#[trigger] result[i]).uri,
                (#[trigger] result[j]).uri,
            ) by {
                if j == result.len() - 1 && i < entries.len() - 1 {
                    assert(key_precedes(entries[i].uri, entries[entries.len() - 1].uri));
                    lemma_key_order(entries[i].uri, last.uri, entry.uri);
                }
            }
            lemma_key_order(last.uri, entry.uri, entry.uri);
            lemma_lookup_misses_later_key(entries, entry.uri);
        } else if last.uri == entry.uri {
            assert(result.drop_last() =~= rest);
            assert forall|i: int, j: int| 0 <= i < j < result.len() implies key_precedes(
                (#[trigger] result[i]).uri,
                (#[trigger] result[j]).uri,
            ) by {
                if j == result.len() - 1 {
                    assert(key_precedes(entries[i].uri, entries[entries.len() - 1].uri));
                } else {
                    assert(key_precedes(entries[i].uri, entries[j].uri));
                }
            }
        } else {
            lemma_inserted(rest, entry, other);
            lemma_inserted(rest, entry, last.uri);
            let inner = inserted(rest, entry);
            assert(result.drop_last() =~= inner);
            lemma_key_order(last.uri, entry.uri, entry.uri);
            assert(key_precedes(entry.uri, last.uri));
            lemma_inserted_keys(rest, entry);
            assert forall|i: int, j: int| 0 <= i < j < result.len() implies key_precedes(
                (#[trigger] result[i]).uri,
                (#[trigger] result[j]).uri,
            ) by {
                if j == result.len() - 1 {
                    assert(result[i] == inner[i]);
                    if inner[i].uri != entry.uri {
                        let k = choose|k: int| 0 <= k < rest.len() && rest[k].uri == inner[i].uri;
                        assert(key_precedes(entries[k].uri, entries[entries.len() - 1].uri));
                    }
                } else {
                    assert(key_precedes(inner[i].uri, inner[j].uri));
                }
            }
        }
    }
}

/// Every key of the list with one more entry is the new key or a key of the list.
proof fn lemma_inserted_keys(entries: Seq<ReportEntryView>, entry: ReportEntryView)
    ensures
        forall|i: int|
            0 <= i < inserted(entries, entry).len() ==> (#[trigger] inserted(
                entries,
                entry,
            )[i]).uri == entry.uri || exists|k: int|
                0 <= k < entries.len() && entries[k].uri == inserted(entries, entry)[i].uri,
    decreases entries.len(),
{
    let result = inserted(entries, entry);
    if entries.len() > 0 {
        let last = entries.last();
        let rest = entries.drop_last();
        if key_precedes(last.uri, entry.uri) {
            assert forall|i: int| 0 <= i < result.len() implies (#[trigger] result[i]).uri
                == entry.uri || exists|k: int|
                0 <= k < entries.len() && entries[k].uri == result[i].uri by {
                if i < entries.len() {
                    assert(entries[i].uri == result[i].uri);
                }
            }
        } else if last.uri == entry.uri {
            assert forall|i: int| 0 <= i < result.len() implies (#[trigger] result[i]).uri
                == entry.uri || exists|k: int|
                0 <= k < entries.len() && entries[k].uri == result[i].uri by {
                if i < entries.len() - 1 {
                    assert(entries[i].uri == result[i].uri);
                }
            }
        } else {
            lemma_inserted_keys(rest, entry);
            let inner = inserted(rest, entry);
            assert forall|i: int| 0 <= i < result.len() implies (#[trigger] result[i]).uri
                == entry.uri || exists|k: int|
                0 <= k < entries.len() && entries[k].uri == result[i].uri by {
                if i < inner.len() {
                    assert(result[i] == inner[i]);
                    if inner[i].uri != entry.uri {
                        let k = choose|k: int| 0 <= k < rest.len() && rest[k].uri == inner[i].uri;
                        assert(entries[k].uri == result[i].uri);
                    }
                } else {
                    assert(entries[entries.len() - 1].uri == result[i].uri);
                }
            }
        }
    }
}

/// A key that comes after the last key of an ascending list is not in the list.
proof fn lemma_lookup_misses_later_key(entries: Seq<ReportEntryView>, uri: Seq<char>)
    requires
        ascending(entries),
        entries.len() > 0 ==> key_precedes(entries.last().uri, uri),
    ensures
        lookup(entries, uri) is None,
    decreases entries.len(),
{
    if entries.len() > 0 {
        let rest = entries.drop_last();
        lemma_key_order(entries.last().uri, uri, uri);
        if rest.len() > 0 {
            assert(key_precedes(entries[rest.len() - 1].uri, entries[entries.len() - 1].uri));
            lemma_key_order(rest.last().uri, entries.last().uri, uri);
        }
        assert(ascending(rest));
        lemma_lookup_misses_later_key(rest, uri);
    }
}

/// A diagnostics report. Its entries stand in the strictly ascending order of
/// their URIs, however they were put in.
pub struct DiagnosticsReport {
    entries: Vec<ReportEntry>,
}

impl View for DiagnosticsReport {
    type V = Seq<ReportEntryView>;

    closed spec fn view(&self) -> Seq<ReportEntryView> {
        self.entries.deep_view()
    }
}

impl DiagnosticsReport {
    #[verifier::type_invariant]
    spec fn well_formed(self) -> bool {
        ascending(self.entries.deep_view())
    }

    /// A report without entries.
    pub fn new() -> (report: DiagnosticsReport)
        ensures
            report@ == Seq::<ReportEntryView>::empty(),
    {
        let report = DiagnosticsReport { entries: Vec::new() };
        assert(report.entries.deep_view() =~= Seq::<ReportEntryView>::empty());
        report
    }

    /// The entries in the order in which a report is read: ascending by URI.
    pub fn entries(&self) -> (entries: &Vec<ReportEntry>)
        ensures
            entries.deep_view() == self@,
            ascending(entries.deep_view()),
    {
        proof {
            use_type_invariant(self);
        }
        &self.entries
    }

    /// Puts the diagnostics of a file into the report. Where the report holds
    /// diagnostics for the URI already, the new ones replace them.
    pub fn insert(&mut self, uri: String, diagnostics: Vec<Diagnostic>)
        ensures
            final(self)@ == inserted(
                old(self)@,
                ReportEntryView { uri: uri@, diagnostics: diagnostics.deep_view() },
            ),
            ascending(final(self)@),
    {
        proof {
            use_type_invariant(&*self);
        }
        let ghost before = self.entries.deep_view();
        let entry = ReportEntry { uri, diagnostics };
        let ghost view = entry.deep_view();
        proof {
            lemma_inserted(before, view, view.uri);
        }
        let mut entries: Vec<ReportEntry> = Vec::new();
        assert(entries.deep_view() =~= Seq::<ReportEntryView>::empty());
        std::mem::swap(&mut self.entries, &mut entries);
        let mut at: usize = entries.len();
        let mut placed = false;
        let mut replace = false;
        assert(before.take(at as int) =~= before);
        assert(inserted(before, view) =~= inserted(before, view) + before.skip(at as int));
        while at > 0 && !placed
            invariant
                at <= entries.len(),
                entries.deep_view() == before,
                view == entry.deep_view(),
                replace ==> placed,
                !placed ==> inserted(before, view) == inserted(before.take(at as int), view)
                    + before.skip(at as int),
                placed && !replace ==> inserted(before, view) == before.take(at as int).push(view)
                    + before.skip(at as int),
                replace ==> at < before.len() && inserted(before, view) == before.take(
                    at as int,
                ).push(view) + before.skip(at + 1),
            decreases at + if placed { 0int } else { 1int },
        {
            let ghost prefix = before.take(at as int);
            assert(prefix.last() == before[at - 1]);
            assert(prefix.drop_last() =~= before.take(at - 1));
            assert(before[at - 1] == entries[at - 1].deep_view());
            match key_order(entries[at - 1].uri.as_str(), entry.uri.as_str()) {
                KeyOrder::Before => {
                    placed = true;
                },
                KeyOrder::Same => {
                    assert(before.skip(at as int) =~= before.skip(at - 1 + 1));
                    at -= 1;
                    placed = true;
                    replace = true;
                },
                KeyOrder::After => {
                    proof {
                        lemma_key_order(before[at - 1].uri, view.uri, view.uri);
                    }
                    assert(inserted(before, view) =~= inserted(before.take(at - 1), view)
                        + before.skip(at - 1));
                    at -= 1;
                },
            }
        }
        if replace {
            entries.set(at, entry);
            assert(entries.deep_view() =~= before.take(at as int).push(view) + before.skip(
                at + 1,
            ));
        } else {
            entries.insert(at, entry);
            assert(entries.deep_view() =~= before.take(at as int).push(view) + before.skip(
                at as int,
            ));
        }
        assert(entries.deep_view() == inserted(before, view));
        assert(ascending(entries.deep_view()));
        std::mem::swap(&mut self.entries, &mut entries);
    }
}

} // verus!
