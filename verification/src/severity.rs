//! The four severity levels, the order between them, and the two thresholds
//! that decide which diagnostics are shown and which count as failures.

use std::cmp::Ordering;
use vstd::prelude::*;

verus! {

/// How serious a diagnostic is. `Error` is the strongest level, `Hint` the weakest.
#[derive(Clone, Copy, Debug, PartialEq, Eq, Structural)]
pub enum Severity {
    Error,
    Warning,
    Information,
    Hint,
}

impl Severity {
    /// The number that stands for this level in a report: 1 for `Error` up to
    /// 4 for `Hint`. A smaller rank is a stronger level.
    pub open spec fn rank(self) -> int {
        match self {
            Severity::Error => 1,
            Severity::Warning => 2,
            Severity::Information => 3,
            Severity::Hint => 4,
        }
    }

    /// `self` comes strictly before `other` in the order
    /// `Error < Warning < Information < Hint`, that is, `self` is the stronger level.
    pub open spec fn precedes(self, other: Severity) -> bool {
        self.rank() < other.rank()
    }

    /// The later of two levels in the order, that is, the weaker one.
    pub open spec fn later(self, other: Severity) -> Severity {
        if other.rank() > self.rank() {
            other
        } else {
            self
        }
    }

    /// The level that a report's number stands for, if it stands for one.
    pub open spec fn of_rank(code: int) -> Option<Severity> {
        if code == 1 {
            Some(Severity::Error)
        } else if code == 2 {
            Some(Severity::Warning)
        } else if code == 3 {
            Some(Severity::Information)
        } else if code == 4 {
            Some(Severity::Hint)
        } else {
            None
        }
    }

    /// The word that names this level in output and on the command line.
    pub open spec fn label_text(self) -> Seq<char> {
        match self {
            Severity::Error => "error"@,
            Severity::Warning => "warning"@,
            Severity::Information => "info"@,
            Severity::Hint => "hint"@,
        }
    }

    /// All levels, strongest first.
    pub fn variants() -> (all: [Severity; 4])
        ensures
            all@ == seq![
                Severity::Error,
                Severity::Warning,
                Severity::Information,
                Severity::Hint,
            ],
    {
        [Severity::Error, Severity::Warning, Severity::Information, Severity::Hint]
    }

    /// The number that stands for this level in a report.
    pub fn code(self) -> (code: i32)
        ensures
            code == self.rank(),
    {
        match self {
            Severity::Error => 1,
            Severity::Warning => 2,
            Severity::Information => 3,
            Severity::Hint => 4,
        }
    }

    /// The level that a report's number stands for; `None` for a number outside 1 to 4.
    pub fn from_code(code: i32) -> (level: Option<Severity>)
        ensures
            level == Severity::of_rank(code as int),
    {
        if code == 1 {
            Some(Severity::Error)
        } else if code == 2 {
            Some(Severity::Warning)
        } else if code == 3 {
            Some(Severity::Information)
        } else if code == 4 {
            Some(Severity::Hint)
        } else {
            None
        }
    }

    /// The word that names this level: `error`, `warning`, `info` or `hint`.
    pub fn label(self) -> (word: &'static str)
        ensures
            word@ == self.label_text(),
    {
        match self {
            Severity::Error => "error",
            Severity::Warning => "warning",
            Severity::Information => "info",
            Severity::Hint => "hint",
        }
    }

    /// Compares two levels in the order `Error < Warning < Information < Hint`.
    pub fn compare(self, other: Severity) -> (order: Ordering)
        ensures
            order == Ordering::Less <==> self.precedes(other),
            order == Ordering::Equal <==> self == other,
            order == Ordering::Greater <==> other.precedes(self),
    {
        let a: i32 = self.code();
        let b: i32 = other.code();
        if a < b {
            Ordering::Less
        } else if a == b {
            Ordering::Equal
        } else {
            Ordering::Greater
        }
    }

    /// The later of two levels in the order: the weaker one.
    pub fn max(self, other: Severity) -> (level: Severity)
        ensures
            level == self.later(other),
            !level.precedes(self),
            !level.precedes(other),
            level == self || level == other,
    {
        if other.code() > self.code() {
            other
        } else {
            self
        }
    }
}

/// `precedes` is a strict total order on the levels, and it puts them in the
/// order `Error < Warning < Information < Hint`: no level precedes itself, two
/// different levels are ordered one way and not the other, and the order is
/// transitive.
pub proof fn lemma_severity_strict_total_order(a: Severity, b: Severity, c: Severity)
    ensures
        !a.precedes(a),
        a.precedes(b) ==> !b.precedes(a),
        a.precedes(b) && b.precedes(c) ==> a.precedes(c),
        a == b || a.precedes(b) || b.precedes(a),
        Severity::Error.precedes(Severity::Warning),
        Severity::Warning.precedes(Severity::Information),
        Severity::Information.precedes(Severity::Hint),
{
}

/// A level is found again from its number, and only the numbers 1 to 4 stand for a level.
pub proof fn lemma_rank_round_trip(level: Severity, code: int)
    ensures
        Severity::of_rank(level.rank()) == Some(level),
        Severity::of_rank(code) is Some <==> 1 <= code <= 4,
        Severity::of_rank(code) matches Some(l) ==> l.rank() == code,
{
}

/// Two levels with the same label are the same level.
pub proof fn lemma_label_names_one_level(a: Severity, b: Severity)
    requires
        a.label_text() == b.label_text(),
    ensures
        a == b,
{
    reveal_strlit("error");
    reveal_strlit("warning");
    reveal_strlit("info");
    reveal_strlit("hint");
    assert("error"@.len() == 5 && "warning"@.len() == 7);
    assert("info"@.len() == 4 && "info"@[0] == 'i');
    assert("hint"@.len() == 4 && "hint"@[0] == 'h');
}

/// The two thresholds of a run. A diagnostic at `fail` or stronger counts as a
/// failure; a diagnostic weaker than `show` is not printed. `fail` is meant to
/// be at least as strong as `show`: thresholds that say otherwise are read
/// with `show` moved to `fail`, whether `new` made them or not.
#[derive(Clone, Copy, Debug, PartialEq, Eq, Structural)]
pub struct ThresholdConfig {
    pub fail: Severity,
    pub show: Severity,
}

impl ThresholdConfig {
    /// `fail` is at least as strong as `show`, so whatever counts is also shown.
    pub open spec fn wf(self) -> bool {
        self.fail.rank() <= self.show.rank()
    }

    /// The level down to which diagnostics are printed: `show`, or `fail`
    /// where `fail` is the weaker of the two.
    pub open spec fn effective_show(self) -> Severity {
        self.fail.later(self.show)
    }

    /// Whether a diagnostic with this severity number is printed: it is not
    /// weaker than the effective `show` level. One without a severity always is.
    pub open spec fn shows_spec(self, severity: Option<i32>) -> bool {
        match severity {
            Some(code) => code <= self.effective_show().rank(),
            None => true,
        }
    }

    /// Whether a diagnostic with this severity number counts as a failure: it
    /// is at `fail` or stronger. One without a severity never counts.
    pub open spec fn counts_spec(self, severity: Option<i32>) -> bool {
        match severity {
            Some(code) => code <= self.fail.rank(),
            None => false,
        }
    }

    /// The thresholds as configured, but for this: where `fail` is weaker than
    /// `show`, `show` is moved to `fail`.
    pub fn new(fail: Severity, show: Severity) -> (config: ThresholdConfig)
        ensures
            config.wf(),
            config.fail == fail,
            config.show == fail.later(show),
            config.show == (ThresholdConfig { fail, show }).effective_show(),
            show.precedes(fail) ==> config.show == fail,
            !show.precedes(fail) ==> config.show == show,
    {
        ThresholdConfig { fail, show: fail.max(show) }
    }

    /// The level down to which diagnostics are printed.
    pub fn shown_down_to(&self) -> (level: Severity)
        ensures
            level == self.effective_show(),
    {
        self.fail.max(self.show)
    }

    /// Whether a diagnostic with this severity number is printed.
    pub fn shows(&self, severity: Option<i32>) -> (shown: bool)
        ensures
            shown == self.shows_spec(severity),
    {
        match severity {
            Some(code) => code <= self.shown_down_to().code(),
            None => true,
        }
    }

    /// Whether a diagnostic with this severity number counts as a failure.
    pub fn counts(&self, severity: Option<i32>) -> (counted: bool)
        ensures
            counted == self.counts_spec(severity),
    {
        match severity {
            Some(code) => code <= self.fail.code(),
            None => false,
        }
    }
}

/// Whatever counts as a failure is also printed, under any thresholds. Under
/// well-formed thresholds the effective `show` level is `show` itself, and
/// thresholds read the same as what `new` makes of their two levels.
pub proof fn lemma_counted_is_shown(config: ThresholdConfig, severity: Option<i32>)
    ensures
        config.counts_spec(severity) ==> config.shows_spec(severity),
        config.wf() ==> config.effective_show() == config.show,
        !config.wf() ==> config.effective_show() == config.fail,
        ({
            let coerced = ThresholdConfig { fail: config.fail, show: config.effective_show() };
            &&& coerced.wf()
            &&& coerced.shows_spec(severity) == config.shows_spec(severity)
            &&& coerced.counts_spec(severity) == config.counts_spec(severity)
        }),
{
}

} // verus!
