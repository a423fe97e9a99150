use diagnostic_report::severity::{Severity, ThresholdConfig};
use std::cmp::Ordering;

const ALL: [Severity; 4] =
    [Severity::Error, Severity::Warning, Severity::Information, Severity::Hint];

#[test]
fn levels_are_listed_strongest_first() {
    assert_eq!(Severity::variants(), ALL);
}

#[test]
fn codes_run_from_one_to_four() {
    assert_eq!(Severity::Error.code(), 1);
    assert_eq!(Severity::Warning.code(), 2);
    assert_eq!(Severity::Information.code(), 3);
    assert_eq!(Severity::Hint.code(), 4);
}

#[test]
fn a_level_is_found_again_from_its_code() {
    for level in ALL {
        assert_eq!(Severity::from_code(level.code()), Some(level));
    }
    assert_eq!(Severity::from_code(0), None);
    assert_eq!(Severity::from_code(5), None);
    assert_eq!(Severity::from_code(-1), None);
    assert_eq!(Severity::from_code(i32::MAX), None);
}

#[test]
fn labels_name_the_levels() {
    assert_eq!(Severity::Error.label(), "error");
    assert_eq!(Severity::Warning.label(), "warning");
    assert_eq!(Severity::Information.label(), "info");
    assert_eq!(Severity::Hint.label(), "hint");
}

#[test]
fn compare_orders_error_before_warning_before_information_before_hint() {
    assert_eq!(Severity::Error.compare(Severity::Warning), Ordering::Less);
    assert_eq!(Severity::Warning.compare(Severity::Information), Ordering::Less);
    assert_eq!(Severity::Information.compare(Severity::Hint), Ordering::Less);
    assert_eq!(Severity::Hint.compare(Severity::Error), Ordering::Greater);
    assert_eq!(Severity::Warning.compare(Severity::Warning), Ordering::Equal);
}

#[test]
fn compare_is_a_strict_total_order() {
    for (i, a) in ALL.iter().enumerate() {
        for (j, b) in ALL.iter().enumerate() {
            assert_eq!(a.compare(*b), i.cmp(&j));
            assert_eq!(a.compare(*b), b.compare(*a).reverse());
            for c in ALL {
                if a.compare(*b) == Ordering::Less && b.compare(c) == Ordering::Less {
                    assert_eq!(a.compare(c), Ordering::Less);
                }
            }
        }
    }
}

#[test]
fn max_is_the_weaker_level() {
    assert_eq!(Severity::Error.max(Severity::Hint), Severity::Hint);
    assert_eq!(Severity::Hint.max(Severity::Error), Severity::Hint);
    assert_eq!(Severity::Warning.max(Severity::Warning), Severity::Warning);
    assert_eq!(Severity::Information.max(Severity::Warning), Severity::Information);
}

#[test]
fn thresholds_in_order_are_kept() {
    let config = ThresholdConfig::new(Severity::Warning, Severity::Hint);
    assert_eq!(config.fail, Severity::Warning);
    assert_eq!(config.show, Severity::Hint);
}

#[test]
fn show_is_moved_to_fail_where_fail_is_weaker() {
    let config = ThresholdConfig::new(Severity::Warning, Severity::Error);
    assert_eq!(config.fail, Severity::Warning);
    assert_eq!(config.show, Severity::Warning);
    let config = ThresholdConfig::new(Severity::Hint, Severity::Error);
    assert_eq!(config, ThresholdConfig { fail: Severity::Hint, show: Severity::Hint });
}

#[test]
fn coerced_thresholds_always_show_what_counts() {
    for fail in ALL {
        for show in ALL {
            let config = ThresholdConfig::new(fail, show);
            assert_eq!(config.fail, fail);
            assert_eq!(config.show, fail.max(show));
            assert!(config.fail.code() <= config.show.code());
            for code in -1..=6 {
                if config.counts(Some(code)) {
                    assert!(config.shows(Some(code)));
                }
                assert_eq!(config.counts(Some(code)), code <= fail.code());
            }
        }
    }
}

#[test]
fn a_diagnostic_without_severity_is_shown_and_never_counts() {
    for fail in ALL {
        for show in ALL {
            let config = ThresholdConfig::new(fail, show);
            assert!(config.shows(None));
            assert!(!config.counts(None));
        }
    }
}

#[test]
fn show_hides_what_is_weaker() {
    let config = ThresholdConfig::new(Severity::Error, Severity::Warning);
    assert!(config.shows(Some(1)));
    assert!(config.shows(Some(2)));
    assert!(!config.shows(Some(3)));
    assert!(!config.shows(Some(4)));
    assert!(!config.shows(Some(5)));
    assert!(config.shows(Some(0)));
}

#[test]
fn fail_counts_what_is_at_least_as_strong() {
    let config = ThresholdConfig::new(Severity::Warning, Severity::Hint);
    assert!(config.counts(Some(1)));
    assert!(config.counts(Some(2)));
    assert!(!config.counts(Some(3)));
    assert!(!config.counts(Some(4)));
}

#[test]
fn thresholds_written_by_hand_are_read_as_coerced() {
    let config = ThresholdConfig { fail: Severity::Hint, show: Severity::Error };
    assert_eq!(config.shown_down_to(), Severity::Hint);
    for code in -1..=6 {
        let coerced = ThresholdConfig::new(Severity::Hint, Severity::Error);
        assert_eq!(config.shows(Some(code)), coerced.shows(Some(code)));
        assert_eq!(config.counts(Some(code)), coerced.counts(Some(code)));
    }
    assert!(config.shows(Some(2)));
    assert!(config.counts(Some(2)));
    assert!(config.shows(Some(4)));
    assert!(!config.shows(Some(5)));
}

#[test]
fn the_effective_show_level_is_the_weaker_of_the_two() {
    let config = ThresholdConfig { fail: Severity::Warning, show: Severity::Hint };
    assert_eq!(config.shown_down_to(), Severity::Hint);
    let config = ThresholdConfig { fail: Severity::Information, show: Severity::Warning };
    assert_eq!(config.shown_down_to(), Severity::Information);
}
