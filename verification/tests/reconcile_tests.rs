use mkvaudur::reconcile::ReconciliationAction;
use mkvaudur::reconcile::decide_action;
use mkvaudur::TrackFilter;

fn filter(treshold: u64, language: Option<&str>, process_all: bool) -> TrackFilter {
    TrackFilter { treshold, language: language.map(|s| s.to_string()), process_all }
}

// Source audio track at 10.0 s, reference video at 8.0 s, threshold 0,
// no language filter: the track is trimmed to the reference duration.
#[test]
fn trim_decision_long_track() {
    let a = decide_action(10_000, 8_000, &None, &filter(0, None, false));
    assert_eq!(a, ReconciliationAction::Trim(8_000));
}

// Source audio track at 2.0 s, reference video at 8.0 s: the missing
// 6.0 s of silence are appended.
#[test]
fn append_decision_short_track() {
    let a = decide_action(2_000, 8_000, &None, &filter(0, None, false));
    assert_eq!(a, ReconciliationAction::Append(6_000));
}

// A difference within the threshold leaves the track alone entirely
// when process-all is off.
#[test]
fn within_threshold_skips() {
    let a = decide_action(8_400, 8_000, &None, &filter(500, None, false));
    assert_eq!(a, ReconciliationAction::Skip);
    let b = decide_action(7_600, 8_000, &None, &filter(500, None, false));
    assert_eq!(b, ReconciliationAction::Skip);
}

// A difference exactly equal to the threshold is not repaired: the
// boundary is exclusive.
#[test]
fn boundary_is_exclusive() {
    let a = decide_action(8_500, 8_000, &None, &filter(500, None, false));
    assert_eq!(a, ReconciliationAction::Skip);
    let b = decide_action(8_501, 8_000, &None, &filter(500, None, false));
    assert_eq!(b, ReconciliationAction::Trim(8_000));
}

// With a zero threshold, any non-zero difference is repaired.
#[test]
fn zero_threshold_repairs_any_drift() {
    let a = decide_action(8_001, 8_000, &None, &filter(0, None, false));
    assert_eq!(a, ReconciliationAction::Trim(8_000));
    let b = decide_action(7_999, 8_000, &None, &filter(0, None, false));
    assert_eq!(b, ReconciliationAction::Append(1));
}

// Re-running on an already-reconciled track (duration equals the
// reference) changes nothing.
#[test]
fn reconciliation_is_idempotent() {
    let a = decide_action(8_000, 8_000, &None, &filter(0, None, false));
    assert_eq!(a, ReconciliationAction::Skip);
    let b = decide_action(8_000, 8_000, &None, &filter(0, None, true));
    assert_eq!(b, ReconciliationAction::Unchanged);
}

// A track whose language differs from the filter is never repaired,
// whatever its drift; with process-all it is still exported unchanged.
#[test]
fn language_filter_blocks_repair() {
    let jpn = Some("jpn".to_string());
    let a = decide_action(2_000, 8_000, &jpn, &filter(0, Some("eng"), false));
    assert_eq!(a, ReconciliationAction::Skip);
    let b = decide_action(2_000, 8_000, &jpn, &filter(0, Some("eng"), true));
    assert_eq!(b, ReconciliationAction::Unchanged);
    let c = decide_action(2_000, 8_000, &jpn, &filter(0, Some("jpn"), false));
    assert_eq!(c, ReconciliationAction::Append(6_000));
}

// A track without a language tag never matches a configured filter.
#[test]
fn missing_language_never_matches() {
    let a = decide_action(2_000, 8_000, &None, &filter(0, Some("eng"), false));
    assert_eq!(a, ReconciliationAction::Skip);
}

// The process-all override exports unmatched tracks unchanged but does
// not repair them.
#[test]
fn process_all_copies_ineligible_tracks() {
    let a = decide_action(8_000, 8_000, &None, &filter(500, None, true));
    assert_eq!(a, ReconciliationAction::Unchanged);
    let b = decide_action(9_000, 8_000, &None, &filter(500, None, true));
    assert_eq!(b, ReconciliationAction::Trim(8_000));
}
