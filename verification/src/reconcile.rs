//! The reconciliation decision engine.
//!
//! For one audio track, the engine compares the track duration with the
//! reference video duration and the filter policy and picks the repair
//! action.  A track is *eligible* for repair when its language passes the
//! filter and the absolute duration difference strictly exceeds the
//! threshold; an eligible long track is trimmed to the reference
//! duration, an eligible short track has the missing span of silence
//! appended.  An ineligible track is exported unchanged when the
//! process-all override is set and is skipped entirely otherwise.

use vstd::prelude::*;

use crate::TrackFilter;

verus! {

/// What to do with one audio track.
#[derive(Debug, Clone, Copy, PartialEq, Eq, Structural)]
pub enum ReconciliationAction {
    /// Neither repaired nor exported.
    Skip,
    /// Exported as a verbatim stream copy.
    Unchanged,
    /// Trimmed down to the carried duration, in milliseconds.
    Trim(u64),
    /// Padded with the carried span of silence, in milliseconds.
    Append(u64),
}

/// Whether the track's language passes the filter: no language is
/// configured, or the track carries exactly the configured tag.
pub open spec fn spec_language_matches(
    filter_lang: Option<Seq<char>>,
    track_lang: Option<Seq<char>>,
) -> bool {
    match filter_lang {
        None => true,
        Some(f) => track_lang matches Some(t) && t == f,
    }
}

/// Absolute value.
pub open spec fn spec_abs(d: int) -> int {
    if d < 0 {
        -d
    } else {
        d
    }
}

/// Whether a track is eligible for repair: language passes and the
/// absolute duration difference strictly exceeds the threshold.
pub open spec fn spec_eligible(
    track_ms: int,
    reference_ms: int,
    track_lang: Option<Seq<char>>,
    filter: TrackFilter,
) -> bool {
    spec_language_matches(filter.language.deep_view(), track_lang) && spec_abs(
        track_ms - reference_ms,
    ) > filter.treshold
}

/// The action the engine picks for one audio track.
pub open spec fn spec_action(
    track_ms: int,
    reference_ms: int,
    track_lang: Option<Seq<char>>,
    filter: TrackFilter,
) -> ReconciliationAction {
    if spec_eligible(track_ms, reference_ms, track_lang, filter) {
        if track_ms - reference_ms > 0 {
            ReconciliationAction::Trim(reference_ms as u64)
        } else {
            ReconciliationAction::Append((reference_ms - track_ms) as u64)
        }
    } else if filter.process_all {
        ReconciliationAction::Unchanged
    } else {
        ReconciliationAction::Skip
    }
}

/// Compares an optional track language against the filter's language.
pub fn language_matches(filter_lang: &Option<String>, track_lang: &Option<String>) -> (r: bool)
    ensures
        r == spec_language_matches(filter_lang.deep_view(), track_lang.deep_view()),
{
    match filter_lang {
        None => true,
        Some(f) => match track_lang {
            Some(t) => crate::text::str_eq(t.as_str(), f.as_str()),
            None => false,
        },
    }
}

/// Picks the repair action for one audio track.
pub fn decide_action(
    track_duration_ms: u64,
    reference_ms: u64,
    track_language: &Option<String>,
    filter: &TrackFilter,
) -> (a: ReconciliationAction)
    ensures
        a == spec_action(
            track_duration_ms as int,
            reference_ms as int,
            track_language.deep_view(),
            *filter,
        ),
{
    let lang_ok = language_matches(&filter.language, track_language);
    let diff: i128 = track_duration_ms as i128 - reference_ms as i128;
    let abs: i128 = if diff < 0 {
        -diff
    } else {
        diff
    };
    if lang_ok && abs > filter.treshold as i128 {
        if diff > 0 {
            ReconciliationAction::Trim(reference_ms)
        } else {
            ReconciliationAction::Append(reference_ms - track_duration_ms)
        }
    } else if filter.process_all {
        ReconciliationAction::Unchanged
    } else {
        ReconciliationAction::Skip
    }
}

/// A track within the threshold is not touched at all when the
/// process-all override is off: no repair, no export.
pub proof fn lemma_within_threshold_skipped(
    track_ms: int,
    reference_ms: int,
    track_lang: Option<Seq<char>>,
    filter: TrackFilter,
)
    requires
        !filter.process_all,
        spec_abs(track_ms - reference_ms) <= filter.treshold,
    ensures
        spec_action(track_ms, reference_ms, track_lang, filter) == ReconciliationAction::Skip,
{
}

/// Reconciliation is idempotent: a track whose duration already equals
/// the reference is never repaired again, under any threshold.
pub proof fn lemma_reconciliation_idempotent(
    reference_ms: int,
    track_lang: Option<Seq<char>>,
    filter: TrackFilter,
)
    ensures
        spec_action(reference_ms, reference_ms, track_lang, filter) == if filter.process_all {
            ReconciliationAction::Unchanged
        } else {
            ReconciliationAction::Skip
        },
{
}

/// The threshold boundary is exclusive: a difference exactly equal to
/// the threshold never triggers a repair, while with a zero threshold
/// any non-zero difference (and a passing language) always does.
pub proof fn lemma_threshold_boundary(
    track_ms: int,
    reference_ms: int,
    track_lang: Option<Seq<char>>,
    filter: TrackFilter,
)
    ensures
        spec_abs(track_ms - reference_ms) == filter.treshold ==> spec_action(
            track_ms,
            reference_ms,
            track_lang,
            filter,
        ) == if filter.process_all {
            ReconciliationAction::Unchanged
        } else {
            ReconciliationAction::Skip
        },
        filter.treshold == 0 && track_ms != reference_ms && spec_language_matches(
            filter.language.deep_view(),
            track_lang,
        ) ==> (spec_action(track_ms, reference_ms, track_lang, filter) matches
            ReconciliationAction::Trim(_) || spec_action(
            track_ms,
            reference_ms,
            track_lang,
            filter,
        ) matches ReconciliationAction::Append(_)),
{
}

/// A track whose language differs from the configured filter is never
/// repaired, whatever its difference; it is still exported unchanged
/// when the process-all override is set.
pub proof fn lemma_language_filter(
    track_ms: int,
    reference_ms: int,
    track_lang: Option<Seq<char>>,
    filter: TrackFilter,
)
    requires
        !spec_language_matches(filter.language.deep_view(), track_lang),
    ensures
        spec_action(track_ms, reference_ms, track_lang, filter) == if filter.process_all {
            ReconciliationAction::Unchanged
        } else {
            ReconciliationAction::Skip
        },
{
}

/// A trim targets exactly the reference duration, and an append adds
/// exactly the missing span: either repair restores the reference
/// duration (up to the transcoder's own precision).
pub proof fn lemma_repair_restores_reference(
    track_ms: int,
    reference_ms: int,
    track_lang: Option<Seq<char>>,
    filter: TrackFilter,
)
    requires
        0 <= track_ms <= u64::MAX,
        0 <= reference_ms <= u64::MAX,
    ensures
        spec_action(track_ms, reference_ms, track_lang, filter) matches ReconciliationAction::Trim(
            d,
        ) ==> d == reference_ms,
        spec_action(track_ms, reference_ms, track_lang, filter) matches
            ReconciliationAction::Append(s) ==> track_ms + s == reference_ms,
{
}

} // verus!
