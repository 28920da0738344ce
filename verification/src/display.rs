//! The report a reconciliation pass prints instead of exporting.
//!
//! One header line names the file and the reference video duration; one
//! line per selected audio track reports its identifier, language, raw
//! duration, and signed duration difference.  The same filter policy
//! that gates exports gates which tracks appear: exactly those whose
//! export would not be a skip.

use vstd::prelude::*;

use crate::duration::{
    format_seconds, format_signed_seconds, spec_format_seconds, spec_format_signed_seconds,
};
use crate::export::output::{basename, spec_basename};
use crate::mediainfo::{MediaDescriptor, MetadataError, TrackDescriptor, TrackKind};
use crate::reconcile::{decide_action, spec_action, ReconciliationAction};
use crate::text::u64_to_string;
use crate::TrackFilter;

verus! {

/// Whether one track appears in the report: an audio track whose
/// planned action is anything but a skip.
pub open spec fn spec_displayed(t: TrackDescriptor, video_duration_ms: int, filter: TrackFilter)
    -> bool {
    t.kind == TrackKind::Audio && spec_action(
        t.duration_ms->0 as int,
        video_duration_ms,
        t.language.deep_view(),
        filter,
    ) != ReconciliationAction::Skip
}

/// Indices of the reported tracks, in order.
pub open spec fn displayed_indices(
    tracks: Seq<TrackDescriptor>,
    video_duration_ms: int,
    filter: TrackFilter,
) -> Seq<int>
    decreases tracks.len(),
{
    if tracks.len() == 0 {
        Seq::empty()
    } else {
        let rest = displayed_indices(tracks.drop_last(), video_duration_ms, filter);
        if spec_displayed(tracks.last(), video_duration_ms, filter) {
            rest.push(tracks.len() - 1)
        } else {
            rest
        }
    }
}

proof fn lemma_displayed_indices_step(
    tracks: Seq<TrackDescriptor>,
    video_duration_ms: int,
    filter: TrackFilter,
    i: int,
)
    requires
        0 <= i < tracks.len(),
    ensures
        displayed_indices(tracks.take(i + 1), video_duration_ms, filter) == if spec_displayed(
            tracks[i],
            video_duration_ms,
            filter,
        ) {
            displayed_indices(tracks.take(i), video_duration_ms, filter).push(i)
        } else {
            displayed_indices(tracks.take(i), video_duration_ms, filter)
        },
{
    assert(tracks.take(i + 1).drop_last() =~= tracks.take(i));
    assert(tracks.take(i + 1).last() == tracks[i]);
}

/// The header line: the file's name and the reference duration in use.
pub open spec fn spec_display_header(ref_path: Seq<char>, video_duration_ms: int) -> Seq<char> {
    spec_basename(ref_path) + " | Video Duration: "@ + spec_format_seconds(video_duration_ms)
}

/// One track's report line: identifier, language tag (`und` when
/// absent), duration, and signed difference against the reference.
pub open spec fn spec_display_line(t: TrackDescriptor, video_duration_ms: int) -> Seq<char> {
    "Track "@ + crate::text::spec_dec_string(t.id->0 as int) + " ("@ + (match t.language.deep_view() {
        Some(l) => l,
        None => "und"@,
    }) + "): Duration: "@ + spec_format_seconds(t.duration_ms->0 as int) + " Difference: "@
        + spec_format_signed_seconds(t.duration_ms->0 - video_duration_ms)
}

/// Every audio track carries a duration, and every reported one an
/// identifier, so the report can be built.
pub open spec fn display_ready(
    media: MediaDescriptor,
    video_duration_ms: int,
    filter: TrackFilter,
) -> bool {
    forall|i: int|
        0 <= i < media.tracks@.len() && (#[trigger] media.tracks@[i]).kind == TrackKind::Audio
            ==> media.tracks@[i].duration_ms is Some && (spec_displayed(
            media.tracks@[i],
            video_duration_ms,
            filter,
        ) ==> media.tracks@[i].id is Some)
}

/// What a finished report holds: the header, then one line per
/// reported track, in container order.
pub open spec fn display_post(
    media: MediaDescriptor,
    video_duration_ms: int,
    filter: TrackFilter,
    lines: Seq<Seq<char>>,
) -> bool {
    let di = displayed_indices(media.tracks@, video_duration_ms, filter);
    &&& lines.len() == 1 + di.len()
    &&& lines[0] == spec_display_header(media.ref_path@, video_duration_ms)
    &&& forall|k: int|
        0 <= k < di.len() ==> #[trigger] lines[k + 1] == spec_display_line(
            media.tracks@[di[k]],
            video_duration_ms,
        )
}

fn build_line(track: &TrackDescriptor, id: u64, duration_ms: u64, video_duration_ms: u64) -> (r:
    String)
    requires
        track.id == Some(id),
        track.duration_ms == Some(duration_ms),
    ensures
        r@ == spec_display_line(*track, video_duration_ms as int),
{
    let mut line = String::from_str("Track ");
    let id_str = u64_to_string(id);
    line.append(id_str.as_str());
    line.append(" (");
    match &track.language {
        Some(l) => {
            line.append(l.as_str());
        },
        None => {
            line.append("und");
        },
    }
    line.append("): Duration: ");
    let dur_str = format_seconds(duration_ms);
    line.append(dur_str.as_str());
    line.append(" Difference: ");
    let diff: i128 = duration_ms as i128 - video_duration_ms as i128;
    let diff_str = format_signed_seconds(diff);
    line.append(diff_str.as_str());
    proof {
        assert(line@ =~= spec_display_line(*track, video_duration_ms as int));
    }
    line
}

/// Builds the report for one container: the header line, then one line
/// per audio track that the filter selects.  Fails when an audio track
/// carries no duration or a reported track no identifier, which is
/// fatal for the file.
#[verifier::rlimit(50)]
pub fn display(media: &MediaDescriptor, video_duration_ms: u64, filter: &TrackFilter) -> (r:
    Result<Vec<String>, MetadataError>)
    ensures
        r is Ok <==> display_ready(*media, video_duration_ms as int, *filter),
        r matches Ok(lines) ==> display_post(
            *media,
            video_duration_ms as int,
            *filter,
            lines.deep_view(),
        ),
        r matches Err(e) ==> e == MetadataError::InvalidMetadata,
{
    let mut header = basename(media.ref_path.as_str()).to_owned();
    header.append(" | Video Duration: ");
    let vid_str = format_seconds(video_duration_ms);
    header.append(vid_str.as_str());
    proof {
        assert(header@ =~= spec_display_header(media.ref_path@, video_duration_ms as int));
    }

    let mut lines: Vec<String> = Vec::new();
    lines.push(header);

    let n = media.tracks.len();
    let mut i: usize = 0;
    while i < n
        invariant
            n == media.tracks@.len(),
            0 <= i <= n,
            lines@.len() == 1 + displayed_indices(
                media.tracks@.take(i as int),
                video_duration_ms as int,
                *filter,
            ).len(),
            lines@[0]@ == spec_display_header(media.ref_path@, video_duration_ms as int),
            forall|j: int|
                0 <= j < i && (#[trigger] media.tracks@[j]).kind == TrackKind::Audio
                    ==> media.tracks@[j].duration_ms is Some && (spec_displayed(
                    media.tracks@[j],
                    video_duration_ms as int,
                    *filter,
                ) ==> media.tracks@[j].id is Some),
            forall|k: int|
                0 <= k < displayed_indices(
                    media.tracks@.take(i as int),
                    video_duration_ms as int,
                    *filter,
                ).len() ==> {
                    let di = displayed_indices(
                        media.tracks@.take(i as int),
                        video_duration_ms as int,
                        *filter,
                    );
                    (#[trigger] lines@[k + 1])@ == spec_display_line(
                        media.tracks@[di[k]],
                        video_duration_ms as int,
                    )
                },
        decreases n - i,
    {
        let track = &media.tracks[i];
        proof {
            lemma_displayed_indices_step(
                media.tracks@,
                video_duration_ms as int,
                *filter,
                i as int,
            );
        }
        if matches!(track.kind, TrackKind::Audio) {
            let duration_ms = match &track.duration_ms {
                Some(d) => *d,
                None => {
                    return Err(MetadataError::InvalidMetadata);
                },
            };
            let action = decide_action(duration_ms, video_duration_ms, &track.language, filter);
            if !matches!(action, ReconciliationAction::Skip) {
                let id = match &track.id {
                    Some(v) => *v,
                    None => {
                        return Err(MetadataError::InvalidMetadata);
                    },
                };
                let line = build_line(track, id, duration_ms, video_duration_ms);
                lines.push(line);
            }
        }
        i = i + 1;
    }
    proof {
        assert(media.tracks@.take(n as int) =~= media.tracks@);
        let lv = lines.deep_view();
        let di = displayed_indices(media.tracks@, video_duration_ms as int, *filter);
        assert forall|k: int| 0 <= k < di.len() implies #[trigger] lv[k + 1]
            == spec_display_line(media.tracks@[di[k]], video_duration_ms as int) by {
            assert(lines@[k + 1]@ == spec_display_line(
                media.tracks@[di[k]],
                video_duration_ms as int,
            ));
        }
    }
    Ok(lines)
}

} // verus!
