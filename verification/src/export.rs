//! Export planning: deciding, per audio track, how the track leaves the
//! source container.
//!
//! The planner walks the source container's tracks in order, computes
//! each audio track's duration difference against the reference video
//! duration, and records the repair action the filter policy picks.  The
//! application carries the actions out with the command builders of the
//! submodules; a track the filter skips produces no output at all.

use vstd::prelude::*;

pub mod append;
pub mod output;
pub mod trim;

use crate::export::append::spec_copy_args;
use crate::export::output::{
    create_track_filepath, get_codec_args, get_map_args, spec_basename, spec_codec_args,
    spec_track_filepath,
};
use crate::mediainfo::{MediaDescriptor, MetadataError, TrackDescriptor, TrackKind};
use crate::reconcile::{decide_action, spec_action, ReconciliationAction};
use crate::TrackFilter;

verus! {

/// One external tool invocation, fully assembled: the program name and
/// its argument list in order.  The application runs it; the library
/// only ever builds it.
#[derive(Debug, Clone, PartialEq, Eq)]
pub struct ToolCommand {
    pub program: String,
    pub args: Vec<String>,
}

/// The decision for one audio track: where it sits in the container and
/// what to do with it.
#[derive(Debug, Clone, Copy, PartialEq, Eq, Structural)]
pub struct TrackExport {
    /// Index of the track in the source container's track list.
    pub track_index: usize,
    pub action: ReconciliationAction,
}

/// The full outcome of planning one container's export.
#[derive(Debug, Clone, PartialEq, Eq)]
pub struct ExportPlan {
    /// The progress line naming the file being processed.
    pub header: String,
    /// One entry per audio track, in container order.
    pub tracks: Vec<TrackExport>,
}

/// Indices of the audio tracks, in order.
pub open spec fn audio_indices(tracks: Seq<TrackDescriptor>) -> Seq<int>
    decreases tracks.len(),
{
    if tracks.len() == 0 {
        Seq::empty()
    } else {
        let rest = audio_indices(tracks.drop_last());
        if tracks.last().kind == TrackKind::Audio {
            rest.push(tracks.len() - 1)
        } else {
            rest
        }
    }
}

proof fn lemma_audio_indices_step(tracks: Seq<TrackDescriptor>, i: int)
    requires
        0 <= i < tracks.len(),
    ensures
        audio_indices(tracks.take(i + 1)) == if tracks[i].kind == TrackKind::Audio {
            audio_indices(tracks.take(i)).push(i)
        } else {
            audio_indices(tracks.take(i))
        },
{
    assert(tracks.take(i + 1).drop_last() =~= tracks.take(i));
    assert(tracks.take(i + 1).last() == tracks[i]);
}

/// Every audio track carries a duration, so the whole container can be
/// planned.
pub open spec fn export_ready(media: MediaDescriptor) -> bool {
    forall|i: int|
        0 <= i < media.tracks@.len() && (#[trigger] media.tracks@[i]).kind == TrackKind::Audio
            ==> media.tracks@[i].duration_ms is Some
}

/// What a finished plan holds: the progress header, and one entry per
/// audio track in order, each carrying the action the filter policy
/// picks for its duration difference.
pub open spec fn export_post(
    media: MediaDescriptor,
    video_duration_ms: int,
    filter: TrackFilter,
    plan: ExportPlan,
) -> bool {
    let ai = audio_indices(media.tracks@);
    &&& plan.header@ == "Processing file: "@ + spec_basename(media.ref_path@)
    &&& plan.tracks@.len() == ai.len()
    &&& forall|k: int|
        0 <= k < ai.len() ==> {
            let t = media.tracks@[ai[k]];
            (#[trigger] plan.tracks@[k]).track_index == ai[k] && plan.tracks@[k].action
                == spec_action(
                t.duration_ms->0 as int,
                video_duration_ms,
                t.language.deep_view(),
                filter,
            )
        }
}

/// In a finished plan, an audio track whose absolute duration
/// difference is within the threshold is skipped outright when the
/// process-all override is off: no repair happens and no output is
/// produced for it.
pub proof fn lemma_plan_skips_within_threshold(
    media: MediaDescriptor,
    video_duration_ms: int,
    filter: TrackFilter,
    plan: ExportPlan,
    k: int,
)
    requires
        export_post(media, video_duration_ms, filter, plan),
        0 <= k < audio_indices(media.tracks@).len(),
        !filter.process_all,
        crate::reconcile::spec_abs(
            media.tracks@[audio_indices(media.tracks@)[k]].duration_ms->0 - video_duration_ms,
        ) <= filter.treshold,
    ensures
        plan.tracks@[k].action == ReconciliationAction::Skip,
{
    let t = media.tracks@[audio_indices(media.tracks@)[k]];
    crate::reconcile::lemma_within_threshold_skipped(
        t.duration_ms->0 as int,
        video_duration_ms,
        t.language.deep_view(),
        filter,
    );
}

/// Plans one container's export: decides, for every audio track, how it
/// leaves the container.  Fails when an audio track carries no
/// duration, which is fatal for the file.
pub fn export(media: &MediaDescriptor, video_duration_ms: u64, filter: &TrackFilter) -> (r: Result<
    ExportPlan,
    MetadataError,
>)
    ensures
        r is Ok <==> export_ready(*media),
        r matches Ok(plan) ==> export_post(*media, video_duration_ms as int, *filter, plan),
        r matches Err(e) ==> e == MetadataError::InvalidMetadata,
{
    let header = crate::export::output::basename(media.ref_path.as_str());
    let mut line = String::from_str("Processing file: ");
    line.append(header);

    let n = media.tracks.len();
    let mut items: Vec<TrackExport> = Vec::new();
    let mut i: usize = 0;
    while i < n
        invariant
            n == media.tracks@.len(),
            0 <= i <= n,
            items@.len() == audio_indices(media.tracks@.take(i as int)).len(),
            forall|j: int|
                0 <= j < i && (#[trigger] media.tracks@[j]).kind == TrackKind::Audio
                    ==> media.tracks@[j].duration_ms is Some,
            forall|k: int|
                0 <= k < items@.len() ==> {
                    let ai = audio_indices(media.tracks@.take(i as int));
                    let t = media.tracks@[ai[k]];
                    (#[trigger] items@[k]).track_index == ai[k] && items@[k].action
                        == spec_action(
                        t.duration_ms->0 as int,
                        video_duration_ms as int,
                        t.language.deep_view(),
                        *filter,
                    )
                },
        decreases n - i,
    {
        let track = &media.tracks[i];
        proof {
            lemma_audio_indices_step(media.tracks@, i as int);
        }
        if matches!(track.kind, TrackKind::Audio) {
            let duration_ms = match &track.duration_ms {
                Some(d) => *d,
                None => {
                    return Err(MetadataError::InvalidMetadata);
                },
            };
            let action = decide_action(duration_ms, video_duration_ms, &track.language, filter);
            items.push(TrackExport { track_index: i, action });
        }
        i = i + 1;
    }
    proof {
        assert(media.tracks@.take(n as int) =~= media.tracks@);
    }
    Ok(ExportPlan { header: line, tracks: items })
}

/// The verbatim export of a track the filter passed over but the
/// process-all override keeps: a stream copy with chapters stripped,
/// named like every other output.
pub fn export_unchanged(
    input_file: &str,
    track: &TrackDescriptor,
    output_dir: &Option<String>,
) -> (r: Result<ToolCommand, MetadataError>)
    requires
        track.wf(),
    ensures
        r is Ok <==> track.type_order is Some && spec_codec_args(
            track.compression_mode.deep_view(),
        ) is Ok && track.format is Some,
        r matches Ok(c) ==> c.program@ == "ffmpeg"@ && c.args.deep_view() == spec_copy_args(
            input_file@,
            *track,
            spec_track_filepath(input_file@, *track, output_dir.deep_view()),
            spec_codec_args(track.compression_mode.deep_view())->Ok_0,
        ),
        r matches Err(e) ==> {
            if track.type_order is None {
                e == MetadataError::InvalidMetadata
            } else if spec_codec_args(track.compression_mode.deep_view()) is Err {
                e == spec_codec_args(track.compression_mode.deep_view())->Err_0
            } else {
                e == MetadataError::InvalidMetadata
            }
        },
{
    let mut map_args = match get_map_args(track) {
        Ok(v) => v,
        Err(e) => {
            return Err(e);
        },
    };
    let mut codec_args = match get_codec_args(track) {
        Ok(v) => v,
        Err(e) => {
            return Err(e);
        },
    };
    let out_path = match create_track_filepath(input_file, track, output_dir) {
        Ok(v) => v,
        Err(e) => {
            return Err(e);
        },
    };
    let mut args: Vec<String> = Vec::new();
    args.push(String::from_str("-y"));
    args.push(String::from_str("-i"));
    args.push(input_file.to_owned());
    args.append(&mut map_args);
    args.push(String::from_str("-map_chapters"));
    args.push(String::from_str("-1"));
    args.append(&mut codec_args);
    args.push(out_path.clone());
    proof {
        assert(args.deep_view() =~~= spec_copy_args(
            input_file@,
            *track,
            out_path@,
            spec_codec_args(track.compression_mode.deep_view())->Ok_0,
        ));
    }
    Ok(ToolCommand { program: String::from_str("ffmpeg"), args })
}

} // verus!
