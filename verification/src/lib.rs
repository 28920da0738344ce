//! Duration reconciliation for audio tracks of multiplexed media containers.
//!
//! The library inspects a container's track metadata, computes per-track
//! duration deltas against a reference video duration, decides a repair
//! action for each audio track (skip / copy unchanged / trim / append
//! silence), and builds the exact transcoder invocations that carry the
//! repair out.  Durations are modelled in whole milliseconds.  All file,
//! process, and terminal work is left to the surrounding application.

use vstd::prelude::*;

pub mod display;
pub mod duration;
pub mod export;
pub mod mediainfo;
pub mod reconcile;
pub mod text;

use crate::export::output::{basename, spec_basename};
use crate::mediainfo::{MediaDescriptor, MetadataError, TrackKind};
use crate::text::{find_last, last_index_of, str_eq};

verus! {

/// Selects what a reconciliation pass does with its findings: report them
/// or export repaired tracks.
#[derive(Debug, Clone, Copy, PartialEq, Eq, Structural)]
pub enum OperationMode {
    Display,
    Export,
}

/// Policy that gates which audio tracks are repaired.
#[derive(Debug, Clone, PartialEq, Eq)]
pub struct TrackFilter {
    /// Minimum absolute duration difference, in milliseconds, that
    /// triggers a repair; the boundary itself does not.
    pub treshold: u64,
    /// When set, only tracks with exactly this language tag are repaired.
    pub language: Option<String>,
    /// When set, tracks that the filter passes over are still exported
    /// unchanged (never repaired).
    pub process_all: bool,
}

/// The input path held no usable container file.
#[derive(Debug, Clone, PartialEq, Eq, Structural)]
pub struct NoMkvFound;

impl NoMkvFound {
    /// The diagnostic line shown for this error.
    pub fn message(&self) -> (r: String)
        ensures
            r@ == "filepath does not contain any mkv file"@,
    {
        String::from_str("filepath does not contain any mkv file")
    }
}

/// Whether a path names a container file this tool works on: its
/// basename has a non-empty stem and the extension `mkv`.
pub open spec fn spec_is_mkv(p: Seq<char>) -> bool {
    let b = spec_basename(p);
    let d = last_index_of(b, '.');
    d > 0 && b.skip(d + 1) == "mkv"@
}

/// Tests whether a path names a container file this tool works on.
pub fn is_mkv_file(p: &str) -> (r: bool)
    ensures
        r == spec_is_mkv(p@),
{
    let b = basename(p);
    let n = b.unicode_len();
    match find_last(b, '.') {
        Some(d) => {
            if d == 0 {
                return false;
            }
            let ext = b.substring_char(d + 1, n);
            proof {
                assert(ext@ =~= spec_basename(p@).skip(d + 1));
            }
            str_eq(ext, "mkv")
        },
        None => false,
    }
}

/// The container files among a directory listing, in listing order.
pub open spec fn spec_mkv_files(entries: Seq<Seq<char>>) -> Seq<Seq<char>>
    decreases entries.len(),
{
    if entries.len() == 0 {
        Seq::empty()
    } else {
        let rest = spec_mkv_files(entries.drop_last());
        if spec_is_mkv(entries.last()) {
            rest.push(entries.last())
        } else {
            rest
        }
    }
}

proof fn lemma_mkv_files_step(entries: Seq<Seq<char>>, i: int)
    requires
        0 <= i < entries.len(),
    ensures
        spec_mkv_files(entries.take(i + 1)) == if spec_is_mkv(entries[i]) {
            spec_mkv_files(entries.take(i)).push(entries[i])
        } else {
            spec_mkv_files(entries.take(i))
        },
{
    assert(entries.take(i + 1).drop_last() =~= entries.take(i));
    assert(entries.take(i + 1).last() == entries[i]);
}

/// Selects the container files a reconciliation pass works on.  A path
/// that is itself a container file stands alone; a directory
/// contributes every container file of its listing (`dir_entries`, as
/// full paths, in listing order); anything else, or an empty
/// selection, is `NoMkvFound`.
pub fn get_files(
    path: &str,
    path_is_file: bool,
    path_is_dir: bool,
    dir_entries: &Vec<String>,
) -> (r: Result<Vec<String>, NoMkvFound>)
    ensures
        r is Ok <==> (path_is_file && spec_is_mkv(path@)) || (!path_is_file && path_is_dir
            && spec_mkv_files(dir_entries.deep_view()).len() > 0),
        r matches Ok(v) ==> v.deep_view() == if path_is_file {
            seq![path@]
        } else {
            spec_mkv_files(dir_entries.deep_view())
        },
{
    if path_is_file && is_mkv_file(path) {
        let mut v: Vec<String> = Vec::new();
        v.push(path.to_owned());
        proof {
            assert(v.deep_view() =~~= seq![path@]);
        }
        return Ok(v);
    }
    if path_is_file || !path_is_dir {
        return Err(NoMkvFound);
    }
    let n = dir_entries.len();
    let mut v: Vec<String> = Vec::new();
    let mut i: usize = 0;
    while i < n
        invariant
            n == dir_entries@.len(),
            0 <= i <= n,
            v.deep_view() == spec_mkv_files(dir_entries.deep_view().take(i as int)),
        decreases n - i,
    {
        proof {
            lemma_mkv_files_step(dir_entries.deep_view(), i as int);
        }
        let entry = &dir_entries[i];
        if is_mkv_file(entry.as_str()) {
            v.push(entry.clone());
            proof {
                assert(v.deep_view() =~~= spec_mkv_files(
                    dir_entries.deep_view().take(i + 1),
                ));
            }
        }
        i = i + 1;
    }
    proof {
        assert(dir_entries.deep_view().take(n as int) =~= dir_entries.deep_view());
    }
    if v.len() == 0 {
        return Err(NoMkvFound);
    }
    Ok(v)
}

/// Index of the first video track, `-1` when there is none.
pub open spec fn first_video_index(tracks: Seq<crate::mediainfo::TrackDescriptor>) -> int
    decreases tracks.len(),
{
    if tracks.len() == 0 {
        -1
    } else if tracks[0].kind == TrackKind::Video {
        0
    } else {
        let r = first_video_index(tracks.drop_first());
        if r < 0 {
            -1
        } else {
            r + 1
        }
    }
}

proof fn lemma_first_video_found(tracks: Seq<crate::mediainfo::TrackDescriptor>, i: int)
    requires
        0 <= i < tracks.len(),
        tracks[i].kind == TrackKind::Video,
        forall|j: int| 0 <= j < i ==> (#[trigger] tracks[j]).kind != TrackKind::Video,
    ensures
        first_video_index(tracks) == i,
    decreases tracks.len(),
{
    if i > 0 {
        lemma_first_video_found(tracks.drop_first(), i - 1);
    }
}

proof fn lemma_first_video_absent(tracks: Seq<crate::mediainfo::TrackDescriptor>)
    requires
        forall|j: int| 0 <= j < tracks.len() ==> (#[trigger] tracks[j]).kind != TrackKind::Video,
    ensures
        first_video_index(tracks) == -1,
    decreases tracks.len(),
{
    if tracks.len() > 0 {
        lemma_first_video_absent(tracks.drop_first());
    }
}

/// A reference container is usable when it has a video track and that
/// track carries a duration.
pub open spec fn reference_ready(media: MediaDescriptor) -> bool {
    let fv = first_video_index(media.tracks@);
    fv >= 0 && media.tracks@[fv].duration_ms is Some
}

/// The reference duration a container supplies: its first video
/// track's duration, in milliseconds.
pub open spec fn spec_reference_duration(media: MediaDescriptor) -> int {
    media.tracks@[first_video_index(media.tracks@)].duration_ms->0 as int
}

/// Extracts the reference video duration from a container's metadata.
/// Exactly one video track duration is used per pass; a container
/// without one cannot serve as reference, which is fatal for the file.
pub fn reference_video_duration(media: &MediaDescriptor) -> (r: Result<u64, MetadataError>)
    ensures
        r is Ok <==> reference_ready(*media),
        r matches Ok(d) ==> d == spec_reference_duration(*media),
        r matches Err(e) ==> e == MetadataError::InvalidMetadata,
{
    let n = media.tracks.len();
    let mut i: usize = 0;
    while i < n
        invariant
            n == media.tracks@.len(),
            0 <= i <= n,
            forall|j: int|
                0 <= j < i ==> (#[trigger] media.tracks@[j]).kind != TrackKind::Video,
        decreases n - i,
    {
        let track = &media.tracks[i];
        if matches!(track.kind, TrackKind::Video) {
            proof {
                lemma_first_video_found(media.tracks@, i as int);
            }
            match &track.duration_ms {
                Some(d) => {
                    return Ok(*d);
                },
                None => {
                    return Err(MetadataError::InvalidMetadata);
                },
            }
        }
        i = i + 1;
    }
    proof {
        lemma_first_video_absent(media.tracks@);
    }
    Err(MetadataError::InvalidMetadata)
}

/// What one reconciliation pass produced: the report lines to print, or
/// the export decisions to carry out.
#[derive(Debug, Clone, PartialEq, Eq)]
pub enum ProcessOutcome {
    Report(Vec<String>),
    Plan(crate::export::ExportPlan),
}

/// Runs one reconciliation pass over one container: extracts the
/// reference video duration from the reference container's metadata,
/// then either builds the report or plans the export, per the operation
/// mode.  Source and reference may be the same container.
pub fn process_mkv_file(
    media: &MediaDescriptor,
    ref_media: &MediaDescriptor,
    mode: &OperationMode,
    filter: &TrackFilter,
) -> (r: Result<ProcessOutcome, MetadataError>)
    ensures
        r is Ok <==> reference_ready(*ref_media) && (match mode {
            OperationMode::Display => crate::display::display_ready(
                *media,
                spec_reference_duration(*ref_media),
                *filter,
            ),
            OperationMode::Export => crate::export::export_ready(*media),
        }),
        r matches Ok(ProcessOutcome::Report(lines)) ==> mode is Display
            && crate::display::display_post(
            *media,
            spec_reference_duration(*ref_media),
            *filter,
            lines.deep_view(),
        ),
        r matches Ok(ProcessOutcome::Plan(plan)) ==> mode is Export && crate::export::export_post(
            *media,
            spec_reference_duration(*ref_media),
            *filter,
            plan,
        ),
        r matches Err(e) ==> e == MetadataError::InvalidMetadata,
{
    let video_duration_ms = match reference_video_duration(ref_media) {
        Ok(d) => d,
        Err(e) => {
            return Err(e);
        },
    };
    match mode {
        OperationMode::Display => {
            match crate::display::display(media, video_duration_ms, filter) {
                Ok(lines) => Ok(ProcessOutcome::Report(lines)),
                Err(e) => Err(e),
            }
        },
        OperationMode::Export => {
            match crate::export::export(media, video_duration_ms, filter) {
                Ok(plan) => Ok(ProcessOutcome::Plan(plan)),
                Err(e) => Err(e),
            }
        },
    }
}

} // verus!
