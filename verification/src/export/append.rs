//! The append repair: padding a short audio track with silence.
//!
//! A lossy track cannot be padded in place without re-encoding, so it is
//! stream-copied to a temporary file, a matching silence segment is
//! generated, and the two are concatenated by stream copy.  A lossless
//! track is padded in a single re-encode pass instead.  The silence
//! segment's sample rate and channel layout come from a secondary probe
//! of the source stream; when that probe fails or returns unparsable
//! output, the repair falls back to 48000 Hz stereo and the caller is
//! told to warn, rather than giving the track up.

use vstd::prelude::*;

use crate::duration::{format_seconds, spec_format_seconds};
use crate::export::output::{
    create_track_filename, create_track_filepath, create_track_filestem, get_codec_args,
    get_map_args, spec_codec_args, spec_join, spec_map_args, spec_track_filename,
    spec_track_filepath, spec_track_filestem, join_path,
};
use crate::export::ToolCommand;
use crate::mediainfo::{get_audio_ext, spec_audio_ext, MetadataError, TrackDescriptor};
use crate::text::{
    all_digits, dec_value, find_first, first_index_of, parse_u64, spec_dec_string, spec_trim,
    str_eq, trim_blanks, u64_to_string,
};

verus! {

/// The sample format of a generated silence segment.
#[derive(Debug, Clone, PartialEq, Eq)]
pub struct SilenceSpec {
    /// Sample rate in Hz; positive.
    pub sample_rate: u64,
    /// Channel layout name, as the transcoder names layouts.
    pub channel_layout: String,
}

/// The sample rate used when the probe cannot supply one.
pub const DEFAULT_SAMPLE_RATE: u64 = 48000;

/// The probe argument list that asks for one field of one audio stream,
/// as bare comma-separated values.
pub open spec fn spec_stream_probe_args(
    input: Seq<char>,
    type_order: int,
    entry: Seq<char>,
) -> Seq<Seq<char>> {
    seq![
        "-v"@,
        "error"@,
        "-select_streams"@,
        "a:"@ + spec_dec_string(type_order - 1),
        "-show_entries"@,
        entry,
        "-of"@,
        "csv=p=0"@,
        input,
    ]
}

fn stream_probe_command(input_file: &str, track: &TrackDescriptor, entry: &str) -> (r: Result<
    ToolCommand,
    MetadataError,
>)
    requires
        track.wf(),
    ensures
        r is Ok <==> track.type_order is Some,
        r matches Ok(c) ==> c.program@ == "ffprobe"@ && c.args.deep_view()
            == spec_stream_probe_args(input_file@, track.type_order->0 as int, entry@),
        r matches Err(e) ==> e == MetadataError::InvalidMetadata,
{
    let type_order = match &track.type_order {
        Some(v) => *v,
        None => {
            return Err(MetadataError::InvalidMetadata);
        },
    };
    let mut sel = String::from_str("a:");
    let idx = u64_to_string(type_order - 1);
    sel.append(idx.as_str());
    let mut args: Vec<String> = Vec::new();
    args.push(String::from_str("-v"));
    args.push(String::from_str("error"));
    args.push(String::from_str("-select_streams"));
    args.push(sel);
    args.push(String::from_str("-show_entries"));
    args.push(entry.to_owned());
    args.push(String::from_str("-of"));
    args.push(String::from_str("csv=p=0"));
    args.push(input_file.to_owned());
    proof {
        assert(args.deep_view() =~~= spec_stream_probe_args(
            input_file@,
            track.type_order->0 as int,
            entry@,
        ));
    }
    Ok(ToolCommand { program: String::from_str("ffprobe"), args })
}

/// Builds the probe invocation that asks for the track's sample rate.
pub fn samplerate_probe_command(input_file: &str, track: &TrackDescriptor) -> (r: Result<
    ToolCommand,
    MetadataError,
>)
    requires
        track.wf(),
    ensures
        r is Ok <==> track.type_order is Some,
        r matches Ok(c) ==> c.program@ == "ffprobe"@ && c.args.deep_view()
            == spec_stream_probe_args(
            input_file@,
            track.type_order->0 as int,
            "stream=sample_rate"@,
        ),
        r matches Err(e) ==> e == MetadataError::InvalidMetadata,
{
    stream_probe_command(input_file, track, "stream=sample_rate")
}

/// Builds the probe invocation that asks for the track's channel layout.
pub fn channel_layout_probe_command(input_file: &str, track: &TrackDescriptor) -> (r: Result<
    ToolCommand,
    MetadataError,
>)
    requires
        track.wf(),
    ensures
        r is Ok <==> track.type_order is Some,
        r matches Ok(c) ==> c.program@ == "ffprobe"@ && c.args.deep_view()
            == spec_stream_probe_args(
            input_file@,
            track.type_order->0 as int,
            "stream=channel_layout"@,
        ),
        r matches Err(e) ==> e == MetadataError::InvalidMetadata,
{
    stream_probe_command(input_file, track, "stream=channel_layout")
}

/// The sample rate read from probe output: the trimmed output as a
/// positive decimal number, or the default with a warning.
pub open spec fn spec_resolve_samplerate(o: Option<Seq<char>>) -> (u64, bool) {
    match o {
        None => (DEFAULT_SAMPLE_RATE, true),
        Some(s) => {
            let t = spec_trim(s);
            if t.len() > 0 && all_digits(t) && 1 <= dec_value(t) <= u64::MAX {
                (dec_value(t) as u64, false)
            } else {
                (DEFAULT_SAMPLE_RATE, true)
            }
        },
    }
}

/// Reads a sample rate out of probe output; `None` stands for a probe
/// that failed outright.  The second component asks the caller to warn
/// that the default was substituted.
pub fn resolve_samplerate(probe_output: &Option<String>) -> (r: (u64, bool))
    ensures
        r == spec_resolve_samplerate(probe_output.deep_view()),
{
    match probe_output {
        None => (DEFAULT_SAMPLE_RATE, true),
        Some(s) => {
            let t = trim_blanks(s.as_str());
            match parse_u64(t) {
                Some(v) => {
                    if v >= 1 {
                        proof {
                            crate::text::lemma_dec_value_nonneg(t@);
                        }
                        (v, false)
                    } else {
                        (DEFAULT_SAMPLE_RATE, true)
                    }
                },
                None => (DEFAULT_SAMPLE_RATE, true),
            }
        },
    }
}

/// The channel layout read from probe output: the trimmed output up to
/// any parenthesized qualifier, or `stereo` with a warning.
pub open spec fn spec_resolve_channel_layout(o: Option<Seq<char>>) -> (Seq<char>, bool) {
    match o {
        None => ("stereo"@, true),
        Some(s) => {
            let t = spec_trim(s);
            let p = first_index_of(t, '(');
            let cut = if p >= 0 {
                t.take(p)
            } else {
                t
            };
            if cut.len() > 0 {
                (cut, false)
            } else {
                ("stereo"@, true)
            }
        },
    }
}

/// Reads a channel layout out of probe output; `None` stands for a
/// probe that failed outright.  The second component asks the caller to
/// warn that the default was substituted.
pub fn resolve_channel_layout(probe_output: &Option<String>) -> (r: (String, bool))
    ensures
        (r.0@, r.1) == spec_resolve_channel_layout(probe_output.deep_view()),
{
    match probe_output {
        None => (String::from_str("stereo"), true),
        Some(s) => {
            let t = trim_blanks(s.as_str());
            let cut = match find_first(t, '(') {
                Some(p) => t.substring_char(0, p),
                None => t,
            };
            proof {
                assert(cut@ =~= {
                    let tt = spec_trim(s@);
                    let p = first_index_of(tt, '(');
                    if p >= 0 {
                        tt.take(p)
                    } else {
                        tt
                    }
                });
            }
            if cut.unicode_len() > 0 {
                (cut.to_owned(), false)
            } else {
                (String::from_str("stereo"), true)
            }
        },
    }
}

/// Combines the two probe results into the silence segment's format,
/// falling back to 48000 Hz stereo wherever a probe came back unusable.
pub fn resolve_silence_spec(rate_output: &Option<String>, layout_output: &Option<String>) -> (r: (
    SilenceSpec,
    bool,
))
    ensures
        r.0.sample_rate == spec_resolve_samplerate(rate_output.deep_view()).0,
        r.0.channel_layout@ == spec_resolve_channel_layout(layout_output.deep_view()).0,
        r.1 == (spec_resolve_samplerate(rate_output.deep_view()).1 || spec_resolve_channel_layout(
            layout_output.deep_view(),
        ).1),
{
    let (rate, rate_warn) = resolve_samplerate(rate_output);
    let (layout, layout_warn) = resolve_channel_layout(layout_output);
    (SilenceSpec { sample_rate: rate, channel_layout: layout }, rate_warn || layout_warn)
}

/// Where a track's silence segment lands inside the temporary
/// directory: the track's file stem, a `.silence` mark, and the
/// track's own extension.
pub open spec fn spec_silence_path(tmp_dir: Seq<char>, input: Seq<char>, t: TrackDescriptor)
    -> Seq<char> {
    spec_join(
        tmp_dir,
        spec_track_filestem(input, t.type_order->0 as int, t.language.deep_view()) + ".silence"@
            + spec_audio_ext(t.format->0@),
    )
}

/// The argument list that generates a silence segment of the given
/// format and exact duration.
pub open spec fn spec_generate_silence_args(
    silence_ms: int,
    s: SilenceSpec,
    silence_path: Seq<char>,
) -> Seq<Seq<char>> {
    seq![
        "-f"@,
        "lavfi"@,
        "-i"@,
        "anullsrc=channel_layout="@ + s.channel_layout@ + ":sample_rate="@ + spec_dec_string(
            s.sample_rate as int,
        ),
        "-t"@,
        spec_format_seconds(silence_ms),
        silence_path,
    ]
}

/// Builds the invocation that generates the silence segment for a
/// track, and the path the segment lands at.
pub fn generate_silence(
    input_file: &str,
    track: &TrackDescriptor,
    silence_ms: u64,
    spec: &SilenceSpec,
    tmp_dir: &str,
) -> (r: Result<(ToolCommand, String), MetadataError>)
    requires
        track.wf(),
    ensures
        r is Ok <==> track.type_order is Some && track.format is Some,
        r matches Ok(p) ==> {
            &&& p.1@ == spec_silence_path(tmp_dir@, input_file@, *track)
            &&& p.0.program@ == "ffmpeg"@
            &&& p.0.args.deep_view() == spec_generate_silence_args(
                silence_ms as int,
                *spec,
                p.1@,
            )
        },
        r matches Err(e) ==> e == MetadataError::InvalidMetadata,
{
    let mut name = match create_track_filestem(input_file, track) {
        Ok(v) => v,
        Err(e) => {
            return Err(e);
        },
    };
    let format = match &track.format {
        Some(f) => f,
        None => {
            return Err(MetadataError::InvalidMetadata);
        },
    };
    name.append(".silence");
    let ext = get_audio_ext(format.as_str());
    name.append(ext.as_str());
    let silence_path = join_path(tmp_dir, name.as_str());

    let mut src = String::from_str("anullsrc=channel_layout=");
    src.append(spec.channel_layout.as_str());
    src.append(":sample_rate=");
    let rate = u64_to_string(spec.sample_rate);
    src.append(rate.as_str());

    let mut args: Vec<String> = Vec::new();
    args.push(String::from_str("-f"));
    args.push(String::from_str("lavfi"));
    args.push(String::from_str("-i"));
    args.push(src);
    args.push(String::from_str("-t"));
    args.push(format_seconds(silence_ms));
    args.push(silence_path.clone());
    proof {
        assert(silence_path@ =~= spec_silence_path(tmp_dir@, input_file@, *track));
        assert(args.deep_view() =~~= spec_generate_silence_args(
            silence_ms as int,
            *spec,
            silence_path@,
        ));
    }
    Ok((ToolCommand { program: String::from_str("ffmpeg"), args }, silence_path))
}

/// The argument list of a verbatim stream-copy export of one track,
/// chapters stripped.
pub open spec fn spec_copy_args(
    input: Seq<char>,
    t: TrackDescriptor,
    out_path: Seq<char>,
    codec: Seq<Seq<char>>,
) -> Seq<Seq<char>> {
    seq!["-y"@, "-i"@, input] + spec_map_args(t.type_order->0 as int) + seq![
        "-map_chapters"@,
        "-1"@,
    ] + codec + seq![out_path]
}

/// Builds the invocation that stream-copies a track into the temporary
/// directory, and the path the copy lands at.
pub fn tmp_export_track(input_file: &str, track: &TrackDescriptor, tmp_dir: &str) -> (r: Result<
    (ToolCommand, String),
    MetadataError,
>)
    requires
        track.wf(),
    ensures
        r is Ok <==> track.type_order is Some && spec_codec_args(
            track.compression_mode.deep_view(),
        ) is Ok && track.format is Some,
        r matches Ok(p) ==> {
            &&& p.1@ == spec_join(tmp_dir@, spec_track_filename(input_file@, *track))
            &&& p.0.program@ == "ffmpeg"@
            &&& p.0.args.deep_view() == spec_copy_args(
                input_file@,
                *track,
                p.1@,
                spec_codec_args(track.compression_mode.deep_view())->Ok_0,
            )
        },
        r matches Err(e) ==> {
            if track.type_order is None {
                e == MetadataError::InvalidMetadata
            } else if spec_codec_args(track.compression_mode.deep_view()) is Err {
                e == spec_codec_args(track.compression_mode.deep_view())->Err_0
            } else {
                e == MetadataError::InvalidMetadata
            }
        },
{
    let mut map_args = match get_map_args(track) {
        Ok(v) => v,
        Err(e) => {
            return Err(e);
        },
    };
    let mut codec_args = match get_codec_args(track) {
        Ok(v) => v,
        Err(e) => {
            return Err(e);
        },
    };
    let name = match create_track_filename(input_file, track) {
        Ok(v) => v,
        Err(e) => {
            return Err(e);
        },
    };
    let out_path = join_path(tmp_dir, name.as_str());
    let mut args: Vec<String> = Vec::new();
    args.push(String::from_str("-y"));
    args.push(String::from_str("-i"));
    args.push(input_file.to_owned());
    args.append(&mut map_args);
    args.push(String::from_str("-map_chapters"));
    args.push(String::from_str("-1"));
    args.append(&mut codec_args);
    args.push(out_path.clone());
    proof {
        assert(args.deep_view() =~~= spec_copy_args(
            input_file@,
            *track,
            out_path@,
            spec_codec_args(track.compression_mode.deep_view())->Ok_0,
        ));
    }
    Ok((ToolCommand { program: String::from_str("ffmpeg"), args }, out_path))
}

/// The content of the concatenation list file: one `file '...'` line
/// per segment, in order.
pub open spec fn spec_concat_manifest(files: Seq<Seq<char>>) -> Seq<char>
    decreases files.len(),
{
    if files.len() == 0 {
        Seq::empty()
    } else {
        spec_concat_manifest(files.drop_last()) + "file '"@ + files.last() + "'\n"@
    }
}

/// Renders the concatenation list for the given segment paths.  The
/// caller is expected to pass canonical absolute paths, since the list
/// is resolved by the transcoder relative to the list file.
pub fn concat_manifest(files: &Vec<String>) -> (r: String)
    ensures
        r@ == spec_concat_manifest(files.deep_view()),
{
    let n = files.len();
    let mut out = String::new();
    let mut i: usize = 0;
    while i < n
        invariant
            n == files@.len(),
            0 <= i <= n,
            out@ == spec_concat_manifest(files.deep_view().take(i as int)),
        decreases n - i,
    {
        out.append("file '");
        out.append(files[i].as_str());
        out.append("'\n");
        proof {
            let fv = files.deep_view();
            assert(fv.take(i + 1).drop_last() =~= fv.take(i as int));
            assert(fv.take(i + 1).last() == fv[i as int]);
        }
        i = i + 1;
    }
    proof {
        assert(files.deep_view().take(n as int) =~= files.deep_view());
    }
    out
}

/// The argument list that concatenates the listed segments by stream
/// copy into the output file.
pub open spec fn spec_concat_args(list_path: Seq<char>, out_path: Seq<char>) -> Seq<Seq<char>> {
    seq!["-y"@, "-f"@, "concat"@, "-safe"@, "0"@, "-i"@, list_path, "-c"@, "copy"@, out_path]
}

/// Builds the invocation that concatenates same-format segments listed
/// in `list_path` into `output_file` by stream copy.
pub fn concat_command(list_path: &str, output_file: &str) -> (r: ToolCommand)
    ensures
        r.program@ == "ffmpeg"@,
        r.args.deep_view() == spec_concat_args(list_path@, output_file@),
{
    let mut args: Vec<String> = Vec::new();
    args.push(String::from_str("-y"));
    args.push(String::from_str("-f"));
    args.push(String::from_str("concat"));
    args.push(String::from_str("-safe"));
    args.push(String::from_str("0"));
    args.push(String::from_str("-i"));
    args.push(list_path.to_owned());
    args.push(String::from_str("-c"));
    args.push(String::from_str("copy"));
    args.push(output_file.to_owned());
    proof {
        assert(args.deep_view() =~~= spec_concat_args(list_path@, output_file@));
    }
    ToolCommand { program: String::from_str("ffmpeg"), args }
}

/// The argument list of the in-place pad pass for a lossless track:
/// one re-encode that appends the missing span of silence.
pub open spec fn spec_pad_args(
    input: Seq<char>,
    t: TrackDescriptor,
    silence_ms: int,
    custom_dir: Option<Seq<char>>,
    codec: Seq<Seq<char>>,
) -> Seq<Seq<char>> {
    seq!["-y"@, "-i"@, input] + spec_map_args(t.type_order->0 as int) + seq![
        "-map_chapters"@,
        "-1"@,
        "-af"@,
        "apad=pad_dur="@ + spec_format_seconds(silence_ms),
    ] + codec + seq![spec_track_filepath(input, t, custom_dir)]
}

/// How an append repair is carried out, decided by the track's
/// compression mode.
#[derive(Debug, Clone, PartialEq, Eq)]
pub enum AppendPlan {
    /// Lossy: stream-copy the track to `track_path` inside the
    /// temporary directory, probe the stream's format, generate a
    /// silence segment, and concatenate both into `output_path`.
    Concat {
        tmp_export: ToolCommand,
        track_path: String,
        samplerate_probe: ToolCommand,
        channel_layout_probe: ToolCommand,
        output_path: String,
    },
    /// Lossless: one in-place pad pass.
    Pad(ToolCommand),
}

/// Lays out the append repair for one track: the concatenation route
/// for a lossy track, the in-place pad for a lossless one.  A missing
/// compression mode, type order, or format is fatal for the file; an
/// unrecognized compression mode fails this track's export alone.
pub fn append_silence(
    input_file: &str,
    track: &TrackDescriptor,
    silence_ms: u64,
    output_dir: &Option<String>,
    tmp_dir: &str,
) -> (r: Result<AppendPlan, MetadataError>)
    requires
        track.wf(),
    ensures
        r is Ok <==> track.compression_mode is Some && spec_codec_args(
            track.compression_mode.deep_view(),
        ) is Ok && track.type_order is Some && track.format is Some,
        r matches Ok(AppendPlan::Concat { tmp_export, track_path, samplerate_probe,
        channel_layout_probe, output_path }) ==> {
            &&& track.compression_mode.deep_view() == Some("Lossy"@)
            &&& track_path@ == spec_join(tmp_dir@, spec_track_filename(input_file@, *track))
            &&& tmp_export.program@ == "ffmpeg"@
            &&& tmp_export.args.deep_view() == spec_copy_args(
                input_file@,
                *track,
                track_path@,
                spec_codec_args(track.compression_mode.deep_view())->Ok_0,
            )
            &&& samplerate_probe.program@ == "ffprobe"@
            &&& samplerate_probe.args.deep_view() == spec_stream_probe_args(
                input_file@,
                track.type_order->0 as int,
                "stream=sample_rate"@,
            )
            &&& channel_layout_probe.program@ == "ffprobe"@
            &&& channel_layout_probe.args.deep_view() == spec_stream_probe_args(
                input_file@,
                track.type_order->0 as int,
                "stream=channel_layout"@,
            )
            &&& output_path@ == spec_track_filepath(
                input_file@,
                *track,
                output_dir.deep_view(),
            )
        },
        r matches Ok(AppendPlan::Pad(c)) ==> {
            &&& track.compression_mode.deep_view() matches Some(m) && m != "Lossy"@
            &&& c.program@ == "ffmpeg"@
            &&& c.args.deep_view() == spec_pad_args(
                input_file@,
                *track,
                silence_ms as int,
                output_dir.deep_view(),
                spec_codec_args(track.compression_mode.deep_view())->Ok_0,
            )
        },
        r matches Err(e) ==> {
            if track.compression_mode is None || track.type_order is None {
                e == MetadataError::InvalidMetadata
            } else if spec_codec_args(track.compression_mode.deep_view()) is Err {
                e == spec_codec_args(track.compression_mode.deep_view())->Err_0
            } else {
                e == MetadataError::InvalidMetadata
            }
        },
{
    let mode = match &track.compression_mode {
        Some(m) => m,
        None => {
            return Err(MetadataError::InvalidMetadata);
        },
    };
    if str_eq(mode.as_str(), "Lossy") {
        let (tmp_export, track_path) = match tmp_export_track(input_file, track, tmp_dir) {
            Ok(v) => v,
            Err(e) => {
                return Err(e);
            },
        };
        let samplerate_probe = match samplerate_probe_command(input_file, track) {
            Ok(v) => v,
            Err(e) => {
                return Err(e);
            },
        };
        let channel_layout_probe = match channel_layout_probe_command(input_file, track) {
            Ok(v) => v,
            Err(e) => {
                return Err(e);
            },
        };
        let output_path = match create_track_filepath(input_file, track, output_dir) {
            Ok(v) => v,
            Err(e) => {
                return Err(e);
            },
        };
        Ok(
            AppendPlan::Concat {
                tmp_export,
                track_path,
                samplerate_probe,
                channel_layout_probe,
                output_path,
            },
        )
    } else {
        let mut map_args = match get_map_args(track) {
            Ok(v) => v,
            Err(e) => {
                return Err(e);
            },
        };
        let mut codec_args = match get_codec_args(track) {
            Ok(v) => v,
            Err(e) => {
                return Err(e);
            },
        };
        let out_path = match create_track_filepath(input_file, track, output_dir) {
            Ok(v) => v,
            Err(e) => {
                return Err(e);
            },
        };
        let mut pad = String::from_str("apad=pad_dur=");
        let span = format_seconds(silence_ms);
        pad.append(span.as_str());
        let mut args: Vec<String> = Vec::new();
        args.push(String::from_str("-y"));
        args.push(String::from_str("-i"));
        args.push(input_file.to_owned());
        args.append(&mut map_args);
        args.push(String::from_str("-map_chapters"));
        args.push(String::from_str("-1"));
        args.push(String::from_str("-af"));
        args.push(pad);
        args.append(&mut codec_args);
        args.push(out_path);
        proof {
            assert(args.deep_view() =~~= spec_pad_args(
                input_file@,
                *track,
                silence_ms as int,
                output_dir.deep_view(),
                spec_codec_args(track.compression_mode.deep_view())->Ok_0,
            ));
        }
        Ok(AppendPlan::Pad(ToolCommand { program: String::from_str("ffmpeg"), args }))
    }
}

} // verus!
