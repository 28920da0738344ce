//! The trim repair: one transcoder pass that stream-copies the selected
//! audio track with an output duration limit equal to the reference
//! duration, chapters stripped (their timing would be invalid after the
//! cut).

use vstd::prelude::*;

use crate::duration::{format_seconds, spec_format_seconds};
use crate::export::output::{
    create_track_filepath, get_codec_args, get_map_args, spec_codec_args, spec_map_args,
    spec_track_filepath,
};
use crate::export::ToolCommand;
use crate::mediainfo::{MetadataError, TrackDescriptor};

verus! {

/// The argument list of a trim invocation, or the metadata fault that
/// makes it impossible: a missing type order or format is fatal for the
/// file, an unrecognized compression mode for this track alone.
pub open spec fn spec_trim_args(
    input: Seq<char>,
    t: TrackDescriptor,
    new_duration_ms: int,
    custom_dir: Option<Seq<char>>,
) -> Result<Seq<Seq<char>>, MetadataError> {
    if t.type_order is None {
        Err(MetadataError::InvalidMetadata)
    } else {
        match spec_codec_args(t.compression_mode.deep_view()) {
            Err(e) => Err(e),
            Ok(codec) => {
                if t.format is None {
                    Err(MetadataError::InvalidMetadata)
                } else {
                    Ok(
                        seq!["-y"@, "-t"@, spec_format_seconds(new_duration_ms), "-i"@, input]
                            + spec_map_args(t.type_order->0 as int) + seq![
                            "-map_chapters"@,
                            "-1"@,
                        ] + codec + seq![spec_track_filepath(input, t, custom_dir)],
                    )
                }
            },
        }
    }
}

/// Builds the transcoder invocation that trims a track down to
/// `new_duration_ms`.
pub fn trim_silence(
    input_file: &str,
    track: &TrackDescriptor,
    new_duration_ms: u64,
    output_dir: &Option<String>,
) -> (r: Result<ToolCommand, MetadataError>)
    requires
        track.wf(),
    ensures
        r is Ok <==> spec_trim_args(
            input_file@,
            *track,
            new_duration_ms as int,
            output_dir.deep_view(),
        ) is Ok,
        r matches Ok(c) ==> c.program@ == "ffmpeg"@ && c.args.deep_view() == spec_trim_args(
            input_file@,
            *track,
            new_duration_ms as int,
            output_dir.deep_view(),
        )->Ok_0,
        r matches Err(e) ==> e == spec_trim_args(
            input_file@,
            *track,
            new_duration_ms as int,
            output_dir.deep_view(),
        )->Err_0,
{
    let mut map_args = match get_map_args(track) {
        Ok(v) => v,
        Err(e) => {
            return Err(e);
        },
    };
    let mut codec_args = match get_codec_args(track) {
        Ok(v) => v,
        Err(e) => {
            return Err(e);
        },
    };
    let out_path = match create_track_filepath(input_file, track, output_dir) {
        Ok(v) => v,
        Err(e) => {
            return Err(e);
        },
    };
    let mut args: Vec<String> = Vec::new();
    args.push(String::from_str("-y"));
    args.push(String::from_str("-t"));
    args.push(format_seconds(new_duration_ms));
    args.push(String::from_str("-i"));
    args.push(input_file.to_owned());
    args.append(&mut map_args);
    args.push(String::from_str("-map_chapters"));
    args.push(String::from_str("-1"));
    args.append(&mut codec_args);
    args.push(out_path);
    proof {
        assert(args.deep_view() =~~= spec_trim_args(
            input_file@,
            *track,
            new_duration_ms as int,
            output_dir.deep_view(),
        )->Ok_0);
    }
    Ok(ToolCommand { program: String::from_str("ffmpeg"), args })
}

} // verus!
