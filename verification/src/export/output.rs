//! Output naming for exported tracks.
//!
//! A derived track file is named `{source stem}_Audio{type order as two
//! digits}.{LANGUAGE or UND}{extension}` and placed either beside the
//! source file or in a configured output directory, so that no two
//! tracks of one source file collide.  The stream selector and codec
//! arguments handed to the transcoder are derived here as well.

use vstd::prelude::*;

use crate::mediainfo::{spec_audio_ext, get_audio_ext, MetadataError, TrackDescriptor};
use crate::text::{
    find_last, last_index_of, push_char, spec_dec_string, spec_two_digit, spec_upper, to_upper,
    two_digit_string, u64_to_string,
};

verus! {

/// The part of a path after its last separator.
pub open spec fn spec_basename(p: Seq<char>) -> Seq<char> {
    p.skip(last_index_of(p, '/') + 1)
}

/// The basename of a path.
pub fn basename(p: &str) -> (r: &str)
    ensures
        r@ == spec_basename(p@),
{
    let n = p.unicode_len();
    match find_last(p, '/') {
        Some(i) => {
            let r = p.substring_char(i + 1, n);
            proof {
                assert(r@ =~= spec_basename(p@));
            }
            r
        },
        None => {
            proof {
                assert(p@ =~= spec_basename(p@));
            }
            p
        },
    }
}

/// The basename of a path without its extension; a name whose only
/// point is its first character keeps it (a bare hidden file has no
/// extension to drop).
pub open spec fn spec_file_stem(p: Seq<char>) -> Seq<char> {
    let b = spec_basename(p);
    let d = last_index_of(b, '.');
    if d <= 0 {
        b
    } else {
        b.take(d)
    }
}

/// The file stem of a path.
pub fn file_stem(p: &str) -> (r: &str)
    ensures
        r@ == spec_file_stem(p@),
{
    let b = basename(p);
    match find_last(b, '.') {
        Some(i) => {
            if i > 0 {
                let r = b.substring_char(0, i);
                proof {
                    assert(r@ =~= spec_file_stem(p@));
                }
                r
            } else {
                b
            }
        },
        None => b,
    }
}

/// `name` placed inside `dir`, with exactly one separator between them;
/// an empty directory leaves the bare name.
pub open spec fn spec_join(dir: Seq<char>, name: Seq<char>) -> Seq<char> {
    if dir.len() == 0 {
        name
    } else if dir.last() == '/' {
        dir + name
    } else {
        dir + seq!['/'] + name
    }
}

/// Joins a directory and a file name.
pub fn join_path(dir: &str, name: &str) -> (r: String)
    ensures
        r@ == spec_join(dir@, name@),
{
    let n = dir.unicode_len();
    if n == 0 {
        let r = name.to_owned();
        return r;
    }
    let mut r = dir.to_owned();
    if dir.get_char(n - 1) != '/' {
        push_char(&mut r, '/');
    }
    r.append(name);
    proof {
        assert(r@ =~= spec_join(dir@, name@));
    }
    r
}

/// The directory an output lands in when no custom directory is
/// configured: everything up to and including the source's last
/// separator (empty for a bare file name).
pub open spec fn spec_parent_dir(input: Seq<char>) -> Seq<char> {
    input.take(last_index_of(input, '/') + 1)
}

/// The stem of a derived track file: source stem, the track's two-digit
/// type order, and its upper-cased language tag (`UND` when absent).
pub open spec fn spec_track_filestem(
    input: Seq<char>,
    type_order: int,
    lang: Option<Seq<char>>,
) -> Seq<char> {
    spec_file_stem(input) + "_Audio"@ + spec_two_digit(type_order) + "."@ + match lang {
        Some(l) => spec_upper(l),
        None => "UND"@,
    }
}

/// Builds the stem of a track's output file name.  Needs the track's
/// type order; its absence is fatal for the file.
pub fn create_track_filestem(input_file: &str, track: &TrackDescriptor) -> (r: Result<
    String,
    MetadataError,
>)
    ensures
        r is Ok <==> track.type_order is Some,
        r matches Ok(v) ==> v@ == spec_track_filestem(
            input_file@,
            track.type_order->0 as int,
            track.language.deep_view(),
        ),
        r matches Err(e) ==> e == MetadataError::InvalidMetadata,
{
    let type_order = match &track.type_order {
        Some(v) => *v,
        None => {
            return Err(MetadataError::InvalidMetadata);
        },
    };
    let mut out = file_stem(input_file).to_owned();
    out.append("_Audio");
    let ord = two_digit_string(type_order);
    out.append(ord.as_str());
    out.append(".");
    match &track.language {
        Some(l) => {
            let u = to_upper(l.as_str());
            out.append(u.as_str());
        },
        None => {
            out.append("UND");
        },
    }
    proof {
        assert(out@ =~= spec_track_filestem(
            input_file@,
            track.type_order->0 as int,
            track.language.deep_view(),
        ));
    }
    Ok(out)
}

/// The full output file name of a derived track: its stem plus the
/// extension derived from the audio format.
pub open spec fn spec_track_filename(input: Seq<char>, t: TrackDescriptor) -> Seq<char> {
    spec_track_filestem(input, t.type_order->0 as int, t.language.deep_view())
        + spec_audio_ext(t.format->0@)
}

/// Builds a track's output file name (stem and extension, no
/// directory).  Needs the type order and the audio format.
pub fn create_track_filename(input_file: &str, track: &TrackDescriptor) -> (r: Result<
    String,
    MetadataError,
>)
    ensures
        r is Ok <==> track.type_order is Some && track.format is Some,
        r matches Ok(v) ==> v@ == spec_track_filename(input_file@, *track),
        r matches Err(e) ==> e == MetadataError::InvalidMetadata,
{
    let mut out = match create_track_filestem(input_file, track) {
        Ok(v) => v,
        Err(e) => {
            return Err(e);
        },
    };
    let format = match &track.format {
        Some(f) => f,
        None => {
            return Err(MetadataError::InvalidMetadata);
        },
    };
    let ext = get_audio_ext(format.as_str());
    out.append(ext.as_str());
    Ok(out)
}

/// The full output path of a derived track: its file name inside the
/// custom output directory when one is configured, else beside the
/// source file.
pub open spec fn spec_track_filepath(
    input: Seq<char>,
    t: TrackDescriptor,
    custom_dir: Option<Seq<char>>,
) -> Seq<char> {
    match custom_dir {
        Some(d) => spec_join(d, spec_track_filename(input, t)),
        None => spec_parent_dir(input) + spec_track_filename(input, t),
    }
}

/// Builds a track's full output path.  The application must have
/// created the custom output directory before the path is used.
pub fn create_track_filepath(
    input_file: &str,
    track: &TrackDescriptor,
    custom_dir: &Option<String>,
) -> (r: Result<String, MetadataError>)
    ensures
        r is Ok <==> track.type_order is Some && track.format is Some,
        r matches Ok(v) ==> v@ == spec_track_filepath(
            input_file@,
            *track,
            custom_dir.deep_view(),
        ),
        r matches Err(e) ==> e == MetadataError::InvalidMetadata,
{
    let name = match create_track_filename(input_file, track) {
        Ok(v) => v,
        Err(e) => {
            return Err(e);
        },
    };
    match custom_dir {
        Some(d) => Ok(join_path(d.as_str(), name.as_str())),
        None => {
            // The length pins the view's size, so the slice bound below
            // cannot overflow.
            let _len = input_file.unicode_len();
            let mut out;
            match find_last(input_file, '/') {
                Some(i) => {
                    out = input_file.substring_char(0, i + 1).to_owned();
                },
                None => {
                    out = String::new();
                },
            }
            proof {
                assert(out@ =~= spec_parent_dir(input_file@));
            }
            out.append(name.as_str());
            Ok(out)
        },
    }
}

/// The stream-selector arguments for one audio track: its zero-based
/// position among the audio streams.
pub open spec fn spec_map_args(type_order: int) -> Seq<Seq<char>> {
    seq!["-map"@, "0:a:"@ + spec_dec_string(type_order - 1)]
}

/// Builds the stream-selector arguments for a track.  Needs the track's
/// type order; its absence is fatal for the file.
pub fn get_map_args(track: &TrackDescriptor) -> (r: Result<Vec<String>, MetadataError>)
    requires
        track.wf(),
    ensures
        r is Ok <==> track.type_order is Some,
        r matches Ok(v) ==> v.deep_view() == spec_map_args(track.type_order->0 as int),
        r matches Err(e) ==> e == MetadataError::InvalidMetadata,
{
    let type_order = match &track.type_order {
        Some(v) => *v,
        None => {
            return Err(MetadataError::InvalidMetadata);
        },
    };
    let mut sel = String::from_str("0:a:");
    let idx = u64_to_string(type_order - 1);
    sel.append(idx.as_str());
    let mut v: Vec<String> = Vec::new();
    v.push(String::from_str("-map"));
    v.push(sel);
    proof {
        assert(v.deep_view() =~~= spec_map_args(track.type_order->0 as int));
    }
    Ok(v)
}

/// The codec arguments a compression mode dictates: a lossy track is
/// stream-copied, a lossless track is re-encoded with the format's
/// defaults, and any other mode is refused rather than guessed at.
pub open spec fn spec_codec_args(mode: Option<Seq<char>>) -> Result<Seq<Seq<char>>, MetadataError> {
    match mode {
        None => Err(MetadataError::InvalidMetadata),
        Some(m) => {
            if m == "Lossy"@ {
                Ok(seq!["-c:a"@, "copy"@])
            } else if m == "Lossless"@ {
                Ok(Seq::empty())
            } else {
                Err(MetadataError::InvalidTrackMetadata)
            }
        },
    }
}

/// Builds the codec arguments for a track.  An unrecognized compression
/// mode fails that track's export alone; a missing one is fatal for the
/// file.
pub fn get_codec_args(track: &TrackDescriptor) -> (r: Result<Vec<String>, MetadataError>)
    ensures
        r is Ok <==> spec_codec_args(track.compression_mode.deep_view()) is Ok,
        r matches Ok(v) ==> v.deep_view() == spec_codec_args(
            track.compression_mode.deep_view(),
        )->Ok_0,
        r matches Err(e) ==> e == spec_codec_args(track.compression_mode.deep_view())->Err_0,
{
    let mode = match &track.compression_mode {
        Some(m) => m,
        None => {
            return Err(MetadataError::InvalidMetadata);
        },
    };
    if crate::text::str_eq(mode.as_str(), "Lossy") {
        let mut v: Vec<String> = Vec::new();
        v.push(String::from_str("-c:a"));
        v.push(String::from_str("copy"));
        proof {
            assert(v.deep_view() =~~= spec_codec_args(
                track.compression_mode.deep_view(),
            )->Ok_0);
        }
        Ok(v)
    } else if crate::text::str_eq(mode.as_str(), "Lossless") {
        let v: Vec<String> = Vec::new();
        proof {
            assert(v.deep_view() =~~= spec_codec_args(
                track.compression_mode.deep_view(),
            )->Ok_0);
        }
        Ok(v)
    } else {
        Err(MetadataError::InvalidTrackMetadata)
    }
}

} // verus!
