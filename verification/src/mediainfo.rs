//! Strongly typed track metadata.
//!
//! The external metadata probe hands the application a loosely typed tree
//! of string fields per track.  The application copies the fields of
//! interest verbatim into [`RawTrack`] records; [`validate_media`] parses
//! and checks them once, at the boundary, into [`MediaDescriptor`] /
//! [`TrackDescriptor`] values that the rest of the library works on.  A
//! present-but-unparsable numeric field is fatal for the whole file
//! ([`MetadataError::InvalidMetadata`]).

use vstd::prelude::*;

use crate::duration::{parse_duration_ms, spec_duration_ms, spec_duration_wf};
use crate::text::{all_digits, dec_value, parse_u64, spec_lower, str_eq, to_lower};

verus! {

/// The class of one stream inside a container.
#[derive(Debug, Clone, Copy, PartialEq, Eq, Structural)]
pub enum TrackKind {
    Video,
    Audio,
    Other,
}

/// Fatal metadata faults.
#[derive(Debug, Clone, Copy, PartialEq, Eq, Structural)]
pub enum MetadataError {
    /// A required field is missing or unparsable: fatal for the file.
    InvalidMetadata,
    /// A compression mode is present but not a recognized value: fatal
    /// for that track's export only.
    InvalidTrackMetadata,
}

/// One track's fields as the probe reported them, still unparsed.  A
/// `None` field was absent from the probe output.
#[derive(Debug, Clone, PartialEq, Eq)]
pub struct RawTrack {
    /// The track class name (`"Video"`, `"Audio"`, ...).
    pub track_type: Option<String>,
    /// The container-wide track identifier, a decimal string.
    pub id: Option<String>,
    /// One-based position among same-kind tracks, a decimal string.
    pub type_order: Option<String>,
    /// Duration in decimal seconds.
    pub duration: Option<String>,
    /// Language tag.
    pub language: Option<String>,
    /// Audio format / codec name.
    pub format: Option<String>,
    /// Compression mode name (`"Lossy"` or `"Lossless"` when recognized).
    pub compression_mode: Option<String>,
}

/// One container's metadata as reported, still unparsed.
#[derive(Debug, Clone, PartialEq, Eq)]
pub struct RawMedia {
    /// The path of the probed file, as the probe recorded it.
    pub ref_path: String,
    pub tracks: Vec<RawTrack>,
}

/// One track's metadata, parsed and checked.
#[derive(Debug, Clone, PartialEq, Eq)]
pub struct TrackDescriptor {
    pub kind: TrackKind,
    pub id: Option<u64>,
    /// One-based position among same-kind tracks; at least 1 when present.
    pub type_order: Option<u64>,
    /// Duration in milliseconds.
    pub duration_ms: Option<u64>,
    pub language: Option<String>,
    pub format: Option<String>,
    pub compression_mode: Option<String>,
}

impl TrackDescriptor {
    /// Internal consistency: a type order, being one-based, is never zero.
    pub open spec fn wf(self) -> bool {
        self.type_order matches Some(n) ==> n >= 1
    }
}

/// One container's metadata, parsed and checked.
#[derive(Debug, Clone, PartialEq, Eq)]
pub struct MediaDescriptor {
    /// The path of the probed file, as the probe recorded it.
    pub ref_path: String,
    pub tracks: Vec<TrackDescriptor>,
}

impl MediaDescriptor {
    pub open spec fn wf(self) -> bool {
        forall|i: int| 0 <= i < self.tracks@.len() ==> (#[trigger] self.tracks@[i]).wf()
    }
}

/// The class a track-type name denotes.
pub open spec fn spec_track_kind(t: Option<Seq<char>>) -> TrackKind {
    if t == Some("Video"@) {
        TrackKind::Video
    } else if t == Some("Audio"@) {
        TrackKind::Audio
    } else {
        TrackKind::Other
    }
}

/// An absent or digit-string field whose value fits in `u64`.
pub open spec fn opt_u64_valid(o: Option<Seq<char>>) -> bool {
    o matches Some(s) ==> s.len() > 0 && all_digits(s) && dec_value(s) <= u64::MAX
}

/// A one-based ordinal field: absent, or a digit string of value at
/// least one.
pub open spec fn opt_order_valid(o: Option<Seq<char>>) -> bool {
    o matches Some(s) ==> s.len() > 0 && all_digits(s) && 1 <= dec_value(s) <= u64::MAX
}

/// A duration field: absent, or well-formed decimal seconds whose
/// millisecond count fits in `u64`.
pub open spec fn opt_duration_valid(o: Option<Seq<char>>) -> bool {
    o matches Some(s) ==> spec_duration_wf(s) && spec_duration_ms(s) <= u64::MAX
}

/// All numeric fields of the raw track parse.
pub open spec fn track_valid(raw: RawTrack) -> bool {
    &&& opt_u64_valid(raw.id.deep_view())
    &&& opt_order_valid(raw.type_order.deep_view())
    &&& opt_duration_valid(raw.duration.deep_view())
}

/// The parsed value of an absent-or-digit-string field.
pub open spec fn spec_opt_u64(o: Option<Seq<char>>) -> Option<u64> {
    match o {
        None => None,
        Some(s) => Some(dec_value(s) as u64),
    }
}

/// The parsed value of an absent-or-duration field, in milliseconds.
pub open spec fn spec_opt_duration(o: Option<Seq<char>>) -> Option<u64> {
    match o {
        None => None,
        Some(s) => Some(spec_duration_ms(s) as u64),
    }
}

/// How a parsed descriptor reflects its raw track.
pub open spec fn track_matches(t: TrackDescriptor, raw: RawTrack) -> bool {
    &&& t.kind == spec_track_kind(raw.track_type.deep_view())
    &&& t.id == spec_opt_u64(raw.id.deep_view())
    &&& t.type_order == spec_opt_u64(raw.type_order.deep_view())
    &&& t.duration_ms == spec_opt_duration(raw.duration.deep_view())
    &&& t.language.deep_view() == raw.language.deep_view()
    &&& t.format.deep_view() == raw.format.deep_view()
    &&& t.compression_mode.deep_view() == raw.compression_mode.deep_view()
}

fn clone_opt_string(o: &Option<String>) -> (r: Option<String>)
    ensures
        r.deep_view() == o.deep_view(),
{
    match o {
        None => None,
        Some(s) => Some(s.clone()),
    }
}

/// Parses one raw track.  Succeeds exactly when every numeric field that
/// is present parses (and a type order is at least one); any other state
/// of the metadata is fatal for the file.
pub fn validate_track(raw: &RawTrack) -> (r: Result<TrackDescriptor, MetadataError>)
    ensures
        r is Ok <==> track_valid(*raw),
        r matches Ok(t) ==> track_matches(t, *raw) && t.wf(),
        r matches Err(e) ==> e == MetadataError::InvalidMetadata,
{
    let kind = match &raw.track_type {
        Some(s) => {
            if str_eq(s.as_str(), "Video") {
                TrackKind::Video
            } else if str_eq(s.as_str(), "Audio") {
                TrackKind::Audio
            } else {
                TrackKind::Other
            }
        },
        None => TrackKind::Other,
    };
    let id = match &raw.id {
        None => None,
        Some(s) => match parse_u64(s.as_str()) {
            Some(v) => Some(v),
            None => {
                return Err(MetadataError::InvalidMetadata);
            },
        },
    };
    let type_order = match &raw.type_order {
        None => None,
        Some(s) => match parse_u64(s.as_str()) {
            Some(v) => {
                if v >= 1 {
                    Some(v)
                } else {
                    proof {
                        crate::text::lemma_dec_value_nonneg(s@);
                    }
                    return Err(MetadataError::InvalidMetadata);
                }
            },
            None => {
                return Err(MetadataError::InvalidMetadata);
            },
        },
    };
    let duration_ms = match &raw.duration {
        None => None,
        Some(s) => match parse_duration_ms(s.as_str()) {
            Some(v) => Some(v),
            None => {
                return Err(MetadataError::InvalidMetadata);
            },
        },
    };
    Ok(TrackDescriptor {
        kind,
        id,
        type_order,
        duration_ms,
        language: clone_opt_string(&raw.language),
        format: clone_opt_string(&raw.format),
        compression_mode: clone_opt_string(&raw.compression_mode),
    })
}

/// Parses a whole container's metadata; fails on the first invalid track.
pub fn validate_media(raw: &RawMedia) -> (r: Result<MediaDescriptor, MetadataError>)
    ensures
        r is Ok <==> (forall|i: int|
            0 <= i < raw.tracks@.len() ==> track_valid(#[trigger] raw.tracks@[i])),
        r matches Ok(m) ==> {
            &&& m.ref_path@ == raw.ref_path@
            &&& m.tracks@.len() == raw.tracks@.len()
            &&& forall|i: int|
                0 <= i < m.tracks@.len() ==> track_matches(
                    #[trigger] m.tracks@[i],
                    raw.tracks@[i],
                )
            &&& m.wf()
        },
        r matches Err(e) ==> e == MetadataError::InvalidMetadata,
{
    let n = raw.tracks.len();
    let mut tracks: Vec<TrackDescriptor> = Vec::new();
    let mut i: usize = 0;
    while i < n
        invariant
            n == raw.tracks@.len(),
            0 <= i <= n,
            tracks@.len() == i,
            forall|j: int| 0 <= j < i ==> track_valid(#[trigger] raw.tracks@[j]),
            forall|j: int|
                0 <= j < i ==> track_matches(#[trigger] tracks@[j], raw.tracks@[j])
                    && tracks@[j].wf(),
        decreases n - i,
    {
        match validate_track(&raw.tracks[i]) {
            Ok(t) => {
                tracks.push(t);
            },
            Err(e) => {
                return Err(e);
            },
        }
        i = i + 1;
    }
    Ok(MediaDescriptor { ref_path: raw.ref_path.clone(), tracks })
}

/// The probe's JSON output, decoded.  The tree is opaque here: nothing
/// is assumed of what it holds, and everything read out of it goes
/// through [`validate_media`] before the rest of the library sees it.
#[verifier::external_type_specification]
#[verifier::external_body]
pub struct ExJsonValue(serde_json::Value);

/// Relies on `serde_json::from_str`: decodes JSON text into a value
/// tree; `None` when the text is not valid JSON.
#[verifier::external_body]
fn parse_json(text: &str) -> (r: Option<serde_json::Value>)
{
    serde_json::from_str::<serde_json::Value>(text).ok()
}

/// Relies on `serde_json::Value::get`: looks a key up in a JSON map;
/// `None` when the value is no map or has no such key.
#[verifier::external_body]
fn json_get<'a>(v: &'a serde_json::Value, key: &str) -> (r: Option<&'a serde_json::Value>)
{
    v.get(key)
}

/// Relies on `serde_json::Value::as_str`: the string a JSON string
/// value holds; `None` for any other kind of value.
#[verifier::external_body]
fn json_str(v: &serde_json::Value) -> (r: Option<String>)
{
    v.as_str().map(|s| s.to_owned())
}

/// Relies on `serde_json::Value::as_array`: the elements of a JSON
/// array value; `None` for any other kind of value.
#[verifier::external_body]
fn json_array(v: &serde_json::Value) -> (r: Option<&Vec<serde_json::Value>>)
{
    v.as_array()
}

fn json_field(track: &serde_json::Value, key: &str) -> Option<String> {
    match json_get(track, key) {
        Some(v) => json_str(v),
        None => None,
    }
}

fn raw_track_from_json(track: &serde_json::Value) -> RawTrack {
    RawTrack {
        track_type: json_field(track, "@type"),
        id: json_field(track, "ID"),
        type_order: json_field(track, "@typeorder"),
        duration: json_field(track, "Duration"),
        language: json_field(track, "Language"),
        format: json_field(track, "Format"),
        compression_mode: json_field(track, "Compression_Mode"),
    }
}

/// Reads the probe's JSON report into raw track records: the file path
/// under `media.@ref` and, per entry of `media.track`, the track fields
/// this tool reads, verbatim and unparsed.  `None` when the text is not
/// valid JSON or not shaped like a probe report; nothing more can be
/// promised of an arbitrary tree, so all checking happens afterwards in
/// [`validate_media`].
pub fn media_from_json(text: &str) -> Option<RawMedia> {
    let root = match parse_json(text) {
        Some(v) => v,
        None => {
            return None;
        },
    };
    let media = match json_get(&root, "media") {
        Some(v) => v,
        None => {
            return None;
        },
    };
    let ref_path = match json_field(media, "@ref") {
        Some(p) => p,
        None => {
            return None;
        },
    };
    let track_list = match json_get(media, "track") {
        Some(v) => v,
        None => {
            return None;
        },
    };
    let arr = match json_array(track_list) {
        Some(a) => a,
        None => {
            return None;
        },
    };
    let n = arr.len();
    let mut tracks: Vec<RawTrack> = Vec::new();
    let mut i: usize = 0;
    while i < n
        invariant
            n == arr@.len(),
            0 <= i <= n,
        decreases n - i,
    {
        tracks.push(raw_track_from_json(&arr[i]));
        i = i + 1;
    }
    Some(RawMedia { ref_path, tracks })
}

/// The file extension derived from an audio format name: `pcm` becomes
/// `.wav`; any other format becomes a point and its lower-cased name.
pub open spec fn spec_audio_ext(format: Seq<char>) -> Seq<char> {
    if spec_lower(format) == "pcm"@ {
        ".wav"@
    } else {
        seq!['.'] + spec_lower(format)
    }
}

/// Derives the output file extension for an audio format.
pub fn get_audio_ext(format: &str) -> (r: String)
    ensures
        r@ == spec_audio_ext(format@),
{
    let lower = to_lower(format);
    if str_eq(lower.as_str(), "pcm") {
        let r = String::from_str(".wav");
        r
    } else {
        let mut r = String::from_str(".");
        r.append(lower.as_str());
        proof {
            reveal_strlit(".");
            assert(r@ =~= spec_audio_ext(format@));
        }
        r
    }
}

} // verus!
