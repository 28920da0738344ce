use mkvaudur::export::append::{
    append_silence, concat_command, concat_manifest, generate_silence, resolve_channel_layout,
    resolve_samplerate, resolve_silence_spec, AppendPlan, SilenceSpec, DEFAULT_SAMPLE_RATE,
};
use mkvaudur::export::output::{
    create_track_filename, create_track_filepath, create_track_filestem, get_codec_args,
    get_map_args,
};
use mkvaudur::export::trim::trim_silence;
use mkvaudur::export::{export, export_unchanged};
use mkvaudur::mediainfo::{
    get_audio_ext, validate_media, MediaDescriptor, MetadataError, RawMedia, RawTrack,
    TrackDescriptor, TrackKind,
};
use mkvaudur::reconcile::ReconciliationAction;
use mkvaudur::TrackFilter;

fn audio_track(
    type_order: u64,
    duration_ms: u64,
    language: Option<&str>,
    format: &str,
    mode: &str,
) -> TrackDescriptor {
    TrackDescriptor {
        kind: TrackKind::Audio,
        id: Some(type_order + 1),
        type_order: Some(type_order),
        duration_ms: Some(duration_ms),
        language: language.map(|s| s.to_string()),
        format: Some(format.to_string()),
        compression_mode: Some(mode.to_string()),
    }
}

fn no_filter() -> TrackFilter {
    TrackFilter { treshold: 0, language: None, process_all: false }
}

#[test]
fn audio_extension_rules() {
    assert_eq!(get_audio_ext("pcm"), ".wav");
    assert_eq!(get_audio_ext("PCM"), ".wav");
    assert_eq!(get_audio_ext("FLAC"), ".flac");
    assert_eq!(get_audio_ext("Opus"), ".opus");
}

#[test]
fn output_naming() {
    let t = audio_track(1, 10_000, Some("eng"), "FLAC", "Lossless");
    let stem = create_track_filestem("/media/show.mkv", &t).unwrap();
    assert_eq!(stem, "show_Audio01.ENG");
    let name = create_track_filename("/media/show.mkv", &t).unwrap();
    assert_eq!(name, "show_Audio01.ENG.flac");
    let beside = create_track_filepath("/media/show.mkv", &t, &None).unwrap();
    assert_eq!(beside, "/media/show_Audio01.ENG.flac");
    let custom = create_track_filepath(
        "/media/show.mkv",
        &t,
        &Some("/tmp/out".to_string()),
    )
    .unwrap();
    assert_eq!(custom, "/tmp/out/show_Audio01.ENG.flac");
}

#[test]
fn output_naming_without_language_or_directory() {
    let t = audio_track(2, 10_000, None, "pcm", "Lossy");
    let name = create_track_filename("show.mkv", &t).unwrap();
    assert_eq!(name, "show_Audio02.UND.wav");
    let beside = create_track_filepath("show.mkv", &t, &None).unwrap();
    assert_eq!(beside, "show_Audio02.UND.wav");
}

#[test]
fn map_and_codec_arguments() {
    let t = audio_track(1, 10_000, None, "AAC", "Lossy");
    assert_eq!(get_map_args(&t).unwrap(), vec!["-map", "0:a:0"]);
    assert_eq!(get_codec_args(&t).unwrap(), vec!["-c:a", "copy"]);
    let l = audio_track(3, 10_000, None, "FLAC", "Lossless");
    assert_eq!(get_map_args(&l).unwrap(), vec!["-map", "0:a:2"]);
    assert_eq!(get_codec_args(&l).unwrap(), Vec::<String>::new());
}

// An unknown compression mode fails that track's export with
// InvalidTrackMetadata; the system refuses to guess a codec strategy.
#[test]
fn unknown_compression_mode_is_refused() {
    let t = audio_track(1, 10_000, None, "AAC", "Hybrid");
    assert_eq!(get_codec_args(&t), Err(MetadataError::InvalidTrackMetadata));
    assert_eq!(
        trim_silence("a.mkv", &t, 8_000, &None),
        Err(MetadataError::InvalidTrackMetadata)
    );
    assert_eq!(
        append_silence("a.mkv", &t, 6_000, &None, "/tmp/work"),
        Err(MetadataError::InvalidTrackMetadata)
    );
}

// One track with a bad compression mode does not stop the others: the
// plan still lists every audio track, and the good track's commands
// still build.
#[test]
fn bad_track_does_not_stop_the_file() {
    let bad = audio_track(1, 2_000, None, "AAC", "Hybrid");
    let good = audio_track(2, 2_000, None, "FLAC", "Lossless");
    let media = MediaDescriptor {
        ref_path: "/in/file.mkv".to_string(),
        tracks: vec![bad.clone(), good.clone()],
    };
    let plan = export(&media, 8_000, &no_filter()).unwrap();
    assert_eq!(plan.tracks.len(), 2);
    assert_eq!(plan.tracks[0].action, ReconciliationAction::Append(6_000));
    assert_eq!(plan.tracks[1].action, ReconciliationAction::Append(6_000));
    assert_eq!(
        append_silence("/in/file.mkv", &bad, 6_000, &None, "/t"),
        Err(MetadataError::InvalidTrackMetadata)
    );
    assert!(append_silence("/in/file.mkv", &good, 6_000, &None, "/t").is_ok());
}

#[test]
fn trim_command_arguments() {
    let t = audio_track(1, 10_000, Some("eng"), "AAC", "Lossy");
    let cmd = trim_silence("/in/video.mkv", &t, 8_000, &None).unwrap();
    assert_eq!(cmd.program, "ffmpeg");
    assert_eq!(
        cmd.args,
        vec![
            "-y",
            "-t",
            "8",
            "-i",
            "/in/video.mkv",
            "-map",
            "0:a:0",
            "-map_chapters",
            "-1",
            "-c:a",
            "copy",
            "/in/video_Audio01.ENG.aac",
        ]
    );
}

#[test]
fn pad_command_arguments_for_lossless_append() {
    let t = audio_track(1, 2_000, None, "FLAC", "Lossless");
    let plan = append_silence("/in/video.mkv", &t, 6_000, &None, "/t").unwrap();
    match plan {
        AppendPlan::Pad(cmd) => {
            assert_eq!(cmd.program, "ffmpeg");
            assert_eq!(
                cmd.args,
                vec![
                    "-y",
                    "-i",
                    "/in/video.mkv",
                    "-map",
                    "0:a:0",
                    "-map_chapters",
                    "-1",
                    "-af",
                    "apad=pad_dur=6",
                    "/in/video_Audio01.UND.flac",
                ]
            );
        },
        AppendPlan::Concat { .. } => panic!("lossless append must pad in place"),
    }
}

#[test]
fn concat_plan_for_lossy_append() {
    let t = audio_track(1, 2_000, Some("eng"), "AAC", "Lossy");
    let plan = append_silence(
        "/in/video.mkv",
        &t,
        6_000,
        &Some("/out".to_string()),
        "/work",
    )
    .unwrap();
    match plan {
        AppendPlan::Concat {
            tmp_export,
            track_path,
            samplerate_probe,
            channel_layout_probe,
            output_path,
        } => {
            assert_eq!(track_path, "/work/video_Audio01.ENG.aac");
            assert_eq!(output_path, "/out/video_Audio01.ENG.aac");
            assert_eq!(tmp_export.program, "ffmpeg");
            assert_eq!(
                tmp_export.args,
                vec![
                    "-y",
                    "-i",
                    "/in/video.mkv",
                    "-map",
                    "0:a:0",
                    "-map_chapters",
                    "-1",
                    "-c:a",
                    "copy",
                    "/work/video_Audio01.ENG.aac",
                ]
            );
            assert_eq!(samplerate_probe.program, "ffprobe");
            assert_eq!(
                samplerate_probe.args,
                vec![
                    "-v",
                    "error",
                    "-select_streams",
                    "a:0",
                    "-show_entries",
                    "stream=sample_rate",
                    "-of",
                    "csv=p=0",
                    "/in/video.mkv",
                ]
            );
            assert_eq!(
                channel_layout_probe.args[5],
                "stream=channel_layout"
            );
        },
        AppendPlan::Pad(_) => panic!("lossy append must go through concatenation"),
    }
}

#[test]
fn silence_generation_arguments() {
    let t = audio_track(1, 2_000, Some("eng"), "AAC", "Lossy");
    let spec = SilenceSpec { sample_rate: 44_100, channel_layout: "5.1".to_string() };
    let (cmd, path) = generate_silence("/in/video.mkv", &t, 6_000, &spec, "/work").unwrap();
    assert_eq!(path, "/work/video_Audio01.ENG.silence.aac");
    assert_eq!(cmd.program, "ffmpeg");
    assert_eq!(
        cmd.args,
        vec![
            "-f",
            "lavfi",
            "-i",
            "anullsrc=channel_layout=5.1:sample_rate=44100",
            "-t",
            "6",
            "/work/video_Audio01.ENG.silence.aac",
        ]
    );
}

#[test]
fn concat_manifest_and_command() {
    let files = vec![
        "/work/video_Audio01.ENG.aac".to_string(),
        "/work/video_Audio01.ENG.silence.aac".to_string(),
    ];
    let manifest = concat_manifest(&files);
    assert_eq!(
        manifest,
        "file '/work/video_Audio01.ENG.aac'\nfile '/work/video_Audio01.ENG.silence.aac'\n"
    );
    let cmd = concat_command("/work/concat.txt", "/out/video_Audio01.ENG.aac");
    assert_eq!(cmd.program, "ffmpeg");
    assert_eq!(
        cmd.args,
        vec![
            "-y",
            "-f",
            "concat",
            "-safe",
            "0",
            "-i",
            "/work/concat.txt",
            "-c",
            "copy",
            "/out/video_Audio01.ENG.aac",
        ]
    );
}

// A failed or unparsable format probe degrades to 48000 Hz stereo with
// a warning; the append still proceeds.
#[test]
fn silence_spec_defaults_on_probe_failure() {
    let (spec, warn) = resolve_silence_spec(&None, &None);
    assert_eq!(spec.sample_rate, DEFAULT_SAMPLE_RATE);
    assert_eq!(spec.sample_rate, 48_000);
    assert_eq!(spec.channel_layout, "stereo");
    assert!(warn);

    let (spec, warn) =
        resolve_silence_spec(&Some("garbage".to_string()), &Some("".to_string()));
    assert_eq!(spec.sample_rate, 48_000);
    assert_eq!(spec.channel_layout, "stereo");
    assert!(warn);

    let (spec, warn) = resolve_silence_spec(
        &Some("44100\n".to_string()),
        &Some("5.1(side)\n".to_string()),
    );
    assert_eq!(spec.sample_rate, 44_100);
    assert_eq!(spec.channel_layout, "5.1");
    assert!(!warn);
}

#[test]
fn samplerate_resolution_details() {
    assert_eq!(resolve_samplerate(&Some("48000\n".to_string())), (48_000, false));
    assert_eq!(resolve_samplerate(&Some("0".to_string())), (48_000, true));
    assert_eq!(resolve_samplerate(&Some("  \n".to_string())), (48_000, true));
    assert_eq!(resolve_channel_layout(&Some("stereo\n".to_string())).0, "stereo");
    assert_eq!(resolve_channel_layout(&Some("(x)".to_string())), ("stereo".to_string(), true));
}

// Tracks within the threshold produce no command at all when
// process-all is off, and an unchanged copy when it is on.
#[test]
fn skip_and_unchanged_paths() {
    let t = audio_track(1, 8_000, None, "AAC", "Lossy");
    let media =
        MediaDescriptor { ref_path: "/in/a.mkv".to_string(), tracks: vec![t.clone()] };
    let plan = export(&media, 8_000, &no_filter()).unwrap();
    assert_eq!(plan.tracks.len(), 1);
    assert_eq!(plan.tracks[0].action, ReconciliationAction::Skip);

    let all = TrackFilter { treshold: 0, language: None, process_all: true };
    let plan = export(&media, 8_000, &all).unwrap();
    assert_eq!(plan.tracks[0].action, ReconciliationAction::Unchanged);
    let cmd = export_unchanged("/in/a.mkv", &t, &None).unwrap();
    assert_eq!(
        cmd.args,
        vec![
            "-y",
            "-i",
            "/in/a.mkv",
            "-map",
            "0:a:0",
            "-map_chapters",
            "-1",
            "-c:a",
            "copy",
            "/in/a_Audio01.UND.aac",
        ]
    );
}

#[test]
fn export_plan_selects_audio_tracks_only() {
    let video = TrackDescriptor {
        kind: TrackKind::Video,
        id: Some(1),
        type_order: Some(1),
        duration_ms: Some(8_000),
        language: None,
        format: None,
        compression_mode: None,
    };
    let a1 = audio_track(1, 10_000, Some("eng"), "AAC", "Lossy");
    let a2 = audio_track(2, 2_000, Some("jpn"), "FLAC", "Lossless");
    let media = MediaDescriptor {
        ref_path: "/in/file.mkv".to_string(),
        tracks: vec![video, a1, a2],
    };
    let plan = export(&media, 8_000, &no_filter()).unwrap();
    assert_eq!(plan.header, "Processing file: file.mkv");
    assert_eq!(plan.tracks.len(), 2);
    assert_eq!(plan.tracks[0].track_index, 1);
    assert_eq!(plan.tracks[0].action, ReconciliationAction::Trim(8_000));
    assert_eq!(plan.tracks[1].track_index, 2);
    assert_eq!(plan.tracks[1].action, ReconciliationAction::Append(6_000));
}

#[test]
fn export_requires_audio_durations() {
    let mut t = audio_track(1, 0, None, "AAC", "Lossy");
    t.duration_ms = None;
    let media = MediaDescriptor { ref_path: "x.mkv".to_string(), tracks: vec![t] };
    assert_eq!(export(&media, 8_000, &no_filter()), Err(MetadataError::InvalidMetadata));
}

fn raw_track(
    kind: &str,
    type_order: &str,
    duration: &str,
) -> RawTrack {
    RawTrack {
        track_type: Some(kind.to_string()),
        id: Some("2".to_string()),
        type_order: Some(type_order.to_string()),
        duration: Some(duration.to_string()),
        language: Some("eng".to_string()),
        format: Some("AAC".to_string()),
        compression_mode: Some("Lossy".to_string()),
    }
}

#[test]
fn validation_parses_fields() {
    let raw = RawMedia {
        ref_path: "/in/file.mkv".to_string(),
        tracks: vec![raw_track("Audio", "1", "9.984")],
    };
    let media = validate_media(&raw).unwrap();
    assert_eq!(media.ref_path, "/in/file.mkv");
    let t = &media.tracks[0];
    assert_eq!(t.kind, TrackKind::Audio);
    assert_eq!(t.id, Some(2));
    assert_eq!(t.type_order, Some(1));
    assert_eq!(t.duration_ms, Some(9_984));
    assert_eq!(t.language.as_deref(), Some("eng"));
}

#[test]
fn validation_rejects_unparsable_fields() {
    let bad_duration = RawMedia {
        ref_path: "x".to_string(),
        tracks: vec![raw_track("Audio", "1", "fast")],
    };
    assert_eq!(validate_media(&bad_duration), Err(MetadataError::InvalidMetadata));

    let bad_order = RawMedia {
        ref_path: "x".to_string(),
        tracks: vec![raw_track("Audio", "zero", "9.984")],
    };
    assert_eq!(validate_media(&bad_order), Err(MetadataError::InvalidMetadata));

    let zero_order = RawMedia {
        ref_path: "x".to_string(),
        tracks: vec![raw_track("Audio", "0", "9.984")],
    };
    assert_eq!(validate_media(&zero_order), Err(MetadataError::InvalidMetadata));
}

#[test]
fn validation_keeps_absent_fields_absent() {
    let raw = RawTrack {
        track_type: Some("Menu".to_string()),
        id: None,
        type_order: None,
        duration: None,
        language: None,
        format: None,
        compression_mode: None,
    };
    let media = validate_media(&RawMedia { ref_path: "x".to_string(), tracks: vec![raw] })
        .unwrap();
    let t = &media.tracks[0];
    assert_eq!(t.kind, TrackKind::Other);
    assert_eq!(t.id, None);
    assert_eq!(t.duration_ms, None);
}
