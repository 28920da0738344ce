use mkvaudur::display::display;
use mkvaudur::mediainfo::{MediaDescriptor, MetadataError, TrackDescriptor, TrackKind};
use mkvaudur::reconcile::ReconciliationAction;
use mkvaudur::{
    get_files, is_mkv_file, process_mkv_file, reference_video_duration, NoMkvFound,
    OperationMode, ProcessOutcome, TrackFilter,
};

fn video_track(duration_ms: Option<u64>) -> TrackDescriptor {
    TrackDescriptor {
        kind: TrackKind::Video,
        id: Some(1),
        type_order: Some(1),
        duration_ms,
        language: None,
        format: None,
        compression_mode: None,
    }
}

fn audio_track(type_order: u64, duration_ms: u64, language: Option<&str>) -> TrackDescriptor {
    TrackDescriptor {
        kind: TrackKind::Audio,
        id: Some(type_order + 1),
        type_order: Some(type_order),
        duration_ms: Some(duration_ms),
        language: language.map(|s| s.to_string()),
        format: Some("FLAC".to_string()),
        compression_mode: Some("Lossless".to_string()),
    }
}

fn no_filter() -> TrackFilter {
    TrackFilter { treshold: 0, language: None, process_all: false }
}

#[test]
fn mkv_detection() {
    assert!(is_mkv_file("a.mkv"));
    assert!(is_mkv_file("/dir/with.dots/show.s01.mkv"));
    assert!(!is_mkv_file("a.mp4"));
    assert!(!is_mkv_file("mkv"));
    assert!(!is_mkv_file(".mkv"));
    assert!(!is_mkv_file("/dir/.mkv"));
    assert!(!is_mkv_file("a.mkv.bak"));
}

#[test]
fn file_selection() {
    let none: Vec<String> = vec![];
    assert_eq!(
        get_files("a.mkv", true, false, &none),
        Ok(vec!["a.mkv".to_string()])
    );
    assert_eq!(get_files("a.mp4", true, false, &none), Err(NoMkvFound));

    let entries = vec![
        "/d/one.mkv".to_string(),
        "/d/notes.txt".to_string(),
        "/d/two.mkv".to_string(),
    ];
    assert_eq!(
        get_files("/d", false, true, &entries),
        Ok(vec!["/d/one.mkv".to_string(), "/d/two.mkv".to_string()])
    );
    let no_mkv = vec!["/d/notes.txt".to_string()];
    assert_eq!(get_files("/d", false, true, &no_mkv), Err(NoMkvFound));
    assert_eq!(get_files("/missing", false, false, &none), Err(NoMkvFound));
}

#[test]
fn no_mkv_found_message() {
    assert_eq!(NoMkvFound.message(), "filepath does not contain any mkv file");
}

#[test]
fn reference_duration_extraction() {
    let media = MediaDescriptor {
        ref_path: "r.mkv".to_string(),
        tracks: vec![audio_track(1, 2_000, None), video_track(Some(8_000))],
    };
    assert_eq!(reference_video_duration(&media), Ok(8_000));

    let no_video = MediaDescriptor {
        ref_path: "r.mkv".to_string(),
        tracks: vec![audio_track(1, 2_000, None)],
    };
    assert_eq!(reference_video_duration(&no_video), Err(MetadataError::InvalidMetadata));

    let no_duration = MediaDescriptor {
        ref_path: "r.mkv".to_string(),
        tracks: vec![video_track(None)],
    };
    assert_eq!(
        reference_video_duration(&no_duration),
        Err(MetadataError::InvalidMetadata)
    );
}

#[test]
fn display_reports_selected_tracks() {
    let media = MediaDescriptor {
        ref_path: "/in/show.mkv".to_string(),
        tracks: vec![
            video_track(Some(8_000)),
            audio_track(1, 10_000, Some("eng")),
            audio_track(2, 8_000, None),
        ],
    };
    let lines = display(&media, 8_000, &no_filter()).unwrap();
    assert_eq!(lines.len(), 2);
    assert_eq!(lines[0], "show.mkv | Video Duration: 8");
    assert_eq!(lines[1], "Track 2 (eng): Duration: 10 Difference: 2");

    let all = TrackFilter { treshold: 0, language: None, process_all: true };
    let lines = display(&media, 8_000, &all).unwrap();
    assert_eq!(lines.len(), 3);
    assert_eq!(lines[2], "Track 3 (und): Duration: 8 Difference: 0");
}

#[test]
fn display_line_shows_negative_drift() {
    let media = MediaDescriptor {
        ref_path: "a.mkv".to_string(),
        tracks: vec![audio_track(1, 1_900, Some("jpn"))],
    };
    let lines = display(&media, 2_000, &no_filter()).unwrap();
    assert_eq!(lines[1], "Track 2 (jpn): Duration: 1.9 Difference: -0.1");
}

#[test]
fn process_dispatches_on_mode() {
    let source = MediaDescriptor {
        ref_path: "/in/source.mkv".to_string(),
        tracks: vec![video_track(Some(2_000)), audio_track(1, 2_000, None)],
    };
    let reference = MediaDescriptor {
        ref_path: "/in/reference.mkv".to_string(),
        tracks: vec![video_track(Some(8_000))],
    };

    match process_mkv_file(&source, &reference, &OperationMode::Display, &no_filter()) {
        Ok(ProcessOutcome::Report(lines)) => {
            assert_eq!(lines[0], "source.mkv | Video Duration: 8");
            assert_eq!(lines[1], "Track 2 (und): Duration: 2 Difference: -6");
        },
        other => panic!("expected a report, got {:?}", other),
    }

    match process_mkv_file(&source, &reference, &OperationMode::Export, &no_filter()) {
        Ok(ProcessOutcome::Plan(plan)) => {
            assert_eq!(plan.header, "Processing file: source.mkv");
            assert_eq!(plan.tracks.len(), 1);
            assert_eq!(plan.tracks[0].action, ReconciliationAction::Append(6_000));
        },
        other => panic!("expected a plan, got {:?}", other),
    }
}

// A source reconciled against itself needs no repair: the file is its
// own reference, so every difference is zero.
#[test]
fn self_reference_needs_no_repair() {
    let source = MediaDescriptor {
        ref_path: "a.mkv".to_string(),
        tracks: vec![video_track(Some(2_000)), audio_track(1, 2_000, None)],
    };
    match process_mkv_file(&source, &source, &OperationMode::Export, &no_filter()) {
        Ok(ProcessOutcome::Plan(plan)) => {
            assert_eq!(plan.tracks.len(), 1);
            assert_eq!(plan.tracks[0].action, ReconciliationAction::Skip);
        },
        other => panic!("expected a plan, got {:?}", other),
    }
}

#[test]
fn process_fails_without_reference_video() {
    let source = MediaDescriptor {
        ref_path: "a.mkv".to_string(),
        tracks: vec![audio_track(1, 2_000, None)],
    };
    assert_eq!(
        process_mkv_file(&source, &source, &OperationMode::Export, &no_filter()),
        Err(MetadataError::InvalidMetadata)
    );
}

#[test]
fn probe_json_decoding() {
    let text = "{\"media\":{\"@ref\":\"/in/file.mkv\",\"track\":[\
        {\"@type\":\"General\"},\
        {\"@type\":\"Video\",\"Duration\":\"8.000\"},\
        {\"@type\":\"Audio\",\"ID\":\"2\",\"@typeorder\":\"1\",\"Duration\":\"9.984\",\
         \"Language\":\"en\",\"Format\":\"AAC\",\"Compression_Mode\":\"Lossy\"}]}}";
    let raw = mkvaudur::mediainfo::media_from_json(text).unwrap();
    assert_eq!(raw.ref_path, "/in/file.mkv");
    assert_eq!(raw.tracks.len(), 3);
    assert_eq!(raw.tracks[1].track_type.as_deref(), Some("Video"));
    assert_eq!(raw.tracks[1].duration.as_deref(), Some("8.000"));
    assert_eq!(raw.tracks[2].id.as_deref(), Some("2"));
    assert_eq!(raw.tracks[2].compression_mode.as_deref(), Some("Lossy"));
    assert_eq!(raw.tracks[0].duration, None);

    let media = mkvaudur::mediainfo::validate_media(&raw).unwrap();
    assert_eq!(media.tracks[2].duration_ms, Some(9_984));
    assert_eq!(media.tracks[2].kind, TrackKind::Audio);

    assert_eq!(mkvaudur::mediainfo::media_from_json("not json"), None);
    assert_eq!(mkvaudur::mediainfo::media_from_json("{\"x\":1}"), None);
}
