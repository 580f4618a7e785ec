use byte_me::ff::{extract_streams, ContainerInfo, ProbeStream};
use byte_me::models::{FileCandidacy, MediaType, StreamDetail};
use byte_me::{analyze_files, analyze_item, has_streams, FileObservation, ItemObservation};

fn blank_stream() -> ProbeStream {
    ProbeStream {
        codec_type: None,
        codec_name: None,
        width: None,
        height: None,
        bit_rate: None,
        r_frame_rate: String::new(),
        sample_rate: None,
        channels: None,
        language: None,
    }
}

fn video_stream() -> ProbeStream {
    ProbeStream {
        codec_type: Some("video".to_string()),
        codec_name: Some("h264".to_string()),
        width: Some(1920),
        height: Some(1080),
        bit_rate: Some("4000000".to_string()),
        r_frame_rate: "30/1".to_string(),
        ..blank_stream()
    }
}

fn audio_stream() -> ProbeStream {
    ProbeStream {
        codec_type: Some("audio".to_string()),
        codec_name: Some("aac".to_string()),
        sample_rate: Some("48000".to_string()),
        channels: Some(2),
        bit_rate: Some("128000".to_string()),
        ..blank_stream()
    }
}

fn good_item(path: &str) -> ItemObservation {
    ItemObservation {
        path: path.to_string(),
        exists: true,
        is_file: true,
        size: 1024,
        media_type: MediaType::Video,
        probe: Some(Ok(ContainerInfo {
            duration: Some("12.5".to_string()),
            streams: vec![video_stream(), audio_stream()],
        })),
    }
}

#[test]
fn test_analyze_item_success() {
    let obs = good_item("videos/clip.mp4");
    let res = analyze_item(&obs).expect("analysis should succeed");
    assert_eq!(res.path, "videos/clip.mp4");
    assert_eq!(res.filename, "clip.mp4");
    assert_eq!(res.media_type, MediaType::Video);
    assert_eq!(res.duration, Some("12.5".to_string()));
    assert_eq!(res.size, 1024);
    assert_eq!(res.streams.len(), 2);
    match &res.streams[0] {
        StreamDetail::Video { codec, width, height, bit_rate, frame_rate } => {
            assert_eq!(codec, "h264");
            assert_eq!(*width, Some(1920));
            assert_eq!(*height, Some(1080));
            assert_eq!(bit_rate.as_deref(), Some("4000000"));
            assert_eq!(frame_rate.as_deref(), Some("30/1"));
        }
        other => panic!("expected a video stream, got {other:?}"),
    }
    match &res.streams[1] {
        StreamDetail::Audio { codec, sample_rate, channels, bit_rate } => {
            assert_eq!(codec, "aac");
            assert_eq!(sample_rate.as_deref(), Some("48000"));
            assert_eq!(*channels, Some(2));
            assert_eq!(bit_rate.as_deref(), Some("128000"));
        }
        other => panic!("expected an audio stream, got {other:?}"),
    }
}

#[test]
fn test_analyze_item_errors() {
    let missing = ItemObservation {
        path: "gone/away.mp4".to_string(),
        exists: false,
        is_file: false,
        size: 0,
        media_type: MediaType::Unknown,
        probe: None,
    };
    let e = analyze_item(&missing).expect_err("missing file must fail");
    assert_eq!(e.filename.as_deref(), Some("away.mp4"));
    assert_eq!(e.error_type, "not_found");
    assert_eq!(e.reason, "File does not exist");

    let directory = ItemObservation {
        path: "somedir".to_string(),
        exists: true,
        is_file: false,
        size: 0,
        media_type: MediaType::Unknown,
        probe: None,
    };
    let e = analyze_item(&directory).expect_err("directory must fail");
    assert_eq!(e.error_type, "not_file");
    assert_eq!(e.reason, "Not a file (directory or other)");

    let document = ItemObservation {
        path: "notes.pdf".to_string(),
        exists: true,
        is_file: true,
        size: 10,
        media_type: MediaType::Document,
        probe: None,
    };
    let e = analyze_item(&document).expect_err("non-media must fail");
    assert_eq!(e.error_type, "not_media");
    assert_eq!(e.reason, "Not a media file (detected as Document)");

    let corrupt = ItemObservation {
        path: "bad.mp4".to_string(),
        exists: true,
        is_file: true,
        size: 99,
        media_type: MediaType::Video,
        probe: Some(Err("moov atom not found".to_string())),
    };
    let e = analyze_item(&corrupt).expect_err("probe failure must fail");
    assert_eq!(e.error_type, "analysis_failed");
    assert_eq!(e.reason, "Could not analyze media file: moov atom not found");
}

#[test]
fn test_analyze_item_error_filename_underivable() {
    let missing = ItemObservation {
        path: String::new(),
        exists: false,
        is_file: false,
        size: 0,
        media_type: MediaType::Unknown,
        probe: None,
    };
    let e = analyze_item(&missing).expect_err("missing file must fail");
    assert_eq!(e.filename, None);
}

#[test]
fn test_has_streams_all_ok() {
    let items = vec![good_item("a.mp4"), good_item("b.mp4"), good_item("c.mp4")];
    let results = has_streams(&items).expect("all items succeed");
    assert_eq!(results.len(), 3);
    assert_eq!(results[0].filename, "a.mp4");
    assert_eq!(results[1].filename, "b.mp4");
    assert_eq!(results[2].filename, "c.mp4");
}

#[test]
fn test_has_streams_strict_first_error() {
    let bad_first = ItemObservation {
        path: "x/missing.mp4".to_string(),
        exists: false,
        is_file: false,
        size: 0,
        media_type: MediaType::Unknown,
        probe: None,
    };
    let bad_second = ItemObservation {
        path: "y/data.pdf".to_string(),
        exists: true,
        is_file: true,
        size: 5,
        media_type: MediaType::Document,
        probe: None,
    };
    let items = vec![good_item("ok.mp4"), bad_first, bad_second];
    let e = has_streams(&items).expect_err("batch must abort on first failure");
    assert_eq!(e.filename.as_deref(), Some("missing.mp4"));
    assert_eq!(e.error_type, "not_found");
}

#[test]
fn test_extract_streams_drops_other_kinds() {
    let data_stream = ProbeStream {
        codec_type: Some("data".to_string()),
        ..blank_stream()
    };
    let subtitle = ProbeStream {
        codec_type: Some("subtitle".to_string()),
        codec_name: None,
        language: Some("eng".to_string()),
        ..blank_stream()
    };
    let streams = vec![data_stream, video_stream(), subtitle, blank_stream()];
    let details = extract_streams(&streams);
    assert_eq!(details.len(), 2);
    assert!(matches!(details[0], StreamDetail::Video { .. }));
    match &details[1] {
        StreamDetail::Subtitle { codec, language } => {
            // A missing codec name coerces to the literal "unknown".
            assert_eq!(codec, "unknown");
            assert_eq!(language.as_deref(), Some("eng"));
        }
        other => panic!("expected a subtitle stream, got {other:?}"),
    }
}

const PNG_HEADER: [u8; 8] = [0x89, 0x50, 0x4E, 0x47, 0x0D, 0x0A, 0x1A, 0x0A];

#[test]
fn test_analyze_files_tolerant_keeps_cardinality_and_order() {
    let good = FileObservation {
        path: "shots/frame.png".to_string(),
        size: 2048,
        exists: true,
        is_file: true,
        header: PNG_HEADER.to_vec(),
    };
    let missing = FileObservation {
        path: "gone.png".to_string(),
        size: 0,
        exists: false,
        is_file: false,
        header: Vec::new(),
    };
    let directory = FileObservation {
        path: "somedir".to_string(),
        size: 0,
        exists: true,
        is_file: false,
        header: Vec::new(),
    };
    let text = FileObservation {
        path: "readme.txt".to_string(),
        size: 12,
        exists: true,
        is_file: true,
        header: Vec::new(),
    };
    let items = vec![missing.clone(), good.clone(), directory.clone(), text.clone()];
    let out = analyze_files(&items);
    assert_eq!(out.len(), items.len());

    assert_eq!(out[0].filename, "gone.png");
    assert!(
        matches!(&out[0].candidacy, FileCandidacy::Error { reason } if reason == "File does not exist")
    );

    assert_eq!(out[1].filename, "frame.png");
    assert_eq!(out[1].size, 2048);
    assert!(
        matches!(&out[1].candidacy, FileCandidacy::Success { file_type } if *file_type == MediaType::Image)
    );

    assert!(
        matches!(&out[2].candidacy, FileCandidacy::Error { reason } if reason == "Not a file (directory or other)")
    );

    assert!(
        matches!(&out[3].candidacy, FileCandidacy::Error { reason } if reason == "Not a media file (detected as Document)")
    );
}
