use framegrab::registry::{close_video, open_video, HandleRegistry, VideoHandle};
use framegrab::{get_video_info, ProbeOutcome, Rational, StreamFacts};

fn facts() -> StreamFacts {
    StreamFacts {
        stream_index: 1,
        time_base: Rational { numerator: 1, denominator: 12800 },
        avg_frame_rate: Rational { numerator: 25, denominator: 1 },
        real_frame_rate: Rational { numerator: 25, denominator: 1 },
        container_duration: 4_000_000,
        stream_duration: 51_200,
        frames: 100,
        bit_rate: 0,
        width: 320,
        height: 240,
        codec: Some("vp9".to_string()),
    }
}

fn is_lower_hex(c: char) -> bool {
    c.is_ascii_digit() || ('a'..='f').contains(&c)
}

#[test]
fn new_registry_is_empty() {
    let registry = HandleRegistry::new();
    assert!(!registry.is_open("video_x"));
    assert_eq!(registry.lookup("video_x"), None);
}

#[test]
fn open_stores_a_snapshot() {
    let mut registry = HandleRegistry::new();
    let outcome = ProbeOutcome::Ready(facts());
    let id = open_video(&mut registry, "/v.webm", Some(&outcome)).unwrap();
    assert!(registry.is_open(&id));
    let handle = registry.lookup(&id).unwrap();
    assert_eq!(handle.path, "/v.webm");
    assert_eq!(handle.stream_index, 1);
    assert_eq!(handle.time_base, Rational { numerator: 1, denominator: 12800 });
    assert_eq!(handle.info, get_video_info("/v.webm", &outcome).unwrap());
    assert_eq!(handle.info.duration_us, 4_000_000);
}

#[test]
fn identifier_is_prefix_and_random_token() {
    let mut registry = HandleRegistry::new();
    let outcome = ProbeOutcome::Ready(facts());
    let id = open_video(&mut registry, "/v.webm", Some(&outcome)).unwrap();
    assert_eq!(id.len(), 42);
    assert!(id.starts_with("video_"));
    let token: Vec<char> = id["video_".len()..].chars().collect();
    assert_eq!(token.len(), 36);
    for (i, c) in token.iter().enumerate() {
        if i == 8 || i == 13 || i == 18 || i == 23 {
            assert_eq!(*c, '-');
        } else {
            assert!(is_lower_hex(*c));
        }
    }
}

#[test]
fn opening_the_same_file_twice_gives_two_handles() {
    let mut registry = HandleRegistry::new();
    let outcome = ProbeOutcome::Ready(facts());
    let first = open_video(&mut registry, "/v.webm", Some(&outcome)).unwrap();
    let second = open_video(&mut registry, "/v.webm", Some(&outcome)).unwrap();
    assert_ne!(first, second);
    assert!(registry.is_open(&first));
    assert!(registry.is_open(&second));
    assert!(close_video(&mut registry, &first).is_ok());
    assert!(!registry.is_open(&first));
    assert!(registry.is_open(&second));
}

#[test]
fn missing_file_is_file_not_found() {
    let mut registry = HandleRegistry::new();
    let err = open_video(&mut registry, "/nowhere.mp4", None).unwrap_err();
    assert_eq!(err.code, "FILE_NOT_FOUND");
    assert_eq!(err.message, "Video file not found: /nowhere.mp4");
}

#[test]
fn failed_probe_gives_its_error_and_stores_nothing() {
    let mut registry = HandleRegistry::new();
    let kept = open_video(&mut registry, "/ok.mp4", Some(&ProbeOutcome::Ready(facts()))).unwrap();

    let outcome = ProbeOutcome::OpenFailed("Invalid data".to_string());
    let err = open_video(&mut registry, "/v.mp4", Some(&outcome)).unwrap_err();
    assert_eq!(err.code, "OPEN_ERROR");
    assert_eq!(err.message, "Failed to open video file '/v.mp4': Invalid data");

    let err = open_video(&mut registry, "/v.mp4", Some(&ProbeOutcome::NoVideoStream)).unwrap_err();
    assert_eq!(err.code, "NO_VIDEO_STREAM");
    assert_eq!(err.message, "No video stream found in file");

    let outcome = ProbeOutcome::CodecFailed("bad".to_string());
    let err = open_video(&mut registry, "/v.mp4", Some(&outcome)).unwrap_err();
    assert_eq!(err.code, "CODEC_ERROR");

    let outcome = ProbeOutcome::DecoderFailed("none".to_string());
    let err = open_video(&mut registry, "/v.mp4", Some(&outcome)).unwrap_err();
    assert_eq!(err.code, "DECODER_ERROR");

    assert!(registry.is_open(&kept));
    assert_eq!(registry.lookup(&kept).unwrap().path, "/ok.mp4");
}

#[test]
fn close_forgets_the_handle() {
    let mut registry = HandleRegistry::new();
    let id = open_video(&mut registry, "/v.webm", Some(&ProbeOutcome::Ready(facts()))).unwrap();
    assert_eq!(close_video(&mut registry, &id), Ok(()));
    assert!(!registry.is_open(&id));
    assert_eq!(registry.lookup(&id), None);
}

#[test]
fn close_of_a_never_opened_identifier_succeeds() {
    let mut registry = HandleRegistry::new();
    assert_eq!(close_video(&mut registry, "video_never"), Ok(()));
    assert_eq!(close_video(&mut registry, ""), Ok(()));
    let id = open_video(&mut registry, "/v.webm", Some(&ProbeOutcome::Ready(facts()))).unwrap();
    assert_eq!(close_video(&mut registry, "video_never"), Ok(()));
    assert!(registry.is_open(&id));
}

#[test]
fn close_twice_succeeds() {
    let mut registry = HandleRegistry::new();
    let id = open_video(&mut registry, "/v.webm", Some(&ProbeOutcome::Ready(facts()))).unwrap();
    assert_eq!(close_video(&mut registry, &id), Ok(()));
    assert_eq!(close_video(&mut registry, &id), Ok(()));
    assert!(!registry.is_open(&id));
}

#[test]
fn register_makes_the_identifier_of_the_token() {
    let mut registry = HandleRegistry::new();
    let info = get_video_info("/a.mp4", &ProbeOutcome::Ready(facts())).unwrap();
    let handle = VideoHandle {
        path: "/a.mp4".to_string(),
        info: info.duplicate(),
        stream_index: 0,
        time_base: Rational { numerator: 1, denominator: 1000 },
    };
    let id = registry.register("token", handle);
    assert_eq!(id, "video_token");
    assert_eq!(registry.lookup("video_token").unwrap().path, "/a.mp4");

    let replacement = VideoHandle {
        path: "/b.mp4".to_string(),
        info,
        stream_index: 2,
        time_base: Rational { numerator: 1, denominator: 1000 },
    };
    let id = registry.register("token", replacement);
    assert_eq!(id, "video_token");
    assert_eq!(registry.lookup("video_token").unwrap().path, "/b.mp4");
    assert_eq!(close_video(&mut registry, "video_token"), Ok(()));
    assert!(!registry.is_open("video_token"));
}
