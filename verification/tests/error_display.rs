use framegrab::VideoError;

#[test]
fn test_video_error_display() {
    let err = VideoError {
        message: "Test error".to_string(),
        code: "TEST_CODE".to_string(),
    };
    assert_eq!(err.describe(), "TEST_CODE: Test error");
}

#[test]
fn describe_joins_code_and_message() {
    let err = VideoError::new("A", "");
    assert_eq!(err.describe(), "A: ");
    let err = VideoError::with_detail("CODE", "before ", "after");
    assert_eq!(err.code, "CODE");
    assert_eq!(err.message, "before after");
    assert_eq!(err.describe(), "CODE: before after");
}

#[test]
fn duplicate_is_equal() {
    let err = VideoError::open_error("/tmp/a.mp4", "no such file");
    assert_eq!(err.duplicate(), err);
}

#[test]
fn open_error_names_path_and_reason() {
    let err = VideoError::open_error("/tmp/a.mp4", "Invalid data");
    assert_eq!(err.code, "OPEN_ERROR");
    assert_eq!(err.message, "Failed to open video file '/tmp/a.mp4': Invalid data");
}

#[test]
fn stream_errors() {
    let err = VideoError::no_video_stream_in_file();
    assert_eq!(err.code, "NO_VIDEO_STREAM");
    assert_eq!(err.message, "No video stream found in file");
    let err = VideoError::no_video_stream();
    assert_eq!(err.code, "NO_VIDEO_STREAM");
    assert_eq!(err.message, "No video stream found");
}

#[test]
fn codec_and_decoder_errors() {
    let err = VideoError::codec_error("bad parameters");
    assert_eq!(err.code, "CODEC_ERROR");
    assert_eq!(err.message, "Failed to get codec context: bad parameters");
    let err = VideoError::decoder_error("unsupported");
    assert_eq!(err.code, "DECODER_ERROR");
    assert_eq!(err.message, "Failed to create video decoder: unsupported");
}

#[test]
fn scaler_and_scale_errors() {
    let err = VideoError::scaler_error("x");
    assert_eq!(err.code, "SCALER_ERROR");
    assert_eq!(err.message, "Failed to create scaler: x");
    let err = VideoError::scale_error("y");
    assert_eq!(err.code, "SCALE_ERROR");
    assert_eq!(err.message, "Failed to scale frame: y");
}

#[test]
fn image_and_jpeg_errors() {
    let err = VideoError::image_error();
    assert_eq!(err.code, "IMAGE_ERROR");
    assert_eq!(err.message, "Failed to create image from frame data");
    let err = VideoError::jpeg_encode_error("z");
    assert_eq!(err.code, "JPEG_ENCODE_ERROR");
    assert_eq!(err.message, "Failed to encode JPEG: z");
}

#[test]
fn frame_not_found_names_the_time_in_seconds() {
    let err = VideoError::frame_not_found(1_500_000);
    assert_eq!(err.code, "FRAME_NOT_FOUND");
    assert_eq!(err.message, "Could not find frame at timestamp 1.5");
    let err = VideoError::frame_not_found(0);
    assert_eq!(err.message, "Could not find frame at timestamp 0");
    let err = VideoError::frame_not_found(-250_000);
    assert_eq!(err.message, "Could not find frame at timestamp -0.25");
}

#[test]
fn batch_errors() {
    let err = VideoError::zero_duration();
    assert_eq!(err.code, "ZERO_DURATION");
    assert_eq!(err.message, "Cannot generate thumbnails for video with zero duration");
    let err = VideoError::no_thumbnails();
    assert_eq!(err.code, "NO_THUMBNAILS");
    assert_eq!(err.message, "Failed to generate any thumbnails");
}

#[test]
fn registry_errors() {
    let err = VideoError::file_not_found("/nowhere.mp4");
    assert_eq!(err.code, "FILE_NOT_FOUND");
    assert_eq!(err.message, "Video file not found: /nowhere.mp4");
    let err = VideoError::lock_error();
    assert_eq!(err.code, "LOCK_ERROR");
    assert_eq!(err.message, "Failed to acquire lock on video handles");
}

#[test]
fn passed_on_errors() {
    let err = VideoError::ffmpeg_error("Invalid argument");
    assert_eq!(err.code, "FFMPEG_ERROR");
    assert_eq!(err.message, "Invalid argument");
    let err = VideoError::io_error("permission denied");
    assert_eq!(err.code, "IO_ERROR");
    assert_eq!(err.message, "permission denied");
    let err = VideoError::init_error("no codecs");
    assert_eq!(err.code, "INIT_ERROR");
    assert_eq!(err.message, "Failed to initialize FFmpeg: no codecs");
}
