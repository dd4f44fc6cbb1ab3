//! The error value shared by every operation of the library.

use vstd::prelude::*;
use vstd::string::*;
use crate::text::{seconds_string, seconds_text};

verus! {

/// A failure: a short machine-readable `code` and a human-readable `message`.
#[derive(Debug, Clone, PartialEq, Eq)]
pub struct VideoError {
    pub message: String,
    pub code: String,
}

impl VideoError {
    /// The text shown for this error: the code, a colon and a space, the message.
    pub open spec fn described(self) -> Seq<char> {
        self.code@ + ": "@ + self.message@
    }

    /// True when the error has the given code and message.
    pub open spec fn says(self, code: Seq<char>, message: Seq<char>) -> bool {
        self.code@ == code && self.message@ == message
    }

    /// An error with the given code and message.
    pub fn new(code: &str, message: &str) -> (e: VideoError)
        ensures
            e.says(code@, message@),
    {
        VideoError { message: String::from_str(message), code: String::from_str(code) }
    }

    /// An error whose message is a fixed prefix followed by a detail.
    pub fn with_detail(code: &str, prefix: &str, detail: &str) -> (e: VideoError)
        ensures
            e.says(code@, prefix@ + detail@),
    {
        let mut message = String::from_str(prefix);
        message.append(detail);
        VideoError { message, code: String::from_str(code) }
    }

    /// Renders the error as `CODE: message`.
    pub fn describe(&self) -> (text: String)
        ensures
            text@ == self.described(),
    {
        let mut text = self.code.clone();
        text.append(": ");
        text.append(self.message.as_str());
        text
    }

    /// A copy of this error.
    pub fn duplicate(&self) -> (e: VideoError)
        ensures
            e == *self,
    {
        VideoError { message: self.message.clone(), code: self.code.clone() }
    }

    /// The container at `path` could not be opened.
    pub fn open_error(path: &str, detail: &str) -> (e: VideoError)
        ensures
            e.says("OPEN_ERROR"@, "Failed to open video file '"@ + path@ + "': "@ + detail@),
    {
        let mut message = String::from_str("Failed to open video file '");
        message.append(path);
        message.append("': ");
        message.append(detail);
        VideoError { message, code: String::from_str("OPEN_ERROR") }
    }

    /// Probing found no video stream in the container.
    pub fn no_video_stream_in_file() -> (e: VideoError)
        ensures
            e.says("NO_VIDEO_STREAM"@, "No video stream found in file"@),
    {
        VideoError::new("NO_VIDEO_STREAM", "No video stream found in file")
    }

    /// Extraction found no video stream in the container.
    pub fn no_video_stream() -> (e: VideoError)
        ensures
            e.says("NO_VIDEO_STREAM"@, "No video stream found"@),
    {
        VideoError::new("NO_VIDEO_STREAM", "No video stream found")
    }

    /// The stream's codec parameters could not be read.
    pub fn codec_error(detail: &str) -> (e: VideoError)
        ensures
            e.says("CODEC_ERROR"@, "Failed to get codec context: "@ + detail@),
    {
        VideoError::with_detail("CODEC_ERROR", "Failed to get codec context: ", detail)
    }

    /// No decoder could be built for the stream.
    pub fn decoder_error(detail: &str) -> (e: VideoError)
        ensures
            e.says("DECODER_ERROR"@, "Failed to create video decoder: "@ + detail@),
    {
        VideoError::with_detail("DECODER_ERROR", "Failed to create video decoder: ", detail)
    }

    /// The pixel-format converter could not be created.
    pub fn scaler_error(detail: &str) -> (e: VideoError)
        ensures
            e.says("SCALER_ERROR"@, "Failed to create scaler: "@ + detail@),
    {
        VideoError::with_detail("SCALER_ERROR", "Failed to create scaler: ", detail)
    }

    /// The pixel-format conversion failed.
    pub fn scale_error(detail: &str) -> (e: VideoError)
        ensures
            e.says("SCALE_ERROR"@, "Failed to scale frame: "@ + detail@),
    {
        VideoError::with_detail("SCALE_ERROR", "Failed to scale frame: ", detail)
    }

    /// No image could be made of the converted pixels.
    pub fn image_error() -> (e: VideoError)
        ensures
            e.says("IMAGE_ERROR"@, "Failed to create image from frame data"@),
    {
        VideoError::new("IMAGE_ERROR", "Failed to create image from frame data")
    }

    /// Compressing the image failed.
    pub fn jpeg_encode_error(detail: &str) -> (e: VideoError)
        ensures
            e.says("JPEG_ENCODE_ERROR"@, "Failed to encode JPEG: "@ + detail@),
    {
        VideoError::with_detail("JPEG_ENCODE_ERROR", "Failed to encode JPEG: ", detail)
    }

    /// No frame was decoded for the requested time, given in microseconds.
    pub fn frame_not_found(timestamp_us: i64) -> (e: VideoError)
        ensures
            e.says(
                "FRAME_NOT_FOUND"@,
                "Could not find frame at timestamp "@ + seconds_text(timestamp_us as int),
            ),
    {
        let seconds = seconds_string(timestamp_us);
        VideoError::with_detail(
            "FRAME_NOT_FOUND",
            "Could not find frame at timestamp ",
            seconds.as_str(),
        )
    }

    /// The video has no extractable content.
    pub fn zero_duration() -> (e: VideoError)
        ensures
            e.says(
                "ZERO_DURATION"@,
                "Cannot generate thumbnails for video with zero duration"@,
            ),
    {
        VideoError::new("ZERO_DURATION", "Cannot generate thumbnails for video with zero duration")
    }

    /// Not one frame of a batch could be extracted.
    pub fn no_thumbnails() -> (e: VideoError)
        ensures
            e.says("NO_THUMBNAILS"@, "Failed to generate any thumbnails"@),
    {
        VideoError::new("NO_THUMBNAILS", "Failed to generate any thumbnails")
    }

    /// There is no file at `path`.
    pub fn file_not_found(path: &str) -> (e: VideoError)
        ensures
            e.says("FILE_NOT_FOUND"@, "Video file not found: "@ + path@),
    {
        VideoError::with_detail("FILE_NOT_FOUND", "Video file not found: ", path)
    }

    /// Exclusive access to the handle registry could not be had.
    pub fn lock_error() -> (e: VideoError)
        ensures
            e.says("LOCK_ERROR"@, "Failed to acquire lock on video handles"@),
    {
        VideoError::new("LOCK_ERROR", "Failed to acquire lock on video handles")
    }

    /// A failure reported by the decoding library, passed on verbatim.
    pub fn ffmpeg_error(detail: &str) -> (e: VideoError)
        ensures
            e.says("FFMPEG_ERROR"@, detail@),
    {
        VideoError::new("FFMPEG_ERROR", detail)
    }

    /// A failure reported by the operating system, passed on verbatim.
    pub fn io_error(detail: &str) -> (e: VideoError)
        ensures
            e.says("IO_ERROR"@, detail@),
    {
        VideoError::new("IO_ERROR", detail)
    }

    /// The decoding library could not be initialised.
    pub fn init_error(detail: &str) -> (e: VideoError)
        ensures
            e.says("INIT_ERROR"@, "Failed to initialize FFmpeg: "@ + detail@),
    {
        VideoError::with_detail("INIT_ERROR", "Failed to initialize FFmpeg: ", detail)
    }
}

} // verus!
