//! Container probing: from the raw facts that a container reports to the
//! metadata record that the rest of the library works with.
//!
//! All times are whole microseconds. Rates and time bases stay ratios of two
//! integers, exactly as containers store them.

use vstd::prelude::*;
use vstd::string::*;
use crate::arith::{at_most_i64, at_most_u64, magnitude, magnitude_of};
use crate::error::VideoError;

verus! {

/// Microseconds in one second; also the unit of a container-level duration.
pub const MICROS_PER_SECOND: i64 = 1_000_000;

/// The frame rate assumed when a container reports no usable rate.
pub const DEFAULT_FPS: i32 = 30;

/// A ratio of two integers. A zero denominator marks the ratio as unusable.
#[derive(Debug, Clone, Copy, PartialEq, Eq, Structural)]
pub struct Rational {
    pub numerator: i32,
    pub denominator: i32,
}

impl Rational {
    /// True when the ratio can be divided out.
    pub open spec fn usable(self) -> bool {
        self.denominator != 0
    }

    /// True when the ratio is a number above zero.
    pub open spec fn positive(self) -> bool {
        (self.numerator > 0 && self.denominator > 0) || (self.numerator < 0
            && self.denominator < 0)
    }

    /// Whether the ratio is a number above zero.
    pub fn is_positive(&self) -> (b: bool)
        ensures
            b == self.positive(),
    {
        (self.numerator > 0 && self.denominator > 0) || (self.numerator < 0 && self.denominator
            < 0)
    }
}

/// What probing reads from a container and its best video stream, before
/// anything is derived from it.
#[derive(Debug, Clone, PartialEq, Eq)]
pub struct StreamFacts {
    /// Index of the video stream within the container.
    pub stream_index: usize,
    /// The stream's time base: seconds per tick.
    pub time_base: Rational,
    /// The container-reported average frame rate.
    pub avg_frame_rate: Rational,
    /// The stream-reported real frame rate.
    pub real_frame_rate: Rational,
    /// Container-level duration in microseconds; not positive when unknown.
    pub container_duration: i64,
    /// Stream-level duration in ticks of the time base; not positive when unknown.
    pub stream_duration: i64,
    /// Container-reported number of frames; not positive when unknown.
    pub frames: i64,
    /// Container-reported bit rate in bits per second; not positive when unknown.
    pub bit_rate: i64,
    /// Picture width in pixels.
    pub width: u32,
    /// Picture height in pixels.
    pub height: u32,
    /// Name of the codec, where the decoder knows it.
    pub codec: Option<String>,
}

/// How an attempt to probe a container ended.
#[derive(Debug, Clone, PartialEq, Eq)]
pub enum ProbeOutcome {
    /// The path is unreadable or no recognised container; with the reason.
    OpenFailed(String),
    /// The container holds no video stream.
    NoVideoStream,
    /// The codec parameters are unsupported or malformed; with the reason.
    CodecFailed(String),
    /// No video decoder could be built; with the reason.
    DecoderFailed(String),
    /// The container was read.
    Ready(StreamFacts),
}

/// Metadata of a video.
#[derive(Debug, Clone, PartialEq, Eq)]
pub struct VideoInfo {
    /// Duration in microseconds; zero when it cannot be determined.
    pub duration_us: i64,
    /// Frames per second.
    pub fps: Rational,
    /// Picture width in pixels.
    pub width: u32,
    /// Picture height in pixels.
    pub height: u32,
    /// Number of frames, reported or estimated.
    pub frame_count: u64,
    /// Name of the codec; `unknown` when it cannot be determined.
    pub codec: String,
    /// Bit rate in bits per second, where the container reports one.
    pub bitrate: Option<u64>,
}

/// The mathematical content of a [`VideoInfo`].
pub ghost struct VideoInfoView {
    pub duration_us: int,
    pub fps: Rational,
    pub width: nat,
    pub height: nat,
    pub frame_count: nat,
    pub codec: Seq<char>,
    pub bitrate: Option<nat>,
}

impl View for VideoInfo {
    type V = VideoInfoView;

    open spec fn view(&self) -> VideoInfoView {
        VideoInfoView {
            duration_us: self.duration_us as int,
            fps: self.fps,
            width: self.width as nat,
            height: self.height as nat,
            frame_count: self.frame_count as nat,
            codec: self.codec@,
            bitrate: match self.bitrate {
                Some(b) => Some(b as nat),
                None => None,
            },
        }
    }
}

impl VideoInfo {
    /// A copy of this record.
    pub fn duplicate(&self) -> (info: VideoInfo)
        ensures
            info == *self,
    {
        VideoInfo {
            duration_us: self.duration_us,
            fps: self.fps,
            width: self.width,
            height: self.height,
            frame_count: self.frame_count,
            codec: self.codec.clone(),
            bitrate: self.bitrate,
        }
    }
}

/// The frame rate of a stream: the average rate where it is usable, else the
/// stream's real rate where that is usable, else the default.
pub open spec fn fps_of(average: Rational, nominal: Rational) -> Rational {
    if average.usable() {
        average
    } else if nominal.usable() {
        nominal
    } else {
        Rational { numerator: DEFAULT_FPS, denominator: 1 }
    }
}

/// A stream-level duration of `ticks` in microseconds, rounded down; zero where
/// the time base is not a positive number.
pub open spec fn stream_micros(ticks: int, time_base: Rational) -> int {
    if time_base.positive() {
        (ticks * magnitude(time_base.numerator as int) * MICROS_PER_SECOND) / (magnitude(
            time_base.denominator as int,
        ) as int)
    } else {
        0
    }
}

/// The duration of a video in microseconds: the container-level duration where
/// it is positive, else the stream-level duration where it is positive and the
/// time base usable, else zero.
pub open spec fn duration_of(
    container_duration: int,
    stream_duration: int,
    time_base: Rational,
) -> int {
    if container_duration > 0 {
        container_duration
    } else if stream_duration > 0 && time_base.usable() {
        at_most_i64(stream_micros(stream_duration, time_base))
    } else {
        0
    }
}

/// The number of frames shown during `duration_us` at the rate `fps`, rounded
/// to the nearest whole frame (halves upward); zero unless both are positive.
pub open spec fn estimated_frames(duration_us: int, fps: Rational) -> int {
    if duration_us > 0 && fps.positive() {
        let shown = duration_us * magnitude(fps.numerator as int);
        let per = MICROS_PER_SECOND * magnitude(fps.denominator as int);
        (2 * shown + per) / (2 * per)
    } else {
        0
    }
}

/// The number of frames of a video: the reported count where it is positive,
/// else the estimate from duration and rate.
pub open spec fn frame_count_of(frames: int, duration_us: int, fps: Rational) -> int {
    if frames > 0 {
        frames
    } else {
        at_most_u64(estimated_frames(duration_us, fps))
    }
}

/// The metadata that follows from the facts of a container.
pub open spec fn info_of(
    avg_frame_rate: Rational,
    real_frame_rate: Rational,
    time_base: Rational,
    container_duration: int,
    stream_duration: int,
    frames: int,
    bit_rate: int,
    width: nat,
    height: nat,
    codec: Option<Seq<char>>,
) -> VideoInfoView {
    let fps = fps_of(avg_frame_rate, real_frame_rate);
    let duration = duration_of(container_duration, stream_duration, time_base);
    VideoInfoView {
        duration_us: duration,
        fps,
        width,
        height,
        frame_count: frame_count_of(frames, duration, fps) as nat,
        codec: match codec {
            Some(name) => name,
            None => "unknown"@,
        },
        bitrate: if bit_rate > 0 {
            Some(bit_rate as nat)
        } else {
            None
        },
    }
}

impl StreamFacts {
    /// The name of the codec as a sequence of characters, where there is one.
    pub open spec fn codec_name(self) -> Option<Seq<char>> {
        match self.codec {
            Some(name) => Some(name@),
            None => None,
        }
    }

    /// The metadata that follows from these facts.
    pub open spec fn info(self) -> VideoInfoView {
        info_of(
            self.avg_frame_rate,
            self.real_frame_rate,
            self.time_base,
            self.container_duration as int,
            self.stream_duration as int,
            self.frames as int,
            self.bit_rate as int,
            self.width as nat,
            self.height as nat,
            self.codec_name(),
        )
    }
}

/// Picks the frame rate of a stream, in the order that [`fps_of`] gives.
pub fn derive_fps(average: Rational, nominal: Rational) -> (fps: Rational)
    ensures
        fps == fps_of(average, nominal),
        fps.usable(),
{
    if average.denominator != 0 {
        average
    } else if nominal.denominator != 0 {
        nominal
    } else {
        Rational { numerator: DEFAULT_FPS, denominator: 1 }
    }
}

/// Derives the duration of a video in microseconds, in the order that
/// [`duration_of`] gives.
pub fn derive_duration(container_duration: i64, stream_duration: i64, time_base: Rational) -> (d:
    i64)
    ensures
        d == duration_of(container_duration as int, stream_duration as int, time_base),
        d >= 0,
{
    if container_duration > 0 {
        container_duration
    } else if stream_duration > 0 && time_base.denominator != 0 {
        if time_base.is_positive() {
            let ticks: u128 = stream_duration as u128;
            let num: u128 = magnitude_of(time_base.numerator) as u128;
            let den: u128 = magnitude_of(time_base.denominator) as u128;
            assert(ticks * num <= 0x7fff_ffff_ffff_ffff * 0x8000_0000) by (nonlinear_arith)
                requires
                    ticks <= 0x7fff_ffff_ffff_ffff,
                    num <= 0x8000_0000,
            ;
            let micros: u128 = ticks * num * 1_000_000;
            let whole: u128 = micros / den;
            if whole > i64::MAX as u128 {
                i64::MAX
            } else {
                whole as i64
            }
        } else {
            0
        }
    } else {
        0
    }
}

/// Estimates the number of frames of a video, as [`frame_count_of`] gives.
pub fn estimate_frame_count(frames: i64, duration_us: i64, fps: Rational) -> (count: u64)
    ensures
        count == frame_count_of(frames as int, duration_us as int, fps),
{
    if frames > 0 {
        frames as u64
    } else if duration_us > 0 && fps.is_positive() {
        let span: u128 = duration_us as u128;
        let num: u128 = magnitude_of(fps.numerator) as u128;
        let den: u128 = magnitude_of(fps.denominator) as u128;
        assert(span * num <= 0x7fff_ffff_ffff_ffff * 0x8000_0000) by (nonlinear_arith)
            requires
                span <= 0x7fff_ffff_ffff_ffff,
                num <= 0x8000_0000,
        ;
        let shown: u128 = span * num;
        let per: u128 = 1_000_000 * den;
        let rounded: u128 = (2 * shown + per) / (2 * per);
        if rounded > u64::MAX as u128 {
            u64::MAX
        } else {
            rounded as u64
        }
    } else {
        0
    }
}

/// Builds the metadata record of a probed container.
///
/// Each way in which probing can fail gives its own error; a container that
/// was read gives the record that [`StreamFacts::info`] describes.
pub fn get_video_info(path: &str, outcome: &ProbeOutcome) -> (result: Result<
    VideoInfo,
    VideoError,
>)
    ensures
        match *outcome {
            ProbeOutcome::OpenFailed(reason) => result is Err && result->Err_0.says(
                "OPEN_ERROR"@,
                "Failed to open video file '"@ + path@ + "': "@ + reason@,
            ),
            ProbeOutcome::NoVideoStream => result is Err && result->Err_0.says(
                "NO_VIDEO_STREAM"@,
                "No video stream found in file"@,
            ),
            ProbeOutcome::CodecFailed(reason) => result is Err && result->Err_0.says(
                "CODEC_ERROR"@,
                "Failed to get codec context: "@ + reason@,
            ),
            ProbeOutcome::DecoderFailed(reason) => result is Err && result->Err_0.says(
                "DECODER_ERROR"@,
                "Failed to create video decoder: "@ + reason@,
            ),
            ProbeOutcome::Ready(facts) => result is Ok && result->Ok_0@ == facts.info(),
        },
{
    match outcome {
        ProbeOutcome::OpenFailed(reason) => Err(VideoError::open_error(path, reason.as_str())),
        ProbeOutcome::NoVideoStream => Err(VideoError::no_video_stream_in_file()),
        ProbeOutcome::CodecFailed(reason) => Err(VideoError::codec_error(reason.as_str())),
        ProbeOutcome::DecoderFailed(reason) => Err(VideoError::decoder_error(reason.as_str())),
        ProbeOutcome::Ready(facts) => {
            let fps = derive_fps(facts.avg_frame_rate, facts.real_frame_rate);
            let duration_us = derive_duration(
                facts.container_duration,
                facts.stream_duration,
                facts.time_base,
            );
            let frame_count = estimate_frame_count(facts.frames, duration_us, fps);
            let codec = match &facts.codec {
                Some(name) => name.clone(),
                None => String::from_str("unknown"),
            };
            let bitrate = if facts.bit_rate > 0 {
                Some(facts.bit_rate as u64)
            } else {
                None
            };
            Ok(
                VideoInfo {
                    duration_us,
                    fps,
                    width: facts.width,
                    height: facts.height,
                    frame_count,
                    codec,
                    bitrate,
                },
            )
        },
    }
}

impl StreamFacts {
    /// The frame rate that the derivation picks is a number above zero, and
    /// the picture has a size.
    pub open spec fn sound(self) -> bool {
        &&& self.width > 0
        &&& self.height > 0
        &&& self.avg_frame_rate.usable() ==> self.avg_frame_rate.positive()
        &&& !self.avg_frame_rate.usable() && self.real_frame_rate.usable()
            ==> self.real_frame_rate.positive()
    }
}

/// The order of the frame rates: a usable average rate is taken as it is; a
/// stream without one has its real rate, where that is usable; a stream
/// without either has exactly the default of thirty frames per second.
pub proof fn fps_fallback_order(facts: StreamFacts)
    ensures
        facts.avg_frame_rate.usable() ==> facts.info().fps == facts.avg_frame_rate,
        !facts.avg_frame_rate.usable() && facts.real_frame_rate.usable() ==> facts.info().fps
            == facts.real_frame_rate,
        !facts.avg_frame_rate.usable() && !facts.real_frame_rate.usable() ==> facts.info().fps
            == (Rational { numerator: 30, denominator: 1 }),
        facts.info().fps.usable(),
{
}

/// A sound container has sound metadata: a picture with a width and a height,
/// and a frame rate above zero. The duration is never negative.
pub proof fn sound_facts_give_positive_metadata(facts: StreamFacts)
    requires
        facts.sound(),
    ensures
        facts.info().width > 0,
        facts.info().height > 0,
        facts.info().fps.positive(),
        facts.info().duration_us >= 0,
{
    let tb = facts.time_base;
    if facts.container_duration <= 0 && facts.stream_duration > 0 && tb.usable() && tb.positive() {
        let n = facts.stream_duration * magnitude(tb.numerator as int) * MICROS_PER_SECOND;
        let d = magnitude(tb.denominator as int) as int;
        assert(n >= 0) by (nonlinear_arith)
            requires
                n == facts.stream_duration * magnitude(tb.numerator as int) * MICROS_PER_SECOND,
                facts.stream_duration > 0,
                magnitude(tb.numerator as int) >= 0,
                MICROS_PER_SECOND == 1_000_000,
        ;
        assert(n / d >= 0) by (nonlinear_arith)
            requires
                n >= 0,
                d > 0,
        ;
    }
}

} // verus!
