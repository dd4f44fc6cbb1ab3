//! Frame requests: what is asked of a container to show one frame, and how a
//! requested time becomes a seek position and a target in stream ticks.
//!
//! Times are whole microseconds and may be negative.

use vstd::prelude::*;
use vstd::string::*;
use crate::arith::{
    at_most_i64, clamp_i64, lemma_product_magnitude, magnitude_of, magnitude_of_i64,
    truncated_quotient,
};
use crate::probe::{Rational, MICROS_PER_SECOND};

verus! {

/// The still-image quality of a single frame, where the caller names none.
pub const FRAME_QUALITY: u8 = 85;

/// A request for the frame of a video nearest to a time.
#[derive(Debug, Clone, PartialEq, Eq)]
pub struct FrameRequest {
    /// Path of the container.
    pub path: String,
    /// The requested time in microseconds.
    pub timestamp_us: i64,
    /// Still-image quality, 1 (worst) to 100 (best).
    pub quality: u8,
}

/// The mathematical content of a [`FrameRequest`].
pub ghost struct FrameRequestView {
    pub path: Seq<char>,
    pub timestamp_us: int,
    pub quality: nat,
}

impl View for FrameRequest {
    type V = FrameRequestView;

    open spec fn view(&self) -> FrameRequestView {
        FrameRequestView {
            path: self.path@,
            timestamp_us: self.timestamp_us as int,
            quality: self.quality as nat,
        }
    }
}

/// The request for the frame of `path` at `timestamp_us`, at the default
/// quality.
pub fn get_frame_at_time(path: &str, timestamp_us: i64) -> (request: FrameRequest)
    ensures
        request@ == (FrameRequestView {
            path: path@,
            timestamp_us: timestamp_us as int,
            quality: FRAME_QUALITY as nat,
        }),
{
    get_frame_at_time_with_quality(path, timestamp_us, FRAME_QUALITY)
}

/// The request for the frame of `path` at `timestamp_us`, at a given quality.
pub fn get_frame_at_time_with_quality(path: &str, timestamp_us: i64, quality: u8) -> (request:
    FrameRequest)
    ensures
        request@ == (FrameRequestView {
            path: path@,
            timestamp_us: timestamp_us as int,
            quality: quality as nat,
        }),
{
    FrameRequest { path: String::from_str(path), timestamp_us, quality }
}

/// The request for the first frame of `path`, at the default quality.
pub fn get_first_frame(path: &str) -> (request: FrameRequest)
    ensures
        request@ == (FrameRequestView { path: path@, timestamp_us: 0, quality: FRAME_QUALITY as nat }),
{
    get_frame_at_time_with_quality(path, 0, FRAME_QUALITY)
}

/// The target of a request in ticks of a stream's time base: the time divided
/// by the time base, with the fraction cut off, and held within the range of
/// `i64`. A time base with numerator zero sends every time but zero to the end
/// of the range on its side.
pub open spec fn target_ticks_of(timestamp_us: int, time_base: Rational) -> int {
    let scaled = timestamp_us * time_base.denominator;
    if time_base.numerator == 0 {
        if scaled > 0 {
            i64::MAX as int
        } else if scaled < 0 {
            i64::MIN as int
        } else {
            0
        }
    } else {
        clamp_i64(truncated_quotient(scaled, time_base.numerator * MICROS_PER_SECOND))
    }
}

/// Converts a time in microseconds to ticks of `time_base`, as
/// [`target_ticks_of`] gives.
pub fn target_ticks(timestamp_us: i64, time_base: Rational) -> (ticks: i64)
    ensures
        ticks == target_ticks_of(timestamp_us as int, time_base),
{
    let time: u128 = magnitude_of_i64(timestamp_us) as u128;
    let den: u128 = magnitude_of(time_base.denominator) as u128;
    let num: u128 = magnitude_of(time_base.numerator) as u128;
    assert(time * den <= 0x8000_0000_0000_0000 * 0x8000_0000) by (nonlinear_arith)
        requires
            time <= 0x8000_0000_0000_0000,
            den <= 0x8000_0000,
    ;
    let scaled: u128 = time * den;
    let scaled_negative: bool = scaled != 0 && ((timestamp_us < 0) != (time_base.denominator < 0));
    proof {
        lemma_product_magnitude(timestamp_us as int, time_base.denominator as int);
        lemma_product_magnitude(time_base.numerator as int, MICROS_PER_SECOND as int);
    }
    if time_base.numerator == 0 {
        if scaled == 0 {
            0
        } else if scaled_negative {
            i64::MIN
        } else {
            i64::MAX
        }
    } else {
        let divisor: u128 = num * 1_000_000;
        let whole: u128 = scaled / divisor;
        let negative: bool = scaled_negative != (time_base.numerator < 0);
        if scaled == 0 {
            0
        } else if negative {
            if whole >= 0x8000_0000_0000_0000 {
                i64::MIN
            } else {
                -( whole as i64 )
            }
        } else {
            if whole > i64::MAX as u128 {
                i64::MAX
            } else {
                whole as i64
            }
        }
    }
}

/// The bounds of a seek: the container is asked for a position as near to
/// `target` as it has, no earlier than `lower` and no later than `upper`, all
/// in microseconds.
#[derive(Debug, Clone, Copy, PartialEq, Eq, Structural)]
pub struct SeekWindow {
    pub lower: i64,
    pub target: i64,
    pub upper: i64,
}

/// The whole seconds of a time, in microseconds, with the fraction cut off.
pub open spec fn whole_seconds(timestamp_us: int) -> int {
    truncated_quotient(timestamp_us, MICROS_PER_SECOND as int) * MICROS_PER_SECOND
}

/// The window of the precise seek for a time: the whole second of the time and
/// up to one second after it, with nothing asked of how early the position is.
pub open spec fn seek_window_of(timestamp_us: int) -> SeekWindow {
    SeekWindow {
        lower: i64::MIN,
        target: whole_seconds(timestamp_us) as i64,
        upper: at_most_i64(whole_seconds(timestamp_us) + MICROS_PER_SECOND) as i64,
    }
}

/// The window of the seek that cannot miss: the start of the stream, with no
/// bounds.
pub open spec fn start_of_stream() -> SeekWindow {
    SeekWindow { lower: i64::MIN, target: 0, upper: i64::MAX }
}

/// The window of the precise seek for a time, as [`seek_window_of`] gives.
pub fn seek_window(timestamp_us: i64) -> (window: SeekWindow)
    ensures
        window == seek_window_of(timestamp_us as int),
        window.target == whole_seconds(timestamp_us as int),
        window.lower <= window.target <= window.upper,
{
    let seconds: u64 = magnitude_of_i64(timestamp_us) / 1_000_000;
    let whole: u64 = seconds * 1_000_000;
    let target: i64 = if timestamp_us < 0 {
        -( whole as i64 )
    } else {
        whole as i64
    };
    let upper: i64 = if target > i64::MAX - 1_000_000 {
        i64::MAX
    } else {
        target + 1_000_000
    };
    SeekWindow { lower: i64::MIN, target, upper }
}

/// A seek that was tried.
#[derive(Debug, Clone, Copy, PartialEq, Eq, Structural)]
pub enum SeekAttempt {
    /// The precise seek, within the window of the requested time.
    Precise,
    /// The seek to the start of the stream.
    StartOfStream,
}

/// What to try after a seek has failed: after the precise seek, the start of
/// the stream; after that, nothing, and only then is the failure final.
pub fn seek_after_failure(failed: SeekAttempt) -> (next: Option<SeekWindow>)
    ensures
        failed == SeekAttempt::Precise ==> next == Some(start_of_stream()),
        failed == SeekAttempt::StartOfStream ==> next is None,
{
    match failed {
        SeekAttempt::Precise => Some(SeekWindow { lower: i64::MIN, target: 0, upper: i64::MAX }),
        SeekAttempt::StartOfStream => None,
    }
}

} // verus!
