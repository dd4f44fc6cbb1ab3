//! The thumbnail batch generator: which frames a batch asks for, and what
//! becomes of the frames that came back.
//!
//! A batch is planned from the duration of the video and the interval between
//! thumbnails, both in microseconds. Each planned frame is extracted on its
//! own; frames that fail are left out, and the batch fails only when none is
//! left.

use vstd::prelude::*;
use vstd::string::*;
use crate::arith::{magnitude, magnitude_of_i64, truncated_quotient};
use crate::error::VideoError;
use crate::extract::{get_frame_at_time_with_quality, FrameRequest, FrameRequestView};
use crate::probe::VideoInfo;
use crate::text::texts_of;

verus! {

/// No batch holds more thumbnails than this, whatever the caller asks for.
pub const HARD_CAP: usize = 100;

/// The still-image quality of a thumbnail, where the caller names none.
pub const THUMBNAIL_QUALITY: u8 = 60;

/// The still-image quality of a thumbnail taken at a percentage.
pub const PERCENT_QUALITY: u8 = 70;

/// One percent, in the unit in which percentages are given: thousandths of a
/// percent.
pub const PERCENT_UNIT: i64 = 1000;

/// The whole of a video as a percentage, in thousandths of a percent.
pub const FULL_PERCENT: i64 = 100_000;

/// The quotient of `a` by a positive `b`, rounded up.
pub open spec fn ceil_quotient(a: int, b: int) -> int {
    (a + b - 1) / b
}

/// The number of thumbnails that duration and interval ask for, before any
/// cap: the duration divided by the interval, rounded up, and at least one. An
/// interval of zero asks for as many as the hard cap allows, a negative one
/// for a single thumbnail.
pub open spec fn wanted_count(duration_us: int, interval_us: int) -> int {
    if interval_us > 0 {
        let count = ceil_quotient(duration_us, interval_us);
        if count < 1 {
            1
        } else {
            count
        }
    } else if interval_us == 0 {
        HARD_CAP as int
    } else {
        1
    }
}

/// The smaller of two integers.
pub open spec fn smaller(a: int, b: int) -> int {
    if a <= b {
        a
    } else {
        b
    }
}

/// The number of thumbnails of a batch: the wanted count, cut down to the
/// caller's maximum where there is one, and then to the hard cap.
pub open spec fn planned_count(duration_us: int, interval_us: int, max: Option<usize>) -> int {
    let wanted = wanted_count(duration_us, interval_us);
    let limited = match max {
        Some(m) => smaller(wanted, m as int),
        None => wanted,
    };
    smaller(limited, HARD_CAP as int)
}

/// The time of the thumbnail at `index` of a batch.
pub open spec fn thumbnail_time(index: int, interval_us: int) -> int {
    index * interval_us
}

/// Every thumbnail of a batch lies within the video.
proof fn lemma_planned_times_within(duration_us: int, interval_us: int, max: Option<usize>, index: int)
    requires
        duration_us > 0,
        0 <= index < planned_count(duration_us, interval_us, max),
    ensures
        0 <= thumbnail_time(index, interval_us) < duration_us,
{
    if interval_us > 0 {
        if ceil_quotient(duration_us, interval_us) >= 1 {
            assert(index * interval_us < duration_us) by (nonlinear_arith)
                requires
                    interval_us > 0,
                    index >= 0,
                    index + 1 <= (duration_us + interval_us - 1) / interval_us,
            ;
        }
        assert(index * interval_us >= 0) by (nonlinear_arith)
            requires
                index >= 0,
                interval_us > 0,
        ;
    } else if interval_us == 0 {
        assert(index * interval_us == 0) by (nonlinear_arith)
            requires
                interval_us == 0,
        ;
    } else {
        assert(index == 0);
    }
}

/// Counts the thumbnails of a batch, as [`planned_count`] gives.
pub fn plan_count(duration_us: i64, interval_us: i64, max_thumbnails: Option<usize>) -> (count:
    usize)
    ensures
        count == planned_count(duration_us as int, interval_us as int, max_thumbnails),
        count <= HARD_CAP,
{
    let wanted: usize = if interval_us > 0 {
        if duration_us <= 0 {
            assert(ceil_quotient(duration_us as int, interval_us as int) < 1) by (nonlinear_arith)
                requires
                    duration_us <= 0,
                    interval_us > 0,
                    ceil_quotient(duration_us as int, interval_us as int) == (duration_us
                        + interval_us - 1) / (interval_us as int),
            ;
            1
        } else {
            let span: u128 = duration_us as u128;
            let step: u128 = interval_us as u128;
            let periods: u128 = (span + step - 1) / step;
            assert(periods >= 1) by (nonlinear_arith)
                requires
                    span >= 1,
                    step >= 1,
                    periods == (span + step - 1) / (step as int),
            ;
            if periods > HARD_CAP as u128 {
                HARD_CAP
            } else {
                periods as usize
            }
        }
    } else if interval_us == 0 {
        HARD_CAP
    } else {
        1
    };
    let limited: usize = match max_thumbnails {
        Some(m) => if m < wanted {
            m
        } else {
            wanted
        },
        None => wanted,
    };
    if limited > HARD_CAP {
        HARD_CAP
    } else {
        limited
    }
}

/// What a batch asks for: one request for each planned thumbnail, in the order
/// of their times.
pub open spec fn planned_requests(
    requests: Seq<FrameRequest>,
    path: Seq<char>,
    duration_us: int,
    interval_us: int,
    quality: u8,
    max: Option<usize>,
) -> bool {
    &&& requests.len() == planned_count(duration_us, interval_us, max)
    &&& forall|i: int|
        0 <= i < requests.len() ==> (#[trigger] requests[i])@ == (FrameRequestView {
            path,
            timestamp_us: thumbnail_time(i, interval_us),
            quality: quality as nat,
        })
}

/// Plans a batch of thumbnails of the video at `path`, one every `interval_us`
/// microseconds from the start, at the default quality and with the hard cap
/// alone.
pub fn generate_thumbnails(path: &str, info: &VideoInfo, interval_us: i64) -> (result: Result<
    Vec<FrameRequest>,
    VideoError,
>)
    ensures
        result is Err <==> info.duration_us <= 0,
        result is Err ==> result->Err_0.says(
            "ZERO_DURATION"@,
            "Cannot generate thumbnails for video with zero duration"@,
        ),
        result is Ok ==> planned_requests(
            result->Ok_0@,
            path@,
            info.duration_us as int,
            interval_us as int,
            THUMBNAIL_QUALITY,
            None,
        ),
{
    generate_thumbnails_with_options(path, info, interval_us, THUMBNAIL_QUALITY, None)
}

/// Plans a batch of thumbnails of the video at `path`, one every `interval_us`
/// microseconds from the start.
///
/// A video without duration has nothing to show: that is the only error, and
/// it comes before any frame is asked for. Every time of the plan lies within
/// the video.
pub fn generate_thumbnails_with_options(
    path: &str,
    info: &VideoInfo,
    interval_us: i64,
    quality: u8,
    max_thumbnails: Option<usize>,
) -> (result: Result<Vec<FrameRequest>, VideoError>)
    ensures
        result is Err <==> info.duration_us <= 0,
        result is Err ==> result->Err_0.says(
            "ZERO_DURATION"@,
            "Cannot generate thumbnails for video with zero duration"@,
        ),
        result is Ok ==> planned_requests(
            result->Ok_0@,
            path@,
            info.duration_us as int,
            interval_us as int,
            quality,
            max_thumbnails,
        ),
        result is Ok ==> forall|i: int|
            0 <= i < result->Ok_0@.len() ==> 0 <= (#[trigger] result->Ok_0@[i]).timestamp_us
                < info.duration_us,
{
    if info.duration_us <= 0 {
        return Err(VideoError::zero_duration());
    }
    let count = plan_count(info.duration_us, interval_us, max_thumbnails);
    let mut requests: Vec<FrameRequest> = Vec::new();
    let mut i: usize = 0;
    while i < count
        invariant
            i <= count <= HARD_CAP,
            info.duration_us > 0,
            count == planned_count(info.duration_us as int, interval_us as int, max_thumbnails),
            requests@.len() == i,
            forall|k: int|
                0 <= k < i ==> (#[trigger] requests@[k])@ == (FrameRequestView {
                    path: path@,
                    timestamp_us: thumbnail_time(k, interval_us as int),
                    quality: quality as nat,
                }),
            forall|k: int|
                0 <= k < i ==> 0 <= (#[trigger] requests@[k]).timestamp_us < info.duration_us,
        decreases count - i,
    {
        proof {
            lemma_planned_times_within(
                info.duration_us as int,
                interval_us as int,
                max_thumbnails,
                i as int,
            );
        }
        let timestamp: i64 = ( i as i64 ) * interval_us;
        let request = get_frame_at_time_with_quality(path, timestamp, quality);
        requests.push(request);
        i = i + 1;
    }
    Ok(requests)
}

/// The texts of the frames that were extracted, in the order in which they
/// were asked for.
pub open spec fn successes(outcomes: Seq<Result<String, VideoError>>) -> Seq<Seq<char>>
    decreases outcomes.len(),
{
    if outcomes.len() == 0 {
        Seq::empty()
    } else {
        let earlier = successes(outcomes.drop_last());
        match outcomes.last() {
            Ok(text) => earlier.push(text@),
            Err(_) => earlier,
        }
    }
}

/// Gathers the frames of a batch: the frames that were extracted, in order,
/// without those that failed. A batch without a single frame is an error.
pub fn collect_thumbnails(outcomes: &Vec<Result<String, VideoError>>) -> (result: Result<
    Vec<String>,
    VideoError,
>)
    ensures
        result is Err <==> successes(outcomes@).len() == 0,
        result is Err ==> result->Err_0.says(
            "NO_THUMBNAILS"@,
            "Failed to generate any thumbnails"@,
        ),
        result is Ok ==> texts_of(result->Ok_0@) == successes(outcomes@),
{
    let mut thumbnails: Vec<String> = Vec::new();
    let mut i: usize = 0;
    while i < outcomes.len()
        invariant
            i <= outcomes@.len(),
            texts_of(thumbnails@) == successes(outcomes@.take(i as int)),
        decreases outcomes@.len() - i,
    {
        assert(outcomes@.take(i + 1).drop_last() =~= outcomes@.take(i as int));
        match &outcomes[i] {
            Ok(text) => thumbnails.push(text.clone()),
            Err(_) => {},
        }
        i = i + 1;
    }
    assert(outcomes@.take(i as int) =~= outcomes@);
    if thumbnails.len() == 0 {
        Err(VideoError::no_thumbnails())
    } else {
        Ok(thumbnails)
    }
}

/// A percentage held within the video: at least none of it, at most all.
pub open spec fn clamped_percent(percent: int) -> int {
    if percent < 0 {
        0
    } else if percent > FULL_PERCENT {
        FULL_PERCENT as int
    } else {
        percent
    }
}

/// The time that lies `percent` thousandths of a percent into a video of
/// `duration_us` microseconds, with the fraction of a microsecond cut off. A
/// percentage below zero counts as zero, one above a hundred as a hundred.
pub open spec fn percent_time(duration_us: int, percent: int) -> int {
    truncated_quotient(duration_us * clamped_percent(percent), FULL_PERCENT as int)
}

/// Computes the time at a percentage of a duration, as [`percent_time`] gives.
pub fn time_at_percent(duration_us: i64, percent: i64) -> (timestamp_us: i64)
    ensures
        timestamp_us == percent_time(duration_us as int, percent as int),
{
    let part: u128 = if percent < 0 {
        0
    } else if percent > FULL_PERCENT {
        100_000
    } else {
        percent as u128
    };
    let span: u128 = magnitude_of_i64(duration_us) as u128;
    assert(span * part <= 0x8000_0000_0000_0000 * 100_000) by (nonlinear_arith)
        requires
            span <= 0x8000_0000_0000_0000,
            part <= 100_000,
    ;
    let scaled: u128 = span * part;
    let whole: u128 = scaled / 100_000;
    proof {
        let d = duration_us as int;
        let p = clamped_percent(percent as int);
        assert(magnitude(d * p) == magnitude(d) * p && (d * p < 0 <==> (d < 0 && p > 0))) by (nonlinear_arith)
            requires
                p >= 0,
                magnitude(d) == (if d < 0 { -d } else { d }),
                magnitude(d * p) == (if d * p < 0 { -(d * p) } else { d * p }),
        ;
        assert(whole <= span) by (nonlinear_arith)
            requires
                whole == (span * part) / 100_000,
                part <= 100_000,
                span >= 0,
        ;
    }
    if duration_us < 0 && part > 0 {
        if whole >= 0x8000_0000_0000_0000 {
            i64::MIN
        } else {
            -( whole as i64 )
        }
    } else {
        whole as i64
    }
}

/// The request for the thumbnail that lies `percent` thousandths of a percent
/// into the video at `path`.
pub fn get_thumbnail_at_percent(path: &str, info: &VideoInfo, percent: i64) -> (request:
    FrameRequest)
    ensures
        request@ == (FrameRequestView {
            path: path@,
            timestamp_us: percent_time(info.duration_us as int, percent as int),
            quality: PERCENT_QUALITY as nat,
        }),
{
    get_frame_at_time_with_quality(path, time_at_percent(info.duration_us, percent), PERCENT_QUALITY)
}

/// Neither cap adds a thumbnail: a batch never holds more than the wanted
/// count, than the caller's maximum, than the hard cap, or than the same batch
/// without a maximum.
pub proof fn caps_only_reduce(duration_us: int, interval_us: int, max: Option<usize>)
    ensures
        planned_count(duration_us, interval_us, max) <= wanted_count(duration_us, interval_us),
        planned_count(duration_us, interval_us, max) <= HARD_CAP,
        max is Some ==> planned_count(duration_us, interval_us, max) <= max->Some_0,
        planned_count(duration_us, interval_us, max) <= planned_count(
            duration_us,
            interval_us,
            None,
        ),
{
}

/// The ends of the percentage scale: nothing of a video, or less, is its
/// start; all of it, or more, is its end.
pub proof fn percent_scale_ends(duration_us: int, percent: int)
    ensures
        percent <= 0 ==> percent_time(duration_us, percent) == 0,
        percent >= FULL_PERCENT ==> percent_time(duration_us, percent) == duration_us,
{
    if percent >= FULL_PERCENT {
        let m = magnitude(duration_us);
        assert(magnitude(duration_us * 100_000) == m * 100_000);
        assert((m * 100_000) / 100_000 == m);
    }
}

} // verus!
