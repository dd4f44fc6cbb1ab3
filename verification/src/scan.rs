//! Frame selection: which of the frames that a decoder hands out, one by one,
//! is shown for a requested time, and when decoding may stop.
//!
//! After a seek the decoder starts at a keyframe at or before the target.
//! [`FrameScan`] is told of every decoded frame and of the end of every packet.
//! It keeps track of the frame closest to the target, stops the scan at the
//! first frame at or past the target, and gives up reading once a packet lies
//! beyond a horizon of about two seconds past the target.

use vstd::prelude::*;
use crate::error::VideoError;
use crate::arith::magnitude;
use crate::text::seconds_text;

verus! {

/// How far apart a presentation time and the target are, in ticks.
pub open spec fn distance(pts: int, target: int) -> nat {
    magnitude(pts - target)
}

/// True when the frame at index `i` is the one to show for `target`: no frame
/// is closer to the target, and every earlier frame is farther from it.
pub open spec fn is_closest(frames: Seq<i64>, target: int, i: int) -> bool {
    &&& 0 <= i < frames.len()
    &&& forall|j: int|
        0 <= j < frames.len() ==> distance(frames[i] as int, target) <= distance(
            #[trigger] frames[j] as int,
            target,
        )
    &&& forall|j: int|
        0 <= j < i ==> distance(#[trigger] frames[j] as int, target) > distance(
            frames[i] as int,
            target,
        )
}

/// True when every frame lies before `target`.
pub open spec fn all_before(frames: Seq<i64>, target: int) -> bool {
    forall|j: int| 0 <= j < frames.len() ==> (#[trigger] frames[j]) < target
}

/// True when each frame is shown later than the one before it.
pub open spec fn strictly_increasing(frames: Seq<i64>) -> bool {
    forall|j: int, k: int| 0 <= j < k < frames.len() ==> (#[trigger] frames[j]) < (#[trigger] frames[k])
}

/// The presentation time that stands for a frame: its own, or zero where the
/// frame carries none.
pub open spec fn effective_pts(pts: Option<i64>) -> i64 {
    match pts {
        Some(p) => p,
        None => 0,
    }
}

/// The last tick that a packet may start at before reading is abandoned: two
/// seconds' worth of ticks past the target.
pub open spec fn horizon_of(target: int, ticks_per_second: int) -> int {
    target + 2 * ticks_per_second
}

/// Where a scan stands.
#[derive(Debug, Clone, Copy, PartialEq, Eq, Structural)]
pub enum ScanPhase {
    /// Packets are being read and decoded.
    Reading,
    /// Reading has ended; the decoder hands out the frames it still holds.
    Draining,
    /// A frame at or past the target was seen: the scan is over.
    Finished,
}

/// What the caller does with the frame it has just reported.
#[derive(Debug, Clone, Copy, PartialEq, Eq, Structural)]
pub struct FrameVerdict {
    /// The frame is now the closest: keep it, and let go of the one kept before.
    pub keep: bool,
    /// The scan is over: decode no further and use the frame that is kept.
    pub stop: bool,
}

/// The closest frame so far, as the scan holds it.
#[derive(Debug, Clone, Copy)]
struct Best {
    pts: i64,
    distance: u64,
}

/// The state of one scan for the frame closest to a target time.
pub struct FrameScan {
    target: i64,
    horizon: i128,
    phase: ScanPhase,
    best: Option<Best>,
    frames: Ghost<Seq<i64>>,
    best_index: Ghost<int>,
}

impl FrameScan {
    /// The target time in ticks.
    pub closed spec fn target(&self) -> int {
        self.target as int
    }

    /// The tick past which a packet ends the reading.
    pub closed spec fn horizon(&self) -> int {
        self.horizon as int
    }

    /// Where the scan stands.
    pub closed spec fn phase(&self) -> ScanPhase {
        self.phase
    }

    /// The presentation times of the frames reported so far, in order.
    pub closed spec fn frames(&self) -> Seq<i64> {
        self.frames@
    }

    /// The index of the frame that is kept, if any frame was reported.
    pub closed spec fn closest(&self) -> Option<int> {
        match self.best {
            Some(_) => Some(self.best_index@),
            None => None,
        }
    }

    /// How the fields stand for what the scan has seen.
    pub closed spec fn represented(&self) -> bool {
        match self.best {
            Some(b) => {
                &&& 0 <= self.best_index@ < self.frames@.len()
                &&& b.pts == self.frames@[self.best_index@]
                &&& b.distance == distance(b.pts as int, self.target as int)
            },
            None => true,
        }
    }

    /// The invariant of a scan.
    ///
    /// The kept frame is the closest of those reported. While packets are read,
    /// every frame reported lies before the target. A finished scan ended on
    /// the first frame at or past the target.
    pub open spec fn wf(&self) -> bool {
        &&& self.represented()
        &&& match self.closest() {
            Some(i) => is_closest(self.frames(), self.target(), i),
            None => self.frames().len() == 0,
        }
        &&& self.phase() == ScanPhase::Reading ==> all_before(self.frames(), self.target())
        &&& self.phase() == ScanPhase::Finished ==> {
            &&& self.frames().len() > 0
            &&& self.frames().last() >= self.target()
            &&& all_before(self.frames().drop_last(), self.target())
        }
    }

    /// A scan for the frame closest to `target`, in a stream with
    /// `ticks_per_second` ticks to the second.
    pub fn new(target: i64, ticks_per_second: i32) -> (scan: FrameScan)
        ensures
            scan.wf(),
            scan.target() == target,
            scan.horizon() == horizon_of(target as int, ticks_per_second as int),
            scan.phase() == ScanPhase::Reading,
            scan.frames().len() == 0,
            scan.closest() is None,
    {
        FrameScan {
            target,
            horizon: target as i128 + 2 * ( ticks_per_second as i128 ),
            phase: ScanPhase::Reading,
            best: None,
            frames: Ghost(Seq::empty()),
            best_index: Ghost(0),
        }
    }

    /// Where the scan stands.
    pub fn current_phase(&self) -> (phase: ScanPhase)
        ensures
            phase == self.phase(),
    {
        self.phase
    }

    /// The presentation time of the frame that is kept, if any.
    pub fn closest_pts(&self) -> (pts: Option<i64>)
        requires
            self.wf(),
        ensures
            match self.closest() {
                Some(i) => pts == Some(self.frames()[i]),
                None => pts is None,
            },
    {
        match self.best {
            Some(b) => Some(b.pts),
            None => None,
        }
    }

    /// Reports a decoded frame with its presentation time.
    ///
    /// A frame without a presentation time counts as shown at tick zero. The
    /// frame is to be kept exactly when it is closer to the target than every
    /// frame before it. While packets are read, the first frame at or past the
    /// target ends the scan. A finished scan takes no more frames.
    pub fn on_frame(&mut self, pts: Option<i64>) -> (verdict: FrameVerdict)
        requires
            old(self).wf(),
        ensures
            final(self).wf(),
            final(self).target() == old(self).target(),
            final(self).horizon() == old(self).horizon(),
            old(self).phase() == ScanPhase::Finished ==> {
                &&& final(self).frames() == old(self).frames()
                &&& final(self).closest() == old(self).closest()
                &&& final(self).phase() == ScanPhase::Finished
                &&& !verdict.keep
                &&& verdict.stop
            },
            old(self).phase() != ScanPhase::Finished ==> {
                &&& final(self).frames() == old(self).frames().push(effective_pts(pts))
                &&& verdict.keep == match old(self).closest() {
                    Some(i) => distance(effective_pts(pts) as int, old(self).target()) < distance(
                        old(self).frames()[i] as int,
                        old(self).target(),
                    ),
                    None => true,
                }
                &&& verdict.keep ==> final(self).closest() == Some(old(self).frames().len() as int)
                &&& !verdict.keep ==> final(self).closest() == old(self).closest()
                &&& verdict.stop == (old(self).phase() == ScanPhase::Reading && effective_pts(pts)
                    >= old(self).target())
                &&& final(self).phase() == if verdict.stop {
                    ScanPhase::Finished
                } else {
                    old(self).phase()
                }
            },
    {
        if self.phase == ScanPhase::Finished {
            return FrameVerdict { keep: false, stop: true };
        }
        let shown: i64 = match pts {
            Some(p) => p,
            None => 0,
        };
        let apart: u64 = if shown >= self.target {
            ( shown as i128 - self.target as i128 ) as u64
        } else {
            ( self.target as i128 - shown as i128 ) as u64
        };
        let keep = match self.best {
            Some(b) => apart < b.distance,
            None => true,
        };
        let stop = self.phase == ScanPhase::Reading && shown >= self.target;
        let ghost before = self.frames@;
        if keep {
            self.best = Some(Best { pts: shown, distance: apart });
            self.best_index = Ghost(before.len() as int);
        }
        self.frames = Ghost(before.push(shown));
        if stop {
            self.phase = ScanPhase::Finished;
        }
        FrameVerdict { keep, stop }
    }

    /// Reports that every frame of a packet has been taken from the decoder.
    ///
    /// Returns true when reading is to be abandoned: the packet starts past the
    /// horizon. The scan then drains the decoder. A packet without a
    /// presentation time never ends the reading.
    pub fn on_packet_end(&mut self, packet_pts: Option<i64>) -> (abandon: bool)
        requires
            old(self).wf(),
        ensures
            final(self).wf(),
            final(self).target() == old(self).target(),
            final(self).horizon() == old(self).horizon(),
            final(self).frames() == old(self).frames(),
            final(self).closest() == old(self).closest(),
            abandon == (old(self).phase() == ScanPhase::Reading && packet_pts is Some
                && packet_pts->Some_0 > old(self).horizon()),
            final(self).phase() == if abandon {
                ScanPhase::Draining
            } else {
                old(self).phase()
            },
    {
        let abandon = match packet_pts {
            Some(p) => self.phase == ScanPhase::Reading && ( p as i128 ) > self.horizon,
            None => false,
        };
        if abandon {
            self.phase = ScanPhase::Draining;
        }
        abandon
    }

    /// Reports that the container has no more packets: the scan drains the
    /// decoder, unless it is finished.
    pub fn on_end_of_stream(&mut self)
        requires
            old(self).wf(),
        ensures
            final(self).wf(),
            final(self).target() == old(self).target(),
            final(self).horizon() == old(self).horizon(),
            final(self).frames() == old(self).frames(),
            final(self).closest() == old(self).closest(),
            final(self).phase() == if old(self).phase() == ScanPhase::Reading {
                ScanPhase::Draining
            } else {
                old(self).phase()
            },
    {
        if self.phase == ScanPhase::Reading {
            self.phase = ScanPhase::Draining;
        }
    }

    /// Ends the scan: the presentation time of the frame to show, or the error
    /// for a scan that saw no frame at all. `timestamp_us` is the requested
    /// time, which the error names.
    pub fn finish(&self, timestamp_us: i64) -> (result: Result<i64, VideoError>)
        requires
            self.wf(),
        ensures
            match self.closest() {
                Some(i) => result == Ok::<i64, VideoError>(self.frames()[i]),
                None => result is Err && result->Err_0.says(
                    "FRAME_NOT_FOUND"@,
                    "Could not find frame at timestamp "@ + seconds_text(timestamp_us as int),
                ),
            },
            result is Err <==> self.frames().len() == 0,
    {
        match self.best {
            Some(b) => Ok(b.pts),
            None => Err(VideoError::frame_not_found(timestamp_us)),
        }
    }
}

/// At most one frame is the closest: two indices that both satisfy
/// [`is_closest`] are the same index.
pub proof fn closest_is_unique(frames: Seq<i64>, target: int, i: int, j: int)
    requires
        is_closest(frames, target, i),
        is_closest(frames, target, j),
    ensures
        i == j,
{
    if i < j {
        assert(distance(frames[i] as int, target) > distance(frames[j] as int, target));
    } else if j < i {
        assert(distance(frames[j] as int, target) > distance(frames[i] as int, target));
    }
}

/// The choice of a scan depends on nothing but the frames it was told of: two
/// scans for the same target that saw the same frames keep the same frame.
pub proof fn scans_of_same_frames_agree(first: FrameScan, second: FrameScan)
    requires
        first.wf(),
        second.wf(),
        first.target() == second.target(),
        first.frames() == second.frames(),
    ensures
        first.closest() == second.closest(),
{
    if first.frames().len() > 0 {
        closest_is_unique(
            first.frames(),
            first.target(),
            first.closest()->Some_0,
            second.closest()->Some_0,
        );
    }
}

/// A target at or past the end of the stream selects the last frame: where
/// every frame lies before the target and each is shown later than the one
/// before it, the closest frame is the last one reported.
pub proof fn late_target_selects_last_frame(frames: Seq<i64>, target: int, i: int)
    requires
        is_closest(frames, target, i),
        all_before(frames, target),
        strictly_increasing(frames),
    ensures
        i == frames.len() - 1,
{
    let last = frames.len() - 1;
    if i < last {
        assert(distance(frames[i] as int, target) <= distance(frames[last] as int, target));
    }
}

/// A scan always has a frame to show once one was reported, and none before:
/// the kept frame exists exactly when the scan has seen a frame.
pub proof fn kept_frame_exists_iff_seen(scan: FrameScan)
    requires
        scan.wf(),
    ensures
        scan.closest() is Some <==> scan.frames().len() > 0,
{
}

/// A finished scan stopped at the first frame at or past the target, and shows
/// either that frame or an earlier one that is nearer to the target.
pub proof fn finished_scan_stopped_at_first_overshoot(scan: FrameScan)
    requires
        scan.wf(),
        scan.phase() == ScanPhase::Finished,
    ensures
        scan.frames().len() > 0,
        scan.frames().last() >= scan.target(),
        forall|j: int| 0 <= j < scan.frames().len() - 1 ==> (#[trigger] scan.frames()[j]) < scan.target(),
        scan.closest() is Some,
        distance(scan.frames()[scan.closest()->Some_0] as int, scan.target()) <= scan.frames().last()
            - scan.target(),
{
    let frames = scan.frames();
    assert forall|j: int| 0 <= j < frames.len() - 1 implies (#[trigger] frames[j]) < scan.target() by {
        assert(frames.drop_last()[j] == frames[j]);
    }
    let i = scan.closest()->Some_0;
    assert(distance(frames[i] as int, scan.target()) <= distance(
        frames[frames.len() - 1] as int,
        scan.target(),
    ));
}

} // verus!
