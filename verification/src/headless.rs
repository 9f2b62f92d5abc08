//! Headless loopback: publish a test pattern, subscribe to it, and count frames.
//!
//! The loop hands each frame to a [`Loopback`], which says when figures are due
//! and in the end whether the pipeline is healthy.

use vstd::prelude::*;

use crate::text;

verus! {

/// Returns the message for a codec that is not known.
pub fn unknown_codec(name: &str, available: &[String]) -> (res: String)
    ensures
        res@ == "unknown video codec '"@ + name@ + "'. Available: "@ + text::joined(
            text::string_list(available@),
            ", "@,
        ),
{
    "unknown video codec '".to_owned().concat(name).concat("'. Available: ").concat(
        text::join(available, ", ").as_str(),
    )
}

/// A run of the loop. Times are in milliseconds.
#[derive(Debug, Clone, Copy, PartialEq, Eq, Structural)]
pub struct Loopback {
    /// How long to run, or forever.
    pub duration: Option<u64>,
    /// How long an interval of figures is.
    pub interval: u64,
    pub start: u64,
    pub interval_start: u64,
    pub interval_frames: u64,
    pub total_frames: u64,
    /// How long the first frame took.
    pub first_frame: Option<u64>,
}

/// What a frame brings.
#[derive(Debug, Clone, Copy, PartialEq, Eq, Structural)]
pub struct FrameReport {
    /// The time the first frame took, with the first frame.
    pub first: Option<u64>,
    /// Whether figures are due, over the frames and the time below.
    pub due: bool,
    /// The frames of the interval.
    pub frames: u64,
    /// The length of the interval.
    pub elapsed: u64,
}

impl Loopback {
    /// Starts at time `now`, for some seconds, zero for no end, with figures
    /// every so many seconds.
    pub fn new(duration: u64, interval: u64, now: u64) -> (res: Self)
        requires
            duration * 1000 <= u64::MAX,
            interval * 1000 <= u64::MAX,
        ensures
            res == (Loopback {
                duration: if duration == 0 {
                    None
                } else {
                    Some((duration * 1000) as u64)
                },
                interval: (interval * 1000) as u64,
                start: now,
                interval_start: now,
                interval_frames: 0,
                total_frames: 0,
                first_frame: None,
            }),
    {
        Loopback {
            duration: if duration == 0 {
                None
            } else {
                Some(duration * 1000)
            },
            interval: interval * 1000,
            start: now,
            interval_start: now,
            interval_frames: 0,
            total_frames: 0,
            first_frame: None,
        }
    }

    /// Whether the times are in order.
    pub open spec fn in_order(self, now: u64) -> bool {
        self.start <= self.interval_start <= now
    }

    /// Returns the time that is left at `now`: nothing once the run is over, and
    /// no limit for one without an end.
    pub fn remaining(&self, now: u64) -> (res: Option<u64>)
        requires
            self.in_order(now),
        ensures
            res == match self.duration {
                None => None::<u64>,
                Some(duration) => Some(
                    if now - self.start >= duration {
                        0
                    } else {
                        (duration - (now - self.start)) as u64
                    },
                ),
            },
    {
        match self.duration {
            None => None,
            Some(duration) => {
                let elapsed: u64 = now - self.start;
                Some(
                    if elapsed >= duration {
                        0
                    } else {
                        duration - elapsed
                    },
                )
            },
        }
    }

    /// Counts a frame that arrived at time `now`.
    pub fn frame(&mut self, now: u64) -> (res: FrameReport)
        requires
            old(self).in_order(now),
            old(self).interval_frames <= old(self).total_frames < u64::MAX,
        ensures
            final(self).in_order(now),
            final(self).interval_frames <= final(self).total_frames,
            final(self).total_frames == old(self).total_frames + 1,
            final(self).duration == old(self).duration,
            final(self).interval == old(self).interval,
            final(self).start == old(self).start,
            final(self).first_frame == match old(self).first_frame {
                Some(latency) => Some(latency),
                None => Some((now - old(self).start) as u64),
            },
            res.first == if old(self).first_frame is None {
                final(self).first_frame
            } else {
                None
            },
            res.elapsed == now - old(self).interval_start,
            res.frames == old(self).interval_frames + 1,
            res.due == (res.elapsed >= old(self).interval),
            final(self).interval_start == if res.due {
                now
            } else {
                old(self).interval_start
            },
            final(self).interval_frames == if res.due {
                0
            } else {
                res.frames
            },
    {
        self.total_frames += 1;
        self.interval_frames += 1;
        let mut first: Option<u64> = None;
        if self.first_frame.is_none() {
            first = Some(now - self.start);
            self.first_frame = first;
        }
        let elapsed: u64 = now - self.interval_start;
        let frames: u64 = self.interval_frames;
        let due: bool = elapsed >= self.interval;
        if due {
            self.interval_start = now;
            self.interval_frames = 0;
        }
        FrameReport { first, due, frames, elapsed }
    }

    /// Returns whether the pipeline is healthy: a frame arrived.
    pub fn healthy(&self) -> (res: bool)
        ensures
            res == (self.total_frames > 0),
    {
        self.total_frames > 0
    }
}

} // verus!
