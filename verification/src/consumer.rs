//! What a consumer makes of the frames it receives: where playback stands,
//! which subtitles are on screen and where a skip leads.

use vstd::prelude::*;
use crate::model::{SubtitleFrame, VideoFrame};

verus! {

/// How far a skip forward or backward leads, in milliseconds.
pub const SKIP_MS: i64 = 10_000;

impl SubtitleFrame {
    /// The subtitle is on screen from its start to its end, both included.
    pub open spec fn covers(&self, now_ms: i64) -> bool {
        self.start_ms <= now_ms <= self.end_ms
    }

    /// The subtitle is on screen now or will be later.
    pub open spec fn due(&self, now_ms: i64) -> bool {
        self.end_ms >= now_ms
    }

    /// Tells whether the subtitle is on screen at `now_ms`.
    pub fn shown_at(&self, now_ms: i64) -> (shown: bool)
        ensures
            shown == self.covers(now_ms),
    {
        self.start_ms <= now_ms && now_ms <= self.end_ms
    }
}

/// The subtitles that are still due at `now_ms`, in their order.
pub open spec fn due_frames(frames: Seq<SubtitleFrame>, now_ms: i64) -> Seq<SubtitleFrame>
    decreases frames.len(),
{
    if frames.len() == 0 {
        Seq::empty()
    } else if frames[0].due(now_ms) {
        seq![frames[0]] + due_frames(frames.drop_first(), now_ms)
    } else {
        due_frames(frames.drop_first(), now_ms)
    }
}

/// Drops the subtitles whose end lies before `now_ms`.
pub fn retain_due(frames: &mut Vec<SubtitleFrame>, now_ms: i64)
    ensures
        final(frames)@ == due_frames(old(frames)@, now_ms),
{
    let mut i: usize = 0;
    assert(frames@.subrange(0, 0) =~= Seq::<SubtitleFrame>::empty());
    assert(frames@.subrange(0, frames@.len() as int) =~= frames@);
    while i < frames.len()
        invariant
            i <= frames@.len(),
            due_frames(old(frames)@, now_ms) == frames@.subrange(0, i as int) + due_frames(
                frames@.subrange(i as int, frames@.len() as int),
                now_ms,
            ),
        decreases frames@.len() - i,
    {
        let ghost before = frames@;
        let ghost rest = before.subrange(i as int, before.len() as int);
        assert(rest[0] == before[i as int]);
        assert(rest.drop_first() =~= before.subrange(i + 1, before.len() as int));
        if frames[i].end_ms >= now_ms {
            assert(before.subrange(0, i + 1) =~= before.subrange(0, i as int) + seq![
                before[i as int],
            ]);
            i = i + 1;
        } else {
            frames.remove(i);
            assert(frames@.subrange(0, i as int) =~= before.subrange(0, i as int));
            assert(frames@.subrange(i as int, frames@.len() as int) =~= before.subrange(
                i + 1,
                before.len() as int,
            ));
        }
    }
    assert(frames@.subrange(0, i as int) =~= frames@);
}

/// Where a consumer believes playback to stand.
#[derive(Debug, Clone, Copy, PartialEq, Eq, Structural)]
pub struct Progress {
    pub position_ms: i64,
    pub duration_ms: i64,
}

/// The progress after a frame was seen: the position and the duration
/// follow the frame where it carries them.
pub open spec fn progress_after(progress: Progress, frame: VideoFrame) -> Progress {
    Progress {
        position_ms: match frame.pts_ms {
            Some(pts) => pts,
            None => progress.position_ms,
        },
        duration_ms: match frame.duration_ms {
            Some(d) => d,
            None => progress.duration_ms,
        },
    }
}

impl Progress {
    /// Follows a frame that was received.
    pub fn frame_seen(&mut self, frame: &VideoFrame)
        ensures
            *final(self) == progress_after(*old(self), *frame),
    {
        match frame.pts_ms {
            Some(pts) => {
                self.position_ms = pts;
            },
            None => {},
        }
        match frame.duration_ms {
            Some(d) => {
                self.duration_ms = d;
            },
            None => {},
        }
    }

    /// The position a skip backward leads to: `SKIP_MS` earlier, but not
    /// before the start.
    pub fn skip_back_target(&self) -> (target: i64)
        ensures
            target == if self.position_ms - SKIP_MS < 0 {
                0
            } else {
                self.position_ms - SKIP_MS
            },
    {
        if self.position_ms < SKIP_MS {
            0
        } else {
            self.position_ms - SKIP_MS
        }
    }

    /// The position a skip forward leads to: `SKIP_MS` later, but not
    /// beyond the duration.
    pub fn skip_forward_target(&self) -> (target: i64)
        ensures
            target == if self.position_ms + SKIP_MS < self.duration_ms {
                self.position_ms + SKIP_MS
            } else {
                self.duration_ms as int
            },
    {
        let later: i128 = self.position_ms as i128 + SKIP_MS as i128;
        if later < self.duration_ms as i128 {
            later as i64
        } else {
            self.duration_ms
        }
    }
}

} // verus!
