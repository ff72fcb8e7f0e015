//! A short queue of decoded video frames, from which the frame nearest to
//! a time is picked.

use vstd::prelude::*;
use std::collections::VecDeque;
use std::sync::Arc;
use crate::media::share;

verus! {

/// A decoded video frame.
#[derive(Debug, Clone, PartialEq, Eq)]
pub struct DecodedFrame {
    /// The pixels, RGBA with eight bits a channel.
    pub rgba: Vec<u8>,
    /// Pixels in a row.
    pub width: u32,
    /// Number of rows.
    pub height: u32,
    /// When the frame is due, in microseconds from the start of the video.
    pub timestamp: i64,
    /// Position of the frame in the video.
    pub frame_index: u64,
}

/// A queue of frames that holds the newest frames up to its capacity.
pub struct FrameQueue {
    /// The frames, oldest first.
    frames: VecDeque<Arc<DecodedFrame>>,
    /// Number of frames after which the oldest frame makes room.
    capacity: usize,
}

/// Distance between two times.
pub open spec fn distance(a: int, b: int) -> int {
    if a >= b {
        a - b
    } else {
        b - a
    }
}

/// Whether frame `i` is the one to show at `timestamp`: no frame is nearer
/// in time, and it is the first of those that are as near.
pub open spec fn is_nearest(frames: Seq<DecodedFrame>, timestamp: i64, i: int) -> bool {
    &&& 0 <= i < frames.len()
    &&& forall|j: int|
        0 <= j < frames.len() ==> distance(frames[i].timestamp as int, timestamp as int)
            <= distance((#[trigger] frames[j]).timestamp as int, timestamp as int)
    &&& forall|j: int|
        0 <= j < i ==> distance(frames[i].timestamp as int, timestamp as int) < distance(
            (#[trigger] frames[j]).timestamp as int,
            timestamp as int,
        )
}

/// The frames after one more was pushed onto a queue of the given capacity:
/// the oldest frame leaves where the queue was full.
pub open spec fn pushed(frames: Seq<DecodedFrame>, capacity: usize, frame: DecodedFrame) -> Seq<
    DecodedFrame,
> {
    if frames.len() >= capacity && frames.len() > 0 {
        frames.skip(1).push(frame)
    } else {
        frames.push(frame)
    }
}

/// Distance between two times.
fn time_distance(a: i64, b: i64) -> (d: u64)
    ensures
        d == distance(a as int, b as int),
{
    if a >= b {
        (a as i128 - b as i128) as u64
    } else {
        (b as i128 - a as i128) as u64
    }
}

impl FrameQueue {
    /// The frames held, oldest first.
    pub closed spec fn view(&self) -> Seq<DecodedFrame> {
        Seq::new(self.frames@.len(), |i: int| *self.frames@[i])
    }

    /// The capacity that the queue was made with.
    pub closed spec fn limit(&self) -> usize {
        self.capacity
    }

    /// An empty queue of the given capacity.
    pub fn new(capacity: usize) -> (queue: Self)
        ensures
            queue@ == Seq::<DecodedFrame>::empty(),
            queue.limit() == capacity,
    {
        let queue = FrameQueue { frames: VecDeque::with_capacity(capacity), capacity };
        assert(queue@ =~= Seq::<DecodedFrame>::empty());
        queue
    }

    /// Adds a frame as the newest; the oldest frame leaves where the queue
    /// is full.
    pub fn push(&mut self, frame: DecodedFrame)
        ensures
            final(self)@ == pushed(old(self)@, old(self).limit(), frame),
            final(self).limit() == old(self).limit(),
    {
        if self.frames.len() >= self.capacity {
            let _ = self.frames.pop_front();
        }
        self.frames.push_back(Arc::new(frame));
        assert(self@ =~= pushed(old(self)@, old(self).limit(), frame));
    }

    /// The frame to show at `timestamp`: the one nearest in time, the oldest
    /// of several that are as near; none where the queue is empty.
    pub fn get_frame_at_time(&self, timestamp: i64) -> (found: Option<Arc<DecodedFrame>>)
        ensures
            match found {
                Some(frame) => exists|i: int|
                    #[trigger] is_nearest(self@, timestamp, i) && *frame == self@[i],
                None => self@.len() == 0,
            },
    {
        if self.frames.len() == 0 {
            return None;
        }
        let mut best: usize = 0;
        let mut best_distance = time_distance(self.frames[0].timestamp, timestamp);
        let mut k: usize = 1;
        while k < self.frames.len()
            invariant
                1 <= k <= self.frames@.len(),
                is_nearest(self@.take(k as int), timestamp, best as int),
                best_distance == distance(self@[best as int].timestamp as int, timestamp as int),
            decreases self.frames.len() - k,
        {
            let ghost seen = self@.take(k as int);
            let ghost next = self@.take(k + 1);
            assert(forall|j: int| 0 <= j < k ==> next[j] == seen[j]);
            assert(next[k as int] == self@[k as int]);
            let d = time_distance(self.frames[k].timestamp, timestamp);
            if d < best_distance {
                best = k;
                best_distance = d;
            }
            k += 1;
        }
        assert(self@.take(k as int) =~= self@);
        Some(share(&self.frames[best]))
    }

    /// The newest frame.
    pub fn latest_frame(&self) -> (found: Option<Arc<DecodedFrame>>)
        ensures
            match found {
                Some(frame) => self@.len() > 0 && *frame == self@.last(),
                None => self@.len() == 0,
            },
    {
        let n = self.frames.len();
        if n == 0 {
            None
        } else {
            Some(share(&self.frames[n - 1]))
        }
    }

    /// Number of frames held.
    pub fn len(&self) -> (n: usize)
        ensures
            n == self@.len(),
    {
        self.frames.len()
    }

    /// Tells whether no frame is held.
    pub fn is_empty(&self) -> (empty: bool)
        ensures
            empty == (self@.len() == 0),
    {
        self.frames.len() == 0
    }

    /// Drops every frame.
    pub fn clear(&mut self)
        ensures
            final(self)@ == Seq::<DecodedFrame>::empty(),
            final(self).limit() == old(self).limit(),
    {
        self.frames.clear();
        assert(self@ =~= Seq::<DecodedFrame>::empty());
    }
}

impl Default for FrameQueue {
    /// A queue of three frames.
    fn default() -> (queue: Self)
        ensures
            queue@ == Seq::<DecodedFrame>::empty(),
            queue.limit() == 3,
    {
        FrameQueue::new(3)
    }
}

/// A queue made with a capacity of one frame or more never holds more
/// frames than its capacity once it holds no more, whatever is pushed.
pub proof fn queue_stays_within_capacity(
    frames: Seq<DecodedFrame>,
    capacity: usize,
    frame: DecodedFrame,
)
    requires
        capacity >= 1,
        frames.len() <= capacity,
    ensures
        pushed(frames, capacity, frame).len() <= capacity,
        pushed(frames, capacity, frame).last() == frame,
{
}

} // verus!
