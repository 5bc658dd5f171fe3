//! Bounded first-in first-out buffers for decoded frames.
//!
//! A buffer holds the frames that were decoded and not yet presented, oldest
//! first, and never more than its capacity. A push into a full buffer is
//! refused and changes nothing, so that the producer waits until frames are
//! taken out. The model of a buffer is the sequence of its frames together
//! with its capacity; `pushed`, `next_frame` and `popped` say what one
//! operation does to that model.

use crate::decoder::{AudioFrame, VideoFrame};
use crate::error::PlayerError;
use std::collections::VecDeque;
use vstd::prelude::*;

verus! {

/// Whether a queue of the given capacity takes one more frame.
pub open spec fn has_room<T>(queue: Seq<T>, capacity: nat) -> bool {
    queue.len() < capacity
}

/// The queue after a push of `frame`: the frame stands at the end where
/// there was room, and the queue is as before where there was none.
pub open spec fn pushed<T>(queue: Seq<T>, capacity: nat, frame: T) -> Seq<T> {
    if has_room(queue, capacity) {
        queue.push(frame)
    } else {
        queue
    }
}

/// The frame that a pop or a peek gives: the oldest one, if there is any.
pub open spec fn next_frame<T>(queue: Seq<T>) -> Option<T> {
    if queue.len() > 0 {
        Some(queue.first())
    } else {
        None
    }
}

/// The queue after a pop: without its oldest frame, if there was any.
pub open spec fn popped<T>(queue: Seq<T>) -> Seq<T> {
    if queue.len() > 0 {
        queue.drop_first()
    } else {
        queue
    }
}

/// The queue after the frames were pushed one after the other.
pub open spec fn pushed_all<T>(queue: Seq<T>, capacity: nat, frames: Seq<T>) -> Seq<T>
    decreases frames.len(),
{
    if frames.len() == 0 {
        queue
    } else {
        pushed(pushed_all(queue, capacity, frames.drop_last()), capacity, frames.last())
    }
}

/// The queue after `count` pops.
pub open spec fn popped_times<T>(queue: Seq<T>, count: nat) -> Seq<T>
    decreases count,
{
    if count == 0 {
        queue
    } else {
        popped(popped_times(queue, (count - 1) as nat))
    }
}

/// Pushing frames into an empty buffer keeps them in their order, as many as
/// the capacity allows.
pub proof fn lemma_pushed_all_from_empty<T>(capacity: nat, frames: Seq<T>)
    ensures
        frames.len() <= capacity ==> pushed_all(Seq::empty(), capacity, frames) == frames,
        frames.len() > capacity ==> pushed_all(Seq::empty(), capacity, frames) == frames.take(
            capacity as int,
        ),
    decreases frames.len(),
{
    if frames.len() > 0 {
        lemma_pushed_all_from_empty(capacity, frames.drop_last());
    }
}

/// Pops take the frames of a queue from the front.
pub proof fn lemma_popped_times<T>(queue: Seq<T>, count: nat)
    ensures
        count <= queue.len() ==> popped_times(queue, count) == queue.subrange(
            count as int,
            queue.len() as int,
        ),
        count > queue.len() ==> popped_times(queue, count) == Seq::<T>::empty(),
    decreases count,
{
    if count > 0 {
        lemma_popped_times(queue, (count - 1) as nat);
    }
}

/// First in, first out: after the frames were pushed into an empty buffer
/// that has room for all of them, pop number `k` (from zero) gives frame
/// number `k`, and after as many pops as there were pushes the buffer is
/// empty. Where the frames outnumber the capacity, the pops give the frames
/// that were taken, in their order, and then nothing.
pub proof fn lemma_fifo_order<T>(capacity: nat, frames: Seq<T>, k: nat)
    requires
        k < frames.len(),
    ensures
        k < capacity ==> next_frame(
            popped_times(pushed_all(Seq::empty(), capacity, frames), k),
        ) == Some(frames[k as int]),
        k >= capacity ==> next_frame(popped_times(pushed_all(Seq::empty(), capacity, frames), k))
            == None::<T>,
        popped_times(pushed_all(Seq::empty(), capacity, frames), frames.len()) == Seq::<
            T,
        >::empty(),
{
    let queue = pushed_all(Seq::empty(), capacity, frames);
    lemma_pushed_all_from_empty(capacity, frames);
    lemma_popped_times(queue, k);
    lemma_popped_times(queue, frames.len());
}

/// Backpressure: once as many frames as the capacity were pushed into an
/// empty buffer, the buffer is full, and one more push is refused and leaves
/// the buffer as it was.
pub proof fn lemma_push_beyond_capacity<T>(capacity: nat, frames: Seq<T>, extra: T)
    requires
        frames.len() == capacity,
    ensures
        pushed_all(Seq::empty(), capacity, frames).len() == capacity,
        !has_room(pushed_all(Seq::empty(), capacity, frames), capacity),
        pushed(pushed_all(Seq::empty(), capacity, frames), capacity, extra) == pushed_all(
            Seq::empty(),
            capacity,
            frames,
        ),
{
    lemma_pushed_all_from_empty(capacity, frames);
}

/// A buffer never holds more frames than its capacity, whatever is pushed.
pub proof fn lemma_pushed_within_capacity<T>(queue: Seq<T>, capacity: nat, frame: T)
    requires
        queue.len() <= capacity,
    ensures
        pushed(queue, capacity, frame).len() <= capacity,
        popped(queue).len() <= capacity,
{
}

/// Configuration for frame buffers.
#[derive(Debug, Clone)]
pub struct FrameBufferConfig {
    /// Maximum number of video frames to buffer.
    pub max_video_frames: usize,
    /// Maximum number of audio frames to buffer.
    pub max_audio_frames: usize,
}

/// Video frames buffered by default: about one second at 30 frames a second.
pub const DEFAULT_VIDEO_FRAMES: usize = 30;

/// Audio frames buffered by default: about one second of audio.
pub const DEFAULT_AUDIO_FRAMES: usize = 50;

impl Default for FrameBufferConfig {
    /// Room for about one second of media in each buffer.
    fn default() -> (config: FrameBufferConfig)
        ensures
            config.max_video_frames == DEFAULT_VIDEO_FRAMES,
            config.max_audio_frames == DEFAULT_AUDIO_FRAMES,
    {
        FrameBufferConfig {
            max_video_frames: DEFAULT_VIDEO_FRAMES,
            max_audio_frames: DEFAULT_AUDIO_FRAMES,
        }
    }
}

/// FIFO buffer for video frames.
#[derive(Debug)]
pub struct VideoFrameBuffer {
    /// Internal frame storage.
    frames: VecDeque<VideoFrame>,
    /// Maximum capacity.
    capacity: usize,
}

impl View for VideoFrameBuffer {
    type V = Seq<VideoFrame>;

    /// The buffered frames, oldest first.
    closed spec fn view(&self) -> Seq<VideoFrame> {
        self.frames@
    }
}

impl VideoFrameBuffer {
    /// The buffer holds no more frames than its capacity. This holds of a
    /// new buffer, and every operation keeps it.
    pub open spec fn within_capacity(&self) -> bool {
        self@.len() <= self.spec_capacity()
    }

    /// The greatest number of frames that the buffer holds.
    pub closed spec fn spec_capacity(&self) -> nat {
        self.capacity as nat
    }

    /// Creates a new video frame buffer with the specified capacity.
    pub fn new(capacity: usize) -> (buffer: VideoFrameBuffer)
        ensures
            buffer@.len() == 0,
            buffer.spec_capacity() == capacity,
            buffer.within_capacity(),
    {
        VideoFrameBuffer { frames: VecDeque::new(), capacity }
    }

    /// Pushes a frame into the buffer.
    ///
    /// A full buffer refuses the frame with the frame buffer error "Video
    /// buffer is full" and stays as it was.
    pub fn push(&mut self, frame: VideoFrame) -> (r: Result<(), PlayerError>)
        ensures
            final(self)@ == pushed(old(self)@, old(self).spec_capacity(), frame),
            final(self).spec_capacity() == old(self).spec_capacity(),
            old(self).within_capacity() ==> final(self).within_capacity(),
            has_room(old(self)@, old(self).spec_capacity()) ==> r is Ok,
            !has_room(old(self)@, old(self).spec_capacity()) ==> (r matches Err(e)
                && e is FrameBuffer && e.message() == "Video buffer is full"@),
    {
        if self.frames.len() >= self.capacity {
            return Err(PlayerError::frame_buffer("Video buffer is full"));
        }
        self.frames.push_back(frame);
        Ok(())
    }

    /// Pops the oldest frame from the buffer.
    ///
    /// Returns the oldest frame, or `None` if the buffer is empty.
    pub fn pop(&mut self) -> (frame: Option<VideoFrame>)
        ensures
            frame == next_frame(old(self)@),
            final(self)@ == popped(old(self)@),
            final(self).spec_capacity() == old(self).spec_capacity(),
            old(self).within_capacity() ==> final(self).within_capacity(),
    {
        self.frames.pop_front()
    }

    /// Peeks at the oldest frame without removing it.
    pub fn peek(&self) -> (frame: Option<&VideoFrame>)
        ensures
            match frame {
                Some(f) => next_frame(self@) == Some(*f),
                None => next_frame(self@) == None::<VideoFrame>,
            },
    {
        if self.frames.len() > 0 {
            Some(&self.frames[0])
        } else {
            None
        }
    }

    /// Returns the number of frames in the buffer.
    pub fn len(&self) -> (n: usize)
        ensures
            n == self@.len(),
    {
        self.frames.len()
    }

    /// Returns whether the buffer is empty.
    pub fn is_empty(&self) -> (empty: bool)
        ensures
            empty == (self@.len() == 0),
    {
        self.frames.len() == 0
    }

    /// Returns whether the buffer is full.
    pub fn is_full(&self) -> (full: bool)
        ensures
            full == !has_room(self@, self.spec_capacity()),
            self.within_capacity() ==> full == (self@.len() == self.spec_capacity()),
    {
        self.frames.len() >= self.capacity
    }

    /// Returns the buffer capacity.
    pub fn capacity(&self) -> (capacity: usize)
        ensures
            capacity == self.spec_capacity(),
    {
        self.capacity
    }

    /// Clears all frames from the buffer.
    pub fn clear(&mut self)
        ensures
            final(self)@.len() == 0,
            final(self).spec_capacity() == old(self).spec_capacity(),
            final(self).within_capacity(),
    {
        self.frames.clear();
    }

    /// Returns the PTS of the oldest frame, if any.
    pub fn front_pts(&self) -> (pts: Option<u64>)
        ensures
            self@.len() == 0 ==> pts is None,
            self@.len() > 0 ==> pts == Some(self@.first().pts_ms),
    {
        if self.frames.len() > 0 {
            Some(self.frames[0].pts_ms)
        } else {
            None
        }
    }

    /// Returns the PTS of the newest frame, if any.
    pub fn back_pts(&self) -> (pts: Option<u64>)
        ensures
            self@.len() == 0 ==> pts is None,
            self@.len() > 0 ==> pts == Some(self@.last().pts_ms),
    {
        let n = self.frames.len();
        if n > 0 {
            Some(self.frames[n - 1].pts_ms)
        } else {
            None
        }
    }
}

impl Default for VideoFrameBuffer {
    /// An empty buffer with room for `DEFAULT_VIDEO_FRAMES` frames.
    fn default() -> (buffer: VideoFrameBuffer)
        ensures
            buffer@.len() == 0,
            buffer.spec_capacity() == DEFAULT_VIDEO_FRAMES,
            buffer.within_capacity(),
    {
        VideoFrameBuffer::new(FrameBufferConfig::default().max_video_frames)
    }
}

/// FIFO buffer for audio frames.
#[derive(Debug)]
pub struct AudioFrameBuffer {
    /// Internal frame storage.
    frames: VecDeque<AudioFrame>,
    /// Maximum capacity.
    capacity: usize,
}

impl View for AudioFrameBuffer {
    type V = Seq<AudioFrame>;

    /// The buffered frames, oldest first.
    closed spec fn view(&self) -> Seq<AudioFrame> {
        self.frames@
    }
}

impl AudioFrameBuffer {
    /// The buffer holds no more frames than its capacity. This holds of a
    /// new buffer, and every operation keeps it.
    pub open spec fn within_capacity(&self) -> bool {
        self@.len() <= self.spec_capacity()
    }

    /// The greatest number of frames that the buffer holds.
    pub closed spec fn spec_capacity(&self) -> nat {
        self.capacity as nat
    }

    /// Creates a new audio frame buffer with the specified capacity.
    pub fn new(capacity: usize) -> (buffer: AudioFrameBuffer)
        ensures
            buffer@.len() == 0,
            buffer.spec_capacity() == capacity,
            buffer.within_capacity(),
    {
        AudioFrameBuffer { frames: VecDeque::new(), capacity }
    }

    /// Pushes a frame into the buffer.
    ///
    /// A full buffer refuses the frame with the frame buffer error "Audio
    /// buffer is full" and stays as it was.
    pub fn push(&mut self, frame: AudioFrame) -> (r: Result<(), PlayerError>)
        ensures
            final(self)@ == pushed(old(self)@, old(self).spec_capacity(), frame),
            final(self).spec_capacity() == old(self).spec_capacity(),
            old(self).within_capacity() ==> final(self).within_capacity(),
            has_room(old(self)@, old(self).spec_capacity()) ==> r is Ok,
            !has_room(old(self)@, old(self).spec_capacity()) ==> (r matches Err(e)
                && e is FrameBuffer && e.message() == "Audio buffer is full"@),
    {
        if self.frames.len() >= self.capacity {
            return Err(PlayerError::frame_buffer("Audio buffer is full"));
        }
        self.frames.push_back(frame);
        Ok(())
    }

    /// Pops the oldest frame from the buffer.
    ///
    /// Returns the oldest frame, or `None` if the buffer is empty.
    pub fn pop(&mut self) -> (frame: Option<AudioFrame>)
        ensures
            frame == next_frame(old(self)@),
            final(self)@ == popped(old(self)@),
            final(self).spec_capacity() == old(self).spec_capacity(),
            old(self).within_capacity() ==> final(self).within_capacity(),
    {
        self.frames.pop_front()
    }

    /// Peeks at the oldest frame without removing it.
    pub fn peek(&self) -> (frame: Option<&AudioFrame>)
        ensures
            match frame {
                Some(f) => next_frame(self@) == Some(*f),
                None => next_frame(self@) == None::<AudioFrame>,
            },
    {
        if self.frames.len() > 0 {
            Some(&self.frames[0])
        } else {
            None
        }
    }

    /// Returns the number of frames in the buffer.
    pub fn len(&self) -> (n: usize)
        ensures
            n == self@.len(),
    {
        self.frames.len()
    }

    /// Returns whether the buffer is empty.
    pub fn is_empty(&self) -> (empty: bool)
        ensures
            empty == (self@.len() == 0),
    {
        self.frames.len() == 0
    }

    /// Returns whether the buffer is full.
    pub fn is_full(&self) -> (full: bool)
        ensures
            full == !has_room(self@, self.spec_capacity()),
            self.within_capacity() ==> full == (self@.len() == self.spec_capacity()),
    {
        self.frames.len() >= self.capacity
    }

    /// Returns the buffer capacity.
    pub fn capacity(&self) -> (capacity: usize)
        ensures
            capacity == self.spec_capacity(),
    {
        self.capacity
    }

    /// Clears all frames from the buffer.
    pub fn clear(&mut self)
        ensures
            final(self)@.len() == 0,
            final(self).spec_capacity() == old(self).spec_capacity(),
            final(self).within_capacity(),
    {
        self.frames.clear();
    }

    /// Returns the PTS of the oldest frame, if any.
    pub fn front_pts(&self) -> (pts: Option<u64>)
        ensures
            self@.len() == 0 ==> pts is None,
            self@.len() > 0 ==> pts == Some(self@.first().pts_ms),
    {
        if self.frames.len() > 0 {
            Some(self.frames[0].pts_ms)
        } else {
            None
        }
    }

    /// Returns the PTS of the newest frame, if any.
    pub fn back_pts(&self) -> (pts: Option<u64>)
        ensures
            self@.len() == 0 ==> pts is None,
            self@.len() > 0 ==> pts == Some(self@.last().pts_ms),
    {
        let n = self.frames.len();
        if n > 0 {
            Some(self.frames[n - 1].pts_ms)
        } else {
            None
        }
    }
}

impl Default for AudioFrameBuffer {
    /// An empty buffer with room for `DEFAULT_AUDIO_FRAMES` frames.
    fn default() -> (buffer: AudioFrameBuffer)
        ensures
            buffer@.len() == 0,
            buffer.spec_capacity() == DEFAULT_AUDIO_FRAMES,
            buffer.within_capacity(),
    {
        AudioFrameBuffer::new(FrameBufferConfig::default().max_audio_frames)
    }
}

/// Statistics about buffer usage.
#[derive(Debug, Clone)]
pub struct BufferStats {
    /// Number of video frames currently buffered.
    pub video_frames: usize,
    /// Video buffer capacity.
    pub video_capacity: usize,
    /// Number of audio frames currently buffered.
    pub audio_frames: usize,
    /// Audio buffer capacity.
    pub audio_capacity: usize,
}

/// Combined buffer manager for synchronized A/V playback.
#[derive(Debug)]
pub struct FrameBufferManager {
    /// Video frame buffer.
    pub video: VideoFrameBuffer,
    /// Audio frame buffer.
    pub audio: AudioFrameBuffer,
}

impl FrameBufferManager {
    /// Neither buffer holds more frames than its capacity.
    pub open spec fn within_capacity(&self) -> bool {
        self.video.within_capacity() && self.audio.within_capacity()
    }

    /// The statistics of the two buffers as they stand.
    pub open spec fn spec_stats(&self) -> BufferStats {
        BufferStats {
            video_frames: self.video@.len() as usize,
            video_capacity: self.video.spec_capacity() as usize,
            audio_frames: self.audio@.len() as usize,
            audio_capacity: self.audio.spec_capacity() as usize,
        }
    }

    /// Creates a new frame buffer manager with the given configuration.
    pub fn new(config: FrameBufferConfig) -> (manager: FrameBufferManager)
        ensures
            manager.video@.len() == 0,
            manager.audio@.len() == 0,
            manager.video.spec_capacity() == config.max_video_frames,
            manager.audio.spec_capacity() == config.max_audio_frames,
            manager.within_capacity(),
    {
        FrameBufferManager {
            video: VideoFrameBuffer::new(config.max_video_frames),
            audio: AudioFrameBuffer::new(config.max_audio_frames),
        }
    }

    /// Clears both video and audio buffers.
    pub fn clear(&mut self)
        ensures
            final(self).video@.len() == 0,
            final(self).audio@.len() == 0,
            final(self).video.spec_capacity() == old(self).video.spec_capacity(),
            final(self).audio.spec_capacity() == old(self).audio.spec_capacity(),
            final(self).within_capacity(),
    {
        self.video.clear();
        self.audio.clear();
    }

    /// Returns the total number of frames across both buffers.
    pub fn total_frames(&self) -> (n: usize)
        requires
            self.video@.len() + self.audio@.len() <= usize::MAX,
        ensures
            n == self.video@.len() + self.audio@.len(),
    {
        self.video.len() + self.audio.len()
    }

    /// Returns buffer statistics.
    pub fn stats(&self) -> (stats: BufferStats)
        ensures
            stats == self.spec_stats(),
            self.within_capacity() ==> stats.video_frames <= stats.video_capacity
                && stats.audio_frames <= stats.audio_capacity,
    {
        BufferStats {
            video_frames: self.video.len(),
            video_capacity: self.video.capacity(),
            audio_frames: self.audio.len(),
            audio_capacity: self.audio.capacity(),
        }
    }
}

impl Default for FrameBufferManager {
    /// Two empty buffers with the default capacities.
    fn default() -> (manager: FrameBufferManager)
        ensures
            manager.video@.len() == 0,
            manager.audio@.len() == 0,
            manager.video.spec_capacity() == DEFAULT_VIDEO_FRAMES,
            manager.audio.spec_capacity() == DEFAULT_AUDIO_FRAMES,
            manager.within_capacity(),
    {
        FrameBufferManager::new(FrameBufferConfig::default())
    }
}

} // verus!
