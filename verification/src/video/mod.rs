//! Video capture: picture formats, colour-space conversion, capture
//! sources and the publish loop.

pub mod clock;
pub mod convert;
pub mod nokhwa;
pub mod pipewire;
pub mod publish;

use crate::video::convert::{image_to_i420_buffer, I420Buffer, I420View, PackedImage, PackedImageView};
use vstd::prelude::*;

verus! {

/// What can go wrong while a source produces a frame.
#[derive(Debug)]
pub enum VideoError {
    /// The camera backend failed; the text is the backend's reason.
    Nokhwa(String),
    /// The desktop-capture session failed; the text is its reason.
    Pipewire(String),
    /// The stream has ended and no further frame will come.
    EmptySource,
    /// The bytes of a frame do not fit the geometry of the source.
    InvalidFrame,
    /// The colour-space converter refused the picture; the text is its reason.
    YUVError(String),
}

/// The mathematical content of a [`VideoError`].
pub enum VideoErrorView {
    Nokhwa(Seq<char>),
    Pipewire(Seq<char>),
    EmptySource,
    InvalidFrame,
    YUVError(Seq<char>),
}

impl View for VideoError {
    type V = VideoErrorView;

    open spec fn view(&self) -> VideoErrorView {
        match self {
            VideoError::Nokhwa(t) => VideoErrorView::Nokhwa(t@),
            VideoError::Pipewire(t) => VideoErrorView::Pipewire(t@),
            VideoError::EmptySource => VideoErrorView::EmptySource,
            VideoError::InvalidFrame => VideoErrorView::InvalidFrame,
            VideoError::YUVError(t) => VideoErrorView::YUVError(t@),
        }
    }
}

/// The codec a source would like its track to be encoded with.
#[derive(Clone, Copy, Debug, PartialEq, Eq, Structural)]
pub enum VideoCodec {
    VP8,
    H264,
    VP9,
    AV1,
}

/// By how much a frame is to be turned before it is shown.
#[derive(Clone, Copy, Debug, PartialEq, Eq, Structural)]
pub enum VideoRotation {
    VideoRotation0,
    VideoRotation90,
    VideoRotation180,
    VideoRotation270,
}

/// One frame on its way to the transport: a planar picture and the time of
/// its capture in microseconds.
#[derive(Debug)]
pub struct VideoFrame {
    pub rotation: VideoRotation,
    pub buffer: I420Buffer,
    pub timestamp_us: i64,
}

/// The mathematical content of a [`VideoFrame`].
pub struct VideoFrameView {
    pub rotation: VideoRotation,
    pub buffer: I420View,
    pub timestamp_us: i64,
}

impl View for VideoFrame {
    type V = VideoFrameView;

    open spec fn view(&self) -> VideoFrameView {
        VideoFrameView { rotation: self.rotation, buffer: self.buffer@, timestamp_us: self.timestamp_us }
    }
}

/// The outcome of producing a frame as mathematical values.
pub open spec fn frame_outcome(r: Result<VideoFrame, VideoError>) -> Result<VideoFrameView, VideoErrorView> {
    match r {
        Ok(f) => Ok(f@),
        Err(e) => Err(e@),
    }
}

/// The frame that a captured picture gives when it is stamped with the
/// time `now_us`, or the reason why it gives none.
pub open spec fn stamped(img: PackedImageView, now_us: i64) -> Result<VideoFrameView, VideoErrorView> {
    match img.converted() {
        Ok(buffer) => Ok(VideoFrameView { rotation: VideoRotation::VideoRotation0, buffer, timestamp_us: now_us }),
        Err(e) => Err(e),
    }
}

/// Converts a captured picture and stamps it with the time of its capture.
pub fn frame_from_image(img: &PackedImage, now_us: i64) -> (r: Result<VideoFrame, VideoError>)
    ensures
        frame_outcome(r) == stamped(img@, now_us),
        r is Ok <==> img@.well_formed(),
        r matches Ok(f) ==> f@.buffer.wf(),
{
    match image_to_i420_buffer(img) {
        Ok(buffer) => Ok(VideoFrame { rotation: VideoRotation::VideoRotation0, buffer, timestamp_us: now_us }),
        Err(e) => Err(e),
    }
}

/// Where a frame source is in its life. A source is started once, then
/// captures and idles in turn, and once stopped stays stopped.
#[derive(Clone, Copy, Debug, PartialEq, Eq, Structural)]
pub enum SourceState {
    New,
    Started,
    Capturing,
    Idle,
    Stopped,
}

impl SourceState {
    /// Whether the source has been started and not stopped.
    pub open spec fn running(self) -> bool {
        self == SourceState::Started || self == SourceState::Capturing || self == SourceState::Idle
    }

    /// The state after `start`: a new source is started, any other stays
    /// as it is.
    pub open spec fn after_start(self) -> SourceState {
        if self == SourceState::New {
            SourceState::Started
        } else {
            self
        }
    }

    /// The state after the backend told whether it acquired its device or
    /// session: where it did, the source is started as by `start`; where
    /// it did not, the source is stopped for good.
    pub open spec fn after_acquire(self, acquired: bool) -> SourceState {
        if acquired {
            self.after_start()
        } else {
            SourceState::Stopped
        }
    }

    /// The state after a frame was asked for: a running source captures.
    pub open spec fn after_request(self) -> SourceState {
        if self.running() {
            SourceState::Capturing
        } else {
            self
        }
    }

    /// The state after a frame was delivered or failed: a running source
    /// idles until the next frame is asked for.
    pub open spec fn after_frame(self) -> SourceState {
        if self.running() {
            SourceState::Idle
        } else {
            self
        }
    }

    /// The state after `stop`, and after the end of the stream.
    pub open spec fn after_stop(self) -> SourceState {
        SourceState::Stopped
    }

    pub fn is_running(&self) -> (b: bool)
        ensures
            b == self.running(),
    {
        match self {
            SourceState::Started | SourceState::Capturing | SourceState::Idle => true,
            _ => false,
        }
    }

    pub fn start(&self) -> (r: SourceState)
        ensures
            r == self.after_start(),
    {
        match self {
            SourceState::New => SourceState::Started,
            _ => *self,
        }
    }

    pub fn acquire(&self, acquired: bool) -> (r: SourceState)
        ensures
            r == self.after_acquire(acquired),
    {
        if acquired {
            self.start()
        } else {
            SourceState::Stopped
        }
    }

    pub fn request(&self) -> (r: SourceState)
        ensures
            r == self.after_request(),
    {
        if self.is_running() {
            SourceState::Capturing
        } else {
            *self
        }
    }

    pub fn frame(&self) -> (r: SourceState)
        ensures
            r == self.after_frame(),
    {
        if self.is_running() {
            SourceState::Idle
        } else {
            *self
        }
    }

    pub fn stop(&self) -> (r: SourceState)
        ensures
            r == self.after_stop(),
    {
        SourceState::Stopped
    }
}

/// The outcome of asking a source for a frame as mathematical values;
/// `Ok(None)` says that there is no frame yet and the source has to be
/// asked again.
pub open spec fn poll_outcome(r: Result<Option<VideoFrame>, VideoError>) -> Result<
    Option<VideoFrameView>,
    VideoErrorView,
> {
    match r {
        Ok(Some(f)) => Ok(Some(f@)),
        Ok(None) => Ok(None),
        Err(e) => Err(e@),
    }
}

/// Where a running source is after it was asked for a frame: stopped at
/// the end of the stream, still capturing where no frame has come yet,
/// idle after a frame or a failed one.
pub open spec fn life_after(outcome: Result<Option<VideoFrameView>, VideoErrorView>) -> SourceState {
    match outcome {
        Err(VideoErrorView::EmptySource) => SourceState::Stopped,
        Ok(None) => SourceState::Capturing,
        _ => SourceState::Idle,
    }
}

/// The outcome of starting a source as mathematical values.
pub open spec fn start_outcome(r: Result<(), VideoError>) -> Result<(), VideoErrorView> {
    match r {
        Ok(_) => Ok(()),
        Err(e) => Err(e@),
    }
}

/// What every frame source can do, whatever backend stands behind it. The
/// backend acquires the device or session and hands over what it
/// delivered; the source says what to acquire, makes frames of what is
/// delivered and keeps track of its own life.
pub trait VideoSource {
    /// What the backend has to acquire for the source.
    type Request;

    /// What the backend's hand-off delivers when the source asks.
    type Delivery;

    /// Where the source is in its life.
    spec fn life(&self) -> SourceState;

    /// Width and height of every frame of the source.
    spec fn extent(&self) -> (u32, u32);

    /// Hands out what the backend has to acquire. Only a new source does,
    /// and only once: it counts as started from then on.
    fn open(&mut self) -> (r: Option<Self::Request>)
        ensures
            final(self).life() == old(self).life().after_start(),
            final(self).extent() == old(self).extent(),
            r is Some <==> old(self).life() == SourceState::New,
    ;

    /// Takes the backend's word on what it acquired. A failure comes back
    /// as an error with the backend's reason and stops the source for
    /// good. After a success the source runs, unless it was stopped
    /// before: a stopped source does not start again and has no data.
    fn start(&mut self, acquired: Result<(), String>) -> (r: Result<(), VideoError>)
        ensures
            final(self).extent() == old(self).extent(),
            final(self).life() == old(self).life().after_acquire(acquired is Ok),
            r is Ok <==> acquired is Ok && old(self).life() != SourceState::Stopped,
            acquired is Ok && old(self).life() == SourceState::Stopped ==> start_outcome(r) == Err::<
                (),
                VideoErrorView,
            >(VideoErrorView::EmptySource),
    ;

    /// Makes a frame of what the backend delivered. A source that does not
    /// run has no frame and stays as it is. A frame that comes back has
    /// the extent of the source, well-formed planes and the given stamp.
    fn next_frame(&mut self, delivered: Self::Delivery, now_us: i64) -> (r: Result<Option<VideoFrame>, VideoError>)
        ensures
            final(self).extent() == old(self).extent(),
            !old(self).life().running() ==> poll_outcome(r) == Err::<Option<VideoFrameView>, VideoErrorView>(
                VideoErrorView::EmptySource,
            ) && final(self).life() == old(self).life(),
            old(self).life().running() ==> final(self).life() == life_after(poll_outcome(r)),
            r matches Ok(Some(f)) ==> f@.buffer.wf() && (f@.buffer.width, f@.buffer.height) == old(self).extent()
                && f@.timestamp_us == now_us && f@.rotation == VideoRotation::VideoRotation0,
    ;

    /// Stops the source. It may be called in every state and any number of
    /// times.
    fn stop(&mut self)
        ensures
            final(self).life() == SourceState::Stopped,
            final(self).extent() == old(self).extent(),
    ;

    /// A name for the source, for the interface and for logging.
    fn name(&self) -> &'static str;

    /// Width and height of the frames of the source.
    fn resolution(&self) -> (r: (u32, u32))
        ensures
            r == self.extent(),
    ;

    /// The encoding that the source would like for its track, if it has a
    /// wish; a source that does not say has none.
    fn preferred_codec(&self) -> (r: Option<VideoCodec>)
        default_ensures
            r is None,
    {
        None
    }
}

/// Stopping is idempotent and needs no start before it: from every state
/// it leads to `Stopped`, a second stop changes nothing, and nothing leads
/// on from there.
pub proof fn lemma_stop_idempotent(s: SourceState)
    ensures
        s.after_stop() == SourceState::Stopped,
        s.after_stop().after_stop() == s.after_stop(),
        SourceState::New.after_stop() == SourceState::Stopped,
        s.after_stop().after_start() == SourceState::Stopped,
        s.after_stop().after_acquire(true) == SourceState::Stopped,
        s.after_stop().after_request() == SourceState::Stopped,
        s.after_stop().after_frame() == SourceState::Stopped,
{
}

} // verus!
