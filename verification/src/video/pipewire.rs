//! The desktop-capture source: what it makes of the latest frame its
//! capture session has written.

use crate::video::clock::unix_seconds;
use crate::video::convert::{PackedImage, PackedImageView, PixelLayout};
use crate::video::{
    frame_from_image, poll_outcome, stamped, start_outcome, SourceState, VideoCodec, VideoError, VideoErrorView,
    VideoFrame, VideoFrameView, VideoSource,
};
use vstd::prelude::*;

verus! {

/// Whole seconds since the Unix epoch, or `None` where the clock reads
/// before the epoch or beyond the range of the timestamp.
pub fn unix_now() -> (r: Option<i64>)
    ensures
        r matches Some(t) ==> t >= 0,
{
    unix_seconds()
}

/// What the slot of the latest frame held when the source looked.
#[derive(Debug)]
pub enum Latest {
    /// The capture session has ended and the slot will not change again.
    Closed,
    /// The slot has changed but holds no frame yet.
    Vacant,
    /// The bytes of the freshest frame.
    Frame(Vec<u8>),
}

/// The mathematical content of a [`Latest`].
pub enum LatestView {
    Closed,
    Vacant,
    Frame(Seq<u8>),
}

impl View for Latest {
    type V = LatestView;

    open spec fn view(&self) -> LatestView {
        match self {
            Latest::Closed => LatestView::Closed,
            Latest::Vacant => LatestView::Vacant,
            Latest::Frame(bytes) => LatestView::Frame(bytes@),
        }
    }
}

/// What the capture thread is to acquire: a session that delivers frames
/// of this extent at this rate.
#[derive(Clone, Copy, Debug, PartialEq, Eq, Structural)]
pub struct SessionRequest {
    pub width: u32,
    pub height: u32,
    pub fps: u32,
}

/// A capture session of the desktop as a frame source.
#[derive(Debug)]
pub struct PipewireSource {
    width: u32,
    height: u32,
    fps: u32,
    state: SourceState,
}

/// The mathematical content of a [`PipewireSource`].
pub struct PipewireSourceView {
    pub width: u32,
    pub height: u32,
    pub fps: u32,
    pub state: SourceState,
}

impl PipewireSourceView {
    /// The same source in another state of its life.
    pub open spec fn in_state(self, state: SourceState) -> PipewireSourceView {
        PipewireSourceView { state, ..self }
    }

    /// What the capture thread is to acquire.
    pub open spec fn request(self) -> SessionRequest {
        SessionRequest { width: self.width, height: self.height, fps: self.fps }
    }

    /// What starting gives, for the backend's word on its session: the
    /// session's reason where it could not be acquired, no data from a
    /// source that was stopped before.
    pub open spec fn start(self, acquired: Result<(), Seq<char>>) -> Result<(), VideoErrorView> {
        match acquired {
            Err(reason) => Err(VideoErrorView::Pipewire(reason)),
            Ok(_) => if self.state == SourceState::Stopped {
                Err(VideoErrorView::EmptySource)
            } else {
                Ok(())
            },
        }
    }

    /// The bytes of the slot as an RGBA picture of the source's extent.
    pub open spec fn picture(self, bytes: Seq<u8>) -> PackedImageView {
        PackedImageView { width: self.width, height: self.height, layout: PixelLayout::Rgba, data: bytes }
    }

    /// What looking for a frame gives: nothing from a source that does not
    /// run or whose session has ended, a wait while the slot is vacant,
    /// `InvalidFrame` for bytes that are not an RGBA picture of the
    /// source's extent, otherwise the picture converted and stamped.
    pub open spec fn next_frame(self, latest: LatestView, now_us: i64) -> Result<
        Option<VideoFrameView>,
        VideoErrorView,
    > {
        if !self.state.running() {
            Err(VideoErrorView::EmptySource)
        } else {
            match latest {
                LatestView::Closed => Err(VideoErrorView::EmptySource),
                LatestView::Vacant => Ok(None),
                LatestView::Frame(bytes) => match stamped(self.picture(bytes), now_us) {
                    Ok(f) => Ok(Some(f)),
                    Err(e) => Err(e),
                },
            }
        }
    }

    /// The state after looking for a frame: the end of the session stops
    /// the source, a vacant slot keeps it capturing, a frame or a failed
    /// one leaves it idle.
    pub open spec fn after_next_frame(self, latest: LatestView) -> PipewireSourceView {
        if !self.state.running() {
            self
        } else {
            match latest {
                LatestView::Closed => self.in_state(SourceState::Stopped),
                LatestView::Vacant => self.in_state(SourceState::Capturing),
                LatestView::Frame(_) => self.in_state(SourceState::Idle),
            }
        }
    }
}

impl View for PipewireSource {
    type V = PipewireSourceView;

    closed spec fn view(&self) -> PipewireSourceView {
        PipewireSourceView { width: self.width, height: self.height, fps: self.fps, state: self.state }
    }
}

impl PipewireSource {
    /// A new source; its capture session is the caller's to run.
    pub fn new(width: u32, height: u32, fps: u32) -> (r: Result<PipewireSource, VideoError>)
        ensures
            r matches Ok(s) && s@ == (PipewireSourceView { width, height, fps, state: SourceState::New }),
    {
        Ok(PipewireSource { width, height, fps, state: SourceState::New })
    }

    /// Whether the capture session is to end.
    pub fn stop_requested(&self) -> (b: bool)
        ensures
            b == (self@.state == SourceState::Stopped),
    {
        match self.state {
            SourceState::Stopped => true,
            _ => false,
        }
    }

    pub fn state(&self) -> (r: SourceState)
        ensures
            r == self@.state,
    {
        self.state
    }

    pub fn fps(&self) -> (r: u32)
        ensures
            r == self@.fps,
    {
        self.fps
    }
}

impl VideoSource for PipewireSource {
    type Request = SessionRequest;

    type Delivery = Latest;

    open spec fn life(&self) -> SourceState {
        self@.state
    }

    open spec fn extent(&self) -> (u32, u32) {
        (self@.width, self@.height)
    }

    /// Hands out what the capture thread is to acquire. Only a new source
    /// does, and only once; any other stays as it is.
    fn open(&mut self) -> (r: Option<SessionRequest>)
        ensures
            final(self)@ == old(self)@.in_state(old(self)@.state.after_start()),
            match r {
                Some(request) => old(self)@.state == SourceState::New && request == old(self)@.request(),
                None => old(self)@.state != SourceState::New,
            },
    {
        match self.state {
            SourceState::New => {
                self.state = SourceState::Started;
                Some(SessionRequest { width: self.width, height: self.height, fps: self.fps })
            },
            _ => None,
        }
    }

    /// Takes the backend's word on whether the session was acquired: see
    /// [`PipewireSourceView::start`].
    fn start(&mut self, acquired: Result<(), String>) -> (r: Result<(), VideoError>)
        ensures
            start_outcome(r) == old(self)@.start(
                match acquired {
                    Ok(_) => Ok(()),
                    Err(reason) => Err(reason@),
                },
            ),
            final(self)@ == old(self)@.in_state(old(self)@.state.after_acquire(acquired is Ok)),
    {
        match acquired {
            Err(reason) => {
                self.state = SourceState::Stopped;
                Err(VideoError::Pipewire(reason))
            },
            Ok(_) => {
                match self.state {
                    SourceState::Stopped => Err(VideoError::EmptySource),
                    _ => {
                        self.state = self.state.start();
                        Ok(())
                    },
                }
            },
        }
    }

    /// Makes a frame of what the slot held: see
    /// [`PipewireSourceView::next_frame`].
    fn next_frame(&mut self, delivered: Latest, now_us: i64) -> (r: Result<Option<VideoFrame>, VideoError>)
        ensures
            poll_outcome(r) == old(self)@.next_frame(delivered@, now_us),
            final(self)@ == old(self)@.after_next_frame(delivered@),
    {
        if !self.state.is_running() {
            return Err(VideoError::EmptySource);
        }
        match delivered {
            Latest::Closed => {
                self.state = SourceState::Stopped;
                Err(VideoError::EmptySource)
            },
            Latest::Vacant => {
                self.state = SourceState::Capturing;
                Ok(None)
            },
            Latest::Frame(bytes) => {
                self.state = SourceState::Idle;
                let img = PackedImage { width: self.width, height: self.height, layout: PixelLayout::Rgba, data: bytes };
                match frame_from_image(&img, now_us) {
                    Ok(f) => Ok(Some(f)),
                    Err(e) => Err(e),
                }
            },
        }
    }

    /// Stops the source; the capture session ends when it sees the state.
    fn stop(&mut self)
        ensures
            final(self)@ == old(self)@.in_state(SourceState::Stopped),
    {
        self.state = SourceState::Stopped;
    }

    fn name(&self) -> (r: &'static str)
        ensures
            r@ == "pipewire-async"@,
    {
        "pipewire-async"
    }

    fn resolution(&self) -> (r: (u32, u32))
        ensures
            r == (self@.width, self@.height),
    {
        (self.width, self.height)
    }

    fn preferred_codec(&self) -> (r: Option<VideoCodec>)
        ensures
            r == Some(VideoCodec::H264),
    {
        Some(VideoCodec::H264)
    }
}

} // verus!
