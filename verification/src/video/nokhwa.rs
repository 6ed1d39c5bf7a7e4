//! The camera source: what it is configured with and what it makes of the
//! pictures its capture thread hands over.

use crate::video::clock::unix_seconds;
use crate::video::convert::{PackedImage, PackedImageView};
use crate::video::convert::PixelLayout;
use crate::video::{
    frame_from_image, poll_outcome, stamped, start_outcome, SourceState, VideoCodec, VideoError, VideoErrorView,
    VideoFrame, VideoFrameView, VideoSource,
};
use nokhwa::pixel_format::RgbAFormat;
use nokhwa::utils::Resolution;
use nokhwa::Buffer;
use vstd::prelude::*;

verus! {

/// Whole seconds since the Unix epoch, or `None` where the clock reads
/// before the epoch or beyond the range of the timestamp.
pub fn unix_now() -> (r: Option<i64>)
    ensures
        r matches Some(t) ==> t >= 0,
{
    unix_seconds()
}

/// Which camera of the machine to open.
#[derive(Debug)]
pub enum CameraIndex {
    Index(u32),
    String(String),
}

impl Clone for CameraIndex {
    fn clone(&self) -> (r: Self)
        ensures
            r == *self,
    {
        match self {
            CameraIndex::Index(i) => CameraIndex::Index(*i),
            CameraIndex::String(s) => CameraIndex::String(s.clone()),
        }
    }
}

/// The format in which a camera delivers its pictures.
#[derive(Clone, Copy, Debug, PartialEq, Eq, Structural)]
pub enum FrameFormat {
    MJPEG,
    YUYV,
    NV12,
    GRAY,
    RAWRGB,
    RAWBGR,
}

/// What the capture thread opens the camera with.
#[derive(Debug)]
pub struct CameraRequest {
    pub index: CameraIndex,
    pub width: u32,
    pub height: u32,
    pub fps: u32,
    pub format: FrameFormat,
}

/// One frame as the camera delivered it: its extent, its format and its
/// bytes.
#[derive(Debug)]
pub struct CameraBuffer {
    pub width: u32,
    pub height: u32,
    pub format: FrameFormat,
    pub data: Vec<u8>,
}

/// The mathematical content of a [`CameraBuffer`].
pub struct CameraBufferView {
    pub width: u32,
    pub height: u32,
    pub format: FrameFormat,
    pub data: Seq<u8>,
}

impl View for CameraBuffer {
    type V = CameraBufferView;

    open spec fn view(&self) -> CameraBufferView {
        CameraBufferView { width: self.width, height: self.height, format: self.format, data: self.data@ }
    }
}

/// What the hand-off queue of the capture thread gave.
#[derive(Debug)]
pub enum Received {
    /// The capture thread has ended and the queue is empty.
    Closed,
    /// A frame of the camera.
    Frame(CameraBuffer),
}

/// The mathematical content of a [`Received`].
pub enum ReceivedView {
    Closed,
    Frame(CameraBufferView),
}

impl View for Received {
    type V = ReceivedView;

    open spec fn view(&self) -> ReceivedView {
        match self {
            Received::Closed => ReceivedView::Closed,
            Received::Frame(buffer) => ReceivedView::Frame(buffer@),
        }
    }
}

/// What `decode_image::<RgbAFormat>` of a `nokhwa::Buffer` gives for a frame
/// of the given format, extent and bytes: the bytes of the RGBA picture, or
/// the text of the error. The crate is built without its JPEG decoder, so a
/// frame in motion JPEG always gives an error.
pub uninterp spec fn rgba_decoded(format: FrameFormat, width: u32, height: u32, bytes: Seq<u8>) -> Result<Seq<u8>, Seq<char>>;

/// The outcome of decoding as plain sequences.
pub open spec fn decoded_view(r: Result<Vec<u8>, String>) -> Result<Seq<u8>, Seq<char>> {
    match r {
        Ok(bytes) => Ok(bytes@),
        Err(e) => Err(e@),
    }
}

/// An extent that the decoder takes: at least one pixel along each axis,
/// and a count of RGBA bytes that fits 32 bits.
pub open spec fn decodable(width: u32, height: u32) -> bool {
    width >= 1 && height >= 1 && 4 * (width * height) <= u32::MAX
}

/// Calls `Buffer::new` and `Buffer::decode_image::<RgbAFormat>` of nokhwa
/// and takes the bytes out of the picture; an error comes back as the text
/// that it displays. The result depends on the arguments alone. The extent
/// is kept to what the decoder's own 32-bit arithmetic and its walk over
/// the rows can take.
#[verifier::external_body]
fn decode_rgba(format: FrameFormat, width: u32, height: u32, bytes: &Vec<u8>) -> (r: Result<Vec<u8>, String>)
    requires
        decodable(width, height),
    ensures
        decoded_view(r) == rgba_decoded(format, width, height, bytes@),
{
    let source = match format {
        FrameFormat::MJPEG => nokhwa::utils::FrameFormat::MJPEG,
        FrameFormat::YUYV => nokhwa::utils::FrameFormat::YUYV,
        FrameFormat::NV12 => nokhwa::utils::FrameFormat::NV12,
        FrameFormat::GRAY => nokhwa::utils::FrameFormat::GRAY,
        FrameFormat::RAWRGB => nokhwa::utils::FrameFormat::RAWRGB,
        FrameFormat::RAWBGR => nokhwa::utils::FrameFormat::RAWBGR,
    };
    match Buffer::new(Resolution::new(width, height), bytes, source).decode_image::<RgbAFormat>() {
        Ok(image) => Ok(image.into_raw()),
        Err(e) => Err(format!("{}", e)),
    }
}

/// Whether the decoder takes an extent.
pub fn is_decodable(width: u32, height: u32) -> (b: bool)
    ensures
        b == decodable(width, height),
{
    if width == 0 || height == 0 {
        return false;
    }
    assert((width as u64) * (height as u64) <= 0xffff_ffff * 0xffff_ffff) by (nonlinear_arith)
        requires
            width <= 0xffff_ffff,
            height <= 0xffff_ffff,
    ;
    let pixels: u64 = (width as u64) * (height as u64);
    pixels <= 0x3fff_ffff
}

/// Decodes a frame of the camera into an RGBA picture of the same extent.
///
/// A frame whose extent the decoder does not take is refused as
/// `InvalidFrame`. For any other the outside decoder decides: its bytes
/// come back as a picture, its error as the backend's reason. Whether the
/// bytes fit the extent is for the converter to see.
pub fn decode_frame(buffer: &CameraBuffer) -> (r: Result<PackedImage, VideoError>)
    ensures
        picture_outcome(r) == decoded_picture(buffer@),
{
    if !is_decodable(buffer.width, buffer.height) {
        return Err(VideoError::InvalidFrame);
    }
    match decode_rgba(buffer.format, buffer.width, buffer.height, &buffer.data) {
        Ok(data) => Ok(PackedImage { width: buffer.width, height: buffer.height, layout: PixelLayout::Rgba, data }),
        Err(reason) => Err(VideoError::Nokhwa(reason)),
    }
}

/// The outcome of decoding a frame as mathematical values.
pub open spec fn picture_outcome(r: Result<PackedImage, VideoError>) -> Result<PackedImageView, VideoErrorView> {
    match r {
        Ok(img) => Ok(img@),
        Err(e) => Err(e@),
    }
}

/// The picture that a frame of the camera decodes to, or the reason why it
/// does not.
pub open spec fn decoded_picture(buffer: CameraBufferView) -> Result<PackedImageView, VideoErrorView> {
    if !decodable(buffer.width, buffer.height) {
        Err(VideoErrorView::InvalidFrame)
    } else {
        match rgba_decoded(buffer.format, buffer.width, buffer.height, buffer.data) {
            Ok(data) => Ok(
                PackedImageView { width: buffer.width, height: buffer.height, layout: PixelLayout::Rgba, data },
            ),
            Err(reason) => Err(VideoErrorView::Nokhwa(reason)),
        }
    }
}

/// A camera as a frame source.
#[derive(Debug)]
pub struct NokhwaSource {
    width: u32,
    height: u32,
    index: CameraIndex,
    fps: u32,
    format: FrameFormat,
    state: SourceState,
}

/// The mathematical content of a [`NokhwaSource`].
pub struct NokhwaSourceView {
    pub width: u32,
    pub height: u32,
    pub index: CameraIndex,
    pub fps: u32,
    pub format: FrameFormat,
    pub state: SourceState,
}

impl NokhwaSourceView {
    /// The same source in another state of its life.
    pub open spec fn in_state(self, state: SourceState) -> NokhwaSourceView {
        NokhwaSourceView { state, ..self }
    }

    /// What the capture thread is to open the camera with.
    pub open spec fn request(self) -> CameraRequest {
        CameraRequest {
            index: self.index,
            width: self.width,
            height: self.height,
            fps: self.fps,
            format: self.format,
        }
    }

    /// What asking for a frame gives, for what the hand-off queue
    /// delivered: nothing from a source that does not run or whose queue
    /// has closed, `InvalidFrame` for a frame of another extent than the
    /// source's, the backend's reason for a frame that does not decode,
    /// otherwise the decoded picture converted and stamped.
    pub open spec fn next_frame(self, received: ReceivedView, now_us: i64) -> Result<
        Option<VideoFrameView>,
        VideoErrorView,
    > {
        if !self.state.running() {
            Err(VideoErrorView::EmptySource)
        } else {
            match received {
                ReceivedView::Closed => Err(VideoErrorView::EmptySource),
                ReceivedView::Frame(buffer) => if buffer.width != self.width || buffer.height != self.height {
                    Err(VideoErrorView::InvalidFrame)
                } else {
                    match decoded_picture(buffer) {
                        Ok(img) => match stamped(img, now_us) {
                            Ok(f) => Ok(Some(f)),
                            Err(e) => Err(e),
                        },
                        Err(e) => Err(e),
                    }
                },
            }
        }
    }

    /// The state after asking for a frame: the end of the stream stops a
    /// running source, anything else leaves it idle.
    pub open spec fn after_next_frame(self, received: ReceivedView) -> NokhwaSourceView {
        if !self.state.running() {
            self
        } else if received is Closed {
            self.in_state(SourceState::Stopped)
        } else {
            self.in_state(SourceState::Idle)
        }
    }

    /// What starting gives, for the backend's word on its capture thread:
    /// the backend's reason where the thread could not be had, no data
    /// from a source that was stopped before.
    pub open spec fn start(self, acquired: Result<(), Seq<char>>) -> Result<(), VideoErrorView> {
        match acquired {
            Err(reason) => Err(VideoErrorView::Nokhwa(reason)),
            Ok(_) => if self.state == SourceState::Stopped {
                Err(VideoErrorView::EmptySource)
            } else {
                Ok(())
            },
        }
    }
}

impl View for NokhwaSource {
    type V = NokhwaSourceView;

    closed spec fn view(&self) -> NokhwaSourceView {
        NokhwaSourceView {
            width: self.width,
            height: self.height,
            index: self.index,
            fps: self.fps,
            format: self.format,
            state: self.state,
        }
    }
}

impl NokhwaSource {
    /// A source for the given camera at 640 by 480 pixels, 30 frames a
    /// second, in motion JPEG.
    pub fn safe_assumption(index: CameraIndex) -> (r: Result<NokhwaSource, VideoError>)
        ensures
            r matches Ok(s) && s@ == (NokhwaSourceView {
                width: 640,
                height: 480,
                index,
                fps: 30,
                format: FrameFormat::MJPEG,
                state: SourceState::New,
            }),
    {
        Self::new(index, FrameFormat::MJPEG, 30, 640, 480)
    }

    /// A new source; nothing is opened yet.
    pub fn new(index: CameraIndex, format: FrameFormat, fps: u32, width: u32, height: u32) -> (r: Result<
        NokhwaSource,
        VideoError,
    >)
        ensures
            r matches Ok(s) && s@ == (NokhwaSourceView { width, height, index, fps, format, state: SourceState::New }),
    {
        Ok(NokhwaSource { width, height, index, fps, format, state: SourceState::New })
    }

    /// Marks that a frame has been asked for.
    pub fn begin_capture(&mut self)
        ensures
            final(self)@ == old(self)@.in_state(old(self)@.state.after_request()),
    {
        self.state = self.state.request();
    }

    pub fn state(&self) -> (r: SourceState)
        ensures
            r == self@.state,
    {
        self.state
    }
}

impl VideoSource for NokhwaSource {
    type Request = CameraRequest;

    type Delivery = Received;

    open spec fn life(&self) -> SourceState {
        self@.state
    }

    open spec fn extent(&self) -> (u32, u32) {
        (self@.width, self@.height)
    }

    /// Hands out what the capture thread is to open the camera with. Only
    /// a new source does, and only once; any other stays as it is and has
    /// nothing opened.
    fn open(&mut self) -> (r: Option<CameraRequest>)
        ensures
            final(self)@ == old(self)@.in_state(old(self)@.state.after_start()),
            match r {
                Some(request) => old(self)@.state == SourceState::New && request == old(self)@.request(),
                None => old(self)@.state != SourceState::New,
            },
    {
        match self.state {
            SourceState::New => {
                self.state = SourceState::Started;
                Some(
                    CameraRequest {
                        index: self.index.clone(),
                        width: self.width,
                        height: self.height,
                        fps: self.fps,
                        format: self.format,
                    },
                )
            },
            _ => None,
        }
    }

    /// Takes the backend's word on whether its capture thread runs: see
    /// [`NokhwaSourceView::start`].
    fn start(&mut self, acquired: Result<(), String>) -> (r: Result<(), VideoError>)
        ensures
            start_outcome(r) == old(self)@.start(
                match acquired {
                    Ok(_) => Ok(()),
                    Err(reason) => Err(reason@),
                },
            ),
            final(self)@ == old(self)@.in_state(old(self)@.state.after_acquire(acquired is Ok)),
    {
        match acquired {
            Err(reason) => {
                self.state = SourceState::Stopped;
                Err(VideoError::Nokhwa(reason))
            },
            Ok(_) => {
                match self.state {
                    SourceState::Stopped => Err(VideoError::EmptySource),
                    _ => {
                        self.state = self.state.start();
                        Ok(())
                    },
                }
            },
        }
    }

    /// Makes a frame of what the hand-off queue delivered: see
    /// [`NokhwaSourceView::next_frame`].
    fn next_frame(&mut self, delivered: Received, now_us: i64) -> (r: Result<Option<VideoFrame>, VideoError>)
        ensures
            poll_outcome(r) == old(self)@.next_frame(delivered@, now_us),
            final(self)@ == old(self)@.after_next_frame(delivered@),
            !(r matches Ok(None)),
    {
        if !self.state.is_running() {
            return Err(VideoError::EmptySource);
        }
        match delivered {
            Received::Closed => {
                self.state = SourceState::Stopped;
                Err(VideoError::EmptySource)
            },
            Received::Frame(buffer) => {
                self.state = SourceState::Idle;
                if buffer.width != self.width || buffer.height != self.height {
                    return Err(VideoError::InvalidFrame);
                }
                match decode_frame(&buffer) {
                    Ok(img) => match frame_from_image(&img, now_us) {
                        Ok(f) => Ok(Some(f)),
                        Err(e) => Err(e),
                    },
                    Err(e) => Err(e),
                }
            },
        }
    }

    fn stop(&mut self)
        ensures
            final(self)@ == old(self)@.in_state(SourceState::Stopped),
    {
        self.state = SourceState::Stopped;
    }

    fn name(&self) -> (r: &'static str)
        ensures
            r@ == "camera"@,
    {
        "camera"
    }

    fn resolution(&self) -> (r: (u32, u32))
        ensures
            r == (self@.width, self@.height),
    {
        (self.width, self.height)
    }

    fn preferred_codec(&self) -> (r: Option<VideoCodec>)
        ensures
            r == Some(VideoCodec::H264),
    {
        Some(VideoCodec::H264)
    }
}

} // verus!
