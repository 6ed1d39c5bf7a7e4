use havendesktop::video::clock::{timestamp, unix_micros, unix_seconds};
use havendesktop::video::convert::{buffer_from_planes, image_to_i420_buffer, PackedImage, PixelLayout};
use havendesktop::video::nokhwa::{
    decode_frame, is_decodable, CameraBuffer, CameraIndex, FrameFormat, NokhwaSource, Received,
};
use havendesktop::video::pipewire::{Latest, PipewireSource, SessionRequest};
use havendesktop::video::publish::{PublishAction, PublishEvent, PublishLoop, PublishPhase};
use havendesktop::video::{
    frame_from_image, SourceState, VideoCodec, VideoError, VideoFrame, VideoRotation, VideoSource,
};

fn solid(width: u32, height: u32, layout: PixelLayout, pixel: [u8; 4]) -> PackedImage {
    let channels = layout.bytes_per_pixel() as usize;
    let mut data = Vec::new();
    for _ in 0..(width as usize * height as usize) {
        data.extend_from_slice(&pixel[..channels]);
    }
    PackedImage { width, height, layout, data }
}

/// A frame of a camera that delivers raw RGB, every pixel alike.
fn raw(width: u32, height: u32, pixel: [u8; 3]) -> Received {
    let mut data = Vec::new();
    for _ in 0..(width as usize * height as usize) {
        data.extend_from_slice(&pixel);
    }
    Received::Frame(CameraBuffer { width, height, format: FrameFormat::RAWRGB, data })
}

fn frame(ts: i64) -> VideoFrame {
    frame_from_image(&solid(2, 2, PixelLayout::Rgba, [10, 20, 30, 255]), ts).unwrap()
}

fn running() -> PublishLoop {
    let mut p = PublishLoop::new();
    assert!(matches!(p.handle(PublishEvent::Begin), PublishAction::Start));
    assert!(matches!(p.handle(PublishEvent::Started(Ok(()))), PublishAction::NextFrame));
    p
}

#[test]
fn plane_sizes_follow_from_the_extent() {
    for (w, h) in [(1u32, 1u32), (2, 2), (3, 3), (4, 2), (5, 7), (640, 480), (1, 6), (7, 1)] {
        let buffer = image_to_i420_buffer(&solid(w, h, PixelLayout::Rgba, [1, 2, 3, 4])).unwrap();
        let cw = (w as usize + 1) / 2;
        let ch = (h as usize + 1) / 2;
        let (y, u, v) = buffer.data();
        assert_eq!(y.len(), w as usize * h as usize);
        assert_eq!(u.len(), cw * ch);
        assert_eq!(v.len(), cw * ch);
        assert_eq!(buffer.width(), w);
        assert_eq!(buffer.height(), h);
        assert_eq!(buffer.strides(), (w, cw as u32, cw as u32));
    }
}

#[test]
fn odd_extent_rounds_chroma_up() {
    let buffer = image_to_i420_buffer(&solid(3, 3, PixelLayout::Rgb, [9, 9, 9, 0])).unwrap();
    let (y, u, v) = buffer.data();
    assert_eq!(y.len(), 9);
    assert_eq!(u.len(), 4);
    assert_eq!(v.len(), 4);
}

#[test]
fn conversion_is_deterministic() {
    let mut data = Vec::new();
    for i in 0..(6 * 4 * 4) {
        data.push((i * 37 % 251) as u8);
    }
    let img = PackedImage { width: 6, height: 4, layout: PixelLayout::Rgba, data };
    let a = image_to_i420_buffer(&img).unwrap();
    let b = image_to_i420_buffer(&img).unwrap();
    assert_eq!(a.data(), b.data());
    assert_eq!(a.strides(), b.strides());
}

#[test]
fn black_and_white_in_limited_range() {
    let black = image_to_i420_buffer(&solid(4, 4, PixelLayout::Rgba, [0, 0, 0, 255])).unwrap();
    let (y, u, v) = black.data();
    assert!(y.iter().all(|&b| b == 16));
    assert!(u.iter().all(|&b| b == 128));
    assert!(v.iter().all(|&b| b == 128));
    let white = image_to_i420_buffer(&solid(4, 4, PixelLayout::Rgba, [255, 255, 255, 255])).unwrap();
    let (y, u, v) = white.data();
    assert!(y.iter().all(|&b| b == 235));
    assert!(u.iter().all(|&b| b == 128));
    assert!(v.iter().all(|&b| b == 128));
}

#[test]
fn planes_are_not_the_input() {
    let img = solid(2, 2, PixelLayout::Rgb, [200, 30, 30, 0]);
    let buffer = image_to_i420_buffer(&img).unwrap();
    let (y, u, v) = buffer.data();
    assert_eq!(y.len() + u.len() + v.len(), 6);
    assert_ne!(y.as_slice(), &img.data[..4]);
    // a strong red has little blue difference and much red difference
    assert!(u[0] < 128);
    assert!(v[0] > 128);
}

#[test]
fn alpha_is_read_past() {
    let rgb = image_to_i420_buffer(&solid(4, 2, PixelLayout::Rgb, [12, 200, 77, 0])).unwrap();
    let opaque = image_to_i420_buffer(&solid(4, 2, PixelLayout::Rgba, [12, 200, 77, 255])).unwrap();
    let clear = image_to_i420_buffer(&solid(4, 2, PixelLayout::Rgba, [12, 200, 77, 0])).unwrap();
    assert_eq!(rgb.data(), opaque.data());
    assert_eq!(rgb.data(), clear.data());
}

#[test]
fn malformed_pictures_are_refused() {
    let short = PackedImage { width: 2, height: 2, layout: PixelLayout::Rgba, data: vec![0; 15] };
    assert!(matches!(image_to_i420_buffer(&short), Err(VideoError::InvalidFrame)));
    let long = PackedImage { width: 2, height: 2, layout: PixelLayout::Rgba, data: vec![0; 17] };
    assert!(matches!(image_to_i420_buffer(&long), Err(VideoError::InvalidFrame)));
    let as_rgb = PackedImage { width: 2, height: 2, layout: PixelLayout::Rgb, data: vec![0; 16] };
    assert!(matches!(image_to_i420_buffer(&as_rgb), Err(VideoError::InvalidFrame)));
    let flat = PackedImage { width: 0, height: 2, layout: PixelLayout::Rgba, data: Vec::new() };
    assert!(matches!(image_to_i420_buffer(&flat), Err(VideoError::InvalidFrame)));
    let thin = PackedImage { width: 2, height: 0, layout: PixelLayout::Rgb, data: Vec::new() };
    assert!(matches!(image_to_i420_buffer(&thin), Err(VideoError::InvalidFrame)));
    let gray = PackedImage { width: 2, height: 2, layout: PixelLayout::Gray, data: vec![0; 4] };
    assert!(matches!(image_to_i420_buffer(&gray), Err(VideoError::InvalidFrame)));
    let wide = PackedImage { width: u32::MAX, height: 1, layout: PixelLayout::Rgba, data: vec![0; 4] };
    assert!(matches!(image_to_i420_buffer(&wide), Err(VideoError::InvalidFrame)));
}

#[test]
fn from_raw_takes_exact_geometry_only() {
    assert!(PackedImage::from_raw(2, 3, PixelLayout::Rgb, vec![0; 18]).is_some());
    assert!(PackedImage::from_raw(2, 3, PixelLayout::Rgba, vec![0; 24]).is_some());
    assert!(PackedImage::from_raw(2, 3, PixelLayout::Rgba, vec![0; 23]).is_none());
    assert!(PackedImage::from_raw(2, 3, PixelLayout::Rgba, vec![0; 25]).is_none());
    assert!(PackedImage::from_raw(2, 3, PixelLayout::Gray, vec![0; 6]).is_none());
    assert!(PackedImage::from_raw(0, 0, PixelLayout::Rgb, Vec::new()).is_none());
    let img = PackedImage::from_raw(1, 1, PixelLayout::Rgb, vec![1, 2, 3]).unwrap();
    assert_eq!((img.width, img.height, img.layout, img.data), (1, 1, PixelLayout::Rgb, vec![1, 2, 3]));
    assert!(img_is_well_formed(1, 1));
}

fn img_is_well_formed(w: u32, h: u32) -> bool {
    solid(w, h, PixelLayout::Rgb, [0, 0, 0, 0]).is_well_formed()
}

#[test]
fn bytes_per_pixel_of_each_layout() {
    assert_eq!(PixelLayout::Rgb.bytes_per_pixel(), 3);
    assert_eq!(PixelLayout::Rgba.bytes_per_pixel(), 4);
    assert_eq!(PixelLayout::Gray.bytes_per_pixel(), 1);
}

#[test]
fn buffer_from_each_outcome_of_the_converter() {
    let ok = buffer_from_planes(3, 2, Ok((vec![1; 6], vec![2; 2], vec![3; 2]))).unwrap();
    assert_eq!(ok.data(), (&vec![1u8; 6], &vec![2u8; 2], &vec![3u8; 2]));
    assert_eq!(ok.strides(), (3, 2, 2));
    match buffer_from_planes(3, 2, Err("Zero sized images is not supported".to_string())) {
        Err(VideoError::YUVError(text)) => assert_eq!(text, "Zero sized images is not supported"),
        other => panic!("unexpected outcome {:?}", other),
    }
    assert!(matches!(
        buffer_from_planes(3, 2, Ok((vec![1; 6], vec![2; 1], vec![3; 2]))),
        Err(VideoError::InvalidFrame)
    ));
    assert!(matches!(
        buffer_from_planes(3, 2, Ok((vec![1; 5], vec![2; 2], vec![3; 2]))),
        Err(VideoError::InvalidFrame)
    ));
    assert!(matches!(buffer_from_planes(0, 2, Ok((vec![], vec![], vec![]))), Err(VideoError::InvalidFrame)));
    assert!(matches!(buffer_from_planes(2, 0, Ok((vec![], vec![], vec![]))), Err(VideoError::InvalidFrame)));
    assert!(matches!(buffer_from_planes(0, 0, Err("e".to_string())), Err(VideoError::YUVError(_))));
}

#[test]
fn frame_is_stamped_and_upright() {
    let f = frame(1_700_000_000_000_000);
    assert_eq!(f.timestamp_us, 1_700_000_000_000_000);
    assert_eq!(f.rotation, VideoRotation::VideoRotation0);
    assert_eq!(f.buffer.width(), 2);
}

#[test]
fn source_life_cycle() {
    assert_eq!(SourceState::New.start(), SourceState::Started);
    assert_eq!(SourceState::Idle.start(), SourceState::Idle);
    assert_eq!(SourceState::Stopped.start(), SourceState::Stopped);
    assert_eq!(SourceState::Started.request(), SourceState::Capturing);
    assert_eq!(SourceState::Idle.request(), SourceState::Capturing);
    assert_eq!(SourceState::New.request(), SourceState::New);
    assert_eq!(SourceState::Capturing.frame(), SourceState::Idle);
    assert_eq!(SourceState::Stopped.frame(), SourceState::Stopped);
    for s in [SourceState::New, SourceState::Started, SourceState::Capturing, SourceState::Idle, SourceState::Stopped] {
        assert_eq!(s.stop(), SourceState::Stopped);
        assert_eq!(s.stop().stop(), SourceState::Stopped);
        assert_eq!(s.is_running(), s != SourceState::New && s != SourceState::Stopped);
    }
}

#[test]
fn camera_defaults() {
    let cam = NokhwaSource::safe_assumption(CameraIndex::Index(0)).unwrap();
    assert_eq!(cam.resolution(), (640, 480));
    assert_eq!(cam.name(), "camera");
    assert_eq!(cam.preferred_codec(), Some(VideoCodec::H264));
    assert_eq!(cam.state(), SourceState::New);
}

#[test]
fn camera_opens_once() {
    let mut cam = NokhwaSource::new(CameraIndex::String("front".to_string()), FrameFormat::YUYV, 25, 4, 2).unwrap();
    let request = cam.open().unwrap();
    assert!(matches!(&request.index, CameraIndex::String(name) if name == "front"));
    assert_eq!((request.width, request.height, request.fps, request.format), (4, 2, 25, FrameFormat::YUYV));
    assert_eq!(cam.state(), SourceState::Started);
    assert!(cam.open().is_none());
    assert!(cam.start(Ok(())).is_ok());
    assert_eq!(cam.state(), SourceState::Started);
    cam.stop();
    assert!(cam.open().is_none());
    assert_eq!(cam.state(), SourceState::Stopped);
}

#[test]
fn camera_that_cannot_start_says_why() {
    let mut cam = NokhwaSource::safe_assumption(CameraIndex::Index(0)).unwrap();
    cam.open();
    let started = cam.start(Err("no thread to spare".to_string()));
    assert!(matches!(started, Err(VideoError::Nokhwa(reason)) if reason == "no thread to spare"));
    assert_eq!(cam.state(), SourceState::Stopped);
    assert!(matches!(cam.next_frame(raw(640, 480, [0; 3]), 1), Err(VideoError::EmptySource)));
    assert!(matches!(cam.start(Ok(())), Err(VideoError::EmptySource)));
    assert_eq!(cam.state(), SourceState::Stopped);
}

#[test]
fn camera_stop_is_idempotent_and_needs_no_start() {
    let mut cam = NokhwaSource::safe_assumption(CameraIndex::Index(1)).unwrap();
    cam.stop();
    assert_eq!(cam.state(), SourceState::Stopped);
    cam.stop();
    assert_eq!(cam.state(), SourceState::Stopped);
    assert_eq!(cam.resolution(), (640, 480));
    assert!(matches!(cam.next_frame(raw(640, 480, [0; 3]), 1), Err(VideoError::EmptySource)));
}

#[test]
fn camera_frames() {
    let mut cam = NokhwaSource::new(CameraIndex::Index(0), FrameFormat::RAWRGB, 30, 4, 2).unwrap();
    assert!(matches!(cam.next_frame(raw(4, 2, [0; 3]), 1), Err(VideoError::EmptySource)));
    cam.open();
    assert!(cam.start(Ok(())).is_ok());
    cam.begin_capture();
    assert_eq!(cam.state(), SourceState::Capturing);
    let f = cam.next_frame(raw(4, 2, [12, 200, 77]), 77).unwrap().unwrap();
    assert_eq!(f.timestamp_us, 77);
    assert_eq!((f.buffer.width(), f.buffer.height()), (4, 2));
    let direct = image_to_i420_buffer(&solid(4, 2, PixelLayout::Rgba, [12, 200, 77, 255])).unwrap();
    assert_eq!(f.buffer.data(), direct.data());
    assert_eq!(cam.state(), SourceState::Idle);
    // a frame of another extent than the source's
    assert!(matches!(cam.next_frame(raw(2, 2, [0; 3]), 78), Err(VideoError::InvalidFrame)));
    assert_eq!(cam.state(), SourceState::Idle);
    // too few bytes: the decoder refuses
    let short = CameraBuffer { width: 4, height: 2, format: FrameFormat::RAWRGB, data: vec![0; 9] };
    assert!(matches!(cam.next_frame(Received::Frame(short), 79), Err(VideoError::Nokhwa(_))));
    // too many bytes: the decoder lets them through, the converter does not
    let long = CameraBuffer { width: 4, height: 2, format: FrameFormat::RAWRGB, data: vec![0; 27] };
    assert!(matches!(cam.next_frame(Received::Frame(long), 79), Err(VideoError::InvalidFrame)));
    // a gray frame is spread over the three colours
    let gray = CameraBuffer { width: 4, height: 2, format: FrameFormat::GRAY, data: vec![90; 8] };
    let f = cam.next_frame(Received::Frame(gray), 80).unwrap().unwrap();
    let direct = image_to_i420_buffer(&solid(4, 2, PixelLayout::Rgba, [90, 90, 90, 255])).unwrap();
    assert_eq!(f.buffer.data(), direct.data());
    // motion JPEG has no decoder in this build
    let jpeg = CameraBuffer { width: 4, height: 2, format: FrameFormat::MJPEG, data: vec![0xff, 0xd8, 0xff] };
    assert!(matches!(cam.next_frame(Received::Frame(jpeg), 80), Err(VideoError::Nokhwa(_))));
    assert_eq!(cam.state(), SourceState::Idle);
    assert!(matches!(cam.next_frame(Received::Closed, 81), Err(VideoError::EmptySource)));
    assert_eq!(cam.state(), SourceState::Stopped);
    assert!(matches!(cam.next_frame(raw(4, 2, [0; 3]), 82), Err(VideoError::EmptySource)));
}

#[test]
fn decoding_a_camera_frame() {
    let bgr = CameraBuffer { width: 2, height: 1, format: FrameFormat::RAWBGR, data: vec![1, 2, 3, 4, 5, 6] };
    let img = decode_frame(&bgr).unwrap();
    assert_eq!((img.width, img.height, img.layout), (2, 1, PixelLayout::Rgba));
    assert_eq!(img.data, vec![3, 2, 1, 255, 6, 5, 4, 255]);
    let rgb = CameraBuffer { width: 2, height: 1, format: FrameFormat::RAWRGB, data: vec![1, 2, 3, 4, 5, 6] };
    assert_eq!(decode_frame(&rgb).unwrap().data, vec![1, 2, 3, 255, 4, 5, 6, 255]);
    let odd = CameraBuffer { width: 3, height: 2, format: FrameFormat::NV12, data: vec![0; 9] };
    assert!(matches!(decode_frame(&odd), Err(VideoError::Nokhwa(_))));
    let nv12 = CameraBuffer { width: 2, height: 2, format: FrameFormat::NV12, data: vec![16, 16, 16, 16, 128, 128] };
    assert_eq!(decode_frame(&nv12).unwrap().data, vec![0, 0, 0, 255].repeat(4));
    let yuyv = CameraBuffer { width: 2, height: 1, format: FrameFormat::YUYV, data: vec![235, 128, 235, 128] };
    assert_eq!(decode_frame(&yuyv).unwrap().data, vec![255, 255, 255, 255].repeat(2));
    let empty = CameraBuffer { width: 0, height: 2, format: FrameFormat::NV12, data: Vec::new() };
    assert!(matches!(decode_frame(&empty), Err(VideoError::InvalidFrame)));
    let vast = CameraBuffer { width: 65536, height: 16384, format: FrameFormat::NV12, data: Vec::new() };
    assert!(matches!(decode_frame(&vast), Err(VideoError::InvalidFrame)));
    assert!(is_decodable(1, 1));
    assert!(is_decodable(32768, 32767));
    assert!(is_decodable(0x3fff_ffff, 1));
    assert!(!is_decodable(32768, 32768));
    assert!(!is_decodable(1, 0));
    assert!(!is_decodable(u32::MAX, u32::MAX));
}

#[test]
fn desktop_frames() {
    let mut desk = PipewireSource::new(2, 2, 30).unwrap();
    assert_eq!(desk.name(), "pipewire-async");
    assert_eq!(desk.resolution(), (2, 2));
    assert_eq!(desk.fps(), 30);
    assert_eq!(desk.preferred_codec(), Some(VideoCodec::H264));
    assert!(matches!(desk.next_frame(Latest::Frame(vec![0; 16]), 1), Err(VideoError::EmptySource)));
    assert_eq!(desk.open(), Some(SessionRequest { width: 2, height: 2, fps: 30 }));
    assert_eq!(desk.open(), None);
    assert!(desk.start(Ok(())).is_ok());
    assert_eq!(desk.state(), SourceState::Started);
    assert!(matches!(desk.next_frame(Latest::Vacant, 1), Ok(None)));
    assert_eq!(desk.state(), SourceState::Capturing);
    let f = desk.next_frame(Latest::Frame(vec![255; 16]), 5).unwrap().unwrap();
    assert_eq!(f.timestamp_us, 5);
    assert_eq!(f.buffer.data().0.len(), 4);
    assert_eq!(desk.state(), SourceState::Idle);
    assert!(matches!(desk.next_frame(Latest::Frame(vec![0; 15]), 6), Err(VideoError::InvalidFrame)));
    assert!(matches!(desk.next_frame(Latest::Frame(vec![0; 17]), 6), Err(VideoError::InvalidFrame)));
    assert!(!desk.stop_requested());
    assert!(matches!(desk.next_frame(Latest::Closed, 7), Err(VideoError::EmptySource)));
    assert_eq!(desk.state(), SourceState::Stopped);
    assert!(desk.stop_requested());
}

#[test]
fn desktop_stop_is_idempotent_and_needs_no_start() {
    let mut desk = PipewireSource::new(2, 2, 30).unwrap();
    desk.stop();
    desk.stop();
    assert_eq!(desk.state(), SourceState::Stopped);
    assert_eq!(desk.open(), None);
    assert!(matches!(desk.start(Ok(())), Err(VideoError::EmptySource)));
    assert_eq!(desk.state(), SourceState::Stopped);
    assert!(desk.stop_requested());
}

#[test]
fn desktop_session_that_cannot_be_acquired_says_why() {
    let mut desk = PipewireSource::new(2, 2, 30).unwrap();
    assert!(desk.open().is_some());
    let started = desk.start(Err("no daemon".to_string()));
    assert!(matches!(started, Err(VideoError::Pipewire(reason)) if reason == "no daemon"));
    assert_eq!(desk.state(), SourceState::Stopped);
    assert!(desk.stop_requested());
    assert!(matches!(desk.next_frame(Latest::Frame(vec![0; 16]), 1), Err(VideoError::EmptySource)));
    // the publish loop ends with the reason
    let mut publish = PublishLoop::new();
    publish.handle(PublishEvent::Begin);
    let mut other = PipewireSource::new(2, 2, 30).unwrap();
    other.open();
    let action = publish.handle(PublishEvent::Started(other.start(Err("stream refused".to_string()))));
    assert!(matches!(action, PublishAction::Fail(VideoError::Pipewire(reason)) if reason == "stream refused"));
    assert!(publish.is_finished());
}

#[test]
fn one_failed_frame_is_skipped_and_the_rest_delivered() {
    let mut p = running();
    let mut source = PipewireSource::new(2, 2, 30).unwrap();
    source.open();
    source.start(Ok(())).unwrap();
    let script = vec![Latest::Frame(vec![1; 7]), Latest::Frame(vec![10; 16]), Latest::Frame(vec![20; 16])];
    let mut pushed = Vec::new();
    let mut skipped = 0;
    for (i, latest) in script.into_iter().enumerate() {
        let outcome = source.next_frame(latest, 100 + i as i64).map(|f| f.unwrap());
        match p.handle(PublishEvent::Frame { outcome, stop_requested: false }) {
            PublishAction::Push(f) => pushed.push(f),
            PublishAction::Skip(e) => {
                assert!(matches!(e, VideoError::InvalidFrame));
                skipped += 1;
            },
            other => panic!("unexpected action {:?}", other),
        }
    }
    assert_eq!(skipped, 1);
    assert_eq!(pushed.len(), 2);
    assert_eq!(pushed[0].timestamp_us, 101);
    assert_eq!(pushed[1].timestamp_us, 102);
    let direct = image_to_i420_buffer(&solid(2, 2, PixelLayout::Rgba, [10; 4])).unwrap();
    assert_eq!(pushed[0].buffer.data(), direct.data());
    assert_eq!(p.phase, PublishPhase::Running);
}

#[test]
fn conversion_error_is_skipped_too() {
    let mut p = running();
    let action = p.handle(
        PublishEvent::Frame { outcome: Err(VideoError::YUVError("refused".to_string())), stop_requested: false },
    );
    assert!(matches!(action, PublishAction::Skip(VideoError::YUVError(text)) if text == "refused"));
    let action = p.handle(
        PublishEvent::Frame { outcome: Err(VideoError::Nokhwa("lost".to_string())), stop_requested: false },
    );
    assert!(matches!(action, PublishAction::Skip(VideoError::Nokhwa(text)) if text == "lost"));
    assert!(matches!(
        p.handle(PublishEvent::Frame { outcome: Ok(frame(1)), stop_requested: false }),
        PublishAction::Push(_)
    ));
    assert!(!p.is_finished());
}

#[test]
fn end_of_stream_ends_the_loop() {
    let mut p = running();
    let action = p.handle(PublishEvent::Frame { outcome: Err(VideoError::EmptySource), stop_requested: false });
    assert!(matches!(action, PublishAction::Stop));
    assert!(p.is_finished());
    assert!(matches!(
        p.handle(PublishEvent::Frame { outcome: Ok(frame(1)), stop_requested: false }),
        PublishAction::Done
    ));
    assert!(matches!(p.handle(PublishEvent::Begin), PublishAction::Done));
}

#[test]
fn stop_request_ends_the_loop_before_the_frame() {
    let mut p = running();
    let action = p.handle(PublishEvent::Frame { outcome: Ok(frame(1)), stop_requested: true });
    assert!(matches!(action, PublishAction::Stop));
    assert!(p.is_finished());
    assert_eq!(p.last_timestamp_us, None);
}

#[test]
fn failed_start_ends_the_loop_with_its_reason() {
    let mut p = PublishLoop::new();
    assert_eq!(p.phase, PublishPhase::New);
    p.handle(PublishEvent::Begin);
    assert_eq!(p.phase, PublishPhase::Starting);
    let action = p.handle(PublishEvent::Started(Err(VideoError::Nokhwa("no such device".to_string()))));
    assert!(matches!(action, PublishAction::Fail(VideoError::Nokhwa(text)) if text == "no such device"));
    assert!(p.is_finished());
}

#[test]
fn events_out_of_turn_change_nothing() {
    let mut p = PublishLoop::new();
    assert!(matches!(p.handle(PublishEvent::Started(Ok(()))), PublishAction::Busy));
    assert!(matches!(
        p.handle(PublishEvent::Frame { outcome: Ok(frame(1)), stop_requested: false }),
        PublishAction::Busy
    ));
    assert_eq!(p, PublishLoop::new());
    p.handle(PublishEvent::Begin);
    assert!(matches!(p.handle(PublishEvent::Begin), PublishAction::Busy));
    p.handle(PublishEvent::Started(Ok(())));
    assert!(matches!(p.handle(PublishEvent::Started(Ok(()))), PublishAction::Busy));
    assert_eq!(p.phase, PublishPhase::Running);
}

#[test]
fn stamps_never_go_back() {
    let mut p = running();
    let mut stamps = Vec::new();
    for ts in [50, 40, 40, 60, 59, -3] {
        match p.handle(PublishEvent::Frame { outcome: Ok(frame(ts)), stop_requested: false }) {
            PublishAction::Push(f) => stamps.push(f.timestamp_us),
            other => panic!("unexpected action {:?}", other),
        }
    }
    assert_eq!(stamps, vec![50, 50, 50, 60, 60, 60]);
    assert_eq!(p.last_timestamp_us, Some(60));
}

#[test]
fn clock_counts() {
    assert_eq!(timestamp(None), None);
    assert_eq!(timestamp(Some(0)), Some(0));
    assert_eq!(timestamp(Some(1_700_000_000)), Some(1_700_000_000));
    assert_eq!(timestamp(Some(i64::MAX as u128)), Some(i64::MAX));
    assert_eq!(timestamp(Some(i64::MAX as u128 + 1)), None);
    assert_eq!(timestamp(Some(u128::MAX)), None);
}

#[test]
fn clock_reads_after_the_epoch() {
    let s = unix_seconds().unwrap();
    let us = unix_micros().unwrap();
    assert!(s > 1_600_000_000);
    assert!(us / 1_000_000 >= s);
    assert!(us / 1_000_000 - s <= 5);
    let a = havendesktop::video::nokhwa::unix_now().unwrap();
    let b = havendesktop::video::pipewire::unix_now().unwrap();
    assert!(a >= s && b >= a && b - s <= 5);
}

/// Drains a scripted source through a publish loop, whatever its backend.
fn drain<S: VideoSource>(source: &mut S, script: Vec<S::Delivery>) -> (Vec<VideoFrame>, usize, bool) {
    let mut publish = running();
    source.open();
    source.start(Ok(())).unwrap();
    let mut pushed = Vec::new();
    let mut skipped = 0;
    let mut stopped = false;
    for (i, delivered) in script.into_iter().enumerate() {
        let outcome = match source.next_frame(delivered, i as i64) {
            Ok(Some(f)) => Ok(f),
            Ok(None) => continue,
            Err(e) => Err(e),
        };
        match publish.handle(PublishEvent::Frame { outcome, stop_requested: false }) {
            PublishAction::Push(f) => pushed.push(f),
            PublishAction::Skip(_) => skipped += 1,
            PublishAction::Stop => {
                source.stop();
                stopped = true;
                break;
            },
            other => panic!("unexpected action {:?}", other),
        }
    }
    (pushed, skipped, stopped)
}

#[test]
fn both_backends_drive_the_same_loop() {
    let mut cam = NokhwaSource::new(CameraIndex::Index(0), FrameFormat::MJPEG, 30, 2, 2).unwrap();
    let script = vec![
        Received::Frame(CameraBuffer { width: 2, height: 2, format: FrameFormat::MJPEG, data: vec![0; 5] }),
        raw(2, 2, [1, 2, 3]),
        raw(4, 4, [1, 2, 3]),
        raw(2, 2, [1, 2, 3]),
        Received::Closed,
        raw(2, 2, [1, 2, 3]),
    ];
    let (pushed, skipped, stopped) = drain(&mut cam, script);
    assert_eq!((pushed.len(), skipped, stopped), (2, 2, true));
    assert_eq!(pushed[0].timestamp_us, 1);
    assert_eq!(pushed[1].timestamp_us, 3);
    assert_eq!(pushed[0].buffer.data(), pushed[1].buffer.data());
    assert_eq!(cam.state(), SourceState::Stopped);

    let mut desk = PipewireSource::new(2, 2, 30).unwrap();
    let script = vec![
        Latest::Vacant,
        Latest::Frame(vec![9; 3]),
        Latest::Frame(vec![9; 16]),
        Latest::Vacant,
        Latest::Frame(vec![8; 16]),
    ];
    let (pushed, skipped, stopped) = drain(&mut desk, script);
    assert_eq!((pushed.len(), skipped, stopped), (2, 1, false));
    assert_eq!(desk.state(), SourceState::Idle);
    assert_eq!(desk.resolution(), (pushed[0].buffer.width(), pushed[0].buffer.height()));
}

/// A source that answers only what it must.
struct Still {
    running: bool,
}

impl VideoSource for Still {
    type Request = ();

    type Delivery = ();

    fn open(&mut self) -> Option<()> {
        None
    }

    fn life(&self) -> SourceState {
        if self.running {
            SourceState::Idle
        } else {
            SourceState::Stopped
        }
    }

    fn extent(&self) -> (u32, u32) {
        (2, 2)
    }

    fn start(&mut self, acquired: Result<(), String>) -> Result<(), VideoError> {
        self.running = acquired.is_ok();
        acquired.map_err(VideoError::Nokhwa)
    }

    fn next_frame(&mut self, _delivered: (), now_us: i64) -> Result<Option<VideoFrame>, VideoError> {
        if self.running {
            Ok(Some(frame(now_us)))
        } else {
            Err(VideoError::EmptySource)
        }
    }

    fn stop(&mut self) {
        self.running = false;
    }

    fn name(&self) -> &'static str {
        "still"
    }

    fn resolution(&self) -> (u32, u32) {
        (2, 2)
    }
}

#[test]
fn a_source_without_a_wish_prefers_no_codec() {
    let mut still = Still { running: false };
    assert_eq!(still.preferred_codec(), None);
    assert_eq!(still.name(), "still");
    let (pushed, skipped, stopped) = drain(&mut still, vec![(), ()]);
    assert_eq!((pushed.len(), skipped, stopped), (2, 0, false));
    still.stop();
    assert!(matches!(still.next_frame((), 0), Err(VideoError::EmptySource)));
}
