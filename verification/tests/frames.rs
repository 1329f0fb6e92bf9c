use portal_capture::capture::{shot_turn, ShotTurn, StreamState, UserData};
use portal_capture::frame::{
    encode_png, swap_red_and_blue, EncodeError, LatestFrame, VideoFormat, VideoInfoRaw,
};
use portal_capture::park::{park_until_quit_w_timeout, ParkTurn};

fn decoded(file: &[u8]) -> (u32, u32, Vec<u8>) {
    let mut reader = png::Decoder::new(file).read_info().unwrap();
    let mut pixels = vec![0; reader.output_buffer_size()];
    let info = reader.next_frame(&mut pixels).unwrap();
    assert_eq!(info.color_type, png::ColorType::Rgba);
    assert_eq!(info.bit_depth, png::BitDepth::Eight);
    pixels.truncate(info.buffer_size());
    (info.width, info.height, pixels)
}

fn info(format: VideoFormat, width: u32, height: u32) -> VideoInfoRaw {
    VideoInfoRaw { format, width, height }
}

#[test]
fn red_and_blue_change_places() {
    let mut data = vec![1, 2, 3, 4, 5, 6, 7, 8];
    swap_red_and_blue(&mut data);
    assert_eq!(data, vec![3, 2, 1, 4, 7, 6, 5, 8]);
    swap_red_and_blue(&mut data);
    assert_eq!(data, vec![1, 2, 3, 4, 5, 6, 7, 8]);
}

#[test]
fn last_pixel_may_lack_its_alpha() {
    let mut data = vec![1, 2, 3, 4, 5, 6, 7];
    swap_red_and_blue(&mut data);
    assert_eq!(data, vec![3, 2, 1, 4, 7, 6, 5]);
    let mut nothing: Vec<u8> = vec![];
    swap_red_and_blue(&mut nothing);
    assert!(nothing.is_empty());
}

#[test]
fn picture_can_be_read_back() {
    let pixels = vec![1, 2, 3, 255, 4, 5, 6, 128];
    let file = encode_png(2, 1, &pixels).unwrap();
    assert_eq!(decoded(&file), (2, 1, pixels));
}

#[test]
fn picture_that_is_none_is_refused() {
    assert_eq!(encode_png(0, 1, &[]), Err(EncodeError::ZeroWidth));
    assert_eq!(encode_png(0, 0, &[]), Err(EncodeError::ZeroWidth));
    assert_eq!(encode_png(1, 0, &[]), Err(EncodeError::ZeroHeight));
    assert_eq!(encode_png(1, 1, &[1, 2, 3]), Err(EncodeError::BufferSize));
    assert_eq!(encode_png(1, 1, &[1, 2, 3, 4, 5]), Err(EncodeError::BufferSize));
}

#[test]
fn empty_frame_makes_no_screenshot() {
    let frame = LatestFrame::new(3);
    assert!(frame.data.is_empty());
    assert_eq!(frame.info, VideoInfoRaw::unknown());
    assert_eq!(frame.ts, 3);
    assert!(frame.check_sound());
    assert_eq!(frame.screenshot(), Ok(None));
}

#[test]
fn screenshot_of_a_bgra_frame_is_swapped() {
    let frame = LatestFrame {
        data: vec![1, 2, 3, 4, 5, 6, 7, 8],
        info: info(VideoFormat::BGRA, 1, 2),
        ts: 0,
    };
    assert!(frame.check_sound());
    let file = frame.screenshot().unwrap().unwrap();
    assert_eq!(decoded(&file), (1, 2, vec![3, 2, 1, 4, 7, 6, 5, 8]));
}

#[test]
fn screenshot_of_an_rgba_frame_is_not_swapped() {
    let frame = LatestFrame {
        data: vec![1, 2, 3, 4],
        info: info(VideoFormat::RGBA, 1, 1),
        ts: 0,
    };
    let file = frame.screenshot().unwrap().unwrap();
    assert_eq!(decoded(&file), (1, 1, vec![1, 2, 3, 4]));
}

#[test]
fn screenshot_of_a_short_frame_is_refused() {
    let frame = LatestFrame {
        data: vec![1, 2, 3],
        info: info(VideoFormat::BGRA, 1, 1),
        ts: 0,
    };
    assert!(frame.check_sound());
    assert_eq!(frame.screenshot(), Err(EncodeError::BufferSize));
}

#[test]
fn unsound_frames_are_told() {
    let mut frame = LatestFrame {
        data: vec![1, 2],
        info: info(VideoFormat::BGRA, 1, 1),
        ts: 0,
    };
    assert!(!frame.check_sound());
    frame.info.format = VideoFormat::RGBA;
    assert!(frame.check_sound());
    frame.info.width = u32::MAX;
    frame.info.height = u32::MAX;
    assert!(!frame.check_sound());
}

#[test]
fn taking_a_frame_leaves_its_info() {
    let mut frame = LatestFrame {
        data: vec![1, 2, 3, 4],
        info: info(VideoFormat::RGBA, 1, 1),
        ts: 9,
    };
    let taken = frame.take();
    assert_eq!(taken.data, vec![1, 2, 3, 4]);
    assert_eq!(taken.info, info(VideoFormat::RGBA, 1, 1));
    assert_eq!(taken.ts, 9);
    assert!(frame.data.is_empty());
    assert_eq!(frame.info, info(VideoFormat::RGBA, 1, 1));
    assert_eq!(frame.ts, 9);
    assert!(frame.take().data.is_empty());
}

#[test]
fn stored_frame_is_taken_once() {
    let mut frame = LatestFrame::new(0);
    frame.store(&[1, 2, 3], info(VideoFormat::RGBA, 5, 6), 1);
    frame.store(&[4, 5], info(VideoFormat::BGRA, 7, 8), 2);
    let taken = frame.take();
    assert_eq!(taken.data, vec![4, 5]);
    assert_eq!(taken.info, info(VideoFormat::BGRA, 7, 8));
    assert_eq!(taken.ts, 2);
    assert!(frame.take().data.is_empty());
    frame.store(&[6, 7, 8, 9], info(VideoFormat::BGRA, 7, 8), 3);
    assert_eq!(frame.data, vec![6, 7, 8, 9]);
}

#[test]
fn format_is_remembered() {
    let mut data = UserData::new();
    assert_eq!(data.video_info, VideoInfoRaw::unknown());
    let format = info(VideoFormat::BGRA, 3, 4);
    assert!(!data.param_changed(false, Some(format)));
    assert_eq!(data.video_info, VideoInfoRaw::unknown());
    assert!(!data.param_changed(true, Some(format)));
    assert_eq!(data.video_info, format);
    assert!(!data.param_changed(false, None));
    assert!(data.param_changed(true, None));
    assert_eq!(data.video_info, format);
}

#[test]
fn unconnected_stream_ends_the_capture() {
    let data = UserData::new();
    assert!(data.state_changed(StreamState::Unconnected));
    assert!(!data.state_changed(StreamState::Error));
    assert!(!data.state_changed(StreamState::Connecting));
    assert!(!data.state_changed(StreamState::Paused));
    assert!(!data.state_changed(StreamState::Streaming));
}

#[test]
fn buffer_becomes_the_latest_frame() {
    let mut data = UserData::new();
    data.param_changed(true, Some(info(VideoFormat::RGBA, 1, 1)));
    let mut frame = LatestFrame::new(0);
    data.process(&mut frame, Some(&[1, 2, 3, 4]), 8);
    assert_eq!(frame.data, vec![1, 2, 3, 4]);
    assert_eq!(frame.info, info(VideoFormat::RGBA, 1, 1));
    assert_eq!(frame.ts, 8);
    data.process(&mut frame, None, 9);
    assert_eq!(frame.data, vec![1, 2, 3, 4]);
    assert_eq!(frame.ts, 8);
}

#[test]
fn sleeping_adds_up() {
    assert_eq!(park_until_quit_w_timeout(10, false, 4), ParkTurn::Park(6));
    assert_eq!(park_until_quit_w_timeout(6, false, 5), ParkTurn::Park(1));
    assert_eq!(park_until_quit_w_timeout(1, false, 1), ParkTurn::TimedOut);
    assert_eq!(park_until_quit_w_timeout(1, false, 7), ParkTurn::TimedOut);
    assert_eq!(park_until_quit_w_timeout(0, false, 0), ParkTurn::TimedOut);
}

#[test]
fn end_of_capture_counts_first() {
    assert_eq!(park_until_quit_w_timeout(10, true, 4), ParkTurn::Quit);
    assert_eq!(park_until_quit_w_timeout(10, true, 40), ParkTurn::Quit);
}

#[test]
fn latest_frame_is_what_is_saved() {
    let mut data = UserData::new();
    data.param_changed(true, Some(info(VideoFormat::BGRA, 1, 1)));
    let mut frame = LatestFrame::new(0);
    data.process(&mut frame, Some(&[9, 9, 9, 9]), 1);
    data.process(&mut frame, Some(&[1, 2, 3, 4]), 2);
    let taken = frame.take();
    assert_eq!(taken.ts, 2);
    let file = taken.screenshot().unwrap().unwrap();
    assert_eq!(decoded(&file), (1, 1, vec![3, 2, 1, 4]));
    assert_eq!(frame.take().screenshot(), Ok(None));
}

#[test]
fn rows_are_counted_in_32_bits() {
    let mut frame = LatestFrame {
        data: vec![1, 2, 3, 4],
        info: info(VideoFormat::RGBA, 1_073_741_823, 1),
        ts: 0,
    };
    assert!(frame.check_sound());
    frame.info.width = 1_073_741_824;
    assert!(!frame.check_sound());
    frame.info.height = 0;
    assert!(!frame.check_sound());
}

#[test]
fn empty_frame_may_have_any_size() {
    let frame = LatestFrame {
        data: vec![],
        info: info(VideoFormat::BGRA, u32::MAX, u32::MAX),
        ts: 0,
    };
    assert_eq!(frame.screenshot(), Ok(None));
}

#[test]
fn frames_are_tried_every_five_seconds() {
    assert_eq!(shot_turn(false), ShotTurn::Shoot { then_park: 5_000_000_000 });
    assert_eq!(shot_turn(true), ShotTurn::Stop);
}

#[test]
fn frame_can_be_copied() {
    let frame = LatestFrame {
        data: vec![1, 2, 3],
        info: info(VideoFormat::BGRA, 4, 5),
        ts: 6,
    };
    let mut copy = frame.clone();
    assert_eq!(copy.take().data, vec![1, 2, 3]);
    assert_eq!(copy.info, frame.info);
    assert_eq!(copy.ts, 6);
    assert_eq!(frame.data, vec![1, 2, 3]);
}
