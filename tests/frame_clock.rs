use video_scrub::frame_clock::{
    end_frame_for_duration, frame_from_time, time_from_frame, FrameRate, MICROS_PER_SECOND,
};

fn fps(n: u32) -> FrameRate {
    FrameRate::per_second(n).unwrap()
}

#[test]
fn end_frame_of_ten_seconds_at_25_fps() {
    assert_eq!(end_frame_for_duration(10 * MICROS_PER_SECOND, fps(25)), 249);
}

#[test]
fn end_frame_of_media_shorter_than_a_frame_is_zero() {
    assert_eq!(end_frame_for_duration(0, fps(25)), 0);
    assert_eq!(end_frame_for_duration(39_999, fps(25)), 0);
    assert_eq!(end_frame_for_duration(40_000, fps(25)), 0);
    assert_eq!(end_frame_for_duration(80_000, fps(25)), 1);
}

#[test]
fn frame_from_time_floors() {
    assert_eq!(frame_from_time(5_200_000, fps(25)), 130);
    assert_eq!(frame_from_time(5_239_999, fps(25)), 130);
    assert_eq!(frame_from_time(5_240_000, fps(25)), 131);
}

#[test]
fn time_from_frame_rounds_up() {
    assert_eq!(time_from_frame(130, fps(25)), 5_200_000);
    let ntsc = FrameRate::new(30000, 1001).unwrap();
    // 1 frame at 30000/1001 fps lasts 33366.66... microseconds
    assert_eq!(time_from_frame(1, ntsc), 33_367);
}

#[test]
fn frame_time_round_trip() {
    let ntsc = FrameRate::new(30000, 1001).unwrap();
    for rate in [fps(25), fps(24), fps(60), ntsc, FrameRate::new(1, 3).unwrap()] {
        for frame in [0u64, 1, 2, 59, 130, 249, 1000, 123_456, 10_000_000] {
            assert_eq!(frame_from_time(time_from_frame(frame, rate), rate), frame);
        }
    }
}

#[test]
fn frame_rate_validity() {
    assert!(FrameRate::new(0, 1).is_none());
    assert!(FrameRate::new(25, 0).is_none());
    assert!(FrameRate::per_second(1_000_001).is_none());
    assert_eq!(FrameRate::per_second(25), Some(FrameRate { num: 25, den: 1 }));
}

#[test]
fn frame_rate_rounding() {
    assert_eq!(fps(25).rounded(), 25);
    assert_eq!(FrameRate::new(30000, 1001).unwrap().rounded(), 30);
    assert_eq!(FrameRate::new(5, 2).unwrap().rounded(), 3);
    assert_eq!(FrameRate::new(1, 3).unwrap().rounded(), 0);
}
