use bova_playback::audio::audio_frame;
use bova_playback::model::{SubtitlePosition, SubtitleStyle};
use bova_playback::planes::{frame_from_plane, pack_rgba_plane};
use bova_playback::subtitles::{subtitle_frame, subtitle_window};
use bova_playback::timebase::TimeBase;
use bova_playback::{PlaybackConfig, VideoFrame};

#[test]
fn padded_rows_are_packed_tightly() {
    // Two pixels wide, two rows, rows 12 bytes apart: four bytes of padding each.
    let plane: Vec<u8> = (0u8..24).collect();
    let packed = pack_rgba_plane(&plane, 12, 2, 2).unwrap();
    assert_eq!(packed, vec![0, 1, 2, 3, 4, 5, 6, 7, 12, 13, 14, 15, 16, 17, 18, 19]);
}

#[test]
fn plane_without_padding_is_copied_whole() {
    let plane: Vec<u8> = (0u8..32).collect();
    let packed = pack_rgba_plane(&plane, 8, 2, 4).unwrap();
    assert_eq!(packed, plane);
}

#[test]
fn last_row_may_end_with_the_plane() {
    let plane: Vec<u8> = (0u8..20).collect();
    let packed = pack_rgba_plane(&plane, 12, 2, 2).unwrap();
    assert_eq!(packed.len(), 16);
    assert_eq!(&packed[8..], &plane[12..20]);
}

#[test]
fn short_plane_is_refused() {
    let plane: Vec<u8> = vec![0; 19];
    assert_eq!(pack_rgba_plane(&plane, 12, 2, 2), None);
    assert_eq!(pack_rgba_plane(&[], 8, 2, 1), None);
}

#[test]
fn empty_picture_is_refused() {
    let plane: Vec<u8> = vec![0; 64];
    assert_eq!(pack_rgba_plane(&plane, 8, 0, 2), None);
    assert_eq!(pack_rgba_plane(&plane, 8, 2, 0), None);
}

#[test]
fn published_frame_has_four_bytes_per_pixel() {
    let plane: Vec<u8> = vec![7; 3 * 16];
    let frame = frame_from_plane(&plane, 16, 3, 3, Some(40)).unwrap();
    assert_eq!(frame.width, 3);
    assert_eq!(frame.height, 3);
    assert_eq!(frame.rgba.len(), 3 * 3 * 4);
    assert_eq!(frame.pts_ms, Some(40));
    assert_eq!(frame.duration_ms, None);
    assert!(frame.is_well_formed());
}

#[test]
fn frame_from_short_plane_is_refused() {
    assert_eq!(frame_from_plane(&[0u8; 10], 16, 3, 3, None), None);
}

#[test]
fn well_formedness_checks_size_and_length() {
    let frame = |width: u32, height: u32, len: usize| VideoFrame {
        width,
        height,
        rgba: vec![0; len],
        pts_ms: None,
        duration_ms: None,
    };
    assert!(frame(2, 1, 8).is_well_formed());
    assert!(!frame(2, 1, 7).is_well_formed());
    assert!(!frame(2, 1, 9).is_well_formed());
    assert!(!frame(0, 1, 0).is_well_formed());
    assert!(!frame(1, 0, 0).is_well_formed());
}

#[test]
fn audio_frames_are_stereo_at_48_khz() {
    let data: Vec<i16> = vec![1, -1, 2, -2, 3, -3];
    let frame = audio_frame(&data, 3, 2, Some(21));
    assert_eq!(frame.channels, 2);
    assert_eq!(frame.sample_rate, 48_000);
    assert_eq!(frame.samples, data);
    assert_eq!(frame.pts_ms, Some(21));
}

#[test]
fn audio_frame_of_mono_source_is_still_stereo() {
    let frame = audio_frame(&[5, 6, 7, 8], 4, 1, None);
    assert_eq!(frame.channels, 2);
    assert_eq!(frame.sample_rate, 48_000);
    assert_eq!(frame.samples, vec![5, 6, 7, 8]);
}

#[test]
fn audio_frame_takes_no_more_than_the_block_holds() {
    let frame = audio_frame(&[1, 2, 3], 4, 2, None);
    assert_eq!(frame.samples, vec![1, 2, 3]);
    let frame = audio_frame(&[1, 2, 3, 4, 5, 6], 2, 2, None);
    assert_eq!(frame.samples, vec![1, 2, 3, 4]);
    let frame = audio_frame(&[1, 2, 3], usize::MAX, usize::MAX, None);
    assert_eq!(frame.samples, vec![1, 2, 3]);
    let frame = audio_frame(&[], 1024, 2, None);
    assert!(frame.samples.is_empty());
}

#[test]
fn subtitle_window_scales_start_and_duration() {
    let tb = Some(TimeBase { num: 1, den: 25 });
    assert_eq!(subtitle_window(Some(100), 50, tb), (4000, 6000));
    assert_eq!(subtitle_window(None, 50, tb), (0, 2000));
}

#[test]
fn subtitle_without_duration_is_shown_for_three_seconds() {
    let tb = Some(TimeBase { num: 1, den: 1000 });
    assert_eq!(subtitle_window(Some(1500), 0, tb), (1500, 4500));
    assert_eq!(subtitle_window(Some(1500), -7, tb), (1500, 4500));
    assert_eq!(subtitle_window(Some(1500), 9, None), (0, 3000));
    assert_eq!(subtitle_window(Some(i64::MAX), 0, tb), (i64::MAX, i64::MAX));
}

#[test]
fn subtitle_frame_carries_text_window_and_standard_style() {
    let tb = Some(TimeBase { num: 1, den: 1000 });
    let frame = subtitle_frame("hello".to_string(), Some(10), 20, tb).unwrap();
    assert_eq!(frame.text, "hello");
    assert_eq!(frame.start_ms, 10);
    assert_eq!(frame.end_ms, 30);
    assert_eq!(frame.style.font_size, 24);
    assert_eq!(frame.style.font_color, [255, 255, 255, 255]);
    assert_eq!(frame.style.background_color, [0, 0, 0, 128]);
    assert_eq!(frame.style.position, SubtitlePosition::Bottom);
    assert_eq!(frame.style, SubtitleStyle::standard());
}

#[test]
fn subtitle_without_text_is_not_published() {
    let tb = Some(TimeBase { num: 1, den: 1000 });
    assert_eq!(subtitle_frame(String::new(), Some(10), 20, tb), None);
}

#[test]
fn defaults_are_all_off() {
    let cfg = PlaybackConfig::default();
    assert!(!cfg.hwaccel);
    assert!(!cfg.subtitle_enabled);
    assert_eq!(cfg.subtitle_index, None);
    assert_eq!(cfg.engine, None);
    assert_eq!(SubtitlePosition::default(), SubtitlePosition::Bottom);
    let style = SubtitleStyle::default();
    assert_eq!(style.font_size, 0);
    assert_eq!(style.font_color, [0, 0, 0, 0]);
    assert_eq!(style.background_color, [0, 0, 0, 0]);
    assert_eq!(style.position, SubtitlePosition::Bottom);
}

#[test]
fn two_second_clip_decoded_in_software() {
    // Sixty pictures of 640 by 360 at 30 per second, rows padded to 2624 bytes.
    let tb = Some(TimeBase { num: 1, den: 30 });
    let stride = 2624;
    let plane = vec![9u8; stride * 360];
    let mut state = bova_playback::direct::DecodeState::new(false);
    assert!(!state.wants_transfer());
    let mut last = None;
    for ts in 0..60 {
        let pts = bova_playback::timebase::frame_pts_ms(Some(ts), tb);
        let frame = frame_from_plane(&plane, stride, 640, 360, pts).unwrap();
        assert!(frame.is_well_formed());
        assert_eq!(frame.rgba.len(), 640 * 360 * 4);
        assert!(frame.pts_ms >= last);
        last = frame.pts_ms;
        state.frame_published();
    }
    assert_eq!(state.video_frames, 60);
    assert_eq!(last, Some(1967));
    assert!((1800..=2200).contains(&last.unwrap()));
}
