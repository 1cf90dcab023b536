use bova_playback::consumer::{retain_due, Progress};
use bova_playback::{SubtitleFrame, SubtitleStyle, VideoFrame};

fn sub(text: &str, start_ms: i64, end_ms: i64) -> SubtitleFrame {
    SubtitleFrame { text: text.to_string(), start_ms, end_ms, style: SubtitleStyle::standard() }
}

fn frame(pts_ms: Option<i64>, duration_ms: Option<i64>) -> VideoFrame {
    VideoFrame { width: 1, height: 1, rgba: vec![0; 4], pts_ms, duration_ms }
}

#[test]
fn subtitle_is_shown_from_start_to_end_inclusive() {
    let s = sub("hi", 1000, 2000);
    assert!(!s.shown_at(999));
    assert!(s.shown_at(1000));
    assert!(s.shown_at(1500));
    assert!(s.shown_at(2000));
    assert!(!s.shown_at(2001));
    assert!(sub("point", 5, 5).shown_at(5));
    assert!(!sub("backwards", 6, 5).shown_at(5));
}

#[test]
fn subtitles_that_have_ended_are_dropped() {
    let mut subs = vec![sub("a", 0, 100), sub("b", 50, 200), sub("c", 0, 149), sub("d", 300, 400)];
    retain_due(&mut subs, 150);
    assert_eq!(subs, vec![sub("b", 50, 200), sub("d", 300, 400)]);
    retain_due(&mut subs, 200);
    assert_eq!(subs, vec![sub("b", 50, 200), sub("d", 300, 400)]);
    retain_due(&mut subs, 201);
    assert_eq!(subs, vec![sub("d", 300, 400)]);
    retain_due(&mut subs, 401);
    assert!(subs.is_empty());
    retain_due(&mut subs, 0);
    assert!(subs.is_empty());
}

#[test]
fn progress_follows_the_frames() {
    let mut p = Progress { position_ms: 0, duration_ms: 0 };
    p.frame_seen(&frame(Some(40), None));
    assert_eq!(p, Progress { position_ms: 40, duration_ms: 0 });
    p.frame_seen(&frame(None, Some(2000)));
    assert_eq!(p, Progress { position_ms: 40, duration_ms: 2000 });
    p.frame_seen(&frame(Some(80), Some(2100)));
    assert_eq!(p, Progress { position_ms: 80, duration_ms: 2100 });
    p.frame_seen(&frame(None, None));
    assert_eq!(p, Progress { position_ms: 80, duration_ms: 2100 });
}

#[test]
fn skips_stay_within_the_clip() {
    let at = |position_ms: i64, duration_ms: i64| Progress { position_ms, duration_ms };
    assert_eq!(at(25_000, 60_000).skip_back_target(), 15_000);
    assert_eq!(at(10_000, 60_000).skip_back_target(), 0);
    assert_eq!(at(4_000, 60_000).skip_back_target(), 0);
    assert_eq!(at(-5, 60_000).skip_back_target(), 0);
    assert_eq!(at(i64::MIN, 60_000).skip_back_target(), 0);
    assert_eq!(at(25_000, 60_000).skip_forward_target(), 35_000);
    assert_eq!(at(50_000, 60_000).skip_forward_target(), 60_000);
    assert_eq!(at(55_000, 60_000).skip_forward_target(), 60_000);
    assert_eq!(at(70_000, 60_000).skip_forward_target(), 60_000);
    assert_eq!(at(i64::MAX, i64::MAX).skip_forward_target(), i64::MAX);
    assert_eq!(at(i64::MIN, i64::MAX).skip_forward_target(), i64::MIN + 10_000);
}
