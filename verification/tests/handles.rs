use std::sync::atomic::Ordering;

use bova_playback::handles::{
    channel_plan, pending_command, stop_is_pending, stop_poll_of, Polled,
};
use bova_playback::lifecycle::{Lifecycle, Phase, StopPoll, WorkerEvent};
use bova_playback::engine::{startup_error, StartupStep};
use bova_playback::selector::check_source;
use bova_playback::{
    open_handles, prepare_playback, select_backend, BackendSupport, ChannelPlan, Delivery,
    AudioFrame, MpvCommand, PlaybackConfig, PlaybackEngine, StartError, SubtitleFrame,
    SubtitleStyle, SubtitleTrackInfo, VideoFrame,
};

fn cfg(engine: Option<PlaybackEngine>) -> PlaybackConfig {
    PlaybackConfig { hwaccel: false, subtitle_enabled: false, subtitle_index: None, engine }
}

fn running() -> Lifecycle {
    let mut life = Lifecycle::new();
    life.advance(WorkerEvent::Started);
    life
}

fn frame(pts: i64) -> VideoFrame {
    VideoFrame { width: 1, height: 1, rgba: vec![0; 4], pts_ms: Some(pts), duration_ms: None }
}

const BOTH: BackendSupport = BackendSupport { ffmpeg: true, mpv: true };
const NONE: BackendSupport = BackendSupport { ffmpeg: false, mpv: false };
const ONLY_MPV: BackendSupport = BackendSupport { ffmpeg: false, mpv: true };
const ONLY_FFMPEG: BackendSupport = BackendSupport { ffmpeg: true, mpv: false };

#[test]
fn named_backend_is_chosen_where_it_can_run() {
    assert_eq!(select_backend(&cfg(Some(PlaybackEngine::MPV)), BOTH), Ok(PlaybackEngine::MPV));
    assert_eq!(
        select_backend(&cfg(Some(PlaybackEngine::FFmpeg)), BOTH),
        Ok(PlaybackEngine::FFmpeg)
    );
    assert_eq!(select_backend(&cfg(Some(PlaybackEngine::MPV)), ONLY_MPV), Ok(PlaybackEngine::MPV));
}

#[test]
fn missing_backend_is_a_start_error() {
    assert_eq!(
        select_backend(&cfg(Some(PlaybackEngine::MPV)), ONLY_FFMPEG),
        Err(StartError::MissingDependency(PlaybackEngine::MPV))
    );
    assert_eq!(
        select_backend(&cfg(Some(PlaybackEngine::FFmpeg)), ONLY_MPV),
        Err(StartError::MissingDependency(PlaybackEngine::FFmpeg))
    );
    assert_eq!(
        select_backend(&cfg(None), NONE),
        Err(StartError::MissingDependency(PlaybackEngine::FFmpeg))
    );
}

#[test]
fn default_backend_is_the_direct_pipeline_where_it_can_run() {
    assert_eq!(select_backend(&cfg(None), BOTH), Ok(PlaybackEngine::FFmpeg));
    assert_eq!(select_backend(&cfg(None), ONLY_FFMPEG), Ok(PlaybackEngine::FFmpeg));
    assert_eq!(select_backend(&cfg(None), ONLY_MPV), Ok(PlaybackEngine::MPV));
}

#[test]
fn start_error_texts() {
    assert_eq!(
        StartError::MissingDependency(PlaybackEngine::MPV).message(),
        "MPV feature not enabled"
    );
    assert_eq!(
        StartError::MissingDependency(PlaybackEngine::FFmpeg).message(),
        "FFmpeg feature not enabled"
    );
    assert_eq!(
        StartError::EngineFailed(PlaybackEngine::MPV).message(),
        "MPV could not be initialized"
    );
    assert_eq!(
        StartError::EngineFailed(PlaybackEngine::FFmpeg).message(),
        "FFmpeg could not be initialized"
    );
    assert_eq!(StartError::SourceUnreadable.message(), "open input failed");
    assert_eq!(StartError::NoVideoStream.message(), "no video stream");
}

#[test]
fn source_needs_to_open_and_to_have_video() {
    assert_eq!(check_source(true, Some(3)), Ok(3));
    assert_eq!(check_source(true, None), Err(StartError::NoVideoStream));
    assert_eq!(check_source(false, Some(3)), Err(StartError::SourceUnreadable));
    assert_eq!(check_source(false, None), Err(StartError::SourceUnreadable));
}

#[test]
fn channel_plans_bound_every_queue() {
    assert_eq!(
        channel_plan(PlaybackEngine::FFmpeg),
        ChannelPlan {
            video: 32,
            audio: 64,
            subtitle: 32,
            stop: 1,
            end: 1,
            commands: None,
            track_info: None
        }
    );
    assert_eq!(
        channel_plan(PlaybackEngine::MPV),
        ChannelPlan {
            video: 8,
            audio: 64,
            subtitle: 32,
            stop: 1,
            end: 1,
            commands: Some(16),
            track_info: Some(4)
        }
    );
}

#[test]
fn opened_channels_have_the_planned_capacities() {
    let (h, w) = open_handles(PlaybackEngine::FFmpeg);
    assert_eq!(h.video_rx.capacity(), Some(32));
    assert_eq!(h.audio_rx.capacity(), Some(64));
    assert_eq!(h.subtitle_rx.capacity(), Some(32));
    assert_eq!(h.stop_tx.capacity(), Some(1));
    assert_eq!(h.eos_rx.capacity(), Some(1));
    assert!(h.cmd_tx.is_none() && h.track_info_rx.is_none());
    assert!(w.cmd_rx.is_none() && w.track_info_tx.is_none());

    let (h, w) = open_handles(PlaybackEngine::MPV);
    assert_eq!(h.video_rx.capacity(), Some(8));
    assert_eq!(h.audio_rx.capacity(), Some(64));
    assert_eq!(h.subtitle_rx.capacity(), Some(32));
    assert_eq!(h.stop_tx.capacity(), Some(1));
    assert_eq!(h.eos_rx.capacity(), Some(1));
    assert_eq!(h.cmd_tx.as_ref().unwrap().capacity(), Some(16));
    assert_eq!(h.track_info_rx.as_ref().unwrap().capacity(), Some(4));
    assert!(w.cmd_rx.is_some() && w.track_info_tx.is_some());
}

#[test]
fn consumer_and_worker_hold_the_two_ends_of_each_channel() {
    let (h, w) = open_handles(PlaybackEngine::MPV);
    let mut life = running();
    assert_eq!(w.publish_latest(&life, frame(7)), Some(Delivery::Sent));
    assert_eq!(h.video_rx.try_recv().unwrap().pts_ms, Some(7));

    assert_eq!(h.send_command(MpvCommand::Pause), Some(Delivery::Sent));
    assert_eq!(h.send_command(MpvCommand::SeekAbsolute(0)), Some(Delivery::Sent));
    assert_eq!(w.next_command(&life), Some(MpvCommand::Pause));
    assert_eq!(w.next_command(&life), Some(MpvCommand::SeekAbsolute(0)));
    assert_eq!(w.next_command(&life), None);

    let track = SubtitleTrackInfo { id: 1, lang: None, title: None, external: false };
    assert_eq!(w.publish_tracks(&life, vec![track.clone()]), Some(Delivery::Sent));
    assert_eq!(h.track_info_rx.as_ref().unwrap().try_recv().unwrap(), vec![track]);

    assert_eq!(w.signal_end(&mut life), Some(Delivery::Sent));
    assert_eq!(life.phase, Phase::Stopped);
    assert_eq!(w.signal_end(&mut life), None);
    assert!(h.eos_rx.try_recv().is_ok());
    assert!(h.eos_rx.try_recv().is_err());
}

#[test]
fn direct_pipeline_takes_no_commands() {
    let (h, w) = open_handles(PlaybackEngine::FFmpeg);
    assert_eq!(h.send_command(MpvCommand::Pause), None);
    assert_eq!(w.next_command(&running()), None);
    assert_eq!(w.publish_tracks(&running(), Vec::new()), None);
}

#[test]
fn stop_can_be_asked_for_twice() {
    let (h, w) = open_handles(PlaybackEngine::FFmpeg);
    assert_eq!(w.poll_stop(), StopPoll::Empty);
    assert!(h.request_stop());
    assert!(h.request_stop());
    assert_eq!(h.stop_tx.len(), 1);
    assert_eq!(w.poll_stop(), StopPoll::Signal);
    assert_eq!(w.poll_stop(), StopPoll::Empty);
}

#[test]
fn dropped_consumer_is_seen_by_the_worker() {
    let (h, w) = open_handles(PlaybackEngine::MPV);
    drop(h);
    assert_eq!(w.poll_stop(), StopPoll::Disconnected);
    let mut life = running();
    assert_eq!(w.publish_latest(&life, frame(0)), Some(Delivery::Disconnected));
    assert_eq!(w.signal_end(&mut life), Some(Delivery::Disconnected));
}

#[test]
fn frames_beyond_the_queue_are_dropped_not_queued() {
    let (h, w) = open_handles(PlaybackEngine::MPV);
    let life = running();
    for n in 0..8 {
        assert_eq!(w.publish_latest(&life, frame(n)), Some(Delivery::Sent));
    }
    assert_eq!(w.publish_latest(&life, frame(8)), Some(Delivery::Full));
    assert_eq!(h.video_rx.len(), 8);
    let got: Vec<i64> = h.video_rx.try_iter().map(|f| f.pts_ms.unwrap()).collect();
    assert_eq!(got, vec![0, 1, 2, 3, 4, 5, 6, 7]);
}

#[test]
fn target_size_is_shared_and_starts_at_640_by_360() {
    let (h, w) = open_handles(PlaybackEngine::MPV);
    assert_eq!(w.target_render_w.load(Ordering::Relaxed), 640);
    assert_eq!(w.target_render_h.load(Ordering::Relaxed), 360);
    h.target_render_w.store(320, Ordering::Relaxed);
    h.target_render_h.store(180, Ordering::Relaxed);
    assert_eq!(w.target_render_w.load(Ordering::Relaxed), 320);
    assert_eq!(w.target_render_h.load(Ordering::Relaxed), 180);
}

#[test]
fn prepared_pipeline_matches_the_chosen_backend() {
    let p = prepare_playback(&cfg(Some(PlaybackEngine::MPV)), BOTH, Ok(())).unwrap();
    assert_eq!(p.engine, PlaybackEngine::MPV);
    assert!(p.handles.cmd_tx.is_some());
    assert!(p.worker.cmd_rx.is_some());
    assert_eq!(p.handles.video_rx.capacity(), Some(8));
    let p = prepare_playback(&cfg(None), BOTH, Ok(())).unwrap();
    assert_eq!(p.engine, PlaybackEngine::FFmpeg);
    assert!(p.handles.cmd_tx.is_none());
    assert_eq!(p.handles.video_rx.capacity(), Some(32));
    assert_eq!(p.handles.stop_tx.capacity(), Some(1));
}

#[test]
fn start_fails_without_a_bundle_when_the_backend_is_missing() {
    let e = prepare_playback(&cfg(Some(PlaybackEngine::MPV)), ONLY_FFMPEG, Ok(())).unwrap_err();
    assert_eq!(e, StartError::MissingDependency(PlaybackEngine::MPV));
    let e = prepare_playback(&cfg(None), NONE, Ok(())).unwrap_err();
    assert_eq!(e, StartError::MissingDependency(PlaybackEngine::FFmpeg));
    // A missing backend is reported before anything about the source.
    let e = prepare_playback(&cfg(None), NONE, Err(StartError::SourceUnreadable)).unwrap_err();
    assert_eq!(e, StartError::MissingDependency(PlaybackEngine::FFmpeg));
}

#[test]
fn start_fails_without_a_bundle_when_the_source_cannot_be_opened() {
    for engine in [PlaybackEngine::FFmpeg, PlaybackEngine::MPV] {
        for error in [
            StartError::SourceUnreadable,
            StartError::NoVideoStream,
            StartError::EngineFailed(engine),
        ] {
            let result = prepare_playback(&cfg(Some(engine)), BOTH, Err(error));
            assert_eq!(result.unwrap_err(), error);
        }
    }
    // On the direct pipeline the opening is judged by `check_source`.
    let opening = check_source(false, None).map(|_| ());
    let e = prepare_playback(&cfg(None), BOTH, opening).unwrap_err();
    assert_eq!(e, StartError::SourceUnreadable);
    let opening = check_source(true, None).map(|_| ());
    let e = prepare_playback(&cfg(None), BOTH, opening).unwrap_err();
    assert_eq!(e, StartError::NoVideoStream);
    // On the engine pipeline it is judged by `startup_error`.
    let opening = match startup_error(StartupStep::LoadSource, -1) {
        Some(e) => Err(e),
        None => Ok(()),
    };
    let e = prepare_playback(&cfg(Some(PlaybackEngine::MPV)), BOTH, opening).unwrap_err();
    assert_eq!(e, StartError::SourceUnreadable);
}

#[test]
fn bundle_can_be_cloned_and_the_clone_shares_its_channels() {
    let (h, w) = open_handles(PlaybackEngine::MPV);
    let other = h.clone();
    let life = running();
    assert_eq!(w.publish_latest(&life, frame(5)), Some(Delivery::Sent));
    assert_eq!(other.video_rx.try_recv().unwrap().pts_ms, Some(5));
    assert!(h.video_rx.try_recv().is_err());
    assert!(other.request_stop());
    assert_eq!(w.poll_stop(), StopPoll::Signal);
    other.target_render_w.store(200, Ordering::Relaxed);
    assert_eq!(h.target_render_w.load(Ordering::Relaxed), 200);
    assert_eq!(other.video_rx.capacity(), Some(8));
    let worker = w.clone();
    assert_eq!(worker.publish_latest(&life, frame(6)), Some(Delivery::Sent));
    assert_eq!(h.video_rx.try_recv().unwrap().pts_ms, Some(6));
}

#[test]
fn direct_pipeline_loses_no_picture() {
    let (h, w) = open_handles(PlaybackEngine::FFmpeg);
    let life = running();
    let mut got = Vec::new();
    for n in 0..100 {
        if h.video_rx.is_full() {
            got.push(h.video_rx.try_recv().unwrap().pts_ms.unwrap());
        }
        assert_eq!(w.publish_video(&life, frame(n)), Some(Delivery::Sent));
    }
    got.extend(h.video_rx.try_iter().map(|f| f.pts_ms.unwrap()));
    assert_eq!(got, (0..100).collect::<Vec<i64>>());
    drop(h);
    assert_eq!(w.publish_video(&life, frame(100)), Some(Delivery::Disconnected));
}

#[test]
fn direct_pipeline_publishes_audio_and_subtitles_while_running() {
    let (h, w) = open_handles(PlaybackEngine::FFmpeg);
    let audio =
        AudioFrame { channels: 2, sample_rate: 48_000, samples: vec![1, 2], pts_ms: Some(3) };
    let sub = SubtitleFrame {
        text: "hi".to_string(),
        start_ms: 0,
        end_ms: 10,
        style: SubtitleStyle::standard(),
    };
    let mut life = Lifecycle::new();
    assert_eq!(w.publish_audio(&life, audio.clone()), None);
    assert_eq!(w.publish_subtitle(&life, sub.clone()), None);
    assert_eq!(w.publish_video(&life, frame(0)), None);
    life.advance(WorkerEvent::Started);
    assert_eq!(w.publish_audio(&life, audio.clone()), Some(Delivery::Sent));
    assert_eq!(w.publish_subtitle(&life, sub.clone()), Some(Delivery::Sent));
    assert_eq!(h.audio_rx.try_recv().unwrap(), audio);
    assert_eq!(h.subtitle_rx.try_recv().unwrap(), sub);
    life.advance(WorkerEvent::Polled(StopPoll::Signal));
    assert_eq!(w.publish_audio(&life, audio), None);
    assert_eq!(w.publish_subtitle(&life, sub), None);
    assert_eq!(w.publish_video(&life, frame(1)), None);
    assert!(h.video_rx.is_empty() && h.audio_rx.is_empty() && h.subtitle_rx.is_empty());
}

#[test]
fn commands_are_taken_only_while_running() {
    let (h, w) = open_handles(PlaybackEngine::MPV);
    assert_eq!(h.send_command(MpvCommand::Pause), Some(Delivery::Sent));
    let mut life = Lifecycle::new();
    assert_eq!(w.next_command(&life), None);
    life.advance(WorkerEvent::Started);
    assert_eq!(w.next_command(&life), Some(MpvCommand::Pause));
    assert_eq!(h.send_command(MpvCommand::Resume), Some(Delivery::Sent));
    life.advance(WorkerEvent::Polled(StopPoll::Signal));
    assert_eq!(w.next_command(&life), None);
    assert_eq!(h.cmd_tx.as_ref().unwrap().len(), 1);
}

#[test]
fn nothing_is_published_after_a_stop_was_seen() {
    let (h, w) = open_handles(PlaybackEngine::MPV);
    let mut life = running();
    assert_eq!(w.publish_latest(&life, frame(1)), Some(Delivery::Sent));
    assert!(h.request_stop());
    life.advance(WorkerEvent::Polled(w.poll_stop()));
    assert_eq!(w.publish_latest(&life, frame(2)), None);
    let track = SubtitleTrackInfo { id: 1, lang: None, title: None, external: false };
    assert_eq!(w.publish_tracks(&life, vec![track]), None);
    assert_eq!(w.signal_end(&mut life), Some(Delivery::Sent));
    assert_eq!(w.signal_end(&mut life), None);
    assert_eq!(w.publish_latest(&life, frame(3)), None);
    let got: Vec<i64> = h.video_rx.try_iter().map(|f| f.pts_ms.unwrap()).collect();
    assert_eq!(got, vec![1]);
    assert_eq!(h.eos_rx.len(), 1);
}

#[test]
fn worker_that_has_not_started_publishes_nothing() {
    let (h, w) = open_handles(PlaybackEngine::MPV);
    let life = Lifecycle::new();
    assert_eq!(w.publish_latest(&life, frame(1)), None);
    assert!(h.video_rx.is_empty());
}

#[test]
fn unit_of_work_begins_only_while_running_and_not_stopped() {
    let (h, w) = open_handles(PlaybackEngine::MPV);
    let mut life = Lifecycle::new();
    assert!(!w.begin_unit(&mut life));
    assert_eq!(life.phase, Phase::Starting);
    life.advance(WorkerEvent::Started);
    assert!(w.begin_unit(&mut life));
    assert!(w.begin_unit(&mut life));
    assert!(h.request_stop());
    assert!(!w.begin_unit(&mut life));
    assert_eq!(life.phase, Phase::Draining);
    assert!(!w.begin_unit(&mut life));
    assert_eq!(w.signal_end(&mut life), Some(Delivery::Sent));
    assert!(!w.begin_unit(&mut life));
    assert_eq!(life.phase, Phase::Stopped);
}

#[test]
fn any_message_on_the_stop_channel_is_a_stop_signal() {
    assert_eq!(stop_poll_of(Polled::Message(())), StopPoll::Signal);
    assert_eq!(stop_poll_of(Polled::Empty), StopPoll::Empty);
    assert_eq!(stop_poll_of(Polled::Disconnected), StopPoll::Disconnected);
}

#[test]
fn polled_message_is_the_pending_command() {
    assert_eq!(pending_command(Polled::Message(MpvCommand::Pause)), Some(MpvCommand::Pause));
    assert_eq!(
        pending_command(Polled::Message(MpvCommand::LoadExternalSub("a.srt".to_string()))),
        Some(MpvCommand::LoadExternalSub("a.srt".to_string()))
    );
    assert_eq!(pending_command(Polled::Empty), None);
    assert_eq!(pending_command(Polled::Disconnected), None);
}

#[test]
fn commands_come_out_in_the_order_they_were_sent() {
    let (h, w) = open_handles(PlaybackEngine::MPV);
    let life = running();
    let sent = vec![
        MpvCommand::SeekAbsolute(1000),
        MpvCommand::SeekAbsolute(0),
        MpvCommand::SetVolume(30),
    ];
    for cmd in &sent {
        assert_eq!(h.send_command(cmd.clone()), Some(Delivery::Sent));
    }
    let mut got = Vec::new();
    while let Some(cmd) = w.next_command(&life) {
        got.push(cmd);
    }
    assert_eq!(got, sent);
    drop(h);
    assert_eq!(w.next_command(&life), None);
}

#[test]
fn stop_waits_for_the_worker_however_often_it_was_asked_for() {
    assert!(stop_is_pending(Delivery::Sent));
    assert!(stop_is_pending(Delivery::Full));
    assert!(!stop_is_pending(Delivery::Disconnected));

    let (h, w) = open_handles(PlaybackEngine::FFmpeg);
    assert!(h.request_stop());
    assert!(h.request_stop());
    assert_eq!(h.stop_tx.len(), 1);
    drop(w);
    assert!(!h.request_stop());
}
