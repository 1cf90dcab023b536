//! The bundle of channel ends a consumer gets from a started pipeline, and
//! the ends the worker keeps.

use vstd::prelude::*;
use std::sync::atomic::AtomicU32;
use std::sync::Arc;
use crossbeam_channel::{Receiver, Sender};
use crate::commands::MpvCommand;
use crate::lifecycle::{Lifecycle, Phase, StopPoll, WorkerEvent};
use crate::model::{AudioFrame, PlaybackConfig, PlaybackEngine, SubtitleFrame, VideoFrame};
use crate::render_size::{INITIAL_TARGET_HEIGHT, INITIAL_TARGET_WIDTH};
use crate::selector::{select_backend, wanted_backend, BackendSupport, StartError};
use crate::tracks::SubtitleTrackInfo;

verus! {

/// `crossbeam_channel::Sender`, the sending end of a channel. Its inside
/// is not looked at.
#[verifier::external_type_specification]
#[verifier::external_body]
#[verifier::reject_recursive_types(T)]
pub struct ExSender<T>(Sender<T>);

/// `crossbeam_channel::Receiver`, the receiving end of a channel. Its
/// inside is not looked at.
#[verifier::external_type_specification]
#[verifier::external_body]
#[verifier::reject_recursive_types(T)]
pub struct ExReceiver<T>(Receiver<T>);

/// The capacity the video queue was made with, as `Receiver::capacity`
/// reports it.
pub uninterp spec fn video_capacity(rx: Receiver<VideoFrame>) -> Option<usize>;

/// The capacity the audio queue was made with.
pub uninterp spec fn audio_capacity(rx: Receiver<AudioFrame>) -> Option<usize>;

/// The capacity the subtitle queue was made with.
pub uninterp spec fn subtitle_capacity(rx: Receiver<SubtitleFrame>) -> Option<usize>;

/// The capacity the stop channel was made with, as `Sender::capacity`
/// reports it.
pub uninterp spec fn stop_capacity(tx: Sender<()>) -> Option<usize>;

/// The capacity the end-of-stream channel was made with.
pub uninterp spec fn end_capacity(rx: Receiver<()>) -> Option<usize>;

/// The capacity the command channel was made with.
pub uninterp spec fn command_capacity(tx: Sender<MpvCommand>) -> Option<usize>;

/// The capacity the track-list channel was made with.
pub uninterp spec fn track_capacity(rx: Receiver<Vec<SubtitleTrackInfo>>) -> Option<usize>;

/// The two ends of every channel a pipeline can have.
struct Channels {
    video: (Sender<VideoFrame>, Receiver<VideoFrame>),
    audio: (Sender<AudioFrame>, Receiver<AudioFrame>),
    subtitle: (Sender<SubtitleFrame>, Receiver<SubtitleFrame>),
    stop: (Sender<()>, Receiver<()>),
    end: (Sender<()>, Receiver<()>),
    commands: (Sender<MpvCommand>, Receiver<MpvCommand>),
    track_info: (Sender<Vec<SubtitleTrackInfo>>, Receiver<Vec<SubtitleTrackInfo>>),
}

/// `crossbeam_channel::bounded` makes a channel that holds at most as many
/// messages as it is told and returns its two ends; `capacity` on either
/// end then reports that number. The capacities are kept small enough for
/// the slots to be allocated. Nothing else is claimed of the ends.
#[verifier::external_body]
fn open_channels(
    video: usize,
    audio: usize,
    subtitle: usize,
    stop: usize,
    end: usize,
    commands: usize,
    track_info: usize,
) -> (made: Channels)
    requires
        video <= 0xffff,
        audio <= 0xffff,
        subtitle <= 0xffff,
        stop <= 0xffff,
        end <= 0xffff,
        commands <= 0xffff,
        track_info <= 0xffff,
    ensures
        video_capacity(made.video.1) == Some(video),
        audio_capacity(made.audio.1) == Some(audio),
        subtitle_capacity(made.subtitle.1) == Some(subtitle),
        stop_capacity(made.stop.0) == Some(stop),
        end_capacity(made.end.1) == Some(end),
        command_capacity(made.commands.0) == Some(commands),
        track_capacity(made.track_info.1) == Some(track_info),
{
    Channels {
        video: crossbeam_channel::bounded(video),
        audio: crossbeam_channel::bounded(audio),
        subtitle: crossbeam_channel::bounded(subtitle),
        stop: crossbeam_channel::bounded(stop),
        end: crossbeam_channel::bounded(end),
        commands: crossbeam_channel::bounded(commands),
        track_info: crossbeam_channel::bounded(track_info),
    }
}

/// `Sender::clone` returns another sending end of the same channel.
/// Nothing is claimed of it.
pub assume_specification<T>[ <Sender<T> as Clone>::clone ](tx: &Sender<T>) -> Sender<T>;

/// `Receiver::clone` returns another receiving end of the same channel.
/// Nothing is claimed of it.
pub assume_specification<T>[ <Receiver<T> as Clone>::clone ](rx: &Receiver<T>) -> Receiver<T>;

/// What became of a message that was offered to a channel.
#[derive(Debug, Clone, Copy, PartialEq, Eq, Structural)]
pub enum Delivery {
    /// The channel took it.
    Sent,
    /// The channel was full; the message was dropped.
    Full,
    /// The other side is gone; the message was dropped.
    Disconnected,
}

/// What a poll of a channel found.
#[derive(Debug)]
pub enum Polled<T> {
    Message(T),
    Empty,
    Disconnected,
}

/// `Sender::try_send` offers a message without blocking. The outcome
/// depends on what the other threads have done, so nothing is claimed of
/// it.
#[verifier::external_body]
fn try_send<T>(tx: &Sender<T>, message: T) -> (delivery: Delivery) {
    match tx.try_send(message) {
        Ok(()) => Delivery::Sent,
        Err(crossbeam_channel::TrySendError::Full(_)) => Delivery::Full,
        Err(crossbeam_channel::TrySendError::Disconnected(_)) => Delivery::Disconnected,
    }
}

/// `Receiver::try_recv` takes a pending message without blocking. The
/// outcome depends on what the other threads have done, so nothing is
/// claimed of it.
#[verifier::external_body]
fn try_recv<T>(rx: &Receiver<T>) -> (polled: Polled<T>) {
    match rx.try_recv() {
        Ok(message) => Polled::Message(message),
        Err(crossbeam_channel::TryRecvError::Empty) => Polled::Empty,
        Err(crossbeam_channel::TryRecvError::Disconnected) => Polled::Disconnected,
    }
}

/// `Sender::send` waits until the channel has room for the message or has
/// lost its receivers, for as long as that takes. It returns with the
/// message in the channel or with the receivers gone, and never reports a
/// full channel.
#[verifier::external_body]
fn send<T>(tx: &Sender<T>, message: T) -> (delivery: Delivery)
    ensures
        delivery != Delivery::Full,
{
    match tx.send(message) {
        Ok(()) => Delivery::Sent,
        Err(crossbeam_channel::SendError(_)) => Delivery::Disconnected,
    }
}

/// `Arc::clone` returns another pointer to the same value.
#[verifier::external_body]
fn share<T>(value: &Arc<T>) -> (shared: Arc<T>)
    ensures
        shared == *value,
{
    Arc::clone(value)
}

/// The capacities of the channels of a pipeline. The command and
/// track-list channels exist on the engine pipeline only.
#[derive(Debug, Clone, Copy, PartialEq, Eq)]
pub struct ChannelPlan {
    pub video: usize,
    pub audio: usize,
    pub subtitle: usize,
    pub stop: usize,
    pub end: usize,
    pub commands: Option<usize>,
    pub track_info: Option<usize>,
}

/// The channels of a pipeline on `engine`. Every queue is bounded; the
/// stop and end-of-stream channels hold one signal each.
pub open spec fn plan_for(engine: PlaybackEngine) -> ChannelPlan {
    match engine {
        PlaybackEngine::FFmpeg => ChannelPlan {
            video: 32,
            audio: 64,
            subtitle: 32,
            stop: 1,
            end: 1,
            commands: None,
            track_info: None,
        },
        PlaybackEngine::MPV => ChannelPlan {
            video: 8,
            audio: 64,
            subtitle: 32,
            stop: 1,
            end: 1,
            commands: Some(16),
            track_info: Some(4),
        },
    }
}

/// Lays out the channels of a pipeline on `engine`.
pub fn channel_plan(engine: PlaybackEngine) -> (plan: ChannelPlan)
    ensures
        plan == plan_for(engine),
{
    match engine {
        PlaybackEngine::FFmpeg => ChannelPlan {
            video: 32,
            audio: 64,
            subtitle: 32,
            stop: 1,
            end: 1,
            commands: None,
            track_info: None,
        },
        PlaybackEngine::MPV => ChannelPlan {
            video: 8,
            audio: 64,
            subtitle: 32,
            stop: 1,
            end: 1,
            commands: Some(16),
            track_info: Some(4),
        },
    }
}

/// What the consumer of a pipeline holds.
#[derive(Debug, Clone)]
pub struct PlaybackHandles {
    pub video_rx: Receiver<VideoFrame>,
    pub audio_rx: Receiver<AudioFrame>,
    pub subtitle_rx: Receiver<SubtitleFrame>,
    pub stop_tx: Sender<()>,
    pub eos_rx: Receiver<()>,
    /// Commands to the engine pipeline; absent on the direct pipeline.
    pub cmd_tx: Option<Sender<MpvCommand>>,
    /// Subtitle tracks from the engine pipeline; absent on the direct
    /// pipeline.
    pub track_info_rx: Option<Receiver<Vec<SubtitleTrackInfo>>>,
    /// The width the consumer wants frames rendered at. The consumer
    /// writes it, the worker reads it.
    pub target_render_w: Arc<AtomicU32>,
    /// The height the consumer wants frames rendered at.
    pub target_render_h: Arc<AtomicU32>,
}

/// What the worker of a pipeline holds: the other end of every channel of
/// the consumer's bundle.
#[derive(Debug, Clone)]
pub struct WorkerEnds {
    pub video_tx: Sender<VideoFrame>,
    pub audio_tx: Sender<AudioFrame>,
    pub subtitle_tx: Sender<SubtitleFrame>,
    pub stop_rx: Receiver<()>,
    pub eos_tx: Sender<()>,
    pub cmd_rx: Option<Receiver<MpvCommand>>,
    pub track_info_tx: Option<Sender<Vec<SubtitleTrackInfo>>>,
    pub target_render_w: Arc<AtomicU32>,
    pub target_render_h: Arc<AtomicU32>,
}

/// The channels of a bundle have the capacities of `plan`, and the bundle
/// holds a command and a track-list channel exactly where the plan has
/// one.
pub open spec fn made_to_plan(handles: PlaybackHandles, plan: ChannelPlan) -> bool {
    &&& video_capacity(handles.video_rx) == Some(plan.video)
    &&& audio_capacity(handles.audio_rx) == Some(plan.audio)
    &&& subtitle_capacity(handles.subtitle_rx) == Some(plan.subtitle)
    &&& stop_capacity(handles.stop_tx) == Some(plan.stop)
    &&& end_capacity(handles.eos_rx) == Some(plan.end)
    &&& match handles.cmd_tx {
        Some(tx) => plan.commands.is_some() && command_capacity(tx) == plan.commands,
        None => plan.commands.is_none(),
    }
    &&& match handles.track_info_rx {
        Some(rx) => plan.track_info.is_some() && track_capacity(rx) == plan.track_info,
        None => plan.track_info.is_none(),
    }
}

/// Opens the channels of a pipeline on `engine` with the capacities that
/// `channel_plan` lays out and splits them between the consumer and the
/// worker. The two share the target render size, which starts at 640 by
/// 360. The command and track-list channels are kept on the engine
/// pipeline only.
pub fn open_handles(engine: PlaybackEngine) -> (ends: (PlaybackHandles, WorkerEnds))
    ensures
        made_to_plan(ends.0, plan_for(engine)),
        ends.0.cmd_tx.is_some() == (engine == PlaybackEngine::MPV),
        ends.0.track_info_rx.is_some() == (engine == PlaybackEngine::MPV),
        ends.1.cmd_rx.is_some() == (engine == PlaybackEngine::MPV),
        ends.1.track_info_tx.is_some() == (engine == PlaybackEngine::MPV),
        ends.1.target_render_w == ends.0.target_render_w,
        ends.1.target_render_h == ends.0.target_render_h,
{
    let plan = channel_plan(engine);
    let commands: usize = match plan.commands {
        Some(cap) => cap,
        None => 0,
    };
    let track_info: usize = match plan.track_info {
        Some(cap) => cap,
        None => 0,
    };
    let made = open_channels(
        plan.video,
        plan.audio,
        plan.subtitle,
        plan.stop,
        plan.end,
        commands,
        track_info,
    );
    let (video_tx, video_rx) = made.video;
    let (audio_tx, audio_rx) = made.audio;
    let (subtitle_tx, subtitle_rx) = made.subtitle;
    let (stop_tx, stop_rx) = made.stop;
    let (eos_tx, eos_rx) = made.end;
    let (cmd_tx, cmd_rx) = match plan.commands {
        Some(_) => (Some(made.commands.0), Some(made.commands.1)),
        None => (None, None),
    };
    let (track_info_tx, track_info_rx) = match plan.track_info {
        Some(_) => (Some(made.track_info.0), Some(made.track_info.1)),
        None => (None, None),
    };
    let target_render_w = Arc::new(AtomicU32::new(INITIAL_TARGET_WIDTH));
    let target_render_h = Arc::new(AtomicU32::new(INITIAL_TARGET_HEIGHT));
    let worker = WorkerEnds {
        video_tx,
        audio_tx,
        subtitle_tx,
        stop_rx,
        eos_tx,
        cmd_rx,
        track_info_tx,
        target_render_w: share(&target_render_w),
        target_render_h: share(&target_render_h),
    };
    let consumer = PlaybackHandles {
        video_rx,
        audio_rx,
        subtitle_rx,
        stop_tx,
        eos_rx,
        cmd_tx,
        track_info_rx,
        target_render_w,
        target_render_h,
    };
    (consumer, worker)
}

/// A pipeline that is ready to run: the backend chosen for it, the bundle
/// for the consumer and the ends for the worker that is yet to be started.
#[derive(Debug)]
pub struct Prepared {
    pub engine: PlaybackEngine,
    pub handles: PlaybackHandles,
    pub worker: WorkerEnds,
}

/// Why a start fails, if it does: the backend asked for cannot run, or
/// else the source could not be opened on it.
pub open spec fn start_failure(
    engine: Option<PlaybackEngine>,
    support: BackendSupport,
    opening: Result<(), StartError>,
) -> Option<StartError> {
    if !support.has(wanted_backend(engine, support)) {
        Some(StartError::MissingDependency(wanted_backend(engine, support)))
    } else {
        match opening {
            Ok(_) => None,
            Err(e) => Some(e),
        }
    }
}

/// Makes a pipeline ready to run, once the caller has tried to open the
/// source on the backend that `select_backend` chose and hands in what
/// came of it. The start fails when the backend asked for cannot run, and
/// when the source could not be opened, has no video to play or the engine
/// could not be brought up; the error says which, and no channel is opened
/// then. Otherwise the channels are opened as `open_handles` opens them.
/// Nothing blocks and no worker is started.
pub fn prepare_playback(
    cfg: &PlaybackConfig,
    support: BackendSupport,
    opening: Result<(), StartError>,
) -> (result: Result<Prepared, StartError>)
    ensures
        result.is_ok() == start_failure(cfg.engine, support, opening).is_none(),
        result matches Err(e) ==> start_failure(cfg.engine, support, opening) == Some(e),
        result matches Ok(p) ==> {
            &&& p.engine == wanted_backend(cfg.engine, support)
            &&& made_to_plan(p.handles, plan_for(p.engine))
            &&& p.handles.cmd_tx.is_some() == (p.engine == PlaybackEngine::MPV)
            &&& p.handles.track_info_rx.is_some() == (p.engine == PlaybackEngine::MPV)
            &&& p.worker.cmd_rx.is_some() == (p.engine == PlaybackEngine::MPV)
            &&& p.worker.track_info_tx.is_some() == (p.engine == PlaybackEngine::MPV)
            &&& p.worker.target_render_w == p.handles.target_render_w
            &&& p.worker.target_render_h == p.handles.target_render_h
        },
{
    match select_backend(cfg, support) {
        Ok(engine) => match opening {
            Ok(_) => {
                let (handles, worker) = open_handles(engine);
                Ok(Prepared { engine, handles, worker })
            },
            Err(e) => Err(e),
        },
        Err(e) => Err(e),
    }
}

impl PlaybackHandles {
    /// Asks the worker to stop, without blocking. The stop channel holds
    /// one signal: asking again while one is pending changes nothing.
    /// Returns whether a signal now waits for the worker, which it does
    /// unless the worker is gone.
    pub fn request_stop(&self) -> (pending: bool) {
        let delivery = try_send(&self.stop_tx, ());
        stop_is_pending(delivery)
    }

    /// Sends a command to the engine pipeline, without blocking. Returns
    /// what became of it, or `None` on a pipeline that takes no commands.
    pub fn send_command(&self, cmd: MpvCommand) -> (delivery: Option<Delivery>)
        ensures
            delivery.is_some() == self.cmd_tx.is_some(),
    {
        match &self.cmd_tx {
            Some(tx) => Some(try_send(tx, cmd)),
            None => None,
        }
    }
}

impl WorkerEnds {
    /// Polls the stop channel, without blocking.
    pub fn poll_stop(&self) -> (poll: StopPoll) {
        let polled = try_recv(&self.stop_rx);
        stop_poll_of(polled)
    }

    /// Begins a unit of work: polls the stop channel, notes the poll and
    /// tells whether to go on with the work. Whatever the poll finds, the
    /// worker works only while it is running, and a worker that was told to
    /// stop, or whose consumer is gone, leaves the running phase for good.
    pub fn begin_unit(&self, life: &mut Lifecycle) -> (work: bool)
        ensures
            work == (final(life).phase == Phase::Running),
            work ==> old(life).phase == Phase::Running,
            final(life).phase == old(life).phase || (final(life).phase == Phase::Draining && old(
                life,
            ).phase != Phase::Stopped),
    {
        let poll = self.poll_stop();
        let step = life.advance(WorkerEvent::Polled(poll));
        step.work
    }

    /// Takes the next pending command, if there is one. A worker that is
    /// not running takes none, and on a pipeline without a command channel
    /// there never is one.
    pub fn next_command(&self, life: &Lifecycle) -> (cmd: Option<MpvCommand>)
        ensures
            cmd.is_some() ==> life.phase == Phase::Running && self.cmd_rx.is_some(),
    {
        if !life.may_publish() {
            return None;
        }
        match &self.cmd_rx {
            Some(rx) => {
                let polled = try_recv(rx);
                pending_command(polled)
            },
            None => None,
        }
    }

    /// Publishes a picture of the direct pipeline. A full queue makes the
    /// worker wait: no picture is dropped for want of room. A worker that
    /// is not running publishes nothing: the picture is dropped and `None`
    /// is returned.
    pub fn publish_video(&self, life: &Lifecycle, frame: VideoFrame) -> (delivery: Option<
        Delivery,
    >)
        ensures
            delivery.is_some() == (life.phase == Phase::Running),
            delivery != Some(Delivery::Full),
    {
        if life.may_publish() {
            Some(send(&self.video_tx, frame))
        } else {
            None
        }
    }

    /// Publishes a block of audio of the direct pipeline, waiting for room
    /// in a full queue. A worker that is not running publishes nothing.
    pub fn publish_audio(&self, life: &Lifecycle, frame: AudioFrame) -> (delivery: Option<
        Delivery,
    >)
        ensures
            delivery.is_some() == (life.phase == Phase::Running),
            delivery != Some(Delivery::Full),
    {
        if life.may_publish() {
            Some(send(&self.audio_tx, frame))
        } else {
            None
        }
    }

    /// Publishes a subtitle of the direct pipeline, waiting for room in a
    /// full queue. A worker that is not running publishes nothing.
    pub fn publish_subtitle(&self, life: &Lifecycle, frame: SubtitleFrame) -> (delivery: Option<
        Delivery,
    >)
        ensures
            delivery.is_some() == (life.phase == Phase::Running),
            delivery != Some(Delivery::Full),
    {
        if life.may_publish() {
            Some(send(&self.subtitle_tx, frame))
        } else {
            None
        }
    }

    /// Publishes a frame of the engine pipeline, without blocking: a frame
    /// that finds the queue full is dropped, so that the consumer sees the
    /// newest state. A worker that is not running publishes nothing: the
    /// frame is dropped and `None` is returned.
    pub fn publish_latest(&self, life: &Lifecycle, frame: VideoFrame) -> (delivery: Option<
        Delivery,
    >)
        ensures
            delivery.is_some() == (life.phase == Phase::Running),
    {
        if life.may_publish() {
            Some(try_send(&self.video_tx, frame))
        } else {
            None
        }
    }

    /// Publishes the list of subtitle tracks, without blocking. Returns
    /// `None`, and publishes nothing, on a pipeline without a track-list
    /// channel and from a worker that is not running.
    pub fn publish_tracks(&self, life: &Lifecycle, tracks: Vec<SubtitleTrackInfo>) -> (delivery:
        Option<Delivery>)
        ensures
            delivery.is_some() == (self.track_info_tx.is_some() && life.phase == Phase::Running),
    {
        if !life.may_publish() {
            return None;
        }
        match &self.track_info_tx {
            Some(tx) => Some(try_send(tx, tracks)),
            None => None,
        }
    }

    /// Notes that the worker exits and signals the end of the stream if
    /// that has not been done before. Returns what became of the signal, or
    /// `None` where none was due.
    pub fn signal_end(&self, life: &mut Lifecycle) -> (delivery: Option<Delivery>)
        ensures
            delivery.is_some() == (old(life).phase != Phase::Stopped),
            final(life).phase == Phase::Stopped,
    {
        let step = life.advance(WorkerEvent::Exiting);
        if step.signal_end {
            Some(try_send(&self.eos_tx, ()))
        } else {
            None
        }
    }
}

/// What a poll of the stop channel means to the worker: a message is a
/// stop signal, whatever it holds; an empty channel and a channel without
/// a consumer are told apart.
pub fn stop_poll_of(polled: Polled<()>) -> (poll: StopPoll)
    ensures
        poll == match polled {
            Polled::Message(_) => StopPoll::Signal,
            Polled::Empty => StopPoll::Empty,
            Polled::Disconnected => StopPoll::Disconnected,
        },
{
    match polled {
        Polled::Message(_) => StopPoll::Signal,
        Polled::Empty => StopPoll::Empty,
        Polled::Disconnected => StopPoll::Disconnected,
    }
}

/// The command a poll of the command channel found: the message, where
/// there was one. An empty channel and a channel without a consumer both
/// give none.
pub fn pending_command(polled: Polled<MpvCommand>) -> (cmd: Option<MpvCommand>)
    ensures
        cmd == match polled {
            Polled::Message(c) => Some(c),
            Polled::Empty => None,
            Polled::Disconnected => None,
        },
{
    match polled {
        Polled::Message(c) => Some(c),
        Polled::Empty => None,
        Polled::Disconnected => None,
    }
}

/// Whether a stop signal waits for the worker after the consumer offered
/// one and got `delivery`: it does when the offer was taken, and when the
/// channel was full, for then an earlier signal is still pending. That is
/// why asking twice does no harm. It does not when the worker is gone.
pub fn stop_is_pending(delivery: Delivery) -> (pending: bool)
    ensures
        pending == (delivery != Delivery::Disconnected),
{
    match delivery {
        Delivery::Sent => true,
        Delivery::Full => true,
        Delivery::Disconnected => false,
    }
}

} // verus!
