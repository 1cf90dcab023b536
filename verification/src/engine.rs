//! The render loop of the engine pipeline, one decision at a time.
//!
//! The worker owns an engine and a software render context. In every
//! iteration it polls the stop channel, applies the pending commands, looks
//! for the end of the stream, learns the native size, adapts the render
//! size, lists the subtitle tracks and renders a frame. It performs the
//! engine calls itself and asks the functions here which step comes next
//! and what each result means.

use vstd::prelude::*;
use crate::commands::MpvCommand;
use crate::lifecycle::{Lifecycle, Phase};
use crate::model::{PlaybackEngine, VideoFrame};
use crate::render_size::{fit_render_size, fitted, NativeSize, RenderSize};
use crate::selector::StartError;
use crate::tracks::SubtitleTrackInfo;

verus! {

/// A flag property as read from the engine: the status of the read and the
/// value it left.
#[derive(Debug, Clone, Copy, PartialEq, Eq, Structural)]
pub struct FlagRead {
    pub status: i32,
    pub value: i32,
}

impl FlagRead {
    /// The flag is set when the read succeeded and left a value other than
    /// zero.
    pub open spec fn spec_is_set(&self) -> bool {
        self.status >= 0 && self.value != 0
    }

    /// Tells whether the flag is set.
    #[verifier::when_used_as_spec(spec_is_set)]
    pub fn is_set(&self) -> (b: bool)
        ensures
            b == self.spec_is_set(),
    {
        self.status >= 0 && self.value != 0
    }
}

/// An integer property as read from the engine.
#[derive(Debug, Clone, Copy, PartialEq, Eq, Structural)]
pub struct IntRead {
    pub status: i32,
    pub value: i64,
}

/// Playback has reached the end of the stream when the engine is idle and
/// not paused: a paused engine that looks idle has not finished.
pub open spec fn ended(pause: FlagRead, idle: FlagRead) -> bool {
    !pause.is_set() && idle.is_set()
}

/// Tells from the pause and idle flags whether the stream has ended.
pub fn playback_ended(pause: FlagRead, idle: FlagRead) -> (end: bool)
    ensures
        end == ended(pause, idle),
{
    !pause.is_set() && idle.is_set()
}

/// A render status that is worth a log line: a failure other than the
/// engine's "not ready yet".
pub fn render_error_reportable(status: i32) -> (report: bool)
    ensures
        report == (status < 0 && status != -6),
{
    status < 0 && status != -6
}

/// An option set on the engine before it is initialized.
#[derive(Debug, Clone, PartialEq, Eq)]
pub struct EngineOption {
    pub name: String,
    pub value: String,
}

/// Options as pairs of texts.
pub open spec fn option_texts(options: Seq<EngineOption>) -> Seq<(Seq<char>, Seq<char>)> {
    options.map_values(|o: EngineOption| (o.name@, o.value@))
}

/// The options of an engine that renders into memory: no window of its
/// own, hardware decoding as asked for, open after the last frame, paused
/// until the source is loaded, subtitles drawn into the picture.
pub open spec fn startup_options(hwaccel: bool) -> Seq<(Seq<char>, Seq<char>)> {
    seq![
        ("vo"@, "libmpv"@),
        ("ao"@, "coreaudio"@),
        ("hwdec"@, if hwaccel {
            "auto"@
        } else {
            "no"@
        }),
        ("force-window"@, "no"@),
        ("keep-open"@, "yes"@),
        ("pause"@, "yes"@),
        ("sub-visibility"@, "yes"@),
    ]
}

fn engine_option(name: &str, value: &str) -> (o: EngineOption)
    ensures
        o.name@ == name@,
        o.value@ == value@,
{
    EngineOption { name: String::from_str(name), value: String::from_str(value) }
}

/// Lists the options to set on the engine, in the order to set them.
pub fn engine_options(hwaccel: bool) -> (options: Vec<EngineOption>)
    ensures
        option_texts(options@) == startup_options(hwaccel),
{
    let mut options: Vec<EngineOption> = Vec::new();
    options.push(engine_option("vo", "libmpv"));
    options.push(engine_option("ao", "coreaudio"));
    if hwaccel {
        options.push(engine_option("hwdec", "auto"));
    } else {
        options.push(engine_option("hwdec", "no"));
    }
    options.push(engine_option("force-window", "no"));
    options.push(engine_option("keep-open", "yes"));
    options.push(engine_option("pause", "yes"));
    options.push(engine_option("sub-visibility", "yes"));
    assert(option_texts(options@) =~= startup_options(hwaccel));
    options
}

/// The steps that bring the engine up before the worker starts, in their
/// order.
#[derive(Debug, Clone, Copy, PartialEq, Eq, Structural)]
pub enum StartupStep {
    CreateEngine,
    SetOptions,
    Initialize,
    CreateRenderContext,
    RegisterUpdateCallback,
    LoadSource,
}

/// The steps that take the engine down, in their order: what was set up
/// last is released first, and the end of the stream is signaled after
/// everything is released.
#[derive(Debug, Clone, Copy, PartialEq, Eq, Structural)]
pub enum TeardownStep {
    StopEngine,
    FreeRenderContext,
    DestroyEngine,
    SignalEnd,
}

/// What follows a startup step.
#[derive(Debug, Clone, Copy, PartialEq, Eq, Structural)]
pub enum StartupVerdict {
    /// The step succeeded, or its failure does not matter.
    Proceed,
    /// Startup is given up; there is nothing to release.
    Abort,
    /// Startup is given up; what was set up so far is released, the engine
    /// last.
    AbortAndDestroy,
}

/// How startup goes on after `step` returned `status`, where a negative
/// status is a failure. Without an engine there is nothing to go on with.
/// An engine that cannot be initialized or rendered from, or that cannot
/// load the source, is destroyed: no worker is started for it. A failure
/// to set an option or to register the callback does not matter.
pub open spec fn startup_verdict(step: StartupStep, status: i32) -> StartupVerdict {
    if status >= 0 {
        StartupVerdict::Proceed
    } else {
        match step {
            StartupStep::CreateEngine => StartupVerdict::Abort,
            StartupStep::Initialize => StartupVerdict::AbortAndDestroy,
            StartupStep::CreateRenderContext => StartupVerdict::AbortAndDestroy,
            StartupStep::LoadSource => StartupVerdict::AbortAndDestroy,
            StartupStep::SetOptions => StartupVerdict::Proceed,
            StartupStep::RegisterUpdateCallback => StartupVerdict::Proceed,
        }
    }
}

/// The start error behind a startup step that returned `status`: none
/// where startup proceeds; a source that cannot be loaded is unreadable;
/// any other failure is the engine's.
pub open spec fn startup_failure(step: StartupStep, status: i32) -> Option<StartError> {
    if startup_verdict(step, status) == StartupVerdict::Proceed {
        None
    } else if step == StartupStep::LoadSource {
        Some(StartError::SourceUnreadable)
    } else {
        Some(StartError::EngineFailed(PlaybackEngine::MPV))
    }
}

/// Judges the outcome of a startup step.
pub fn judge_startup(step: StartupStep, status: i32) -> (verdict: StartupVerdict)
    ensures
        verdict == startup_verdict(step, status),
{
    if status >= 0 {
        return StartupVerdict::Proceed;
    }
    match step {
        StartupStep::CreateEngine => StartupVerdict::Abort,
        StartupStep::Initialize => StartupVerdict::AbortAndDestroy,
        StartupStep::CreateRenderContext => StartupVerdict::AbortAndDestroy,
        StartupStep::LoadSource => StartupVerdict::AbortAndDestroy,
        StartupStep::SetOptions => StartupVerdict::Proceed,
        StartupStep::RegisterUpdateCallback => StartupVerdict::Proceed,
    }
}

/// Names the start error behind the outcome of a startup step, if the
/// outcome ends the start.
pub fn startup_error(step: StartupStep, status: i32) -> (error: Option<StartError>)
    ensures
        error == startup_failure(step, status),
        error.is_some() == (startup_verdict(step, status) != StartupVerdict::Proceed),
{
    match judge_startup(step, status) {
        StartupVerdict::Proceed => None,
        _ => match step {
            StartupStep::LoadSource => Some(StartError::SourceUnreadable),
            _ => Some(StartError::EngineFailed(PlaybackEngine::MPV)),
        },
    }
}

/// Lists the startup steps in their order.
pub fn startup_plan() -> (steps: Vec<StartupStep>)
    ensures
        steps@ == seq![
            StartupStep::CreateEngine,
            StartupStep::SetOptions,
            StartupStep::Initialize,
            StartupStep::CreateRenderContext,
            StartupStep::RegisterUpdateCallback,
            StartupStep::LoadSource,
        ],
{
    let mut steps: Vec<StartupStep> = Vec::new();
    steps.push(StartupStep::CreateEngine);
    steps.push(StartupStep::SetOptions);
    steps.push(StartupStep::Initialize);
    steps.push(StartupStep::CreateRenderContext);
    steps.push(StartupStep::RegisterUpdateCallback);
    steps.push(StartupStep::LoadSource);
    assert(steps@ =~= seq![
        StartupStep::CreateEngine,
        StartupStep::SetOptions,
        StartupStep::Initialize,
        StartupStep::CreateRenderContext,
        StartupStep::RegisterUpdateCallback,
        StartupStep::LoadSource,
    ]);
    steps
}

/// Lists the teardown steps in their order.
pub fn teardown_plan() -> (steps: Vec<TeardownStep>)
    ensures
        steps@ == seq![
            TeardownStep::StopEngine,
            TeardownStep::FreeRenderContext,
            TeardownStep::DestroyEngine,
            TeardownStep::SignalEnd,
        ],
{
    let mut steps: Vec<TeardownStep> = Vec::new();
    steps.push(TeardownStep::StopEngine);
    steps.push(TeardownStep::FreeRenderContext);
    steps.push(TeardownStep::DestroyEngine);
    steps.push(TeardownStep::SignalEnd);
    assert(steps@ =~= seq![
        TeardownStep::StopEngine,
        TeardownStep::FreeRenderContext,
        TeardownStep::DestroyEngine,
        TeardownStep::SignalEnd,
    ]);
    steps
}

/// The steps of the render loop.
#[derive(Debug, Clone, Copy, PartialEq, Eq, Structural)]
pub enum LoopStep {
    /// Wait a moment for the engine to open the source.
    Settle,
    /// Let playback begin.
    Unpause,
    /// Poll the stop channel.
    Poll,
    /// Take the pending commands and hand them to the engine.
    Commands,
    /// Ask the engine whether playback has reached the end.
    EndCheck,
    /// Ask the engine for the native size of the source.
    NativeSize,
    /// Adapt the render size to the target the consumer wrote.
    Resize,
    /// List the subtitle tracks and publish them.
    Tracks,
    /// Take the engine's word on whether a new frame is ready.
    FrameFlag,
    /// Render a frame and publish it.
    Render,
    /// Sleep for a moment.
    Idle,
    /// Leave the loop and take the engine down.
    Leave,
}

/// The state the render loop keeps between iterations.
#[derive(Debug, Clone, Copy, PartialEq, Eq)]
pub struct RenderLoop {
    /// The size frames are currently rendered at.
    pub render: RenderSize,
    /// The native size of the source, once the engine has reported it.
    pub native: Option<NativeSize>,
    /// The total duration, once the engine has reported a positive one.
    pub cached_duration_ms: Option<i64>,
    /// Whether the subtitle tracks were listed since they last changed.
    pub tracks_queried: bool,
    /// Frames published so far.
    pub frame_count: u64,
}

impl RenderLoop {
    /// The state at the start of the loop: frames are rendered at the
    /// target size read at that moment, and nothing is known of the source.
    pub fn new(target_w: u32, target_h: u32) -> (state: RenderLoop)
        ensures
            state.render == (RenderSize { width: target_w, height: target_h }),
            state.native.is_none(),
            state.cached_duration_ms.is_none(),
            !state.tracks_queried,
            state.frame_count == 0,
    {
        RenderLoop {
            render: RenderSize { width: target_w, height: target_h },
            native: None,
            cached_duration_ms: None,
            tracks_queried: false,
            frame_count: 0,
        }
    }

    /// Notes that `cmd` was handed to the engine, which answered `status`.
    /// A subtitle file that was loaded may have added tracks, so they are
    /// listed again; nothing else changes.
    pub fn command_applied(&mut self, cmd: &MpvCommand, status: i32)
        ensures
            final(self).tracks_queried == (old(self).tracks_queried && !((cmd is LoadExternalSub)
                && status >= 0)),
            final(self).render == old(self).render,
            final(self).native == old(self).native,
            final(self).cached_duration_ms == old(self).cached_duration_ms,
            final(self).frame_count == old(self).frame_count,
    {
        match cmd {
            MpvCommand::LoadExternalSub(_) => {
                if status >= 0 {
                    self.tracks_queried = false;
                }
            },
            _ => {},
        }
    }

    /// Whether the native size is still to be asked for.
    pub fn wants_native_size(&self) -> (ask: bool)
        ensures
            ask == self.native.is_none(),
    {
        self.native.is_none()
    }

    /// Records the native size from the reads of the width and the height.
    /// It is recorded once, by the first pair of reads that both succeeded
    /// with positive values.
    pub fn observe_native_size(&mut self, width: IntRead, height: IntRead)
        ensures
            final(self).native == if old(self).native.is_none() && width.status >= 0
                && height.status >= 0 && width.value > 0 && height.value > 0 {
                Some(NativeSize { width: width.value, height: height.value })
            } else {
                old(self).native
            },
            final(self).render == old(self).render,
            final(self).cached_duration_ms == old(self).cached_duration_ms,
            final(self).tracks_queried == old(self).tracks_queried,
            final(self).frame_count == old(self).frame_count,
    {
        if self.native.is_none() && width.status >= 0 && height.status >= 0 {
            self.native = NativeSize::new(width.value, height.value);
        }
    }

    /// Adapts the render size to the target the consumer last wrote. Before
    /// a native size with positive sides is known the render size stays as
    /// it is; after that it is the native size fitted to the target.
    /// Returns whether the render size changed.
    pub fn negotiate_size(&mut self, target_w: u32, target_h: u32) -> (changed: bool)
        ensures
            match old(self).native {
                Some(n) => if n.wf() {
                    (final(self).render.width as int, final(self).render.height as int) == fitted(
                        n,
                        target_w,
                        target_h,
                    )
                } else {
                    final(self).render == old(self).render
                },
                None => final(self).render == old(self).render,
            },
            changed == (final(self).render != old(self).render),
            final(self).native == old(self).native,
            final(self).cached_duration_ms == old(self).cached_duration_ms,
            final(self).tracks_queried == old(self).tracks_queried,
            final(self).frame_count == old(self).frame_count,
    {
        match self.native {
            Some(native) => {
                if native.width > 0 && native.height > 0 {
                    let size = fit_render_size(&native, target_w, target_h);
                    let changed = size.width != self.render.width || size.height
                        != self.render.height;
                    self.render = size;
                    changed
                } else {
                    false
                }
            },
            None => false,
        }
    }

    /// Whether the subtitle tracks are to be listed now: once the native
    /// size is known, and again after a subtitle file was loaded.
    pub fn wants_tracks(&self) -> (ask: bool)
        ensures
            ask == (self.native.is_some() && !self.tracks_queried),
    {
        self.native.is_some() && !self.tracks_queried
    }

    /// Takes the tracks that were listed and returns what to publish: the
    /// list itself, unless it is empty.
    pub fn tracks_listed(&mut self, tracks: Vec<SubtitleTrackInfo>) -> (publish: Option<
        Vec<SubtitleTrackInfo>,
    >)
        ensures
            final(self).tracks_queried,
            publish == if tracks@.len() > 0 {
                Some(tracks)
            } else {
                None
            },
            final(self).render == old(self).render,
            final(self).native == old(self).native,
            final(self).cached_duration_ms == old(self).cached_duration_ms,
            final(self).frame_count == old(self).frame_count,
    {
        self.tracks_queried = true;
        if tracks.len() > 0 {
            Some(tracks)
        } else {
            None
        }
    }

    /// Whether to render in this iteration: when the engine announced a new
    /// frame, and in any case until the first frame is out. Otherwise the
    /// worker sleeps for a moment.
    pub fn should_render(&self, frame_ready: bool) -> (render: bool)
        ensures
            render == (frame_ready || self.frame_count == 0),
    {
        frame_ready || self.frame_count == 0
    }

    /// The step that follows `last`. A worker that is not running leaves
    /// the loop, whatever it did last; that is how a stop and the end of
    /// the stream end the loop. Otherwise the worker settles and unpauses
    /// once, and then goes round: it polls the stop channel, applies the
    /// commands, looks for the end, asks for the native size while that is
    /// unknown, adapts the render size, lists the tracks where they are
    /// due, and renders if `frame_ready` says so or no frame is out yet,
    /// else sleeps. `frame_ready` is what the step `FrameFlag` found.
    pub open spec fn step_after(
        &self,
        phase: Phase,
        last: LoopStep,
        frame_ready: bool,
    ) -> LoopStep {
        if phase != Phase::Running {
            LoopStep::Leave
        } else {
            match last {
                LoopStep::Settle => LoopStep::Unpause,
                LoopStep::Unpause => LoopStep::Poll,
                LoopStep::Poll => LoopStep::Commands,
                LoopStep::Commands => LoopStep::EndCheck,
                LoopStep::EndCheck => if self.native.is_none() {
                    LoopStep::NativeSize
                } else {
                    LoopStep::Resize
                },
                LoopStep::NativeSize => LoopStep::Resize,
                LoopStep::Resize => if self.native.is_some() && !self.tracks_queried {
                    LoopStep::Tracks
                } else {
                    LoopStep::FrameFlag
                },
                LoopStep::Tracks => LoopStep::FrameFlag,
                LoopStep::FrameFlag => if frame_ready || self.frame_count == 0 {
                    LoopStep::Render
                } else {
                    LoopStep::Idle
                },
                LoopStep::Render => LoopStep::Poll,
                LoopStep::Idle => LoopStep::Poll,
                LoopStep::Leave => LoopStep::Leave,
            }
        }
    }

    /// Names the step that follows `last`, from the state of the loop, the
    /// phase of the worker and, after `FrameFlag`, what that step found.
    pub fn next_step(&self, life: &Lifecycle, last: LoopStep, frame_ready: bool) -> (next:
        LoopStep)
        ensures
            next == self.step_after(life.phase, last, frame_ready),
    {
        if !life.may_publish() {
            return LoopStep::Leave;
        }
        match last {
            LoopStep::Settle => LoopStep::Unpause,
            LoopStep::Unpause => LoopStep::Poll,
            LoopStep::Poll => LoopStep::Commands,
            LoopStep::Commands => LoopStep::EndCheck,
            LoopStep::EndCheck => if self.wants_native_size() {
                LoopStep::NativeSize
            } else {
                LoopStep::Resize
            },
            LoopStep::NativeSize => LoopStep::Resize,
            LoopStep::Resize => if self.wants_tracks() {
                LoopStep::Tracks
            } else {
                LoopStep::FrameFlag
            },
            LoopStep::Tracks => LoopStep::FrameFlag,
            LoopStep::FrameFlag => if self.should_render(frame_ready) {
                LoopStep::Render
            } else {
                LoopStep::Idle
            },
            LoopStep::Render => LoopStep::Poll,
            LoopStep::Idle => LoopStep::Poll,
            LoopStep::Leave => LoopStep::Leave,
        }
    }

    /// The number of bytes a frame of the current render size takes, where
    /// that number fits the address space.
    pub fn buffer_len(&self) -> (len: Option<usize>)
        ensures
            len.is_some() == (self.render.width * self.render.height * 4 <= usize::MAX),
            len matches Some(n) ==> n == self.render.width * self.render.height * 4,
    {
        assert(0 <= self.render.width * self.render.height <= 0xffff_ffff * 0xffff_ffff)
            by (nonlinear_arith)
            requires
                0 <= self.render.width <= 0xffff_ffff,
                0 <= self.render.height <= 0xffff_ffff,
        ;
        let total: u128 = (self.render.width as u128) * (self.render.height as u128) * 4;
        if total <= usize::MAX as u128 {
            Some(total as usize)
        } else {
            None
        }
    }

    /// Whether the total duration is still to be asked for.
    pub fn wants_duration(&self) -> (ask: bool)
        ensures
            ask == self.cached_duration_ms.is_none(),
    {
        self.cached_duration_ms.is_none()
    }

    /// The duration known after a read that gave `duration_ms`: the first
    /// positive one that was read is kept.
    pub open spec fn duration_after(&self, duration_ms: Option<i64>) -> Option<i64> {
        if self.cached_duration_ms.is_none() && (duration_ms matches Some(d) && d > 0) {
            duration_ms
        } else {
            self.cached_duration_ms
        }
    }

    /// A render gives a frame when it succeeded into a buffer that holds
    /// exactly one picture of the render size, which is not empty.
    pub open spec fn gives_frame(&self, status: i32, len: nat) -> bool {
        &&& status >= 0
        &&& self.render.width > 0
        &&& self.render.height > 0
        &&& len == self.render.width * self.render.height * 4
    }

    /// Takes the outcome of a render: its status, the buffer rendered into,
    /// the playback position and the total duration as far as the engine
    /// gave them. A render that gives a frame yields the frame to publish,
    /// with the position as its timestamp and the duration known by then,
    /// and counts it. Any other render yields nothing and changes nothing.
    pub fn frame_rendered(
        &mut self,
        status: i32,
        buf: Vec<u8>,
        position_ms: Option<i64>,
        duration_ms: Option<i64>,
    ) -> (frame: Option<VideoFrame>)
        ensures
            frame.is_some() == old(self).gives_frame(status, buf@.len()),
            frame matches Some(f) ==> {
                &&& f.wf()
                &&& f.width == old(self).render.width
                &&& f.height == old(self).render.height
                &&& f.rgba == buf
                &&& f.pts_ms == position_ms
                &&& f.duration_ms == old(self).duration_after(duration_ms)
                &&& final(self).cached_duration_ms == old(self).duration_after(duration_ms)
                &&& final(self).frame_count == if old(self).frame_count == u64::MAX {
                    u64::MAX
                } else {
                    (old(self).frame_count + 1) as u64
                }
            },
            frame.is_none() ==> *final(self) == *old(self),
            final(self).render == old(self).render,
            final(self).native == old(self).native,
            final(self).tracks_queried == old(self).tracks_queried,
    {
        if status < 0 || self.render.width == 0 || self.render.height == 0 {
            return None;
        }
        let have: usize = buf.len();
        match self.buffer_len() {
            Some(expected) => {
                if have != expected {
                    return None;
                }
            },
            None => {
                return None;
            },
        }
        if self.cached_duration_ms.is_none() {
            match duration_ms {
                Some(d) => {
                    if d > 0 {
                        self.cached_duration_ms = Some(d);
                    }
                },
                None => {},
            }
        }
        if self.frame_count < u64::MAX {
            self.frame_count = self.frame_count + 1;
        }
        Some(
            VideoFrame {
                width: self.render.width,
                height: self.render.height,
                rgba: buf,
                pts_ms: position_ms,
                duration_ms: self.cached_duration_ms,
            },
        )
    }
}

} // verus!
