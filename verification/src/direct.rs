//! The decisions of the direct decode pipeline.
//!
//! The worker demuxes the source packet by packet. It opens decoders,
//! converts pictures and resamples audio itself and asks the functions here
//! which stream a packet belongs to, which frame to convert, when to
//! rebuild the converter and what hardware failure means.

use vstd::prelude::*;
use crate::lifecycle::{next_phase, step_of, Lifecycle, StopPoll, WorkerEvent};

verus! {

/// What a stream of the source carries.
#[derive(Debug, Clone, Copy, PartialEq, Eq, Structural)]
pub enum StreamKind {
    Video,
    Audio,
    Subtitle,
    Other,
}

/// The subtitle stream to decode. With subtitles disabled there is none.
/// An explicit index is taken if it names a subtitle stream of the source
/// and is dropped otherwise; without one the demuxer's best subtitle
/// stream is taken.
pub open spec fn subtitle_choice(
    enabled: bool,
    requested: Option<u32>,
    kinds: Seq<StreamKind>,
    best: Option<usize>,
) -> Option<usize> {
    if !enabled {
        None
    } else {
        match requested {
            Some(index) => if index < kinds.len() && kinds[index as int] == StreamKind::Subtitle {
                Some(index as usize)
            } else {
                None
            },
            None => best,
        }
    }
}

/// Chooses the subtitle stream to decode from the caller's wish, the kinds
/// of the source's streams and the subtitle stream the demuxer rates best.
pub fn select_subtitle_stream(
    enabled: bool,
    requested: Option<u32>,
    kinds: &Vec<StreamKind>,
    best: Option<usize>,
) -> (chosen: Option<usize>)
    ensures
        chosen == subtitle_choice(enabled, requested, kinds@, best),
{
    if !enabled {
        return None;
    }
    match requested {
        Some(index) => {
            let at: usize = index as usize;
            if at < kinds.len() {
                match kinds[at] {
                    StreamKind::Subtitle => Some(at),
                    _ => None,
                }
            } else {
                None
            }
        },
        None => best,
    }
}

/// Why an explicit subtitle index was dropped.
#[derive(Debug, Clone, Copy, PartialEq, Eq, Structural)]
pub enum IndexProblem {
    /// The source has no stream of that index.
    OutOfRange,
    /// The stream of that index carries no subtitles.
    NotSubtitle,
}

/// What is wrong with an explicit subtitle index, if anything. The worker
/// goes on without subtitles and reports the problem.
pub fn subtitle_index_problem(requested: u32, kinds: &Vec<StreamKind>) -> (problem: Option<
    IndexProblem,
>)
    ensures
        problem == if requested >= kinds@.len() {
            Some(IndexProblem::OutOfRange)
        } else if kinds@[requested as int] != StreamKind::Subtitle {
            Some(IndexProblem::NotSubtitle)
        } else {
            None
        },
        problem.is_none() == subtitle_choice(true, Some(requested), kinds@, None).is_some(),
{
    let at: usize = requested as usize;
    if at >= kinds.len() {
        Some(IndexProblem::OutOfRange)
    } else {
        match kinds[at] {
            StreamKind::Subtitle => None,
            _ => Some(IndexProblem::NotSubtitle),
        }
    }
}

/// The streams a worker decodes.
#[derive(Debug, Clone, Copy, PartialEq, Eq)]
pub struct StreamPlan {
    pub video: usize,
    pub audio: Option<usize>,
    pub subtitle: Option<usize>,
}

/// The decoders a packet goes to.
#[derive(Debug, Clone, Copy, PartialEq, Eq, Structural)]
pub struct PacketRoute {
    pub video: bool,
    pub subtitle: bool,
    pub audio: bool,
}

/// A packet of the video stream goes to the video decoder; any other
/// packet of the subtitle stream goes to the subtitle decoder; a packet of
/// the audio stream goes to the audio decoder.
pub open spec fn route_of(plan: StreamPlan, stream: usize) -> PacketRoute {
    PacketRoute {
        video: stream == plan.video,
        subtitle: stream != plan.video && plan.subtitle == Some(stream),
        audio: plan.audio == Some(stream),
    }
}

/// Routes a packet by the index of its stream.
pub fn route_packet(plan: &StreamPlan, stream: usize) -> (route: PacketRoute)
    ensures
        route == route_of(*plan, stream),
{
    let video = stream == plan.video;
    let subtitle = !video && match plan.subtitle {
        Some(s) => s == stream,
        None => false,
    };
    let audio = match plan.audio {
        Some(a) => a == stream,
        None => false,
    };
    PacketRoute { video, subtitle, audio }
}

/// A packet that goes nowhere.
pub open spec fn no_route() -> PacketRoute {
    PacketRoute { video: false, subtitle: false, audio: false }
}

/// Begins the work on a packet. The stop channel was polled before, and
/// the poll is noted first: a packet read after a stop signal goes
/// nowhere, as does any packet once the worker has left its running
/// phase. Any other packet is routed by its stream.
pub fn packet_step(
    life: &mut Lifecycle,
    poll: StopPoll,
    plan: &StreamPlan,
    stream: usize,
) -> (route: PacketRoute)
    ensures
        final(life).phase == next_phase(old(life).phase, WorkerEvent::Polled(poll)),
        route == if step_of(old(life).phase, WorkerEvent::Polled(poll)).work {
            route_of(*plan, stream)
        } else {
            no_route()
        },
{
    let step = life.advance(WorkerEvent::Polled(poll));
    if step.work {
        route_packet(plan, stream)
    } else {
        PacketRoute { video: false, subtitle: false, audio: false }
    }
}

/// A pixel format a decoder offers, by its number and its name.
#[derive(Debug, Clone, PartialEq, Eq)]
pub struct OfferedFormat {
    pub id: i32,
    pub name: Option<String>,
}

/// The format is called `wanted`.
pub open spec fn is_named(format: OfferedFormat, wanted: Seq<char>) -> bool {
    format.name matches Some(n) && n@ == wanted
}

/// None of the first `upto` formats is called `wanted`.
pub open spec fn none_named(offered: Seq<OfferedFormat>, wanted: Seq<char>, upto: int) -> bool {
    forall|j: int| 0 <= j < upto && j < offered.len() ==> !is_named(#[trigger] offered[j], wanted)
}

/// Picks the pixel format to decode into: the first offered format called
/// `wanted`, else the first offered format. `None` when nothing is
/// offered.
pub fn preferred_format(offered: &Vec<OfferedFormat>, wanted: &str) -> (choice: Option<i32>)
    ensures
        choice.is_some() == (offered@.len() > 0),
        forall|i: int|
            0 <= i < offered@.len() && is_named(offered@[i], wanted@) && none_named(
                offered@,
                wanted@,
                i,
            ) ==> choice == Some(offered@[i].id),
        offered@.len() > 0 && none_named(offered@, wanted@, offered@.len() as int) ==> choice
            == Some(offered@[0].id),
{
    let wanted_name = String::from_str(wanted);
    let mut i: usize = 0;
    while i < offered.len()
        invariant
            i <= offered@.len(),
            wanted_name@ == wanted@,
            none_named(offered@, wanted@, i as int),
        decreases offered@.len() - i,
    {
        let hit = match &offered[i].name {
            Some(n) => *n == wanted_name,
            None => false,
        };
        if hit {
            assert forall|k: int|
                0 <= k < offered@.len() && is_named(offered@[k], wanted@) && none_named(
                    offered@,
                    wanted@,
                    k,
                ) implies Some(offered@[i as int].id) == Some(offered@[k].id) by {
                if k < i {
                    assert(!is_named(offered@[k], wanted@));
                } else if k > i {
                    assert(!is_named(offered@[i as int], wanted@));
                }
            }
            return Some(offered[i].id);
        }
        i = i + 1;
    }
    if offered.len() > 0 {
        assert forall|k: int|
            0 <= k < offered@.len() && is_named(offered@[k], wanted@) && none_named(
                offered@,
                wanted@,
                k,
            ) implies Some(offered@[0].id) == Some(offered@[k].id) by {
            assert(!is_named(offered@[k], wanted@));
        }
        Some(offered[0].id)
    } else {
        None
    }
}

/// The name of the hardware device type the worker asks for.
pub fn hardware_device_name() -> (name: &'static str)
    ensures
        name@ == "videotoolbox"@,
{
    "videotoolbox"
}

/// The name of the pixel format of frames that live on the hardware.
pub fn hardware_format_name() -> (name: &'static str)
    ensures
        name@ == "videotoolbox_vld"@,
{
    "videotoolbox_vld"
}

/// The name of the pixel format hardware frames are transferred into.
pub fn transfer_format_name() -> (name: &'static str)
    ensures
        name@ == "nv12"@,
{
    "nv12"
}

/// Picks the pixel format for a decoder on a bound hardware device: the
/// hardware format where it is offered, else the first offered format.
pub fn negotiate_format(offered: &Vec<OfferedFormat>) -> (choice: Option<i32>)
    ensures
        choice.is_some() == (offered@.len() > 0),
        forall|i: int|
            0 <= i < offered@.len() && is_named(offered@[i], "videotoolbox_vld"@) && none_named(
                offered@,
                "videotoolbox_vld"@,
                i,
            ) ==> choice == Some(offered@[i].id),
        offered@.len() > 0 && none_named(offered@, "videotoolbox_vld"@, offered@.len() as int)
            ==> choice == Some(offered@[0].id),
{
    preferred_format(offered, hardware_format_name())
}

/// What to do with a hardware resource after an attempt to set it up.
#[derive(Debug, Clone, Copy, PartialEq, Eq, Structural)]
pub enum HwVerdict {
    /// The resource is there: bind it to the decoder.
    Bind,
    /// The resource is there but cannot be used: release it and decode in
    /// software.
    Release,
    /// There is no resource: decode in software.
    Skip,
}

/// Judges the attempt to create a hardware device, which returned `code`.
/// The device is bound when it was created and the decoder has a context
/// to bind it to.
pub fn judge_device(code: i32, device_present: bool, context_present: bool) -> (verdict:
    HwVerdict)
    ensures
        verdict == if code >= 0 && device_present {
            if context_present {
                HwVerdict::Bind
            } else {
                HwVerdict::Release
            }
        } else {
            HwVerdict::Skip
        },
{
    if code >= 0 && device_present {
        if context_present {
            HwVerdict::Bind
        } else {
            HwVerdict::Release
        }
    } else {
        HwVerdict::Skip
    }
}

/// Judges the attempt to set up a pool of hardware frames on a bound
/// device: `allocated` says whether the pool exists, `init_code` what its
/// initialization returned.
pub fn judge_frame_pool(device_bound: bool, allocated: bool, init_code: i32) -> (verdict:
    HwVerdict)
    ensures
        verdict == if device_bound && allocated {
            if init_code >= 0 {
                HwVerdict::Bind
            } else {
                HwVerdict::Release
            }
        } else {
            HwVerdict::Skip
        },
{
    if device_bound && allocated {
        if init_code >= 0 {
            HwVerdict::Bind
        } else {
            HwVerdict::Release
        }
    } else {
        HwVerdict::Skip
    }
}

/// The frame that is converted and published.
#[derive(Debug, Clone, Copy, PartialEq, Eq, Structural)]
pub enum FrameSource {
    /// The frame as the decoder gave it.
    Decoded,
    /// The copy transferred from hardware into software memory.
    Transferred,
}

/// The frame to convert: the transferred copy when hardware decoding was
/// asked for and the transfer, which returned `code`, succeeded; the
/// decoded frame in every other case.
pub open spec fn frame_source(hwaccel: bool, code: i32) -> FrameSource {
    if hwaccel && code >= 0 {
        FrameSource::Transferred
    } else {
        FrameSource::Decoded
    }
}

/// A failed hardware transfer leaves the worker with the frame it would
/// convert had hardware decoding not been asked for, so failure of the
/// hardware changes no picture.
pub proof fn lemma_hardware_failure_keeps_frame(code: i32, other: i32)
    requires
        code < 0,
    ensures
        frame_source(true, code) == frame_source(false, other),
        frame_source(true, code) == FrameSource::Decoded,
{
}

/// `n` plus one, held at the largest value.
pub open spec fn bumped(n: u64) -> u64 {
    if n == u64::MAX {
        n
    } else {
        (n + 1) as u64
    }
}

/// How often the worker writes its transfer statistics, in frames.
pub const STATS_INTERVAL: u64 = 120;

/// What the worker remembers between packets.
#[derive(Debug, Clone, Copy, PartialEq, Eq)]
pub struct DecodeState {
    /// Whether hardware decoding was asked for.
    pub hwaccel: bool,
    /// The pixel format the converter was built for, if there is one.
    pub converter_input: Option<i32>,
    /// Transfers from hardware that succeeded.
    pub transfers_ok: u64,
    /// Transfers from hardware that failed.
    pub transfers_failed: u64,
    /// Video frames published.
    pub video_frames: u64,
}

impl DecodeState {
    /// The state before the first packet.
    pub fn new(hwaccel: bool) -> (state: DecodeState)
        ensures
            state == (DecodeState {
                hwaccel,
                converter_input: None,
                transfers_ok: 0,
                transfers_failed: 0,
                video_frames: 0,
            }),
    {
        DecodeState {
            hwaccel,
            converter_input: None,
            transfers_ok: 0,
            transfers_failed: 0,
            video_frames: 0,
        }
    }

    /// Whether a decoded frame is to be transferred from hardware.
    pub fn wants_transfer(&self) -> (ask: bool)
        ensures
            ask == self.hwaccel,
    {
        self.hwaccel
    }

    /// Takes the code a transfer returned, counts the outcome and says
    /// which frame to convert. Without hardware decoding nothing is counted.
    pub fn transfer_done(&mut self, code: i32) -> (source: FrameSource)
        ensures
            source == frame_source(old(self).hwaccel, code),
            final(self).transfers_ok == if old(self).hwaccel && code >= 0 {
                bumped(old(self).transfers_ok)
            } else {
                old(self).transfers_ok
            },
            final(self).transfers_failed == if old(self).hwaccel && code < 0 {
                bumped(old(self).transfers_failed)
            } else {
                old(self).transfers_failed
            },
            final(self).hwaccel == old(self).hwaccel,
            final(self).converter_input == old(self).converter_input,
            final(self).video_frames == old(self).video_frames,
    {
        if !self.hwaccel {
            return FrameSource::Decoded;
        }
        if code >= 0 {
            if self.transfers_ok < u64::MAX {
                self.transfers_ok = self.transfers_ok + 1;
            }
            FrameSource::Transferred
        } else {
            if self.transfers_failed < u64::MAX {
                self.transfers_failed = self.transfers_failed + 1;
            }
            FrameSource::Decoded
        }
    }

    /// Whether the converter must be built anew for a frame of pixel format
    /// `input`: when there is none yet, and when the format has changed.
    pub fn needs_converter(&self, input: i32) -> (build: bool)
        ensures
            build == (self.converter_input != Some(input)),
    {
        match self.converter_input {
            Some(current) => current != input,
            None => true,
        }
    }

    /// Notes that the converter was built for pixel format `input`.
    pub fn converter_built(&mut self, input: i32)
        ensures
            *final(self) == (DecodeState { converter_input: Some(input), ..*old(self) }),
    {
        self.converter_input = Some(input);
    }

    /// Counts a published video frame and says whether the transfer
    /// statistics are due: with hardware decoding, after every
    /// `STATS_INTERVAL` frames.
    pub fn frame_published(&mut self) -> (report: bool)
        ensures
            *final(self) == (DecodeState {
                video_frames: bumped(old(self).video_frames),
                ..*old(self)
            }),
            report == (old(self).hwaccel && bumped(old(self).video_frames) % STATS_INTERVAL == 0),
    {
        if self.video_frames < u64::MAX {
            self.video_frames = self.video_frames + 1;
        }
        self.hwaccel && self.video_frames % STATS_INTERVAL == 0
    }
}

} // verus!
