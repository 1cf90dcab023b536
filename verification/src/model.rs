//! The values a playback worker and its consumer exchange.

use vstd::prelude::*;

verus! {

/// The two decode backends a pipeline can run on.
#[derive(Debug, Clone, Copy, PartialEq, Eq, Structural)]
pub enum PlaybackEngine {
    /// Direct demux and decode on the worker thread.
    FFmpeg,
    /// Rendering through an embedded player engine.
    MPV,
}

/// Coarse state of a player as a front end shows it.
#[derive(Debug, Clone, Copy, PartialEq, Eq, Structural)]
pub enum PlaybackState {
    Stopped,
    Playing,
    Paused,
}

/// A command of the command-based control surface. Positions are counted
/// in milliseconds, the volume in percent.
#[derive(Debug, Clone, PartialEq, Eq)]
pub enum PlaybackCommand {
    LoadFile(String),
    Play,
    Pause,
    Stop,
    Seek(i64),
    SetVolume(u32),
}

/// An event of the command-based control surface. Positions are counted
/// in milliseconds.
#[derive(Debug, Clone, PartialEq, Eq)]
pub enum PlaybackEvent {
    FileLoaded,
    Started,
    Paused,
    Resumed,
    Stopped,
    Finished,
    PositionChanged(i64),
    Error(String),
}

/// The events a pipeline on `engine` announces on the command-based
/// control surface when it starts: the direct pipeline reports the file as
/// loaded and playback as started, the engine pipeline reports nothing.
pub fn startup_events(engine: PlaybackEngine) -> (events: Vec<PlaybackEvent>)
    ensures
        events@ == match engine {
            PlaybackEngine::FFmpeg => seq![PlaybackEvent::FileLoaded, PlaybackEvent::Started],
            PlaybackEngine::MPV => Seq::<PlaybackEvent>::empty(),
        },
{
    let mut events: Vec<PlaybackEvent> = Vec::new();
    match engine {
        PlaybackEngine::FFmpeg => {
            events.push(PlaybackEvent::FileLoaded);
            events.push(PlaybackEvent::Started);
            assert(events@ =~= seq![PlaybackEvent::FileLoaded, PlaybackEvent::Started]);
        },
        PlaybackEngine::MPV => {},
    }
    events
}

/// Output channel count of every audio frame.
pub const OUTPUT_CHANNELS: u16 = 2;

/// Output sample rate of every audio frame, in Hz.
pub const OUTPUT_SAMPLE_RATE: u32 = 48_000;

/// One decoded picture as tightly packed RGBA.
#[derive(Debug, Clone, PartialEq, Eq)]
pub struct VideoFrame {
    pub width: u32,
    pub height: u32,
    pub rgba: Vec<u8>,
    pub pts_ms: Option<i64>,
    pub duration_ms: Option<i64>,
}

impl VideoFrame {
    /// A frame is well formed when it has a positive size and exactly four
    /// bytes for each pixel.
    pub open spec fn wf(&self) -> bool {
        &&& self.width > 0
        &&& self.height > 0
        &&& self.rgba@.len() == self.width * self.height * 4
    }

    /// Tells whether the frame is well formed.
    pub fn is_well_formed(&self) -> (ok: bool)
        ensures
            ok == self.wf(),
    {
        if self.width == 0 || self.height == 0 {
            return false;
        }
        assert(self.width * self.height <= 0xffff_ffff * 0xffff_ffff) by (nonlinear_arith)
            requires
                0 <= self.width <= 0xffff_ffff,
                0 <= self.height <= 0xffff_ffff,
        ;
        let pixels: u64 = (self.width as u64) * (self.height as u64);
        let bytes: u128 = (pixels as u128) * 4;
        (self.rgba.len() as u128) == bytes
    }
}

/// A run of interleaved signed 16-bit samples.
#[derive(Debug, Clone, PartialEq, Eq)]
pub struct AudioFrame {
    pub channels: u16,
    pub sample_rate: u32,
    pub samples: Vec<i16>,
    pub pts_ms: Option<i64>,
}

impl AudioFrame {
    /// Every frame the pipeline produces is stereo at 48 kHz.
    pub open spec fn normalized(&self) -> bool {
        self.channels == OUTPUT_CHANNELS && self.sample_rate == OUTPUT_SAMPLE_RATE
    }
}

/// Vertical anchor of subtitle text.
#[derive(Debug, Clone, Copy, PartialEq, Eq, Structural)]
pub enum SubtitlePosition {
    Bottom,
    Top,
    Middle,
}

impl Default for SubtitlePosition {
    fn default() -> (p: Self)
        ensures
            p == SubtitlePosition::Bottom,
    {
        SubtitlePosition::Bottom
    }
}

/// How subtitle text is drawn. Colors are RGBA; the font size is in points.
#[derive(Debug, Clone, Copy, PartialEq, Eq)]
pub struct SubtitleStyle {
    pub font_size: u32,
    pub font_color: [u8; 4],
    pub background_color: [u8; 4],
    pub position: SubtitlePosition,
}

impl SubtitleStyle {
    /// White text on half-transparent black, anchored at the bottom.
    pub open spec fn is_standard(&self) -> bool {
        &&& self.font_size == 24
        &&& self.font_color@ == seq![255u8, 255u8, 255u8, 255u8]
        &&& self.background_color@ == seq![0u8, 0u8, 0u8, 128u8]
        &&& self.position == SubtitlePosition::Bottom
    }

    /// The style given to subtitles decoded from the source.
    pub fn standard() -> (s: Self)
        ensures
            s.is_standard(),
    {
        SubtitleStyle {
            font_size: 24,
            font_color: [255, 255, 255, 255],
            background_color: [0, 0, 0, 128],
            position: SubtitlePosition::Bottom,
        }
    }
}

impl Default for SubtitleStyle {
    fn default() -> (s: Self)
        ensures
            s.font_size == 0,
            s.font_color@ == seq![0u8, 0u8, 0u8, 0u8],
            s.background_color@ == seq![0u8, 0u8, 0u8, 0u8],
            s.position == SubtitlePosition::Bottom,
    {
        SubtitleStyle {
            font_size: 0,
            font_color: [0, 0, 0, 0],
            background_color: [0, 0, 0, 0],
            position: SubtitlePosition::Bottom,
        }
    }
}

/// Text shown from `start_ms` to `end_ms`, both included.
#[derive(Debug, Clone, PartialEq, Eq)]
pub struct SubtitleFrame {
    pub text: String,
    pub start_ms: i64,
    pub end_ms: i64,
    pub style: SubtitleStyle,
}

/// What a caller asks of a pipeline when it starts one.
#[derive(Debug, Clone, Copy, PartialEq, Eq)]
pub struct PlaybackConfig {
    pub hwaccel: bool,
    pub subtitle_enabled: bool,
    pub subtitle_index: Option<u32>,
    pub engine: Option<PlaybackEngine>,
}

impl Default for PlaybackConfig {
    fn default() -> (cfg: Self)
        ensures
            !cfg.hwaccel,
            !cfg.subtitle_enabled,
            cfg.subtitle_index.is_none(),
            cfg.engine.is_none(),
    {
        PlaybackConfig {
            hwaccel: false,
            subtitle_enabled: false,
            subtitle_index: None,
            engine: None,
        }
    }
}

} // verus!
