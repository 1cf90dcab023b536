//! Decision logic of a dual-backend media playback pipeline.
//!
//! The crate holds the data exchanged between a playback worker and its
//! consumer, and every rule the two backends apply while they run: timestamp
//! scaling, stream and pixel-format selection, packing of converted planes,
//! output-size negotiation, the engine requests behind each command and the
//! per-iteration state of the render loop. Native demuxing, decoding and
//! rendering are performed by the caller, which hands the results to these
//! functions as plain values.

pub mod audio;
pub mod catalog;
pub mod commands;
pub mod consumer;
pub mod direct;
pub mod engine;
pub mod handles;
pub mod lifecycle;
pub mod model;
pub mod planes;
pub mod player;
pub mod playlist;
pub mod probe;
pub mod registry;
pub mod render_size;
pub mod selector;
pub mod subtitles;
pub mod text;
pub mod timebase;
pub mod tracks;

pub use crate::catalog::EmbyServer;
pub use crate::commands::{EngineRequest, MpvCommand};
pub use crate::handles::{
    open_handles, prepare_playback, ChannelPlan, Delivery, PlaybackHandles, Prepared, WorkerEnds,
};
pub use crate::model::{
    AudioFrame, PlaybackCommand, PlaybackConfig, PlaybackEngine, PlaybackEvent, PlaybackState,
    SubtitleFrame, SubtitlePosition, SubtitleStyle, VideoFrame,
};
pub use crate::player::{
    create_player, BovaPlayer, Event, EventKind, EventPayload, HwAccelPolicy, MediaHandle,
    MediaOptions, PlayerError, ScalerKind, ToneMapMode, TrackSelector,
};
pub use crate::probe::{probe, MediaInfo, StreamInfo};
pub use crate::selector::{select_backend, BackendSupport, MpvPlayer, StartError};
pub use crate::timebase::{ts_to_ms, TimeBase};
pub use crate::tracks::SubtitleTrackInfo;
