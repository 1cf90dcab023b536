//! Choice of the backend a pipeline runs on, and the errors that keep a
//! pipeline from starting.

use vstd::prelude::*;
use crate::model::{PlaybackConfig, PlaybackEngine};

verus! {

/// Marker of the engine pipeline.
#[derive(Debug, Clone, Copy, PartialEq, Eq, Structural)]
pub struct MpvPlayer;

/// Why a pipeline did not start. No worker runs after any of these.
#[derive(Debug, Clone, Copy, PartialEq, Eq, Structural)]
pub enum StartError {
    /// The native library of the chosen backend is not available.
    MissingDependency(PlaybackEngine),
    /// The engine of the chosen backend could not be brought up.
    EngineFailed(PlaybackEngine),
    /// The source cannot be opened or read.
    SourceUnreadable,
    /// The source has no video stream that can be played.
    NoVideoStream,
}

/// The backends that can run here.
#[derive(Debug, Clone, Copy, PartialEq, Eq, Structural)]
pub struct BackendSupport {
    pub ffmpeg: bool,
    pub mpv: bool,
}

impl BackendSupport {
    /// Whether `engine` can run.
    pub open spec fn has(&self, engine: PlaybackEngine) -> bool {
        match engine {
            PlaybackEngine::FFmpeg => self.ffmpeg,
            PlaybackEngine::MPV => self.mpv,
        }
    }

    /// Tells whether `engine` can run.
    pub fn supports(&self, engine: PlaybackEngine) -> (ok: bool)
        ensures
            ok == self.has(engine),
    {
        match engine {
            PlaybackEngine::FFmpeg => self.ffmpeg,
            PlaybackEngine::MPV => self.mpv,
        }
    }
}

/// The backend a configuration asks for: the one it names, else the
/// direct pipeline where that can run, else the engine pipeline where that
/// can run, else the direct pipeline.
pub open spec fn wanted_backend(
    engine: Option<PlaybackEngine>,
    support: BackendSupport,
) -> PlaybackEngine {
    match engine {
        Some(e) => e,
        None => if !support.ffmpeg && support.mpv {
            PlaybackEngine::MPV
        } else {
            PlaybackEngine::FFmpeg
        },
    }
}

/// Chooses the backend for a pipeline. The choice fails, with
/// `MissingDependency`, exactly when the backend asked for cannot run.
pub fn select_backend(cfg: &PlaybackConfig, support: BackendSupport) -> (choice: Result<
    PlaybackEngine,
    StartError,
>)
    ensures
        choice == if support.has(wanted_backend(cfg.engine, support)) {
            Ok::<PlaybackEngine, StartError>(wanted_backend(cfg.engine, support))
        } else {
            Err::<PlaybackEngine, StartError>(
                StartError::MissingDependency(wanted_backend(cfg.engine, support)),
            )
        },
{
    let wanted = match cfg.engine {
        Some(e) => e,
        None => if !support.ffmpeg && support.mpv {
            PlaybackEngine::MPV
        } else {
            PlaybackEngine::FFmpeg
        },
    };
    if support.supports(wanted) {
        Ok(wanted)
    } else {
        Err(StartError::MissingDependency(wanted))
    }
}

/// Judges an opened source: it can be played when it was opened and has a
/// video stream, whose index is returned.
pub fn check_source(opened: bool, video_stream: Option<usize>) -> (video: Result<usize, StartError>)
    ensures
        video == if !opened {
            Err::<usize, StartError>(StartError::SourceUnreadable)
        } else {
            match video_stream {
                Some(index) => Ok::<usize, StartError>(index),
                None => Err::<usize, StartError>(StartError::NoVideoStream),
            }
        },
{
    if !opened {
        return Err(StartError::SourceUnreadable);
    }
    match video_stream {
        Some(index) => Ok(index),
        None => Err(StartError::NoVideoStream),
    }
}

/// The text of a start error.
pub open spec fn start_error_text(error: StartError) -> Seq<char> {
    match error {
        StartError::MissingDependency(PlaybackEngine::FFmpeg) => "FFmpeg feature not enabled"@,
        StartError::MissingDependency(PlaybackEngine::MPV) => "MPV feature not enabled"@,
        StartError::EngineFailed(PlaybackEngine::FFmpeg) => "FFmpeg could not be initialized"@,
        StartError::EngineFailed(PlaybackEngine::MPV) => "MPV could not be initialized"@,
        StartError::SourceUnreadable => "open input failed"@,
        StartError::NoVideoStream => "no video stream"@,
    }
}

impl StartError {
    /// Writes the error as text.
    pub fn message(&self) -> (text: String)
        ensures
            text@ == start_error_text(*self),
    {
        match self {
            StartError::MissingDependency(PlaybackEngine::FFmpeg) => String::from_str(
                "FFmpeg feature not enabled",
            ),
            StartError::MissingDependency(PlaybackEngine::MPV) => String::from_str(
                "MPV feature not enabled",
            ),
            StartError::EngineFailed(PlaybackEngine::FFmpeg) => String::from_str(
                "FFmpeg could not be initialized",
            ),
            StartError::EngineFailed(PlaybackEngine::MPV) => String::from_str(
                "MPV could not be initialized",
            ),
            StartError::SourceUnreadable => String::from_str("open input failed"),
            StartError::NoVideoStream => String::from_str("no video stream"),
        }
    }
}

} // verus!
