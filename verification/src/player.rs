//! A minimal synchronous player: what is open, where playback stands and
//! which events each control call announces.

use vstd::prelude::*;

verus! {

/// When to decode on hardware.
#[derive(Debug, Clone, Copy, PartialEq, Eq, Structural)]
pub enum HwAccelPolicy {
    Auto,
    Force,
    Disable,
}

/// How to map high dynamic range to the display.
#[derive(Debug, Clone, Copy, PartialEq, Eq, Structural)]
pub enum ToneMapMode {
    Off,
    Auto,
    Hable,
}

/// The filter used to scale pictures.
#[derive(Debug, Clone, Copy, PartialEq, Eq, Structural)]
pub enum ScalerKind {
    Bilinear,
    Lanczos,
}

/// Options for opening a source.
#[derive(Debug, Clone, PartialEq, Eq)]
pub struct MediaOptions {
    pub hwaccel: HwAccelPolicy,
    pub threads: u8,
    pub preferred_audio_langs: Vec<String>,
    pub preferred_sub_langs: Vec<String>,
    pub tone_map: ToneMapMode,
    pub scaler: ScalerKind,
    pub network_cache_ms: u32,
}

impl Default for MediaOptions {
    fn default() -> (opts: Self)
        ensures
            opts.hwaccel == HwAccelPolicy::Auto,
            opts.threads == 0,
            opts.preferred_audio_langs@.len() == 0,
            opts.preferred_sub_langs@.len() == 0,
            opts.tone_map == ToneMapMode::Auto,
            opts.scaler == ScalerKind::Lanczos,
            opts.network_cache_ms == 1000,
    {
        MediaOptions {
            hwaccel: HwAccelPolicy::Auto,
            threads: 0,
            preferred_audio_langs: Vec::new(),
            preferred_sub_langs: Vec::new(),
            tone_map: ToneMapMode::Auto,
            scaler: ScalerKind::Lanczos,
            network_cache_ms: 1000,
        }
    }
}

/// Why a control call failed.
#[derive(Debug, Clone, PartialEq, Eq)]
pub enum PlayerError {
    InvalidState(&'static str),
    OpenFailed(String),
    SeekFailed(String),
}

/// The text of an error: what failed, a colon and the detail.
pub open spec fn error_text(error: PlayerError) -> Seq<char> {
    match error {
        PlayerError::InvalidState(detail) => "invalid state: "@ + detail@,
        PlayerError::OpenFailed(detail) => "open failed: "@ + detail@,
        PlayerError::SeekFailed(detail) => "seek failed: "@ + detail@,
    }
}

impl PlayerError {
    /// Writes the error as text.
    pub fn message(&self) -> (text: String)
        ensures
            text@ == error_text(*self),
    {
        match self {
            PlayerError::InvalidState(detail) => {
                let mut text = String::from_str("invalid state: ");
                text.append(detail);
                text
            },
            PlayerError::OpenFailed(detail) => {
                let mut text = String::from_str("open failed: ");
                text.append(detail.as_str());
                text
            },
            PlayerError::SeekFailed(detail) => {
                let mut text = String::from_str("seek failed: ");
                text.append(detail.as_str());
                text
            },
        }
    }
}

/// An opened source.
#[derive(Debug, Clone, PartialEq, Eq)]
pub struct MediaHandle {
    pub url: String,
}

/// A choice among the tracks of a source.
#[derive(Debug, Clone, Copy, PartialEq, Eq, Structural)]
pub enum TrackSelector {
    AudioByIndex(u32),
    SubtitleByIndex(u32),
    SubtitleEnable(bool),
}

/// The kinds of event a player announces.
#[derive(Debug, Clone, Copy, PartialEq, Eq, Structural)]
pub enum EventKind {
    Opened,
    Play,
    Pause,
    Stop,
    Seek,
    SubtitleChanged,
}

/// The name an event kind is written under.
pub open spec fn event_kind_name(kind: EventKind) -> Seq<char> {
    match kind {
        EventKind::Opened => "opened"@,
        EventKind::Play => "play"@,
        EventKind::Pause => "pause"@,
        EventKind::Stop => "stop"@,
        EventKind::Seek => "seek"@,
        EventKind::SubtitleChanged => "subtitle_changed"@,
    }
}

impl EventKind {
    /// Writes the name of the kind.
    pub fn name(&self) -> (name: String)
        ensures
            name@ == event_kind_name(*self),
    {
        match self {
            EventKind::Opened => String::from_str("opened"),
            EventKind::Play => String::from_str("play"),
            EventKind::Pause => String::from_str("pause"),
            EventKind::Stop => String::from_str("stop"),
            EventKind::Seek => String::from_str("seek"),
            EventKind::SubtitleChanged => String::from_str("subtitle_changed"),
        }
    }
}

/// What an event says beyond its kind.
#[derive(Debug, Clone, PartialEq, Eq)]
pub enum EventPayload {
    Nothing,
    Url(String),
    PositionMs(i64),
    AudioIndex(u32),
    SubtitleIndex(u32),
    SubtitleEnabled(bool),
}

/// An event a player announces to its listeners.
#[derive(Debug, Clone, PartialEq, Eq)]
pub struct Event {
    pub kind: EventKind,
    pub payload: EventPayload,
}

/// An event payload with its text as characters.
pub enum PayloadView {
    Nothing,
    Url(Seq<char>),
    PositionMs(i64),
    AudioIndex(u32),
    SubtitleIndex(u32),
    SubtitleEnabled(bool),
}

impl View for Event {
    type V = (EventKind, PayloadView);

    open spec fn view(&self) -> (EventKind, PayloadView) {
        (
            self.kind,
            match self.payload {
                EventPayload::Nothing => PayloadView::Nothing,
                EventPayload::Url(url) => PayloadView::Url(url@),
                EventPayload::PositionMs(ms) => PayloadView::PositionMs(ms),
                EventPayload::AudioIndex(i) => PayloadView::AudioIndex(i),
                EventPayload::SubtitleIndex(i) => PayloadView::SubtitleIndex(i),
                EventPayload::SubtitleEnabled(b) => PayloadView::SubtitleEnabled(b),
            },
        )
    }
}

/// `after` is `before` with one more event, which reads as `event`.
pub open spec fn announced(
    before: Seq<Event>,
    after: Seq<Event>,
    event: (EventKind, PayloadView),
) -> bool {
    &&& after.len() == before.len() + 1
    &&& after.drop_last() == before
    &&& after.last()@ == event
}

/// The event a track selection announces.
pub open spec fn selection_event(sel: TrackSelector) -> (EventKind, PayloadView) {
    (
        EventKind::SubtitleChanged,
        match sel {
            TrackSelector::AudioByIndex(i) => PayloadView::AudioIndex(i),
            TrackSelector::SubtitleByIndex(i) => PayloadView::SubtitleIndex(i),
            TrackSelector::SubtitleEnable(b) => PayloadView::SubtitleEnabled(b),
        },
    )
}

/// A player. Control calls change its state and queue the events they
/// announce; the owner takes the queued events and hands them to the
/// listeners.
#[derive(Debug, Clone, PartialEq, Eq)]
pub struct BovaPlayer {
    pub opened: bool,
    pub current: Option<MediaHandle>,
    pub position_ms: i64,
    pub subtitle_enabled: bool,
    pub current_subtitle_index: Option<u32>,
    pub playing: bool,
    /// Events announced and not yet taken.
    pub events: Vec<Event>,
}

impl BovaPlayer {
    /// A player with nothing open.
    pub fn new() -> (player: BovaPlayer)
        ensures
            !player.opened,
            player.current.is_none(),
            player.position_ms == 0,
            !player.subtitle_enabled,
            player.current_subtitle_index.is_none(),
            !player.playing,
            player.events@.len() == 0,
    {
        BovaPlayer {
            opened: false,
            current: None,
            position_ms: 0,
            subtitle_enabled: false,
            current_subtitle_index: None,
            playing: false,
            events: Vec::new(),
        }
    }

    /// Opens `url` at position zero and announces it. Always succeeds.
    pub fn open(&mut self, url: &str, opts: MediaOptions) -> (result: Result<
        MediaHandle,
        PlayerError,
    >)
        ensures
            result matches Ok(handle) && handle.url@ == url@ && final(self).current == Some(handle),
            final(self).opened,
            final(self).position_ms == 0,
            final(self).subtitle_enabled == old(self).subtitle_enabled,
            final(self).current_subtitle_index == old(self).current_subtitle_index,
            final(self).playing == old(self).playing,
            announced(
                old(self).events@,
                final(self).events@,
                (EventKind::Opened, PayloadView::Url(url@)),
            ),
    {
        let handle = MediaHandle { url: String::from_str(url) };
        let kept = MediaHandle { url: handle.url.clone() };
        self.opened = true;
        self.current = Some(kept);
        self.position_ms = 0;
        self.events.push(
            Event { kind: EventKind::Opened, payload: EventPayload::Url(String::from_str(url)) },
        );
        assert(self.events@.drop_last() =~= old(self).events@);
        Ok(handle)
    }

    /// Starts playback and announces it. Fails, changing nothing, when
    /// nothing is open.
    pub fn play(&mut self) -> (result: Result<(), PlayerError>)
        ensures
            result.is_ok() == old(self).opened,
            result matches Err(e) ==> (e matches PlayerError::InvalidState(d) && d@
                == "not opened"@) && *final(self) == *old(self),
            result.is_ok() ==> final(self).playing && announced(
                old(self).events@,
                final(self).events@,
                (EventKind::Play, PayloadView::Nothing),
            ),
            final(self).opened == old(self).opened,
            final(self).current == old(self).current,
            final(self).position_ms == old(self).position_ms,
            final(self).subtitle_enabled == old(self).subtitle_enabled,
            final(self).current_subtitle_index == old(self).current_subtitle_index,
    {
        if !self.opened {
            return Err(PlayerError::InvalidState("not opened"));
        }
        self.playing = true;
        self.events.push(Event { kind: EventKind::Play, payload: EventPayload::Nothing });
        assert(self.events@.drop_last() =~= old(self).events@);
        Ok(())
    }

    /// Pauses playback and announces it. Fails, changing nothing, when
    /// nothing is open.
    pub fn pause(&mut self) -> (result: Result<(), PlayerError>)
        ensures
            result.is_ok() == old(self).opened,
            result matches Err(e) ==> (e matches PlayerError::InvalidState(d) && d@
                == "not opened"@) && *final(self) == *old(self),
            result.is_ok() ==> !final(self).playing && announced(
                old(self).events@,
                final(self).events@,
                (EventKind::Pause, PayloadView::Nothing),
            ),
            final(self).opened == old(self).opened,
            final(self).current == old(self).current,
            final(self).position_ms == old(self).position_ms,
            final(self).subtitle_enabled == old(self).subtitle_enabled,
            final(self).current_subtitle_index == old(self).current_subtitle_index,
    {
        if !self.opened {
            return Err(PlayerError::InvalidState("not opened"));
        }
        self.playing = false;
        self.events.push(Event { kind: EventKind::Pause, payload: EventPayload::Nothing });
        assert(self.events@.drop_last() =~= old(self).events@);
        Ok(())
    }

    /// Stops playback, closes what was open and announces it. Always
    /// succeeds.
    pub fn stop(&mut self) -> (result: Result<(), PlayerError>)
        ensures
            result.is_ok(),
            !final(self).playing,
            !final(self).opened,
            final(self).current.is_none(),
            final(self).position_ms == 0,
            final(self).subtitle_enabled == old(self).subtitle_enabled,
            final(self).current_subtitle_index == old(self).current_subtitle_index,
            announced(
                old(self).events@,
                final(self).events@,
                (EventKind::Stop, PayloadView::Nothing),
            ),
    {
        self.playing = false;
        self.opened = false;
        self.current = None;
        self.position_ms = 0;
        self.events.push(Event { kind: EventKind::Stop, payload: EventPayload::Nothing });
        assert(self.events@.drop_last() =~= old(self).events@);
        Ok(())
    }

    /// Moves to `pos_ms`, or to zero when that is negative, and announces
    /// the new position. Fails, changing nothing, when nothing is open.
    pub fn seek(&mut self, pos_ms: i64, accurate: bool) -> (result: Result<(), PlayerError>)
        ensures
            result.is_ok() == old(self).opened,
            result matches Err(e) ==> (e matches PlayerError::InvalidState(d) && d@
                == "not opened"@) && *final(self) == *old(self),
            result.is_ok() ==> {
                &&& final(self).position_ms == if pos_ms < 0 {
                    0
                } else {
                    pos_ms
                }
                &&& announced(
                    old(self).events@,
                    final(self).events@,
                    (EventKind::Seek, PayloadView::PositionMs(final(self).position_ms)),
                )
            },
            final(self).opened == old(self).opened,
            final(self).current == old(self).current,
            final(self).playing == old(self).playing,
            final(self).subtitle_enabled == old(self).subtitle_enabled,
            final(self).current_subtitle_index == old(self).current_subtitle_index,
    {
        if !self.opened {
            return Err(PlayerError::InvalidState("not opened"));
        }
        let target: i64 = if pos_ms < 0 {
            0
        } else {
            pos_ms
        };
        self.position_ms = target;
        self.events.push(
            Event { kind: EventKind::Seek, payload: EventPayload::PositionMs(target) },
        );
        assert(self.events@.drop_last() =~= old(self).events@);
        Ok(())
    }

    /// Applies a track selection and announces it. Always succeeds.
    pub fn select_track(&mut self, sel: TrackSelector) -> (result: Result<(), PlayerError>)
        ensures
            result.is_ok(),
            final(self).current_subtitle_index == match sel {
                TrackSelector::SubtitleByIndex(i) => Some(i),
                _ => old(self).current_subtitle_index,
            },
            final(self).subtitle_enabled == match sel {
                TrackSelector::SubtitleEnable(b) => b,
                _ => old(self).subtitle_enabled,
            },
            final(self).opened == old(self).opened,
            final(self).current == old(self).current,
            final(self).position_ms == old(self).position_ms,
            final(self).playing == old(self).playing,
            announced(old(self).events@, final(self).events@, selection_event(sel)),
    {
        let payload = match sel {
            TrackSelector::AudioByIndex(i) => EventPayload::AudioIndex(i),
            TrackSelector::SubtitleByIndex(i) => {
                self.current_subtitle_index = Some(i);
                EventPayload::SubtitleIndex(i)
            },
            TrackSelector::SubtitleEnable(b) => {
                self.subtitle_enabled = b;
                EventPayload::SubtitleEnabled(b)
            },
        };
        self.events.push(Event { kind: EventKind::SubtitleChanged, payload });
        assert(self.events@.drop_last() =~= old(self).events@);
        Ok(())
    }

    /// Takes the events announced since the last call, oldest first.
    pub fn take_events(&mut self) -> (events: Vec<Event>)
        ensures
            events@ == old(self).events@,
            final(self).events@.len() == 0,
            final(self).opened == old(self).opened,
            final(self).current == old(self).current,
            final(self).position_ms == old(self).position_ms,
            final(self).playing == old(self).playing,
            final(self).subtitle_enabled == old(self).subtitle_enabled,
            final(self).current_subtitle_index == old(self).current_subtitle_index,
    {
        let mut events: Vec<Event> = Vec::new();
        events.append(&mut self.events);
        events
    }
}

/// A new player.
pub fn create_player() -> (player: BovaPlayer)
    ensures
        !player.opened,
        player.current.is_none(),
        player.position_ms == 0,
        !player.subtitle_enabled,
        player.current_subtitle_index.is_none(),
        !player.playing,
        player.events@.len() == 0,
{
    BovaPlayer::new()
}

} // verus!
