//! A registry of players for hosts that hold players by number.
//!
//! The registry is an owned value: the host keeps one for as long as it
//! runs and passes it to every call. No pipeline knows of it.

use vstd::prelude::*;
use std::collections::HashMap;
use vstd::std_specs::hash::group_hash_axioms;
use crate::commands::MpvCommand;
use crate::model::VideoFrame;

verus! {

broadcast use group_hash_axioms;

/// The call succeeded.
pub const OK: i32 = 0;

/// The call was made with an argument that cannot be used.
pub const BAD_ARGUMENT: i32 = -1;

/// There is no such player, or it has nothing open.
pub const NO_PLAYER: i32 = -2;

/// The pipeline could not be started.
pub const START_FAILED: i32 = -3;

/// What the registry knows of a player.
#[derive(Debug, Clone, Copy, PartialEq, Eq, Structural)]
pub struct PlayerRecord {
    /// Whether a pipeline runs for the player.
    pub opened: bool,
    pub is_playing: bool,
    pub position_ms: i64,
    pub duration_ms: i64,
    pub video_width: u32,
    pub video_height: u32,
}

/// The record of a player that was just created.
pub open spec fn fresh_record() -> PlayerRecord {
    PlayerRecord {
        opened: false,
        is_playing: false,
        position_ms: 0,
        duration_ms: 0,
        video_width: 0,
        video_height: 0,
    }
}

/// The record of a player after one of its frames arrived: the size is
/// that of the frame, and the position and the duration follow the frame
/// where it carries them.
pub open spec fn record_after_frame(record: PlayerRecord, frame: VideoFrame) -> PlayerRecord {
    PlayerRecord {
        video_width: frame.width,
        video_height: frame.height,
        position_ms: match frame.pts_ms {
            Some(pts) => pts,
            None => record.position_ms,
        },
        duration_ms: match frame.duration_ms {
            Some(d) => d,
            None => record.duration_ms,
        },
        ..record
    }
}

/// The players of a host and the newest frame of each.
#[derive(Debug)]
pub struct PlayerRegistry {
    /// The number the next player gets.
    pub next_id: i64,
    pub players: HashMap<i64, PlayerRecord>,
    /// The newest frame of each player that the host has not taken yet.
    pub frames: HashMap<i64, VideoFrame>,
}

impl PlayerRegistry {
    /// A registry without players. The first player gets the number 1.
    pub fn new() -> (registry: PlayerRegistry)
        ensures
            registry.next_id == 1,
            registry.players@ == Map::<i64, PlayerRecord>::empty(),
            registry.frames@ == Map::<i64, VideoFrame>::empty(),
    {
        PlayerRegistry { next_id: 1, players: HashMap::new(), frames: HashMap::new() }
    }

    /// Whether a number is left for a new player.
    pub open spec fn has_room(&self) -> bool {
        0 < self.next_id < i64::MAX
    }

    /// Creates a player and returns its number, which is positive. Returns
    /// 0, and creates nothing, when the numbers have run out.
    pub fn create_player(&mut self) -> (id: i64)
        ensures
            old(self).has_room() ==> {
                &&& id == old(self).next_id
                &&& final(self).next_id == id + 1
                &&& final(self).players@ == old(self).players@.insert(id, fresh_record())
            },
            !old(self).has_room() ==> id == 0 && final(self).next_id == old(self).next_id
                && final(self).players@ == old(self).players@,
            final(self).frames@ == old(self).frames@,
    {
        if self.next_id <= 0 || self.next_id == i64::MAX {
            return 0;
        }
        let id = self.next_id;
        self.next_id = id + 1;
        self.players.insert(
            id,
            PlayerRecord {
                opened: false,
                is_playing: false,
                position_ms: 0,
                duration_ms: 0,
                video_width: 0,
                video_height: 0,
            },
        );
        id
    }

    /// Notes the outcome of starting a pipeline for a player. A pipeline
    /// that did not start is `START_FAILED`, whoever it was for; a pipeline
    /// for an unknown player is `NO_PLAYER`; otherwise the player is open
    /// and playing.
    pub fn media_opened(&mut self, player_id: i64, started: bool) -> (code: i32)
        ensures
            code == if !started {
                START_FAILED
            } else if old(self).players@.contains_key(player_id) {
                OK
            } else {
                NO_PLAYER
            },
            final(self).players@ == if code == OK {
                old(self).players@.insert(
                    player_id,
                    PlayerRecord {
                        opened: true,
                        is_playing: true,
                        ..old(self).players@[player_id]
                    },
                )
            } else {
                old(self).players@
            },
            final(self).next_id == old(self).next_id,
            final(self).frames@ == old(self).frames@,
    {
        if !started {
            return START_FAILED;
        }
        let found = match self.players.get(&player_id) {
            Some(record) => Some(*record),
            None => None,
        };
        match found {
            Some(record) => {
                self.players.insert(
                    player_id,
                    PlayerRecord { opened: true, is_playing: true, ..record },
                );
                OK
            },
            None => NO_PLAYER,
        }
    }

    /// The record of a player that has a pipeline running.
    pub open spec fn open_record(&self, player_id: i64) -> Option<PlayerRecord> {
        if self.players@.contains_key(player_id) && self.players@[player_id].opened {
            Some(self.players@[player_id])
        } else {
            None
        }
    }

    fn find_open(&self, player_id: i64) -> (found: Option<PlayerRecord>)
        ensures
            found == self.open_record(player_id),
    {
        match self.players.get(&player_id) {
            Some(record) => if record.opened {
                Some(*record)
            } else {
                None
            },
            None => None,
        }
    }

    /// Resumes a player: it counts as playing, and the command to send to
    /// its pipeline is returned. `NO_PLAYER`, and nothing to send, for a
    /// player that is unknown or has nothing open.
    pub fn play(&mut self, player_id: i64) -> (outcome: (i32, Option<MpvCommand>))
        ensures
            outcome == match old(self).open_record(player_id) {
                Some(_) => (OK, Some(MpvCommand::Resume)),
                None => (NO_PLAYER, None::<MpvCommand>),
            },
            final(self).players@ == match old(self).open_record(player_id) {
                Some(record) => old(self).players@.insert(
                    player_id,
                    PlayerRecord { is_playing: true, ..record },
                ),
                None => old(self).players@,
            },
            final(self).next_id == old(self).next_id,
            final(self).frames@ == old(self).frames@,
    {
        match self.find_open(player_id) {
            Some(record) => {
                self.players.insert(player_id, PlayerRecord { is_playing: true, ..record });
                (OK, Some(MpvCommand::Resume))
            },
            None => (NO_PLAYER, None),
        }
    }

    /// Pauses a player: it no longer counts as playing, and the command to
    /// send to its pipeline is returned. `NO_PLAYER`, and nothing to send,
    /// for a player that is unknown or has nothing open.
    pub fn pause(&mut self, player_id: i64) -> (outcome: (i32, Option<MpvCommand>))
        ensures
            outcome == match old(self).open_record(player_id) {
                Some(_) => (OK, Some(MpvCommand::Pause)),
                None => (NO_PLAYER, None::<MpvCommand>),
            },
            final(self).players@ == match old(self).open_record(player_id) {
                Some(record) => old(self).players@.insert(
                    player_id,
                    PlayerRecord { is_playing: false, ..record },
                ),
                None => old(self).players@,
            },
            final(self).next_id == old(self).next_id,
            final(self).frames@ == old(self).frames@,
    {
        match self.find_open(player_id) {
            Some(record) => {
                self.players.insert(player_id, PlayerRecord { is_playing: false, ..record });
                (OK, Some(MpvCommand::Pause))
            },
            None => (NO_PLAYER, None),
        }
    }

    /// The command that moves a player to `position_ms`. `NO_PLAYER`, and
    /// nothing to send, for a player that is unknown or has nothing open.
    pub fn seek(&self, player_id: i64, position_ms: i64) -> (outcome: (i32, Option<MpvCommand>))
        ensures
            outcome == match self.open_record(player_id) {
                Some(_) => (OK, Some(MpvCommand::SeekAbsolute(position_ms))),
                None => (NO_PLAYER, None::<MpvCommand>),
            },
    {
        match self.find_open(player_id) {
            Some(_) => (OK, Some(MpvCommand::SeekAbsolute(position_ms))),
            None => (NO_PLAYER, None),
        }
    }

    /// Removes a player and its pending frame. Returns `OK` and whether a
    /// pipeline is to be told to stop, or `NO_PLAYER` for an unknown
    /// player, which changes nothing.
    pub fn stop(&mut self, player_id: i64) -> (outcome: (i32, bool))
        ensures
            outcome == if old(self).players@.contains_key(player_id) {
                (OK, old(self).players@[player_id].opened)
            } else {
                (NO_PLAYER, false)
            },
            final(self).players@ == old(self).players@.remove(player_id),
            final(self).frames@ == if old(self).players@.contains_key(player_id) {
                old(self).frames@.remove(player_id)
            } else {
                old(self).frames@
            },
            final(self).next_id == old(self).next_id,
    {
        match self.players.remove(&player_id) {
            Some(record) => {
                self.frames.remove(&player_id);
                (OK, record.opened)
            },
            None => {
                assert(self.players@ =~= old(self).players@);
                (NO_PLAYER, false)
            },
        }
    }

    /// The record of a player, or that of a fresh player for an unknown
    /// number: not playing, at position zero, of no duration and no size.
    pub fn record(&self, player_id: i64) -> (record: PlayerRecord)
        ensures
            record == if self.players@.contains_key(player_id) {
                self.players@[player_id]
            } else {
                fresh_record()
            },
    {
        match self.players.get(&player_id) {
            Some(record) => *record,
            None => PlayerRecord {
                opened: false,
                is_playing: false,
                position_ms: 0,
                duration_ms: 0,
                video_width: 0,
                video_height: 0,
            },
        }
    }

    /// Keeps `frame` as the newest frame of a player, in place of the one
    /// kept before.
    pub fn store_latest_frame(&mut self, player_id: i64, frame: VideoFrame)
        ensures
            final(self).frames@ == old(self).frames@.insert(player_id, frame),
            final(self).players@ == old(self).players@,
            final(self).next_id == old(self).next_id,
    {
        self.frames.insert(player_id, frame);
    }

    /// Takes a frame that arrived from the pipeline of a player: the
    /// player's record follows the frame, and the frame becomes the
    /// player's newest. Returns whether the player still has a pipeline to
    /// read from; if not, the frame is dropped and nothing changes.
    pub fn frame_received(&mut self, player_id: i64, frame: VideoFrame) -> (go_on: bool)
        ensures
            go_on == old(self).open_record(player_id).is_some(),
            final(self).players@ == match old(self).open_record(player_id) {
                Some(record) => old(self).players@.insert(
                    player_id,
                    record_after_frame(record, frame),
                ),
                None => old(self).players@,
            },
            final(self).frames@ == if go_on {
                old(self).frames@.insert(player_id, frame)
            } else {
                old(self).frames@
            },
            final(self).next_id == old(self).next_id,
    {
        match self.find_open(player_id) {
            Some(record) => {
                let position_ms = match frame.pts_ms {
                    Some(pts) => pts,
                    None => record.position_ms,
                };
                let duration_ms = match frame.duration_ms {
                    Some(d) => d,
                    None => record.duration_ms,
                };
                self.players.insert(
                    player_id,
                    PlayerRecord {
                        video_width: frame.width,
                        video_height: frame.height,
                        position_ms,
                        duration_ms,
                        ..record
                    },
                );
                self.store_latest_frame(player_id, frame);
                true
            },
            None => false,
        }
    }

    /// Hands out the newest frame of a player, which is then no longer
    /// kept. `None` when no frame arrived since the last one was taken.
    pub fn take_latest_frame(&mut self, player_id: i64) -> (frame: Option<VideoFrame>)
        ensures
            frame == if old(self).frames@.contains_key(player_id) {
                Some(old(self).frames@[player_id])
            } else {
                None
            },
            final(self).frames@ == old(self).frames@.remove(player_id),
            final(self).players@ == old(self).players@,
            final(self).next_id == old(self).next_id,
    {
        let frame = self.frames.remove(&player_id);
        frame
    }
}

} // verus!
