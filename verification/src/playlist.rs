//! The files a front end has played: the most recent ones and the
//! playlist.

use vstd::prelude::*;

verus! {

/// How many recent files are remembered.
pub const RECENT_LIMIT: usize = 10;

/// The index of the first entry that reads `path`, or the number of
/// entries where none does.
pub open spec fn position_of(items: Seq<String>, path: Seq<char>) -> int
    decreases items.len(),
{
    if items.len() == 0 || items[0]@ == path {
        0
    } else {
        1 + position_of(items.drop_first(), path)
    }
}

/// The recent files after `path` was played: `path` comes first, its
/// earlier entry is gone, and the oldest entry beyond the limit is dropped.
pub open spec fn recent_after(recent: Seq<String>, path: String) -> Seq<String> {
    let at = position_of(recent, path@);
    let others = if at < recent.len() {
        recent.remove(at)
    } else {
        recent
    };
    let all = others.insert(0, path);
    if all.len() > RECENT_LIMIT {
        all.drop_last()
    } else {
        all
    }
}

/// The playlist after `path` was played: `path` is added at the end
/// unless the playlist holds it already.
pub open spec fn playlist_after(playlist: Seq<String>, path: String) -> Seq<String> {
    if position_of(playlist, path@) < playlist.len() {
        playlist
    } else {
        playlist.push(path)
    }
}

fn find_path(items: &Vec<String>, path: &String) -> (at: usize)
    ensures
        at == position_of(items@, path@),
        at <= items@.len(),
{
    let mut i: usize = 0;
    assert(items@.subrange(0, items@.len() as int) =~= items@);
    while i < items.len()
        invariant
            i <= items@.len(),
            position_of(items@, path@) == i + position_of(
                items@.subrange(i as int, items@.len() as int),
                path@,
            ),
        decreases items@.len() - i,
    {
        let ghost rest = items@.subrange(i as int, items@.len() as int);
        assert(rest[0] == items@[i as int]);
        if items[i] == *path {
            return i;
        }
        assert(rest.drop_first() =~= items@.subrange(i + 1, items@.len() as int));
        i = i + 1;
    }
    i
}

/// The recent files and the playlist of a front end.
#[derive(Debug, Clone, PartialEq, Eq)]
pub struct Playlist {
    /// The files played last, newest first.
    pub mru: Vec<String>,
    pub playlist: Vec<String>,
    /// The entry of the playlist that plays or played last.
    pub playlist_index: usize,
}

impl Playlist {
    /// The index names an entry, unless the playlist is empty.
    pub open spec fn wf(&self) -> bool {
        self.playlist@.len() == 0 || self.playlist_index < self.playlist@.len()
    }

    /// Nothing played yet.
    pub fn new() -> (list: Playlist)
        ensures
            list.wf(),
            list.mru@.len() == 0,
            list.playlist@.len() == 0,
            list.playlist_index == 0,
    {
        Playlist { mru: Vec::new(), playlist: Vec::new(), playlist_index: 0 }
    }

    /// Notes that `path` is played: it becomes the most recent file, and it
    /// joins the playlist if it is new there, in which case it is also the
    /// current entry.
    pub fn remember_file(&mut self, path: String)
        requires
            old(self).wf(),
        ensures
            final(self).wf(),
            final(self).mru@ == recent_after(old(self).mru@, path),
            final(self).playlist@ == playlist_after(old(self).playlist@, path),
            final(self).playlist_index == if position_of(old(self).playlist@, path@) < old(
                self,
            ).playlist@.len() {
                old(self).playlist_index as int
            } else {
                old(self).playlist@.len() as int
            },
    {
        let at = find_path(&self.mru, &path);
        if at < self.mru.len() {
            self.mru.remove(at);
        }
        self.mru.insert(0, path.clone());
        if self.mru.len() > RECENT_LIMIT {
            self.mru.pop();
        }
        let listed = find_path(&self.playlist, &path);
        if listed >= self.playlist.len() {
            self.playlist.push(path);
            self.playlist_index = self.playlist.len() - 1;
        }
    }

    /// The entry after the current one, going round at the end.
    pub open spec fn next_index(&self) -> int {
        (self.playlist_index + 1) % (self.playlist@.len() as int)
    }

    /// The entry before the current one, going round at the start.
    pub open spec fn previous_index(&self) -> int {
        if self.playlist_index == 0 {
            self.playlist@.len() - 1
        } else {
            self.playlist_index - 1
        }
    }

    /// Moves to the next entry of the playlist and returns the file to
    /// play. `None`, and no move, on an empty playlist.
    pub fn playlist_next(&mut self) -> (path: Option<String>)
        requires
            old(self).wf(),
        ensures
            final(self).wf(),
            final(self).mru@ == old(self).mru@,
            final(self).playlist@ == old(self).playlist@,
            old(self).playlist@.len() == 0 ==> path.is_none() && final(self).playlist_index == old(
                self,
            ).playlist_index,
            old(self).playlist@.len() > 0 ==> final(self).playlist_index == old(self).next_index()
                && path == Some(old(self).playlist@[old(self).next_index()]),
    {
        if self.playlist.len() == 0 {
            return None;
        }
        self.playlist_index = (self.playlist_index + 1) % self.playlist.len();
        Some(self.playlist[self.playlist_index].clone())
    }

    /// Moves to the previous entry of the playlist and returns the file to
    /// play. `None`, and no move, on an empty playlist.
    pub fn playlist_prev(&mut self) -> (path: Option<String>)
        requires
            old(self).wf(),
        ensures
            final(self).wf(),
            final(self).mru@ == old(self).mru@,
            final(self).playlist@ == old(self).playlist@,
            old(self).playlist@.len() == 0 ==> path.is_none() && final(self).playlist_index == old(
                self,
            ).playlist_index,
            old(self).playlist@.len() > 0 ==> final(self).playlist_index == old(
                self,
            ).previous_index() && path == Some(old(self).playlist@[old(self).previous_index()]),
    {
        if self.playlist.len() == 0 {
            return None;
        }
        if self.playlist_index == 0 {
            self.playlist_index = self.playlist.len() - 1;
        } else {
            self.playlist_index = self.playlist_index - 1;
        }
        Some(self.playlist[self.playlist_index].clone())
    }
}

} // verus!
