//! Subtitle tracks as the engine lists them.

use vstd::prelude::*;
use crate::text::{decimal_digits, decimal_text, push_decimal, push_signed};

verus! {

/// A subtitle track a consumer can select.
#[derive(Debug, Clone, PartialEq, Eq)]
pub struct SubtitleTrackInfo {
    /// The id the engine gave the track; ids need not be dense.
    pub id: i64,
    pub lang: Option<String>,
    pub title: Option<String>,
    /// Whether the track was loaded from a file of its own.
    pub external: bool,
}

/// One entry of the engine's track list, as read property by property.
#[derive(Debug, Clone, PartialEq, Eq)]
pub struct TrackEntry {
    /// The entry's type, where the engine reports one.
    pub kind: Option<String>,
    pub id: i64,
    pub lang: Option<String>,
    pub title: Option<String>,
    /// The entry's external flag; zero means embedded.
    pub external: i32,
}

/// The properties of a track-list entry.
#[derive(Debug, Clone, Copy, PartialEq, Eq, Structural)]
pub enum TrackField {
    Kind,
    Id,
    Lang,
    Title,
    External,
}

/// The last segment of the property that holds a field of an entry.
pub open spec fn field_name(field: TrackField) -> Seq<char> {
    match field {
        TrackField::Kind => "type"@,
        TrackField::Id => "id"@,
        TrackField::Lang => "lang"@,
        TrackField::Title => "title"@,
        TrackField::External => "external"@,
    }
}

/// The name of the property that holds `field` of entry `index`.
pub open spec fn track_property_name(index: nat, field: TrackField) -> Seq<char> {
    "track-list/"@ + decimal_digits(index) + "/"@ + field_name(field)
}

/// The name of the property that holds the number of entries.
pub fn track_count_property() -> (name: String)
    ensures
        name@ == "track-list/count"@,
{
    String::from_str("track-list/count")
}

/// Builds the name of the property that holds `field` of entry `index`.
pub fn track_property(index: u64, field: TrackField) -> (name: String)
    ensures
        name@ == track_property_name(index as nat, field),
{
    let mut name = String::from_str("track-list/");
    push_decimal(&mut name, index);
    name.append("/");
    match field {
        TrackField::Kind => name.append("type"),
        TrackField::Id => name.append("id"),
        TrackField::Lang => name.append("lang"),
        TrackField::Title => name.append("title"),
        TrackField::External => name.append("external"),
    }
    assert(name@ =~= track_property_name(index as nat, field));
    name
}

/// How many entries to read when the count was read with `status` and
/// came out as `count`: none after a failed read.
pub fn entries_to_read(status: i32, count: i64) -> (n: u64)
    ensures
        n == if status < 0 || count <= 0 {
            0
        } else {
            count as int
        },
{
    if status < 0 || count <= 0 {
        0
    } else {
        count as u64
    }
}

/// An entry is a subtitle track when its type is `sub`.
pub open spec fn is_subtitle(entry: TrackEntry) -> bool {
    entry.kind matches Some(k) && k@ == "sub"@
}

/// The track a subtitle entry stands for.
pub open spec fn track_of(entry: TrackEntry) -> SubtitleTrackInfo {
    SubtitleTrackInfo {
        id: entry.id,
        lang: entry.lang,
        title: entry.title,
        external: entry.external != 0,
    }
}

/// The subtitle tracks among the entries, in the order of the list.
pub open spec fn subtitle_tracks_of(entries: Seq<TrackEntry>) -> Seq<SubtitleTrackInfo>
    decreases entries.len(),
{
    if entries.len() == 0 {
        Seq::empty()
    } else {
        let before = subtitle_tracks_of(entries.drop_last());
        if is_subtitle(entries.last()) {
            before.push(track_of(entries.last()))
        } else {
            before
        }
    }
}

fn copy_text(text: &Option<String>) -> (copy: Option<String>)
    ensures
        copy == *text,
{
    match text {
        Some(s) => Some(s.clone()),
        None => None,
    }
}

/// Picks the subtitle tracks out of the entries of the track list.
pub fn subtitle_tracks(entries: &Vec<TrackEntry>) -> (tracks: Vec<SubtitleTrackInfo>)
    ensures
        tracks@ == subtitle_tracks_of(entries@),
{
    let wanted = String::from_str("sub");
    let mut tracks: Vec<SubtitleTrackInfo> = Vec::new();
    let mut i: usize = 0;
    while i < entries.len()
        invariant
            i <= entries@.len(),
            wanted@ == "sub"@,
            tracks@ == subtitle_tracks_of(entries@.take(i as int)),
        decreases entries@.len() - i,
    {
        let entry = &entries[i];
        let is_sub = match &entry.kind {
            Some(k) => *k == wanted,
            None => false,
        };
        assert(entries@.take(i + 1).drop_last() =~= entries@.take(i as int));
        assert(entries@.take(i + 1).last() == entries@[i as int]);
        if is_sub {
            tracks.push(
                SubtitleTrackInfo {
                    id: entry.id,
                    lang: copy_text(&entry.lang),
                    title: copy_text(&entry.title),
                    external: entry.external != 0,
                },
            );
        }
        i = i + 1;
    }
    assert(entries@.take(i as int) =~= entries@);
    tracks
}

/// The text a track is listed under: `#id (lang)` or `#id title (lang)`,
/// with `?` for an unknown language, followed by a mark on external
/// tracks.
pub open spec fn label_text(track: SubtitleTrackInfo) -> Seq<char> {
    let lang: Seq<char> = match track.lang {
        Some(l) => l@,
        None => "?"@,
    };
    let title: Seq<char> = match track.title {
        Some(t) => t@,
        None => Seq::empty(),
    };
    let mark: Seq<char> = if track.external {
        " [外部]"@
    } else {
        Seq::empty()
    };
    let head: Seq<char> = if title.len() == 0 {
        "#"@ + decimal_text(track.id as int)
    } else {
        "#"@ + decimal_text(track.id as int) + " "@ + title
    };
    head + " ("@ + lang + ")"@ + mark
}

impl SubtitleTrackInfo {
    /// Writes the text the track is listed under.
    pub fn label(&self) -> (text: String)
        ensures
            text@ == label_text(*self),
    {
        let mut text = String::from_str("#");
        push_signed(&mut text, self.id);
        match &self.title {
            Some(t) => {
                if !t.as_str().is_empty() {
                    text.append(" ");
                    text.append(t.as_str());
                }
            },
            None => {},
        }
        text.append(" (");
        match &self.lang {
            Some(l) => text.append(l.as_str()),
            None => text.append("?"),
        }
        text.append(")");
        if self.external {
            text.append(" [外部]");
        }
        assert(text@ =~= label_text(*self));
        text
    }
}

} // verus!
