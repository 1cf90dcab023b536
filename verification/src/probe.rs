//! Static facts about a source: its streams, duration and bit rate.

use vstd::prelude::*;
use crate::direct::StreamKind;

verus! {

/// What is known of one stream of a source.
#[derive(Debug, Clone, PartialEq, Eq)]
pub struct StreamInfo {
    pub index: u32,
    /// `video`, `audio`, `subtitle` or `other`.
    pub kind: String,
    pub codec: String,
    pub profile: Option<String>,
    pub width: Option<u32>,
    pub height: Option<u32>,
    pub channels: Option<u32>,
    pub sample_rate: Option<u32>,
}

/// What is known of a source.
#[derive(Debug, Clone, PartialEq, Eq)]
pub struct MediaInfo {
    pub url: String,
    pub duration_ms: Option<u64>,
    pub bit_rate: Option<u64>,
    pub streams: Vec<StreamInfo>,
}

/// What the demuxer tells of one stream. The picture size and the audio
/// format are there where a decoder for the stream could be opened.
#[derive(Debug, Clone, PartialEq, Eq)]
pub struct StreamFacts {
    pub kind: StreamKind,
    pub codec: String,
    /// Width and height of the pictures.
    pub picture: Option<(u32, u32)>,
    /// Channel count and sample rate.
    pub sound: Option<(u16, u32)>,
}

/// The name a kind of stream is reported under.
pub open spec fn kind_name(kind: StreamKind) -> Seq<char> {
    match kind {
        StreamKind::Video => "video"@,
        StreamKind::Audio => "audio"@,
        StreamKind::Subtitle => "subtitle"@,
        StreamKind::Other => "other"@,
    }
}

/// A reported quantity counts when it is positive.
pub open spec fn positive(x: i64) -> Option<u64> {
    if x > 0 {
        Some(x as u64)
    } else {
        None
    }
}

/// What is reported of stream `index`: its kind and codec; its picture
/// size if it is a video stream; its channel count and sample rate if it
/// is an audio stream.
pub open spec fn describes(info: StreamInfo, index: int, facts: StreamFacts) -> bool {
    &&& info.index == index as u32
    &&& info.kind@ == kind_name(facts.kind)
    &&& info.codec == facts.codec
    &&& info.profile.is_none()
    &&& info.width == match (facts.kind, facts.picture) {
        (StreamKind::Video, Some(size)) => Some(size.0),
        _ => None,
    }
    &&& info.height == match (facts.kind, facts.picture) {
        (StreamKind::Video, Some(size)) => Some(size.1),
        _ => None,
    }
    &&& info.channels == match (facts.kind, facts.sound) {
        (StreamKind::Audio, Some(format)) => Some(format.0 as u32),
        _ => None,
    }
    &&& info.sample_rate == match (facts.kind, facts.sound) {
        (StreamKind::Audio, Some(format)) => Some(format.1),
        _ => None,
    }
}

/// Reports on a source without opening it: the URL, and nothing known of
/// its duration, bit rate and streams.
pub fn probe(url: &str) -> (info: MediaInfo)
    ensures
        info.url@ == url@,
        info.duration_ms.is_none(),
        info.bit_rate.is_none(),
        info.streams@.len() == 0,
{
    MediaInfo { url: String::from_str(url), duration_ms: None, bit_rate: None, streams: Vec::new() }
}

fn kind_text(kind: StreamKind) -> (name: String)
    ensures
        name@ == kind_name(kind),
{
    match kind {
        StreamKind::Video => String::from_str("video"),
        StreamKind::Audio => String::from_str("audio"),
        StreamKind::Subtitle => String::from_str("subtitle"),
        StreamKind::Other => String::from_str("other"),
    }
}

/// Reports on one stream of a source.
pub fn describe_stream(index: usize, facts: &StreamFacts) -> (info: StreamInfo)
    ensures
        describes(info, index as int, *facts),
{
    let (width, height) = match (facts.kind, facts.picture) {
        (StreamKind::Video, Some(size)) => (Some(size.0), Some(size.1)),
        _ => (None, None),
    };
    let (channels, sample_rate) = match (facts.kind, facts.sound) {
        (StreamKind::Audio, Some(format)) => (Some(format.0 as u32), Some(format.1)),
        _ => (None, None),
    };
    StreamInfo {
        index: #[verifier::truncate]
        (index as u32),
        kind: kind_text(facts.kind),
        codec: facts.codec.clone(),
        profile: None,
        width,
        height,
        channels,
        sample_rate,
    }
}

/// Reports on an opened source from what the demuxer tells: the duration
/// and the bit rate where they are positive, and every stream in the
/// order of the source.
pub fn media_info(url: &str, duration: i64, bit_rate: i64, streams: &Vec<StreamFacts>) -> (info:
    MediaInfo)
    ensures
        info.url@ == url@,
        info.duration_ms == positive(duration),
        info.bit_rate == positive(bit_rate),
        info.streams@.len() == streams@.len(),
        forall|i: int|
            0 <= i < streams@.len() ==> describes(#[trigger] info.streams@[i], i, streams@[i]),
{
    let duration_ms = if duration > 0 {
        Some(duration as u64)
    } else {
        None
    };
    let rate = if bit_rate > 0 {
        Some(bit_rate as u64)
    } else {
        None
    };
    let mut out: Vec<StreamInfo> = Vec::new();
    let mut i: usize = 0;
    while i < streams.len()
        invariant
            i <= streams@.len(),
            out@.len() == i,
            forall|j: int| 0 <= j < i ==> describes(#[trigger] out@[j], j, streams@[j]),
        decreases streams@.len() - i,
    {
        let info = describe_stream(i, &streams[i]);
        out.push(info);
        i = i + 1;
    }
    MediaInfo { url: String::from_str(url), duration_ms, bit_rate: rate, streams: out }
}

} // verus!
