//! Timing and framing of decoded subtitles.

use vstd::prelude::*;
use crate::model::{SubtitleFrame, SubtitleStyle};
use crate::timebase::{scale_wide, scaled_ms, TimeBase};

verus! {

/// How long a subtitle is shown when its packet gives no duration, in
/// milliseconds.
pub const DEFAULT_SUBTITLE_MS: i64 = 3000;

/// `ms` later by the default duration, held at the end of the 64-bit range.
pub open spec fn default_end(start_ms: i64) -> i64 {
    if start_ms > i64::MAX - DEFAULT_SUBTITLE_MS {
        i64::MAX
    } else {
        (start_ms + DEFAULT_SUBTITLE_MS) as i64
    }
}

/// The interval, in milliseconds, during which the text of a subtitle
/// packet is shown. The start is the packet's timestamp, or zero where it
/// has none; the end lies the packet's duration later, or the default
/// duration where the packet gives none. Without a time base the interval
/// runs from zero for the default duration.
pub open spec fn window_of(pts: Option<i64>, duration: i64, tb: Option<TimeBase>) -> (i64, i64) {
    let start: int = match pts {
        Some(t) => t as int,
        None => 0,
    };
    match tb {
        Some(b) => {
            let start_ms = scaled_ms(start, b) as i64;
            let end_ms = if duration > 0 {
                scaled_ms(start + duration, b) as i64
            } else {
                default_end(start_ms)
            };
            (start_ms, end_ms)
        },
        None => (0, DEFAULT_SUBTITLE_MS),
    }
}

/// Computes the interval during which the text of a subtitle packet is
/// shown, from the packet's timestamp and duration in units of `tb`.
pub fn subtitle_window(pts: Option<i64>, duration: i64, tb: Option<TimeBase>) -> (window: (
    i64,
    i64,
))
    ensures
        window == window_of(pts, duration, tb),
{
    let start: i64 = match pts {
        Some(t) => t,
        None => 0,
    };
    match tb {
        Some(b) => {
            let start_ms = scale_wide(start as i128, b);
            let end_ms = if duration > 0 {
                scale_wide(start as i128 + duration as i128, b)
            } else if start_ms > i64::MAX - DEFAULT_SUBTITLE_MS {
                i64::MAX
            } else {
                start_ms + DEFAULT_SUBTITLE_MS
            };
            (start_ms, end_ms)
        },
        None => (0, DEFAULT_SUBTITLE_MS),
    }
}

/// Builds the frame published for one text region of a subtitle packet, in
/// the standard style. A region without text is not published.
pub fn subtitle_frame(
    text: String,
    pts: Option<i64>,
    duration: i64,
    tb: Option<TimeBase>,
) -> (frame: Option<SubtitleFrame>)
    ensures
        frame.is_some() == (text@.len() > 0),
        frame matches Some(f) ==> {
            &&& f.text == text
            &&& (f.start_ms, f.end_ms) == window_of(pts, duration, tb)
            &&& f.style.is_standard()
        },
{
    if text.as_str().is_empty() {
        return None;
    }
    let (start_ms, end_ms) = subtitle_window(pts, duration, tb);
    Some(SubtitleFrame { text, start_ms, end_ms, style: SubtitleStyle::standard() })
}

} // verus!
