//! Commands a consumer sends to a running engine pipeline, and the engine
//! requests they turn into.

use vstd::prelude::*;
use crate::text::{format_one_decimal, format_thousandths, one_decimal_text, thousandths_text};

verus! {

/// A command for the engine pipeline. Commands are applied in the order in
/// which they were sent, and none is acknowledged.
#[derive(Debug, Clone, PartialEq, Eq)]
pub enum MpvCommand {
    /// Show the subtitle track with this id.
    SelectSubtitle(i64),
    /// Show no subtitle track.
    DisableSubtitle,
    /// Add the subtitle file at this path to the tracks.
    LoadExternalSub(String),
    /// Show or hide subtitles.
    SetSubVisibility(bool),
    /// Seek to a position counted in milliseconds from the start.
    SeekAbsolute(i64),
    Pause,
    Resume,
    /// Set the volume in percent.
    SetVolume(u32),
}

/// What the worker asks of the engine for one command.
#[derive(Debug, Clone, PartialEq, Eq)]
pub enum EngineRequest {
    /// Set an integer property.
    SetInt { name: String, value: i64 },
    /// Set a property from its text form.
    SetText { name: String, value: String },
    /// Run a command with its arguments; the first is the command's name.
    Run { args: Vec<String> },
}

/// An engine request as plain text and numbers.
pub enum RequestView {
    SetInt { name: Seq<char>, value: i64 },
    SetText { name: Seq<char>, value: Seq<char> },
    Run { args: Seq<Seq<char>> },
}

impl View for EngineRequest {
    type V = RequestView;

    open spec fn view(&self) -> RequestView {
        match *self {
            EngineRequest::SetInt { name, value } => RequestView::SetInt { name: name@, value },
            EngineRequest::SetText { name, value } => RequestView::SetText {
                name: name@,
                value: value@,
            },
            EngineRequest::Run { args } => RequestView::Run {
                args: args@.map_values(|s: String| s@),
            },
        }
    }
}

/// The text of a yes-or-no engine property.
pub open spec fn yes_no(flag: bool) -> Seq<char> {
    if flag {
        "yes"@
    } else {
        "no"@
    }
}

/// The engine request that carries out a command.
pub open spec fn request_for(cmd: MpvCommand) -> RequestView {
    match cmd {
        MpvCommand::SelectSubtitle(id) => RequestView::SetInt { name: "sid"@, value: id },
        MpvCommand::DisableSubtitle => RequestView::SetText { name: "sid"@, value: "no"@ },
        MpvCommand::LoadExternalSub(path) => RequestView::Run { args: seq!["sub-add"@, path@] },
        MpvCommand::SetSubVisibility(visible) => RequestView::SetText {
            name: "sub-visibility"@,
            value: yes_no(visible),
        },
        MpvCommand::SeekAbsolute(ms) => RequestView::Run {
            args: seq!["seek"@, thousandths_text(ms as int), "absolute"@],
        },
        MpvCommand::Pause => RequestView::SetText { name: "pause"@, value: "yes"@ },
        MpvCommand::Resume => RequestView::SetText { name: "pause"@, value: "no"@ },
        MpvCommand::SetVolume(percent) => RequestView::SetText {
            name: "volume"@,
            value: one_decimal_text(percent as nat),
        },
    }
}

fn yes_no_text(flag: bool) -> (s: String)
    ensures
        s@ == yes_no(flag),
{
    if flag {
        String::from_str("yes")
    } else {
        String::from_str("no")
    }
}

/// Turns a command into the request the engine gets for it.
pub fn engine_request(cmd: &MpvCommand) -> (req: EngineRequest)
    ensures
        req@ == request_for(*cmd),
{
    match cmd {
        MpvCommand::SelectSubtitle(id) => EngineRequest::SetInt {
            name: String::from_str("sid"),
            value: *id,
        },
        MpvCommand::DisableSubtitle => EngineRequest::SetText {
            name: String::from_str("sid"),
            value: String::from_str("no"),
        },
        MpvCommand::LoadExternalSub(path) => {
            let mut args: Vec<String> = Vec::new();
            args.push(String::from_str("sub-add"));
            args.push(path.clone());
            assert(args@.map_values(|s: String| s@) =~= seq!["sub-add"@, path@]);
            EngineRequest::Run { args }
        },
        MpvCommand::SetSubVisibility(visible) => EngineRequest::SetText {
            name: String::from_str("sub-visibility"),
            value: yes_no_text(*visible),
        },
        MpvCommand::SeekAbsolute(ms) => {
            let mut args: Vec<String> = Vec::new();
            args.push(String::from_str("seek"));
            args.push(format_thousandths(*ms));
            args.push(String::from_str("absolute"));
            assert(args@.map_values(|s: String| s@) =~= seq![
                "seek"@,
                thousandths_text(*ms as int),
                "absolute"@,
            ]);
            EngineRequest::Run { args }
        },
        MpvCommand::Pause => EngineRequest::SetText {
            name: String::from_str("pause"),
            value: String::from_str("yes"),
        },
        MpvCommand::Resume => EngineRequest::SetText {
            name: String::from_str("pause"),
            value: String::from_str("no"),
        },
        MpvCommand::SetVolume(percent) => EngineRequest::SetText {
            name: String::from_str("volume"),
            value: format_one_decimal(*percent),
        },
    }
}

/// The request that loads the source at `url`.
pub fn load_request(url: &str) -> (req: EngineRequest)
    ensures
        req@ == (RequestView::Run { args: seq!["loadfile"@, url@] }),
{
    let mut args: Vec<String> = Vec::new();
    args.push(String::from_str("loadfile"));
    args.push(String::from_str(url));
    assert(args@.map_values(|s: String| s@) =~= seq!["loadfile"@, url@]);
    EngineRequest::Run { args }
}

/// The request that stops the engine when the loop is left.
pub fn stop_request() -> (req: EngineRequest)
    ensures
        req@ == (RequestView::Run { args: seq!["stop"@] }),
{
    let mut args: Vec<String> = Vec::new();
    args.push(String::from_str("stop"));
    assert(args@.map_values(|s: String| s@) =~= seq!["stop"@]);
    EngineRequest::Run { args }
}

/// Turns the commands drained in one iteration into requests, keeping
/// their order, so that of two commands on one property the later one is
/// applied last.
pub fn engine_requests(cmds: &Vec<MpvCommand>) -> (reqs: Vec<EngineRequest>)
    ensures
        reqs@.len() == cmds@.len(),
        forall|i: int| 0 <= i < cmds@.len() ==> (#[trigger] reqs@[i])@ == request_for(cmds@[i]),
{
    let mut reqs: Vec<EngineRequest> = Vec::new();
    let mut i: usize = 0;
    while i < cmds.len()
        invariant
            i <= cmds@.len(),
            reqs@.len() == i,
            forall|j: int| 0 <= j < i ==> (#[trigger] reqs@[j])@ == request_for(cmds@[j]),
        decreases cmds@.len() - i,
    {
        let req = engine_request(&cmds[i]);
        reqs.push(req);
        i = i + 1;
    }
    reqs
}

} // verus!
