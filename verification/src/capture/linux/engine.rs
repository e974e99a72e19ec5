//! The boundary to the media pipeline engine, as plain values: what the
//! caller is asked to do with a graph, and what the engine answered.
//!
//! The recording pipeline and the screenshot capture decide; whoever owns the
//! engine performs each request and hands the answer back.

use crate::capture::{internal, CaptureBackendError};
use vstd::prelude::*;
use vstd::string::StringExecFns;

verus! {

/// Run state that a graph can be put in.
#[derive(Debug, Clone, Copy, PartialEq, Eq, Structural)]
pub enum GraphState {
    /// Torn down: all resources released.
    Null,
    /// Linked and prerolled, not running.
    Paused,
    /// Running.
    Playing,
}

/// A status message of a graph.
#[derive(Debug, PartialEq)]
pub enum BusMessage {
    /// The graph has flushed and finalized its output.
    Eos,
    /// The graph reported a hard error: the error's text and, where the
    /// engine has one, its debug detail as the engine renders it.
    Error { error: String, debug: Option<String> },
    /// Any other message.
    Other,
}

/// A request to the engine.
#[derive(Debug, PartialEq)]
pub enum EngineAction {
    /// Initialize the engine.
    Initialize,
    /// Build a graph from this description.
    Launch(String),
    /// Start watching the convert stage for the size of the first frame.
    WatchFrameSize,
    /// Put the graph in this run state.
    SetState(GraphState),
    /// Signal end-of-stream to the graph.
    SendEos,
    /// Open the graph's status channel.
    OpenBus,
    /// Wait for the next status message, at most this many seconds.
    AwaitMessage(u64),
    /// Report the frame size that the watch has seen.
    ReadFrameSize,
    /// Report whether the file at this path exists.
    CheckOutput(String),
}

/// An answer of the engine.
#[derive(Debug, PartialEq)]
pub enum EngineEvent {
    /// The request was carried out.
    Done,
    /// The engine refused the request; the text is what it reported.
    Refused(String),
    /// The description was built, but into something that is not a pipeline.
    NotAPipeline,
    /// The graph has no status channel.
    NoBus,
    /// A status message arrived.
    Message(BusMessage),
    /// No status message arrived in time.
    TimedOut,
    /// Width and height of the first frame; zero where none was seen.
    FrameSize(u32, u32),
    /// Whether the output file exists.
    OutputExists(bool),
}

/// The text of an optional string.
pub open spec fn text_of(s: Option<String>) -> Option<Seq<char>> {
    match s {
        Some(t) => Some(t@),
        None => None,
    }
}

/// The message for a hard error of a graph: the error's text, then the debug
/// detail in parentheses where there is one.
pub open spec fn pipeline_error_text(error: Seq<char>, debug: Option<Seq<char>>) -> Seq<char> {
    match debug {
        Some(detail) => "Pipeline error: "@ + error + " ("@ + detail + ")"@,
        None => "Pipeline error: "@ + error,
    }
}

/// The message for an engine that could not be initialized; `reason` is what
/// the engine reported.
pub open spec fn initialization_failure_text(reason: Seq<char>) -> Seq<char> {
    "Failed to initialize GStreamer: "@ + reason
}

/// The message for an answer that does not fit the pending request.
pub open spec fn unexpected_event_text() -> Seq<char> {
    "Engine answer does not match the pending request"@
}

/// The failure for a hard error of a graph.
pub fn pipeline_error(error: &str, debug: &Option<String>) -> (e: CaptureBackendError)
    ensures
        e@ == internal(pipeline_error_text(error@, text_of(*debug))),
{
    let text = String::from_str("Pipeline error: ").concat(error);
    match debug {
        Some(detail) => CaptureBackendError::Internal(
            text.concat(" (").concat(detail.as_str()).concat(")"),
        ),
        None => CaptureBackendError::Internal(text),
    }
}

/// The failure for an engine that could not be initialized.
pub fn initialization_failed(reason: &str) -> (e: CaptureBackendError)
    ensures
        e@ == internal(initialization_failure_text(reason@)),
{
    CaptureBackendError::internal_with("Failed to initialize GStreamer: ", reason)
}

/// The failure for an answer that does not fit the pending request.
pub fn unexpected_event() -> (e: CaptureBackendError)
    ensures
        e@ == internal(unexpected_event_text()),
{
    CaptureBackendError::internal("Engine answer does not match the pending request")
}

} // verus!
