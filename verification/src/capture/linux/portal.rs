//! The boundary to the authorization service, as plain values: what the
//! caller is asked to request of the service, and what the service answered.

use crate::text::{contains_bytes, str_contains};
use vstd::prelude::*;
use vstd::utf8::encode_utf8;

verus! {

/// Kinds of source that the picker can offer.
#[derive(Debug, Clone, Copy, PartialEq, Eq, Structural)]
pub enum SourceType {
    /// A monitor.
    Monitor,
    /// A window.
    Window,
    /// A virtual source.
    Virtual,
}

/// How the cursor appears in the stream.
#[derive(Debug, Clone, Copy, PartialEq, Eq, Structural)]
pub enum CursorMode {
    /// The cursor is not part of the stream.
    Hidden,
    /// The cursor is drawn into the frames.
    Embedded,
    /// The cursor is sent as metadata beside the frames.
    Metadata,
}

/// How long the service remembers the user's choice.
#[derive(Debug, Clone, Copy, PartialEq, Eq, Structural)]
pub enum PersistMode {
    /// Not at all.
    DoNot,
    /// While the application runs.
    Application,
    /// Until the user revokes it.
    ExplicitlyRevoked,
}

/// What the picker is asked to offer.
#[derive(Debug, Clone, Copy, PartialEq, Eq, Structural)]
pub struct SourceOptions {
    /// How the cursor appears.
    pub cursor_mode: CursorMode,
    /// The kind of source offered.
    pub source_type: SourceType,
    /// Whether several sources may be picked.
    pub multiple: bool,
    /// How long the choice is remembered.
    pub persist_mode: PersistMode,
}

/// A stream that the service granted.
#[derive(Debug, Clone, Copy, PartialEq, Eq)]
pub struct StreamInfo {
    /// Node identifier of the stream.
    pub node_id: u32,
    /// Width and height, where the service reports them.
    pub size: Option<(i32, i32)>,
}

/// A request to the authorization service.
#[derive(Debug, Clone, Copy, PartialEq, Eq, Structural)]
pub enum PortalAction {
    /// Connect to the service.
    Connect,
    /// Create a session.
    CreateSession,
    /// Present the picker with these options.
    SelectSources(SourceOptions),
    /// Start the stream.
    Start,
    /// Open the connection that carries the stream.
    OpenRemote,
}

/// An answer of the authorization service.
#[derive(Debug, PartialEq)]
pub enum PortalEvent {
    /// The request was carried out.
    Done,
    /// The request failed; the text is what the service reported.
    Failed(String),
    /// The start request went through, but its response could not be read.
    ResponseFailed(String),
    /// The streams that the service granted.
    Streams(Vec<StreamInfo>),
    /// The descriptor of the connection that carries the stream.
    Remote(i32),
}

/// Whether the text of a failure tells that the user cancelled or declined:
/// it holds the word `cancelled` or the word `denied`.
pub open spec fn tells_refusal(text: Seq<char>) -> bool {
    contains_bytes(encode_utf8(text), encode_utf8("cancelled"@)) || contains_bytes(
        encode_utf8(text),
        encode_utf8("denied"@),
    )
}

/// Decides whether the text of a failure tells that the user cancelled or
/// declined.
pub fn is_refusal(text: &str) -> (b: bool)
    ensures
        b == tells_refusal(text@),
{
    str_contains(text, "cancelled") || str_contains(text, "denied")
}

} // verus!
