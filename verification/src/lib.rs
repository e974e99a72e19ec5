//! Capture session orchestration for a screen recorder: the session state
//! machine, the capture backend contract, encoder negotiation, the recording
//! pipeline lifecycle, and the registry of the active session.

pub mod capture;
pub mod clock;
pub mod config;
pub mod events;
pub mod ipc;
pub mod state;
pub mod text;

use crate::capture::SelectionResult;
use crate::config::CaptureConfig;
use crate::state::{CaptureState, StateMachine};
use vstd::prelude::*;
use vstd::string::StringExecFns;

verus! {

/// `uuid::Uuid::new_v4`, rendered by its `Display` impl: a random identifier
/// in hyphenated form, which is 36 characters long. Nothing else is claimed
/// of the value; two calls differ.
#[verifier::external_body]
fn random_identifier() -> (id: String)
    ensures
        id@.len() == 36,
{
    uuid::Uuid::new_v4().to_string()
}

/// The path of the temporary screenshot file with the identifier `id`.
pub open spec fn screenshot_path(id: Seq<char>) -> Seq<char> {
    "/tmp/opensnipping-"@ + id + ".png"@
}

/// The path of the temporary screenshot file with the identifier `id`.
pub fn screenshot_temp_path(id: &str) -> (path: String)
    ensures
        path@ == screenshot_path(id@),
{
    String::from_str("/tmp/opensnipping-").concat(id).concat(".png")
}

/// A fresh path for a temporary screenshot file: in `/tmp`, named
/// `opensnipping-`, a random identifier of 36 characters, and `.png`.
pub fn generate_screenshot_temp_path() -> (path: String)
    ensures
        exists|id: Seq<char>| id.len() == 36 && path@ == #[trigger] screenshot_path(id),
{
    let id = random_identifier();
    screenshot_temp_path(id.as_str())
}

/// The state of the application: the session state machine, the accepted
/// configuration, the granted selection, and the backend that records.
///
/// Each of the three slots holds at most one entry. `B` is the backend; the
/// application state never looks inside it.
pub struct AppState<B> {
    pub state_machine: StateMachine,
    pub config: Option<CaptureConfig>,
    /// The selection that the portal granted.
    pub selection: Option<SelectionResult>,
    /// The backend of the active recording.
    pub backend: Option<B>,
}

impl<B> AppState<B> {
    /// An idle application: no configuration, no selection, no backend.
    pub fn new() -> (s: Self)
        ensures
            s.state_machine.state() == CaptureState::Idle,
            s.state_machine.recorded_error() is None,
            s.config is None,
            s.selection is None,
            s.backend is None,
    {
        AppState {
            state_machine: StateMachine::new(),
            config: None,
            selection: None,
            backend: None,
        }
    }
}

impl<B> Default for AppState<B> {
    fn default() -> (s: Self)
        ensures
            s.state_machine.state() == CaptureState::Idle,
            s.state_machine.recorded_error() is None,
            s.config is None,
            s.selection is None,
            s.backend is None,
    {
        AppState::new()
    }
}

} // verus!
