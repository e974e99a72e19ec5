//! The capture session state machine: a fixed table of allowed transitions
//! between six states, and the error recorded while in the error state.

use vstd::prelude::*;
use vstd::string::StringExecFns;

verus! {

/// Lifecycle state of a capture session.
#[derive(Debug, Clone, Copy, PartialEq, Eq, Structural)]
pub enum CaptureState {
    /// No capture in progress.
    Idle,
    /// The user is choosing a capture source.
    Selecting,
    /// Recording in progress.
    Recording,
    /// Recording paused.
    Paused,
    /// The output file is being finalized.
    Finalizing,
    /// A failure was recorded.
    Error,
}

impl Default for CaptureState {
    fn default() -> (s: Self)
        ensures
            s == CaptureState::Idle,
    {
        CaptureState::Idle
    }
}

/// Codes that classify a capture failure for the user interface.
#[derive(Debug, Clone, Copy, PartialEq, Eq, Structural)]
pub enum ErrorCode {
    /// The user declined or cancelled.
    PermissionDenied,
    /// Talking to the authorization service failed.
    PortalError,
    /// The service offered no usable stream.
    NoSourceAvailable,
    /// The platform has no backend, or lacks the feature.
    NotSupported,
    /// A protocol or state violation, or a failure of the media engine.
    Internal,
    EncoderUnavailable,
    PipelineError,
    IoError,
    InvalidConfig,
    Unknown,
}

/// A classified failure with its human-readable message.
#[derive(Debug, PartialEq)]
pub struct CaptureError {
    pub code: ErrorCode,
    pub message: String,
}

/// Mathematical value of a [`CaptureError`].
pub struct CaptureErrorView {
    pub code: ErrorCode,
    pub message: Seq<char>,
}

impl View for CaptureError {
    type V = CaptureErrorView;

    open spec fn view(&self) -> CaptureErrorView {
        CaptureErrorView { code: self.code, message: self.message@ }
    }
}

impl Clone for CaptureError {
    fn clone(&self) -> (r: Self)
        ensures
            r == *self,
    {
        CaptureError { code: self.code, message: self.message.clone() }
    }
}

/// A rejected transition: the state the machine was in, the state that was
/// asked for, and a message naming both.
#[derive(Debug, PartialEq)]
pub struct TransitionError {
    pub from: CaptureState,
    pub to: CaptureState,
    pub message: String,
}

/// Mathematical value of a [`TransitionError`].
pub struct TransitionErrorView {
    pub from: CaptureState,
    pub to: CaptureState,
    pub message: Seq<char>,
}

impl View for TransitionError {
    type V = TransitionErrorView;

    open spec fn view(&self) -> TransitionErrorView {
        TransitionErrorView { from: self.from, to: self.to, message: self.message@ }
    }
}

impl Clone for TransitionError {
    fn clone(&self) -> (r: Self)
        ensures
            r == *self,
    {
        TransitionError { from: self.from, to: self.to, message: self.message.clone() }
    }
}

/// The name under which a state appears in messages.
pub open spec fn state_name(s: CaptureState) -> Seq<char> {
    match s {
        CaptureState::Idle => "Idle"@,
        CaptureState::Selecting => "Selecting"@,
        CaptureState::Recording => "Recording"@,
        CaptureState::Paused => "Paused"@,
        CaptureState::Finalizing => "Finalizing"@,
        CaptureState::Error => "Error"@,
    }
}

/// The edges of the transition table, not counting the no-op from a state to
/// itself.
pub open spec fn in_table(from: CaptureState, to: CaptureState) -> bool {
    match from {
        CaptureState::Idle => to == CaptureState::Selecting || to == CaptureState::Error,
        CaptureState::Selecting => to == CaptureState::Recording || to == CaptureState::Idle || to
            == CaptureState::Error,
        CaptureState::Recording => to == CaptureState::Paused || to == CaptureState::Finalizing
            || to == CaptureState::Error,
        CaptureState::Paused => to == CaptureState::Recording || to == CaptureState::Finalizing
            || to == CaptureState::Error,
        CaptureState::Finalizing => to == CaptureState::Idle || to == CaptureState::Error,
        CaptureState::Error => to == CaptureState::Idle,
    }
}

/// Whether the machine accepts a request to go from `from` to `to`: an edge of
/// the table, or staying where it is.
pub open spec fn transition_allowed(from: CaptureState, to: CaptureState) -> bool {
    from == to || in_table(from, to)
}

/// No state is terminal: the error state leads back to idle, and every other
/// state leads to the error state, from where idle is one step away.
pub proof fn lemma_no_state_is_terminal(s: CaptureState)
    ensures
        transition_allowed(CaptureState::Error, CaptureState::Idle),
        s != CaptureState::Error ==> transition_allowed(s, CaptureState::Error),
        s == CaptureState::Finalizing ==> transition_allowed(s, CaptureState::Idle),
{
}

/// No edge of the table leads from a state to itself.
pub proof fn lemma_table_has_no_loops(s: CaptureState)
    ensures
        !in_table(s, s),
{
}

/// The message of a rejected transition.
pub open spec fn rejection_message(from: CaptureState, to: CaptureState) -> Seq<char> {
    "Cannot transition from "@ + state_name(from) + " to "@ + state_name(to)
}

/// What a reader of a [`TransitionError`] is shown.
pub open spec fn transition_error_text(e: TransitionErrorView) -> Seq<char> {
    "Invalid transition from "@ + state_name(e.from) + " to "@ + state_name(e.to) + ": "@
        + e.message
}

/// Name of a state, as used in messages.
pub fn state_label(s: CaptureState) -> (name: &'static str)
    ensures
        name@ == state_name(s),
{
    match s {
        CaptureState::Idle => "Idle",
        CaptureState::Selecting => "Selecting",
        CaptureState::Recording => "Recording",
        CaptureState::Paused => "Paused",
        CaptureState::Finalizing => "Finalizing",
        CaptureState::Error => "Error",
    }
}

/// Decides whether the table admits going from `from` to `to`.
pub fn can_transition(from: CaptureState, to: CaptureState) -> (b: bool)
    ensures
        b == transition_allowed(from, to),
{
    if from == to {
        return true;
    }
    match from {
        CaptureState::Idle => to == CaptureState::Selecting || to == CaptureState::Error,
        CaptureState::Selecting => to == CaptureState::Recording || to == CaptureState::Idle || to
            == CaptureState::Error,
        CaptureState::Recording => to == CaptureState::Paused || to == CaptureState::Finalizing
            || to == CaptureState::Error,
        CaptureState::Paused => to == CaptureState::Recording || to == CaptureState::Finalizing
            || to == CaptureState::Error,
        CaptureState::Finalizing => to == CaptureState::Idle || to == CaptureState::Error,
        CaptureState::Error => to == CaptureState::Idle,
    }
}

impl TransitionError {
    /// The rejection of a request to go from `from` to `to`.
    pub fn rejected(from: CaptureState, to: CaptureState) -> (e: TransitionError)
        ensures
            e@ == (TransitionErrorView { from, to, message: rejection_message(from, to) }),
    {
        let message = String::from_str("Cannot transition from ").concat(state_label(from)).concat(
            " to ",
        ).concat(state_label(to));
        TransitionError { from, to, message }
    }

    /// The text shown for this error.
    pub fn to_string(&self) -> (text: String)
        ensures
            text@ == transition_error_text(self@),
    {
        String::from_str("Invalid transition from ").concat(state_label(self.from)).concat(
            " to ",
        ).concat(state_label(self.to)).concat(": ").concat(self.message.as_str())
    }
}

/// State machine of one capture session.
#[derive(Debug)]
pub struct StateMachine {
    state: CaptureState,
    last_error: Option<CaptureError>,
}

/// What a transition request does to a machine: `pre` and `post` are the
/// machine before and after, `r` is what the request returned.
///
/// An allowed request moves the machine to `to` and, unless `to` is the error
/// state, forgets the recorded error. A request outside the table leaves the
/// machine as it was and reports the pair that was refused.
pub open spec fn transition_effect(
    pre: StateMachine,
    to: CaptureState,
    post: StateMachine,
    r: Result<CaptureState, TransitionError>,
) -> bool {
    if transition_allowed(pre.state(), to) {
        &&& r == Ok::<CaptureState, TransitionError>(to)
        &&& post.state() == to
        &&& post.recorded_error() == if to == CaptureState::Error {
            pre.recorded_error()
        } else {
            None
        }
    } else {
        &&& post == pre
        &&& r matches Err(e)
        &&& e@ == (TransitionErrorView {
            from: pre.state(),
            to,
            message: rejection_message(pre.state(), to),
        })
    }
}

/// A request outside the table fails, and the machine is afterwards as it
/// was: in the same state, with the same recorded error.
pub proof fn lemma_rejected_request_changes_nothing(
    pre: StateMachine,
    to: CaptureState,
    post: StateMachine,
    r: Result<CaptureState, TransitionError>,
)
    requires
        !transition_allowed(pre.state(), to),
        transition_effect(pre, to, post, r),
    ensures
        r matches Err(e) && e.from == pre.state() && e.to == to,
        post.state() == pre.state(),
        post.recorded_error() == pre.recorded_error(),
{
}

/// A request of the table succeeds, and the machine is afterwards in the
/// requested state; unless that is the error state, no error is recorded any
/// more.
pub proof fn lemma_accepted_request_moves(
    pre: StateMachine,
    to: CaptureState,
    post: StateMachine,
    r: Result<CaptureState, TransitionError>,
)
    requires
        transition_allowed(pre.state(), to),
        transition_effect(pre, to, post, r),
    ensures
        r == Ok::<CaptureState, TransitionError>(to),
        post.state() == to,
        to != CaptureState::Error ==> post.recorded_error() is None,
{
}

impl Default for StateMachine {
    fn default() -> (sm: Self)
        ensures
            sm.state() == CaptureState::Idle,
            sm.recorded_error() is None,
    {
        StateMachine::new()
    }
}

impl StateMachine {
    /// The state the machine is in.
    pub closed spec fn spec_state(&self) -> CaptureState {
        self.state
    }

    /// The error recorded by the last `set_error`, if no later transition
    /// cleared it.
    pub closed spec fn recorded_error(&self) -> Option<CaptureError> {
        self.last_error
    }

    /// A machine in the idle state with no recorded error.
    pub fn new() -> (sm: Self)
        ensures
            sm.state() == CaptureState::Idle,
            sm.recorded_error() is None,
    {
        StateMachine { state: CaptureState::Idle, last_error: None }
    }

    /// The current state.
    #[verifier::when_used_as_spec(spec_state)]
    pub fn state(&self) -> (s: CaptureState)
        ensures
            s == self.spec_state(),
    {
        self.state
    }

    /// The recorded error, if any.
    pub fn last_error(&self) -> (e: Option<&CaptureError>)
        ensures
            match e {
                Some(err) => self.recorded_error() == Some(*err),
                None => self.recorded_error() is None,
            },
    {
        self.last_error.as_ref()
    }

    /// Requests a move to `to`.
    pub fn transition(&mut self, to: CaptureState) -> (r: Result<CaptureState, TransitionError>)
        ensures
            transition_effect(*old(self), to, *final(self), r),
    {
        let from = self.state;
        if can_transition(from, to) {
            self.state = to;
            if to != CaptureState::Error {
                self.last_error = None;
            }
            Ok(to)
        } else {
            Err(TransitionError::rejected(from, to))
        }
    }

    /// Starts a capture: idle to selecting.
    pub fn start_selecting(&mut self) -> (r: Result<CaptureState, TransitionError>)
        ensures
            transition_effect(*old(self), CaptureState::Selecting, *final(self), r),
    {
        self.transition(CaptureState::Selecting)
    }

    /// Cancels the selection: selecting to idle.
    pub fn cancel_selection(&mut self) -> (r: Result<CaptureState, TransitionError>)
        ensures
            transition_effect(*old(self), CaptureState::Idle, *final(self), r),
    {
        self.transition(CaptureState::Idle)
    }

    /// Begins recording: selecting to recording.
    pub fn begin_recording(&mut self) -> (r: Result<CaptureState, TransitionError>)
        ensures
            transition_effect(*old(self), CaptureState::Recording, *final(self), r),
    {
        self.transition(CaptureState::Recording)
    }

    /// Pauses: recording to paused.
    pub fn pause(&mut self) -> (r: Result<CaptureState, TransitionError>)
        ensures
            transition_effect(*old(self), CaptureState::Paused, *final(self), r),
    {
        self.transition(CaptureState::Paused)
    }

    /// Resumes: paused to recording.
    pub fn resume(&mut self) -> (r: Result<CaptureState, TransitionError>)
        ensures
            transition_effect(*old(self), CaptureState::Recording, *final(self), r),
    {
        self.transition(CaptureState::Recording)
    }

    /// Stops: recording or paused to finalizing.
    pub fn stop(&mut self) -> (r: Result<CaptureState, TransitionError>)
        ensures
            transition_effect(*old(self), CaptureState::Finalizing, *final(self), r),
    {
        self.transition(CaptureState::Finalizing)
    }

    /// Finalization is complete: finalizing to idle.
    pub fn finalize_complete(&mut self) -> (r: Result<CaptureState, TransitionError>)
        ensures
            transition_effect(*old(self), CaptureState::Idle, *final(self), r),
    {
        self.transition(CaptureState::Idle)
    }

    /// Records a failure detected outside the machine. Accepted in every
    /// state; it does not consult the table.
    pub fn set_error(&mut self, error: CaptureError) -> (s: CaptureState)
        ensures
            s == CaptureState::Error,
            final(self).state() == CaptureState::Error,
            final(self).recorded_error() == Some(error),
    {
        self.last_error = Some(error);
        self.state = CaptureState::Error;
        CaptureState::Error
    }

    /// Leaves the error state: error to idle.
    pub fn reset(&mut self) -> (r: Result<CaptureState, TransitionError>)
        ensures
            transition_effect(*old(self), CaptureState::Idle, *final(self), r),
    {
        self.transition(CaptureState::Idle)
    }
}

} // verus!
