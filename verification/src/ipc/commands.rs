//! The commands of the capture orchestrator.
//!
//! A command decides: it moves the session state machine, keeps or clears the
//! configuration, the selection and the backend, and names the notifications
//! to publish. What takes time, the backend's own work, is done by the
//! caller between two commands, which hands its outcome to the second.
//!
//! A failure of the backend always reaches the user in the same way: the
//! machine enters the error state with the error shown for the failure, the
//! configuration and the selection are cleared, and the error is published.
//! A reset then starts from a clean idle session.

use crate::capture::{
    kind_prefix, CaptureBackendError, RecordingResult, ScreenshotResult, SelectionResult,
};
use crate::config::{validation_failure, CaptureConfig, ConfigErrorView};
use crate::events::{
    CaptureEvent, ErrorEvent, RecordingStartedEvent, RecordingStoppedEvent,
    ScreenshotCompleteEvent, SelectionCompleteEvent, StateChangedEvent,
};
use crate::ipc::errors::{backend_error_to_capture_error, shown_error};
use crate::state::{
    rejection_message, transition_allowed, CaptureError, CaptureErrorView, CaptureState,
    ErrorCode, StateMachine,
};
use crate::AppState;
use vstd::prelude::*;
use vstd::string::StringExecFns;

verus! {

/// What a command returns: its result, and the notifications to publish, in
/// order.
#[derive(Debug)]
pub struct CommandOutcome<T> {
    pub result: Result<T, String>,
    pub events: Vec<CaptureEvent>,
}

/// The notification of a state change.
pub open spec fn state_change(previous: CaptureState, current: CaptureState) -> CaptureEvent {
    CaptureEvent::StateChanged(StateChangedEvent { state: current, previous })
}

/// The notifications are the one error `error`.
pub open spec fn publishes_error(events: Seq<CaptureEvent>, error: CaptureErrorView) -> bool {
    &&& events.len() == 1
    &&& events[0] matches CaptureEvent::Error(event)
    &&& event.error@ == error
}

/// The result is a refusal with the message `text`.
pub open spec fn refused_with<T>(r: Result<T, String>, text: Seq<char>) -> bool {
    r matches Err(message) && message@ == text
}

/// The error for a configuration that failed validation: the field and the
/// reason, under the code for an invalid configuration.
pub open spec fn invalid_config(failure: ConfigErrorView) -> CaptureErrorView {
    CaptureErrorView {
        code: ErrorCode::InvalidConfig,
        message: failure.field + ": "@ + failure.message,
    }
}

/// What a transition command does to the state machine and returns: an
/// allowed transition moves the machine, forgets the recorded error unless
/// it enters the error state, returns the new state and publishes the
/// change; a refused one changes nothing, returns the rejection's message
/// and publishes nothing.
pub open spec fn transition_outcome(
    pre: StateMachine,
    to: CaptureState,
    post: StateMachine,
    result: Result<CaptureState, String>,
    events: Seq<CaptureEvent>,
) -> bool {
    if transition_allowed(pre.state(), to) {
        &&& post.state() == to
        &&& post.recorded_error() == if to == CaptureState::Error {
            pre.recorded_error()
        } else {
            None
        }
        &&& result matches Ok(state)
        &&& state == to
        &&& events == seq![state_change(pre.state(), to)]
    } else {
        &&& post == pre
        &&& refused_with(result, rejection_message(pre.state(), to))
        &&& events.len() == 0
    }
}

/// Everything but the state machine is as it was.
pub open spec fn slots_kept<B>(pre: AppState<B>, post: AppState<B>) -> bool {
    &&& post.config == pre.config
    &&& post.selection == pre.selection
    &&& post.backend == pre.backend
}

/// What a command does that ends a session: where the transition to `to` is
/// allowed, the configuration and the selection are cleared; where it is
/// refused, they stay.
pub open spec fn session_end<B>(
    pre: AppState<B>,
    to: CaptureState,
    post: AppState<B>,
    out: CommandOutcome<CaptureState>,
) -> bool {
    &&& transition_outcome(pre.state_machine, to, post.state_machine, out.result, out.events@)
    &&& post.backend == pre.backend
    &&& if transition_allowed(pre.state_machine.state(), to) {
        post.config is None && post.selection is None
    } else {
        post.config == pre.config && post.selection == pre.selection
    }
}

/// The machine has entered the error state with `error` recorded.
pub open spec fn in_error(machine: StateMachine, error: CaptureErrorView) -> bool {
    &&& machine.state() == CaptureState::Error
    &&& machine.recorded_error() matches Some(recorded)
    &&& recorded@ == error
}

/// The session has failed with `error`: the machine is in the error state
/// with that error recorded, the configuration and the selection are
/// cleared, the backend is kept, and the error is what is published.
pub open spec fn session_failed<B>(
    pre: AppState<B>,
    post: AppState<B>,
    events: Seq<CaptureEvent>,
    error: CaptureErrorView,
) -> bool {
    &&& in_error(post.state_machine, error)
    &&& post.config is None
    &&& post.selection is None
    &&& post.backend == pre.backend
    &&& publishes_error(events, error)
}

/// Answers a liveness probe.
pub fn ping() -> (answer: String)
    ensures
        answer@ == "Pong from Rust!"@,
{
    String::from_str("Pong from Rust!")
}

/// The state of the session.
pub fn get_state<B>(state: &AppState<B>) -> (s: CaptureState)
    ensures
        s == state.state_machine.state(),
{
    state.state_machine.state()
}

/// Asks the state machine for a transition and names the notification.
fn apply_transition(machine: &mut StateMachine, to: CaptureState) -> (out: CommandOutcome<
    CaptureState,
>)
    ensures
        transition_outcome(*old(machine), to, *final(machine), out.result, out.events@),
{
    let previous = machine.state();
    match machine.transition(to) {
        Ok(new_state) => {
            let mut events: Vec<CaptureEvent> = Vec::new();
            events.push(
                CaptureEvent::StateChanged(StateChangedEvent { state: new_state, previous }),
            );
            assert(events@ =~= seq![state_change(previous, to)]);
            CommandOutcome { result: Ok(new_state), events }
        },
        Err(e) => CommandOutcome { result: Err(e.message), events: Vec::new() },
    }
}

/// The notifications that publish `error` alone.
fn error_events(error: CaptureError) -> (events: Vec<CaptureEvent>)
    ensures
        publishes_error(events@, error@),
{
    let mut events: Vec<CaptureEvent> = Vec::new();
    events.push(CaptureEvent::Error(ErrorEvent { error }));
    events
}

/// Fails the session with the error shown for `failure`, and returns what is
/// to be published.
fn fail_session<B>(state: &mut AppState<B>, failure: &CaptureBackendError) -> (events: Vec<
    CaptureEvent,
>)
    ensures
        session_failed(*old(state), *final(state), events@, shown_error(failure@)),
{
    let error = backend_error_to_capture_error(failure);
    state.state_machine.set_error(error.clone());
    state.config = None;
    state.selection = None;
    error_events(error)
}

/// Rejects a configuration that failed validation: the machine enters the
/// error state with an invalid-configuration error, which is published and
/// whose message is returned. Nothing else changes.
fn reject_config<B, T>(state: &mut AppState<B>, field: &str, reason: &str) -> (out: CommandOutcome<
    T,
>)
    ensures
        slots_kept(*old(state), *final(state)),
        config_rejected(
            final(state).state_machine,
            out.result,
            out.events@,
            ConfigErrorView { field: field@, message: reason@ },
        ),
{
    let error = CaptureError {
        code: ErrorCode::InvalidConfig,
        message: String::from_str(field).concat(": ").concat(reason),
    };
    let message = error.message.clone();
    state.state_machine.set_error(error.clone());
    CommandOutcome { result: Err(message), events: error_events(error) }
}

/// A configuration was rejected for `failure`: the machine is in the error
/// state with the invalid-configuration error, which is published and whose
/// message is returned.
pub open spec fn config_rejected<T>(
    post: StateMachine,
    result: Result<T, String>,
    events: Seq<CaptureEvent>,
    failure: ConfigErrorView,
) -> bool {
    &&& in_error(post, invalid_config(failure))
    &&& refused_with(result, invalid_config(failure).message)
    &&& publishes_error(events, invalid_config(failure))
}

/// Starts a capture session with `config`.
///
/// A configuration that fails validation is rejected: the machine enters the
/// error state, and nothing else changes. A valid configuration is kept, and
/// the machine is asked to go to selecting. Where this returns the selecting
/// state, the caller requests the selection from the backend and hands the
/// outcome to [`finish_selection`].
pub fn start_capture<B>(state: &mut AppState<B>, config: CaptureConfig) -> (out: CommandOutcome<
    CaptureState,
>)
    ensures
        final(state).selection == old(state).selection,
        final(state).backend == old(state).backend,
        match validation_failure(config@) {
            Some(failure) => {
                &&& final(state).config == old(state).config
                &&& config_rejected(
                    final(state).state_machine,
                    out.result,
                    out.events@,
                    failure,
                )
            },
            None => {
                &&& final(state).config == Some(config)
                &&& transition_outcome(
                    old(state).state_machine,
                    CaptureState::Selecting,
                    final(state).state_machine,
                    out.result,
                    out.events@,
                )
            },
        },
{
    match config.validate() {
        Err(failure) => reject_config(state, failure.field.as_str(), failure.message.as_str()),
        Ok(_) => {
            state.config = Some(config);
            apply_transition(&mut state.state_machine, CaptureState::Selecting)
        },
    }
}

/// Takes the outcome of the selection that [`start_capture`] asked for.
///
/// A granted selection is kept and published, and the machine is asked to go
/// to recording. A failure fails the session, and the message of the error
/// shown for it is returned.
pub fn finish_selection<B>(
    state: &mut AppState<B>,
    outcome: Result<SelectionResult, CaptureBackendError>,
) -> (out: CommandOutcome<CaptureState>)
    ensures
        match outcome {
            Ok(selection) => {
                &&& final(state).backend == old(state).backend
                &&& final(state).config == old(state).config
                &&& final(state).selection == Some(selection)
                &&& out.events@.len() >= 1
                &&& out.events@[0] == CaptureEvent::SelectionComplete(
                    SelectionCompleteEvent { selection },
                )
                &&& transition_outcome(
                    old(state).state_machine,
                    CaptureState::Recording,
                    final(state).state_machine,
                    out.result,
                    out.events@.drop_first(),
                )
            },
            Err(failure) => {
                &&& session_failed(*old(state), *final(state), out.events@, shown_error(failure@))
                &&& refused_with(out.result, failure@.message)
            },
        },
{
    match outcome {
        Ok(selection) => {
            state.selection = Some(selection);
            let moved = apply_transition(&mut state.state_machine, CaptureState::Recording);
            let mut events: Vec<CaptureEvent> = Vec::new();
            events.push(CaptureEvent::SelectionComplete(SelectionCompleteEvent { selection }));
            let mut rest = moved.events;
            let ghost published = rest@;
            events.append(&mut rest);
            assert(events@.drop_first() =~= published);
            CommandOutcome { result: moved.result, events }
        },
        Err(failure) => {
            let events = fail_session(state, &failure);
            CommandOutcome { result: Err(String::from_str(failure.message())), events }
        },
    }
}

/// Asks the machine for the transition to `to` and leaves everything else
/// as it is.
fn move_to<B>(state: &mut AppState<B>, to: CaptureState) -> (out: CommandOutcome<CaptureState>)
    ensures
        transition_outcome(
            old(state).state_machine,
            to,
            final(state).state_machine,
            out.result,
            out.events@,
        ),
        slots_kept(*old(state), *final(state)),
{
    apply_transition(&mut state.state_machine, to)
}

/// Asks the machine for the transition to `to`, which ends the session:
/// where it is allowed, the configuration and the selection are cleared.
fn end_session<B>(state: &mut AppState<B>, to: CaptureState) -> (out: CommandOutcome<CaptureState>)
    ensures
        session_end(*old(state), to, *final(state), out),
{
    let out = apply_transition(&mut state.state_machine, to);
    if out.result.is_ok() {
        state.config = None;
        state.selection = None;
    }
    out
}

/// Cancels the selection: the machine is asked to go to idle, and the
/// configuration and the selection are cleared where it does.
pub fn cancel_capture<B>(state: &mut AppState<B>) -> (out: CommandOutcome<CaptureState>)
    ensures
        session_end(*old(state), CaptureState::Idle, *final(state), out),
{
    end_session(state, CaptureState::Idle)
}

/// Asks the machine to go to recording.
pub fn begin_recording<B>(state: &mut AppState<B>) -> (out: CommandOutcome<CaptureState>)
    ensures
        transition_outcome(
            old(state).state_machine,
            CaptureState::Recording,
            final(state).state_machine,
            out.result,
            out.events@,
        ),
        slots_kept(*old(state), *final(state)),
{
    move_to(state, CaptureState::Recording)
}

/// Asks the machine to go to paused.
pub fn pause_recording<B>(state: &mut AppState<B>) -> (out: CommandOutcome<CaptureState>)
    ensures
        transition_outcome(
            old(state).state_machine,
            CaptureState::Paused,
            final(state).state_machine,
            out.result,
            out.events@,
        ),
        slots_kept(*old(state), *final(state)),
{
    move_to(state, CaptureState::Paused)
}

/// Asks the machine to go back to recording.
pub fn resume_recording<B>(state: &mut AppState<B>) -> (out: CommandOutcome<CaptureState>)
    ensures
        transition_outcome(
            old(state).state_machine,
            CaptureState::Recording,
            final(state).state_machine,
            out.result,
            out.events@,
        ),
        slots_kept(*old(state), *final(state)),
{
    move_to(state, CaptureState::Recording)
}

/// Asks the machine to go to finalizing.
pub fn stop_recording<B>(state: &mut AppState<B>) -> (out: CommandOutcome<CaptureState>)
    ensures
        transition_outcome(
            old(state).state_machine,
            CaptureState::Finalizing,
            final(state).state_machine,
            out.result,
            out.events@,
        ),
        slots_kept(*old(state), *final(state)),
{
    move_to(state, CaptureState::Finalizing)
}

/// Finalization is complete: the machine is asked to go to idle, and the
/// configuration and the selection are cleared where it does.
pub fn finalize_complete<B>(state: &mut AppState<B>) -> (out: CommandOutcome<CaptureState>)
    ensures
        session_end(*old(state), CaptureState::Idle, *final(state), out),
{
    end_session(state, CaptureState::Idle)
}

/// Leaves the error state: the machine is asked to go to idle.
pub fn reset_error<B>(state: &mut AppState<B>) -> (out: CommandOutcome<CaptureState>)
    ensures
        transition_outcome(
            old(state).state_machine,
            CaptureState::Idle,
            final(state).state_machine,
            out.result,
            out.events@,
        ),
        slots_kept(*old(state), *final(state)),
{
    move_to(state, CaptureState::Idle)
}

/// Starts a screenshot with `config`: a configuration that fails validation
/// is rejected, a valid one changes nothing. Where this succeeds, the caller
/// requests the selection from the backend and hands the outcome to
/// [`screenshot_selection_finished`].
pub fn take_screenshot<B>(state: &mut AppState<B>, config: &CaptureConfig) -> (out: CommandOutcome<
    (),
>)
    ensures
        slots_kept(*old(state), *final(state)),
        match validation_failure(config@) {
            Some(failure) => config_rejected(
                final(state).state_machine,
                out.result,
                out.events@,
                failure,
            ),
            None => {
                &&& final(state).state_machine == old(state).state_machine
                &&& out.result is Ok
                &&& out.events@.len() == 0
            },
        },
{
    match config.validate() {
        Err(failure) => reject_config(state, failure.field.as_str(), failure.message.as_str()),
        Ok(_) => CommandOutcome { result: Ok(()), events: Vec::new() },
    }
}

/// Takes the outcome of the selection for a screenshot: a granted selection
/// changes nothing and is handed back; a failure fails the session. Where
/// this yields the selection, the caller captures it into a fresh temporary
/// file and hands the outcome to [`screenshot_finished`].
pub fn screenshot_selection_finished<B>(
    state: &mut AppState<B>,
    outcome: Result<SelectionResult, CaptureBackendError>,
) -> (out: CommandOutcome<SelectionResult>)
    ensures
        match outcome {
            Ok(selection) => {
                &&& *final(state) == *old(state)
                &&& out.result == Ok::<SelectionResult, String>(selection)
                &&& out.events@.len() == 0
            },
            Err(failure) => {
                &&& session_failed(*old(state), *final(state), out.events@, shown_error(failure@))
                &&& refused_with(out.result, failure@.message)
            },
        },
{
    match outcome {
        Ok(selection) => CommandOutcome { result: Ok(selection), events: Vec::new() },
        Err(failure) => {
            let events = fail_session(state, &failure);
            CommandOutcome { result: Err(String::from_str(failure.message())), events }
        },
    }
}

/// Takes the outcome of the capture of a screenshot: a saved screenshot
/// changes nothing, is published with its path and size, and is returned; a
/// failure fails the session.
pub fn screenshot_finished<B>(
    state: &mut AppState<B>,
    outcome: Result<ScreenshotResult, CaptureBackendError>,
) -> (out: CommandOutcome<ScreenshotResult>)
    ensures
        match outcome {
            Ok(shot) => {
                &&& *final(state) == *old(state)
                &&& out.result == Ok::<ScreenshotResult, String>(shot)
                &&& out.events@.len() == 1
                &&& out.events@[0] matches CaptureEvent::ScreenshotComplete(event)
                &&& event.path == shot.path
                &&& event.width == shot.width
                &&& event.height == shot.height
            },
            Err(failure) => {
                &&& session_failed(*old(state), *final(state), out.events@, shown_error(failure@))
                &&& refused_with(out.result, failure@.message)
            },
        },
{
    match outcome {
        Ok(shot) => {
            let mut events: Vec<CaptureEvent> = Vec::new();
            events.push(CaptureEvent::ScreenshotComplete(ScreenshotCompleteEvent::of(&shot)));
            CommandOutcome { result: Ok(shot), events }
        },
        Err(failure) => {
            let events = fail_session(state, &failure);
            CommandOutcome { result: Err(String::from_str(failure.message())), events }
        },
    }
}

/// Prepares the start of a video recording: it needs the configuration and
/// the selection of the session, and is refused without either. Where this
/// yields them, the caller makes a backend, starts the recording and hands
/// the outcome to [`recording_started`].
pub fn start_recording_video<B>(state: &AppState<B>) -> (r: Result<
    (CaptureConfig, SelectionResult),
    String,
>)
    ensures
        match (state.config, state.selection) {
            (None, _) => refused_with(r, "No capture config set. Call start_capture first."@),
            (Some(_), None) => refused_with(
                r,
                "No selection available. Call start_capture first."@,
            ),
            (Some(config), Some(selection)) => r == Ok::<(CaptureConfig, SelectionResult), String>(
                (config, selection),
            ),
        },
{
    let config = match &state.config {
        Some(config) => config.clone(),
        None => {
            return Err(String::from_str("No capture config set. Call start_capture first."));
        },
    };
    let selection = match state.selection {
        Some(selection) => selection,
        None => {
            return Err(String::from_str("No selection available. Call start_capture first."));
        },
    };
    Ok((config, selection))
}

/// Takes the outcome of the start of a video recording by `backend`.
///
/// After a start that succeeded the backend is kept for the stop, and the
/// start is published with the output path; nothing else changes. After one
/// that failed the backend is dropped, the kept one stays, and the session
/// fails.
pub fn recording_started<B>(
    state: &mut AppState<B>,
    backend: B,
    config: &CaptureConfig,
    outcome: Result<(), CaptureBackendError>,
) -> (out: CommandOutcome<()>)
    ensures
        match outcome {
            Ok(_) => {
                &&& final(state).state_machine == old(state).state_machine
                &&& final(state).config == old(state).config
                &&& final(state).selection == old(state).selection
                &&& final(state).backend == Some(backend)
                &&& out.result is Ok
                &&& out.events@.len() == 1
                &&& out.events@[0] matches CaptureEvent::RecordingStarted(event)
                &&& event.output_path == config.output_path
            },
            Err(failure) => {
                &&& session_failed(*old(state), *final(state), out.events@, shown_error(failure@))
                &&& refused_with(out.result, failure@.message)
            },
        },
{
    match outcome {
        Ok(_) => {
            state.backend = Some(backend);
            let mut events: Vec<CaptureEvent> = Vec::new();
            events.push(
                CaptureEvent::RecordingStarted(
                    RecordingStartedEvent { output_path: config.output_path.clone() },
                ),
            );
            CommandOutcome { result: Ok(()), events }
        },
        Err(failure) => {
            let events = fail_session(state, &failure);
            CommandOutcome { result: Err(String::from_str(failure.message())), events }
        },
    }
}

/// The kept backend, for a pause or a resume of the video recording: refused
/// where none is kept. Where this yields the backend, the caller asks it and
/// hands the outcome to [`pause_recording_video`] or
/// [`resume_recording_video`].
pub fn require_backend<B>(state: &AppState<B>) -> (r: Result<&B, String>)
    ensures
        match state.backend {
            Some(backend) => r == Ok::<&B, String>(&backend),
            None => refused_with(r, "No recording in progress"@),
        },
{
    match &state.backend {
        Some(backend) => Ok(backend),
        None => Err(String::from_str("No recording in progress")),
    }
}

/// The message for a failure of the backend to do what `context` names: the
/// context, then the failure as it is shown.
pub open spec fn control_failure(context: Seq<char>, failure: CaptureBackendError) -> Seq<char> {
    context + (kind_prefix(failure@.kind) + failure@.message)
}

/// What the outcome of a pause or a resume by the backend does: success
/// changes nothing and publishes nothing; a failure fails the session, and
/// the returned message names the operation and shows the failure.
pub open spec fn control_outcome<B>(
    pre: AppState<B>,
    outcome: Result<(), CaptureBackendError>,
    context: Seq<char>,
    post: AppState<B>,
    out: CommandOutcome<()>,
) -> bool {
    match outcome {
        Ok(_) => post == pre && out.result is Ok && out.events@.len() == 0,
        Err(failure) => {
            &&& session_failed(pre, post, out.events@, shown_error(failure@))
            &&& refused_with(out.result, control_failure(context, failure))
        },
    }
}

/// Takes the outcome of a pause or a resume by the backend.
fn control_finished<B>(
    state: &mut AppState<B>,
    outcome: Result<(), CaptureBackendError>,
    context: &str,
) -> (out: CommandOutcome<()>)
    ensures
        control_outcome(*old(state), outcome, context@, *final(state), out),
{
    match outcome {
        Ok(_) => CommandOutcome { result: Ok(()), events: Vec::new() },
        Err(failure) => {
            let events = fail_session(state, &failure);
            let shown = failure.to_string();
            let text = String::from_str(context).concat(shown.as_str());
            CommandOutcome { result: Err(text), events }
        },
    }
}

/// Takes the outcome of the backend's pause.
pub fn pause_recording_video<B>(
    state: &mut AppState<B>,
    outcome: Result<(), CaptureBackendError>,
) -> (out: CommandOutcome<()>)
    ensures
        control_outcome(
            *old(state),
            outcome,
            "Failed to pause recording: "@,
            *final(state),
            out,
        ),
{
    control_finished(state, outcome, "Failed to pause recording: ")
}

/// Takes the outcome of the backend's resume.
pub fn resume_recording_video<B>(
    state: &mut AppState<B>,
    outcome: Result<(), CaptureBackendError>,
) -> (out: CommandOutcome<()>)
    ensures
        control_outcome(
            *old(state),
            outcome,
            "Failed to resume recording: "@,
            *final(state),
            out,
        ),
{
    control_finished(state, outcome, "Failed to resume recording: ")
}

/// Takes the kept backend out of the application state, to stop its
/// recording: refused where none is kept. Afterwards none is kept. Where
/// this yields the backend, the caller stops the recording and hands the
/// outcome to [`recording_stopped`].
pub fn stop_recording_video<B>(state: &mut AppState<B>) -> (r: Result<B, String>)
    ensures
        final(state).state_machine == old(state).state_machine,
        final(state).config == old(state).config,
        final(state).selection == old(state).selection,
        final(state).backend is None,
        match old(state).backend {
            Some(backend) => r == Ok::<B, String>(backend),
            None => refused_with(r, "No recording in progress"@),
        },
{
    match state.backend.take() {
        Some(backend) => Ok(backend),
        None => Err(String::from_str("No recording in progress")),
    }
}

/// What the machine does when a recording has stopped: from a state that
/// allows finalizing it passes through finalizing to idle and publishes both
/// changes; from any other state it stays, and publishes nothing.
pub open spec fn finalized(
    pre: StateMachine,
    post: StateMachine,
    events: Seq<CaptureEvent>,
) -> bool {
    if transition_allowed(pre.state(), CaptureState::Finalizing) {
        &&& post.state() == CaptureState::Idle
        &&& post.recorded_error() is None
        &&& events == seq![
            state_change(pre.state(), CaptureState::Finalizing),
            state_change(CaptureState::Finalizing, CaptureState::Idle),
        ]
    } else {
        &&& post == pre
        &&& events.len() == 0
    }
}

/// Takes the outcome of the stop of the video recording.
///
/// After a recording that was finalized the machine passes through
/// finalizing to idle where it can, the configuration and the selection are
/// cleared, and the recording is published, after the state changes, and
/// returned. A failure fails the session.
pub fn recording_stopped<B>(
    state: &mut AppState<B>,
    outcome: Result<RecordingResult, CaptureBackendError>,
) -> (out: CommandOutcome<RecordingResult>)
    ensures
        match outcome {
            Ok(recording) => {
                &&& final(state).backend == old(state).backend
                &&& final(state).config is None
                &&& final(state).selection is None
                &&& out.result == Ok::<RecordingResult, String>(recording)
                &&& out.events@.len() >= 1
                &&& finalized(
                    old(state).state_machine,
                    final(state).state_machine,
                    out.events@.drop_last(),
                )
                &&& out.events@.last() matches CaptureEvent::RecordingStopped(event)
                &&& event.path == recording.path
                &&& event.duration_ms == recording.duration_ms
                &&& event.width == recording.width
                &&& event.height == recording.height
            },
            Err(failure) => {
                &&& session_failed(*old(state), *final(state), out.events@, shown_error(failure@))
                &&& refused_with(out.result, failure@.message)
            },
        },
{
    match outcome {
        Ok(recording) => {
            let mut events: Vec<CaptureEvent> = Vec::new();
            let previous = state.state_machine.state();
            match state.state_machine.stop() {
                Ok(finalizing) => {
                    events.push(
                        CaptureEvent::StateChanged(
                            StateChangedEvent { state: finalizing, previous },
                        ),
                    );
                    match state.state_machine.finalize_complete() {
                        Ok(idle) => {
                            events.push(
                                CaptureEvent::StateChanged(
                                    StateChangedEvent { state: idle, previous: finalizing },
                                ),
                            );
                        },
                        Err(_) => {},
                    }
                },
                Err(_) => {},
            }
            state.config = None;
            state.selection = None;
            let ghost changes = events@;
            proof {
                if transition_allowed(previous, CaptureState::Finalizing) {
                    assert(changes =~= seq![
                        state_change(previous, CaptureState::Finalizing),
                        state_change(CaptureState::Finalizing, CaptureState::Idle),
                    ]);
                }
                assert(finalized(old(state).state_machine, state.state_machine, changes));
            }
            events.push(CaptureEvent::RecordingStopped(RecordingStoppedEvent::of(&recording)));
            assert(events@.drop_last() =~= changes);
            CommandOutcome { result: Ok(recording), events }
        },
        Err(failure) => {
            let events = fail_session(state, &failure);
            CommandOutcome { result: Err(String::from_str(failure.message())), events }
        },
    }
}

/// The session stays usable after a failure: once it has failed, a reset
/// succeeds and brings the machine to idle with no recorded error, with the
/// configuration and the selection still cleared, and publishes that change.
pub proof fn lemma_reset_recovers_from_failure<B>(
    before: AppState<B>,
    failed: AppState<B>,
    reset: AppState<B>,
    published: Seq<CaptureEvent>,
    error: CaptureErrorView,
    out: CommandOutcome<CaptureState>,
)
    requires
        session_failed(before, failed, published, error),
        transition_outcome(
            failed.state_machine,
            CaptureState::Idle,
            reset.state_machine,
            out.result,
            out.events@,
        ),
        slots_kept(failed, reset),
    ensures
        reset.state_machine.state() == CaptureState::Idle,
        reset.state_machine.recorded_error() is None,
        reset.config is None,
        reset.selection is None,
        out.result matches Ok(s) && s == CaptureState::Idle,
        out.events@ == seq![state_change(CaptureState::Error, CaptureState::Idle)],
{
}

} // verus!
