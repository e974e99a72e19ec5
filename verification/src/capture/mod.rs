//! The capture backend contract: the values a backend exchanges with its
//! caller, the failures it reports, and the operations every backend offers.

pub mod fake;
pub mod linux;

use crate::capture::linux::LinuxCaptureBackend;
use crate::config::CaptureConfig;
use vstd::prelude::*;
use vstd::string::StringExecFns;

verus! {

/// A granted selection: the handle of the stream the user picked.
#[derive(Debug, Clone, Copy, PartialEq, Eq)]
pub struct SelectionResult {
    /// Node identifier of the selected stream.
    pub node_id: u32,
    /// Descriptor of the connection that carries the stream, if there is one.
    pub stream_fd: Option<i32>,
    /// Width of the source, once the stream has reported it.
    pub width: Option<u32>,
    /// Height of the source, once the stream has reported it.
    pub height: Option<u32>,
}

/// A saved screenshot.
#[derive(Debug, PartialEq)]
pub struct ScreenshotResult {
    /// Path of the saved file.
    pub path: String,
    /// Width in pixels.
    pub width: u32,
    /// Height in pixels.
    pub height: u32,
}

/// Mathematical value of a [`ScreenshotResult`].
pub struct ScreenshotResultView {
    pub path: Seq<char>,
    pub width: u32,
    pub height: u32,
}

impl View for ScreenshotResult {
    type V = ScreenshotResultView;

    open spec fn view(&self) -> ScreenshotResultView {
        ScreenshotResultView { path: self.path@, width: self.width, height: self.height }
    }
}

impl Clone for ScreenshotResult {
    fn clone(&self) -> (r: Self)
        ensures
            r == *self,
    {
        ScreenshotResult { path: self.path.clone(), width: self.width, height: self.height }
    }
}

/// A finished recording.
#[derive(Debug, PartialEq)]
pub struct RecordingResult {
    /// Path of the saved file.
    pub path: String,
    /// Wall-clock time from start to stop, in milliseconds.
    pub duration_ms: u64,
    /// Width in pixels.
    pub width: u32,
    /// Height in pixels.
    pub height: u32,
}

/// Mathematical value of a [`RecordingResult`].
pub struct RecordingResultView {
    pub path: Seq<char>,
    pub duration_ms: u64,
    pub width: u32,
    pub height: u32,
}

impl View for RecordingResult {
    type V = RecordingResultView;

    open spec fn view(&self) -> RecordingResultView {
        RecordingResultView {
            path: self.path@,
            duration_ms: self.duration_ms,
            width: self.width,
            height: self.height,
        }
    }
}

impl Clone for RecordingResult {
    fn clone(&self) -> (r: Self)
        ensures
            r == *self,
    {
        RecordingResult {
            path: self.path.clone(),
            duration_ms: self.duration_ms,
            width: self.width,
            height: self.height,
        }
    }
}

/// Why a capture operation failed. Every variant carries a message for the
/// user.
#[derive(Debug, PartialEq)]
pub enum CaptureBackendError {
    /// The user declined or cancelled.
    PermissionDenied(String),
    /// Talking to the authorization service failed.
    PortalError(String),
    /// The service offered no usable stream.
    NoSourceAvailable(String),
    /// The platform has no backend, or lacks the feature.
    NotSupported(String),
    /// A protocol or state violation, or a failure of the media engine.
    Internal(String),
}

/// The kinds of backend failure, without their messages.
#[derive(Debug, Clone, Copy, PartialEq, Eq, Structural)]
pub enum BackendErrorKind {
    PermissionDenied,
    PortalError,
    NoSourceAvailable,
    NotSupported,
    Internal,
}

/// Mathematical value of a [`CaptureBackendError`].
pub struct BackendErrorView {
    pub kind: BackendErrorKind,
    pub message: Seq<char>,
}

impl View for CaptureBackendError {
    type V = BackendErrorView;

    open spec fn view(&self) -> BackendErrorView {
        match self {
            CaptureBackendError::PermissionDenied(m) => BackendErrorView {
                kind: BackendErrorKind::PermissionDenied,
                message: m@,
            },
            CaptureBackendError::PortalError(m) => BackendErrorView {
                kind: BackendErrorKind::PortalError,
                message: m@,
            },
            CaptureBackendError::NoSourceAvailable(m) => BackendErrorView {
                kind: BackendErrorKind::NoSourceAvailable,
                message: m@,
            },
            CaptureBackendError::NotSupported(m) => BackendErrorView {
                kind: BackendErrorKind::NotSupported,
                message: m@,
            },
            CaptureBackendError::Internal(m) => BackendErrorView {
                kind: BackendErrorKind::Internal,
                message: m@,
            },
        }
    }
}

impl Clone for CaptureBackendError {
    fn clone(&self) -> (r: Self)
        ensures
            r == *self,
    {
        match self {
            CaptureBackendError::PermissionDenied(m) => CaptureBackendError::PermissionDenied(
                m.clone(),
            ),
            CaptureBackendError::PortalError(m) => CaptureBackendError::PortalError(m.clone()),
            CaptureBackendError::NoSourceAvailable(m) => CaptureBackendError::NoSourceAvailable(
                m.clone(),
            ),
            CaptureBackendError::NotSupported(m) => CaptureBackendError::NotSupported(m.clone()),
            CaptureBackendError::Internal(m) => CaptureBackendError::Internal(m.clone()),
        }
    }
}

/// The words that introduce the message of each kind of failure.
pub open spec fn kind_prefix(kind: BackendErrorKind) -> Seq<char> {
    match kind {
        BackendErrorKind::PermissionDenied => "Permission denied: "@,
        BackendErrorKind::PortalError => "Portal error: "@,
        BackendErrorKind::NoSourceAvailable => "No source available: "@,
        BackendErrorKind::NotSupported => "Not supported: "@,
        BackendErrorKind::Internal => "Internal error: "@,
    }
}

/// An internal failure whose message is `text`.
pub open spec fn internal(text: Seq<char>) -> BackendErrorView {
    BackendErrorView { kind: BackendErrorKind::Internal, message: text }
}

impl CaptureBackendError {
    /// The kind of this failure.
    pub fn kind(&self) -> (k: BackendErrorKind)
        ensures
            k == self@.kind,
    {
        match self {
            CaptureBackendError::PermissionDenied(_) => BackendErrorKind::PermissionDenied,
            CaptureBackendError::PortalError(_) => BackendErrorKind::PortalError,
            CaptureBackendError::NoSourceAvailable(_) => BackendErrorKind::NoSourceAvailable,
            CaptureBackendError::NotSupported(_) => BackendErrorKind::NotSupported,
            CaptureBackendError::Internal(_) => BackendErrorKind::Internal,
        }
    }

    /// The message carried by this failure.
    pub fn message(&self) -> (m: &str)
        ensures
            m@ == self@.message,
    {
        match self {
            CaptureBackendError::PermissionDenied(m) => m.as_str(),
            CaptureBackendError::PortalError(m) => m.as_str(),
            CaptureBackendError::NoSourceAvailable(m) => m.as_str(),
            CaptureBackendError::NotSupported(m) => m.as_str(),
            CaptureBackendError::Internal(m) => m.as_str(),
        }
    }

    /// The text shown for this failure: the words for its kind, then its
    /// message.
    pub fn to_string(&self) -> (text: String)
        ensures
            text@ == kind_prefix(self@.kind) + self@.message,
    {
        let prefix = match self {
            CaptureBackendError::PermissionDenied(_) => "Permission denied: ",
            CaptureBackendError::PortalError(_) => "Portal error: ",
            CaptureBackendError::NoSourceAvailable(_) => "No source available: ",
            CaptureBackendError::NotSupported(_) => "Not supported: ",
            CaptureBackendError::Internal(_) => "Internal error: ",
        };
        String::from_str(prefix).concat(self.message())
    }

    /// An internal failure with the given message.
    pub fn internal(text: &str) -> (e: CaptureBackendError)
        ensures
            e@ == internal(text@),
    {
        CaptureBackendError::Internal(String::from_str(text))
    }

    /// An internal failure whose message is `context` followed by `detail`.
    pub fn internal_with(context: &str, detail: &str) -> (e: CaptureBackendError)
        ensures
            e@ == internal(context@ + detail@),
    {
        CaptureBackendError::Internal(String::from_str(context).concat(detail))
    }
}

/// Whether a backend holds an active recording, and whether that recording
/// is paused.
pub struct RecordingStatus {
    pub active: bool,
    pub paused: bool,
}

/// What a request for selection may do to a backend: it never touches the
/// recording.
pub open spec fn selection_contract(pre: RecordingStatus, post: RecordingStatus) -> bool {
    post == pre
}

/// What a screenshot may do to a backend: it never touches the recording, and
/// a saved screenshot lies at the path that was asked for.
pub open spec fn screenshot_contract(
    pre: RecordingStatus,
    output_path: Seq<char>,
    post: RecordingStatus,
    r: Result<ScreenshotResult, CaptureBackendError>,
) -> bool {
    &&& post == pre
    &&& r matches Ok(shot) ==> shot.path@ == output_path
}

/// What starting a recording may do to a backend: while a recording is
/// active the start fails and that recording is not disturbed; a start that
/// succeeds leaves a running recording, one that fails changes nothing.
pub open spec fn start_contract(
    pre: RecordingStatus,
    post: RecordingStatus,
    r: Result<(), CaptureBackendError>,
) -> bool {
    &&& pre.active ==> r is Err
    &&& r is Ok ==> post.active && !post.paused
    &&& r is Err ==> post == pre
}

/// Whether a failure tells that an operation was asked for in the wrong
/// state, or on a backend that cannot record at all.
pub open spec fn is_state_violation(e: CaptureBackendError) -> bool {
    e@.kind == BackendErrorKind::Internal || e@.kind == BackendErrorKind::NotSupported
}

/// What stopping may do to a backend: afterwards no recording is active,
/// whatever came of the stop, and without an active recording the stop fails.
pub open spec fn stop_contract(
    pre: RecordingStatus,
    post: RecordingStatus,
    r: Result<RecordingResult, CaptureBackendError>,
) -> bool {
    &&& !post.active
    &&& !post.paused
    &&& !pre.active ==> (r matches Err(e) && is_state_violation(e))
}

/// What pausing (`pausing` holds) or resuming may do to a backend: the
/// recording stays active or inactive as it was; the call fails where no
/// recording is active or the recording is in the asked-for state already;
/// where it succeeds the recording has changed to that state, where it fails
/// nothing has changed.
pub open spec fn toggle_contract(
    pre: RecordingStatus,
    pausing: bool,
    post: RecordingStatus,
    r: Result<(), CaptureBackendError>,
) -> bool {
    &&& post.active == pre.active
    &&& (!pre.active || pre.paused == pausing) ==> (r matches Err(e) && is_state_violation(e))
    &&& r is Ok ==> post.paused == pausing
    &&& r is Err ==> post.paused == pre.paused
}

/// The operations that every capture backend offers.
///
/// A backend serves one caller at a time: every operation takes the backend
/// exclusively. At most one recording is active per backend.
pub trait CaptureBackend {
    /// Whether a recording is active, and whether it is paused.
    spec fn recording_status(&self) -> RecordingStatus;

    /// Asks the user to select a screen, window or region.
    fn request_selection(&mut self, config: &CaptureConfig) -> (r: Result<
        SelectionResult,
        CaptureBackendError,
    >)
        ensures
            selection_contract(old(self).recording_status(), final(self).recording_status()),
    ;

    /// Cancels a selection and releases what keeps its stream alive. Does
    /// nothing where no selection is held.
    fn cancel_selection(&mut self) -> (r: Result<(), CaptureBackendError>)
        ensures
            selection_contract(old(self).recording_status(), final(self).recording_status()),
    ;

    /// Saves one frame of the selection at `output_path`.
    fn capture_screenshot(&mut self, selection: &SelectionResult, output_path: &str) -> (r: Result<
        ScreenshotResult,
        CaptureBackendError,
    >)
        ensures
            screenshot_contract(
                old(self).recording_status(),
                output_path@,
                final(self).recording_status(),
                r,
            ),
    ;

    /// Starts recording the selection.
    fn start_recording(&mut self, selection: &SelectionResult, config: &CaptureConfig) -> (r:
        Result<(), CaptureBackendError>)
        ensures
            start_contract(old(self).recording_status(), final(self).recording_status(), r),
    ;

    /// Stops the active recording and finalizes its file.
    fn stop_recording(&mut self) -> (r: Result<RecordingResult, CaptureBackendError>)
        ensures
            stop_contract(old(self).recording_status(), final(self).recording_status(), r),
    ;

    /// Pauses the active recording.
    fn pause_recording(&mut self) -> (r: Result<(), CaptureBackendError>)
        ensures
            toggle_contract(old(self).recording_status(), true, final(self).recording_status(), r),
    ;

    /// Resumes the paused recording.
    fn resume_recording(&mut self) -> (r: Result<(), CaptureBackendError>)
        ensures
            toggle_contract(
                old(self).recording_status(),
                false,
                final(self).recording_status(),
                r,
            ),
    ;
}

/// A second start without a stop in between fails, and the recording that
/// the first start began stays active.
pub proof fn lemma_second_start_fails(
    before: RecordingStatus,
    started: RecordingStatus,
    after: RecordingStatus,
    first: Result<(), CaptureBackendError>,
    second: Result<(), CaptureBackendError>,
)
    requires
        start_contract(before, started, first),
        first is Ok,
        start_contract(started, after, second),
    ensures
        second is Err,
        after.active,
        after == started,
{
}

/// Pausing twice in a row fails the second time, and so does resuming twice:
/// the second call finds the recording in the asked-for state.
pub proof fn lemma_repeated_toggle_fails(
    before: RecordingStatus,
    toggled: RecordingStatus,
    after: RecordingStatus,
    pausing: bool,
    first: Result<(), CaptureBackendError>,
    second: Result<(), CaptureBackendError>,
)
    requires
        toggle_contract(before, pausing, toggled, first),
        first is Ok,
        toggle_contract(toggled, pausing, after, second),
    ensures
        second matches Err(e) && is_state_violation(e),
        after == toggled,
{
}

/// After a stop, whatever came of it, a further stop, pause or resume fails.
pub proof fn lemma_nothing_to_control_after_stop(
    before: RecordingStatus,
    stopped: RecordingStatus,
    after: RecordingStatus,
    pausing: bool,
    stop: Result<RecordingResult, CaptureBackendError>,
    second_stop: Result<RecordingResult, CaptureBackendError>,
    toggle: Result<(), CaptureBackendError>,
)
    requires
        stop_contract(before, stopped, stop),
    ensures
        stop_contract(stopped, after, second_stop) ==> second_stop is Err,
        toggle_contract(stopped, pausing, after, toggle) ==> toggle is Err,
{
}

/// The backend of a platform without capture support: every operation but
/// cancelling reports that it is not supported.
#[derive(Debug)]
pub struct StubBackend;

impl Default for StubBackend {
    fn default() -> (b: Self)
        ensures
            b == StubBackend,
    {
        StubBackend
    }
}

/// A failure that tells that the platform lacks the feature.
pub open spec fn not_supported(text: Seq<char>) -> BackendErrorView {
    BackendErrorView { kind: BackendErrorKind::NotSupported, message: text }
}

impl StubBackend {
    /// The failure of an operation that the platform lacks.
    fn unsupported(text: &str) -> (e: CaptureBackendError)
        ensures
            e@ == not_supported(text@),
    {
        CaptureBackendError::NotSupported(String::from_str(text))
    }
}

impl CaptureBackend for StubBackend {
    open spec fn recording_status(&self) -> RecordingStatus {
        RecordingStatus { active: false, paused: false }
    }

    fn request_selection(&mut self, config: &CaptureConfig) -> (r: Result<
        SelectionResult,
        CaptureBackendError,
    >)
        ensures
            r matches Err(e) && e@ == not_supported("Capture not implemented for this platform"@),
    {
        Err(StubBackend::unsupported("Capture not implemented for this platform"))
    }

    fn cancel_selection(&mut self) -> (r: Result<(), CaptureBackendError>)
        ensures
            r is Ok,
    {
        Ok(())
    }

    fn capture_screenshot(&mut self, selection: &SelectionResult, output_path: &str) -> (r: Result<
        ScreenshotResult,
        CaptureBackendError,
    >)
        ensures
            r matches Err(e) && e@ == not_supported(
                "Screenshot not implemented for this platform"@,
            ),
    {
        Err(StubBackend::unsupported("Screenshot not implemented for this platform"))
    }

    fn start_recording(&mut self, selection: &SelectionResult, config: &CaptureConfig) -> (r:
        Result<(), CaptureBackendError>)
        ensures
            r matches Err(e) && e@ == not_supported("Recording not implemented for this platform"@),
    {
        Err(StubBackend::unsupported("Recording not implemented for this platform"))
    }

    fn stop_recording(&mut self) -> (r: Result<RecordingResult, CaptureBackendError>)
        ensures
            r matches Err(e) && e@ == not_supported("Recording not implemented for this platform"@),
    {
        Err(StubBackend::unsupported("Recording not implemented for this platform"))
    }

    fn pause_recording(&mut self) -> (r: Result<(), CaptureBackendError>)
        ensures
            r matches Err(e) && e@ == not_supported("Recording not implemented for this platform"@),
    {
        Err(StubBackend::unsupported("Recording not implemented for this platform"))
    }

    fn resume_recording(&mut self) -> (r: Result<(), CaptureBackendError>)
        ensures
            r matches Err(e) && e@ == not_supported("Recording not implemented for this platform"@),
    {
        Err(StubBackend::unsupported("Recording not implemented for this platform"))
    }
}

/// The platforms that the backend is chosen for.
#[derive(Debug, Clone, Copy, PartialEq, Eq, Structural)]
pub enum Platform {
    /// Linux, with the portal and the media engine.
    Linux,
    /// Any platform without capture support.
    Other,
}

/// The backend of a platform: one of a closed set.
#[derive(Debug)]
pub enum PlatformBackend<S, G> {
    Linux(LinuxCaptureBackend<S, G>),
    Stub(StubBackend),
}

/// The backend for a platform: on Linux a backend that holds no session and
/// no recording, elsewhere the stub.
pub fn get_backend<S, G>(platform: Platform) -> (backend: PlatformBackend<S, G>)
    ensures
        match platform {
            Platform::Linux => backend matches PlatformBackend::Linux(linux)
                && linux.held_session() is None && linux.active_recording() is None,
            Platform::Other => backend is Stub,
        },
{
    match platform {
        Platform::Linux => PlatformBackend::Linux(LinuxCaptureBackend::new()),
        Platform::Other => PlatformBackend::Stub(StubBackend),
    }
}

} // verus!
