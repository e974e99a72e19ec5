//! A deterministic backend without a portal or a media engine. It succeeds or
//! fails as it is told to, counts what is asked of it, and keeps track of one
//! recording.

use crate::capture::{
    internal, BackendErrorKind, BackendErrorView, CaptureBackend, CaptureBackendError,
    RecordingResult, RecordingResultView, RecordingStatus, ScreenshotResult, ScreenshotResultView,
    SelectionResult,
};
use crate::clock::{elapsed_millis, now};
use crate::config::CaptureConfig;
use std::time::Instant;
use vstd::prelude::*;
use vstd::string::StringExecFns;

verus! {

/// Width and height of a placeholder screenshot where the selection does not
/// know them.
pub const PLACEHOLDER_SIZE: u32 = 100;

/// The colour that fills a placeholder screenshot: red, green, blue.
pub const PLACEHOLDER_COLOR: [u8; 3] = [100, 149, 237];

/// Width that the fake backend reports for a selection and a recording.
pub const FAKE_WIDTH: u32 = 1920;

/// Height that the fake backend reports for a selection and a recording.
pub const FAKE_HEIGHT: u32 = 1080;

/// The failure that a fake backend is told to report.
#[derive(Debug, Clone, Copy, PartialEq, Eq, Structural)]
pub enum FakeError {
    PermissionDenied,
    PortalError,
    NoSource,
}

/// The operations that a fake backend can be told to fail.
#[derive(Debug, Clone, Copy, PartialEq, Eq, Structural)]
pub enum FakeOperation {
    Selection,
    Screenshot,
    Recording,
}

/// The recording that a fake backend keeps track of.
#[derive(Debug)]
struct FakeRecording {
    started: Instant,
    output_path: String,
    paused: bool,
}

/// A backend that is told how to behave.
#[derive(Debug)]
pub struct FakeCaptureBackend {
    should_succeed: bool,
    error_type: FakeError,
    fake_node_id: u32,
    selection_count: u32,
    cancel_count: u32,
    recording: Option<FakeRecording>,
    start_recording_count: u32,
    stop_recording_count: u32,
    pause_recording_count: u32,
    resume_recording_count: u32,
}

/// Mathematical value of the recording that a fake backend keeps track of.
pub struct FakeRecordingView {
    pub output_path: Seq<char>,
    pub paused: bool,
}

/// Mathematical value of a [`FakeCaptureBackend`].
pub struct FakeBackendView {
    /// Whether selection, screenshot and start of recording succeed.
    pub should_succeed: bool,
    /// The failure reported where they do not.
    pub error_type: FakeError,
    /// The node identifier of the selections it grants.
    pub node_id: u32,
    /// How often each operation was asked for. The counters wrap around.
    pub selection_count: u32,
    pub cancel_count: u32,
    pub start_recording_count: u32,
    pub stop_recording_count: u32,
    pub pause_recording_count: u32,
    pub resume_recording_count: u32,
    /// The active recording, if there is one.
    pub recording: Option<FakeRecordingView>,
}

impl View for FakeCaptureBackend {
    type V = FakeBackendView;

    closed spec fn view(&self) -> FakeBackendView {
        FakeBackendView {
            should_succeed: self.should_succeed,
            error_type: self.error_type,
            node_id: self.fake_node_id,
            selection_count: self.selection_count,
            cancel_count: self.cancel_count,
            start_recording_count: self.start_recording_count,
            stop_recording_count: self.stop_recording_count,
            pause_recording_count: self.pause_recording_count,
            resume_recording_count: self.resume_recording_count,
            recording: match self.recording {
                Some(rec) => Some(
                    FakeRecordingView { output_path: rec.output_path@, paused: rec.paused },
                ),
                None => None,
            },
        }
    }
}

/// A counter after one more count.
pub open spec fn counted(n: u32) -> u32 {
    if n == u32::MAX {
        0
    } else {
        (n + 1) as u32
    }
}

/// A freshly made fake backend: it succeeds, grants node 42, has counted
/// nothing and records nothing.
pub open spec fn fresh_backend() -> FakeBackendView {
    FakeBackendView {
        should_succeed: true,
        error_type: FakeError::PermissionDenied,
        node_id: 42,
        selection_count: 0,
        cancel_count: 0,
        start_recording_count: 0,
        stop_recording_count: 0,
        pause_recording_count: 0,
        resume_recording_count: 0,
        recording: None,
    }
}

/// The failure that a fake backend reports for an operation that it is told
/// to fail.
pub open spec fn configured_failure(
    error: FakeError,
    operation: FakeOperation,
) -> BackendErrorView {
    match error {
        FakeError::PermissionDenied => BackendErrorView {
            kind: BackendErrorKind::PermissionDenied,
            message: match operation {
                FakeOperation::Selection => "User cancelled"@,
                FakeOperation::Screenshot => "Screenshot permission denied"@,
                FakeOperation::Recording => "Recording permission denied"@,
            },
        },
        FakeError::PortalError => BackendErrorView {
            kind: BackendErrorKind::PortalError,
            message: match operation {
                FakeOperation::Selection => "Portal unavailable"@,
                FakeOperation::Screenshot => "Portal unavailable for screenshot"@,
                FakeOperation::Recording => "Recording portal error"@,
            },
        },
        FakeError::NoSource => BackendErrorView {
            kind: BackendErrorKind::NoSourceAvailable,
            message: match operation {
                FakeOperation::Selection => "No display found"@,
                FakeOperation::Screenshot => "No display for screenshot"@,
                FakeOperation::Recording => "No source for recording"@,
            },
        },
    }
}

/// Whether a recording is active on a fake backend, and whether it is paused.
pub open spec fn status_of(v: FakeBackendView) -> RecordingStatus {
    RecordingStatus {
        active: v.recording is Some,
        paused: v.recording matches Some(rec) && rec.paused,
    }
}

/// What a request for selection does to a fake backend: it is counted; the
/// backend grants its node at 1920 by 1080 without a descriptor, or reports
/// the failure it is told to.
pub open spec fn fake_selection(
    pre: FakeBackendView,
    post: FakeBackendView,
    r: Result<SelectionResult, CaptureBackendError>,
) -> bool {
    &&& post == FakeBackendView { selection_count: counted(pre.selection_count), ..pre }
    &&& match r {
        Ok(selection) => pre.should_succeed && selection == SelectionResult {
            node_id: pre.node_id,
            stream_fd: None,
            width: Some(FAKE_WIDTH),
            height: Some(FAKE_HEIGHT),
        },
        Err(e) => !pre.should_succeed && e@ == configured_failure(
            pre.error_type,
            FakeOperation::Selection,
        ),
    }
}

/// The size of a placeholder screenshot: the width and the height of the
/// selection, each replaced by 100 where it is unknown.
pub open spec fn placeholder_size(selection: SelectionResult) -> (u32, u32) {
    (
        match selection.width {
            Some(w) => w,
            None => PLACEHOLDER_SIZE,
        },
        match selection.height {
            Some(h) => h,
            None => PLACEHOLDER_SIZE,
        },
    )
}

/// What a screenshot does to a fake backend: nothing. It yields a screenshot
/// at the asked-for path, of the placeholder's size, or the failure that the
/// backend is told to report.
pub open spec fn fake_screenshot(
    pre: FakeBackendView,
    selection: SelectionResult,
    output_path: Seq<char>,
    post: FakeBackendView,
    r: Result<ScreenshotResult, CaptureBackendError>,
) -> bool {
    &&& post == pre
    &&& match r {
        Ok(shot) => pre.should_succeed && shot@ == ScreenshotResultView {
            path: output_path,
            width: placeholder_size(selection).0,
            height: placeholder_size(selection).1,
        },
        Err(e) => !pre.should_succeed && e@ == configured_failure(
            pre.error_type,
            FakeOperation::Screenshot,
        ),
    }
}

/// What a start of recording does to a fake backend: it is counted. A
/// backend told to fail reports that failure. Otherwise a start while a
/// recording is active is an internal failure that leaves that recording as
/// it is, and any other start begins a running recording into `output_path`.
pub open spec fn fake_start(
    pre: FakeBackendView,
    output_path: Seq<char>,
    post: FakeBackendView,
    r: Result<(), CaptureBackendError>,
) -> bool {
    let counted_pre = FakeBackendView {
        start_recording_count: counted(pre.start_recording_count),
        ..pre
    };
    if !pre.should_succeed {
        &&& post == counted_pre
        &&& r matches Err(e)
        &&& e@ == configured_failure(pre.error_type, FakeOperation::Recording)
    } else if pre.recording is Some {
        &&& post == counted_pre
        &&& r matches Err(e)
        &&& e@ == internal("Recording already in progress"@)
    } else {
        &&& post == FakeBackendView {
            recording: Some(FakeRecordingView { output_path, paused: false }),
            ..counted_pre
        }
        &&& r is Ok
    }
}

/// What a stop does to a fake backend, `elapsed_ms` milliseconds after the
/// recording started: it is counted. Without an active recording it is an
/// internal failure. Otherwise the recording ends, and the result names its
/// output path, the elapsed time and the size 1920 by 1080.
pub open spec fn fake_stop(
    pre: FakeBackendView,
    elapsed_ms: u64,
    post: FakeBackendView,
    r: Result<RecordingResult, CaptureBackendError>,
) -> bool {
    &&& post == FakeBackendView {
        stop_recording_count: counted(pre.stop_recording_count),
        recording: None,
        ..pre
    }
    &&& match pre.recording {
        Some(rec) => r matches Ok(result) && result@ == RecordingResultView {
            path: rec.output_path,
            duration_ms: elapsed_ms,
            width: FAKE_WIDTH,
            height: FAKE_HEIGHT,
        },
        None => r matches Err(e) && e@ == internal("No recording in progress"@),
    }
}

/// What a pause does to a fake backend: it is counted. Without an active
/// recording, or with one that is paused already, it is an internal failure
/// that changes nothing else. Otherwise the recording is paused.
pub open spec fn fake_pause(
    pre: FakeBackendView,
    post: FakeBackendView,
    r: Result<(), CaptureBackendError>,
) -> bool {
    let counted_pre = FakeBackendView {
        pause_recording_count: counted(pre.pause_recording_count),
        ..pre
    };
    match pre.recording {
        None => {
            &&& post == counted_pre
            &&& r matches Err(e)
            &&& e@ == internal("No recording in progress"@)
        },
        Some(rec) => if rec.paused {
            &&& post == counted_pre
            &&& r matches Err(e)
            &&& e@ == internal("Recording is already paused"@)
        } else {
            &&& post == FakeBackendView {
                recording: Some(FakeRecordingView { paused: true, ..rec }),
                ..counted_pre
            }
            &&& r is Ok
        },
    }
}

/// What a resume does to a fake backend: it is counted. Without an active
/// recording, or with one that is not paused, it is an internal failure that
/// changes nothing else. Otherwise the recording runs again.
pub open spec fn fake_resume(
    pre: FakeBackendView,
    post: FakeBackendView,
    r: Result<(), CaptureBackendError>,
) -> bool {
    let counted_pre = FakeBackendView {
        resume_recording_count: counted(pre.resume_recording_count),
        ..pre
    };
    match pre.recording {
        None => {
            &&& post == counted_pre
            &&& r matches Err(e)
            &&& e@ == internal("No recording in progress"@)
        },
        Some(rec) => if !rec.paused {
            &&& post == counted_pre
            &&& r matches Err(e)
            &&& e@ == internal("Recording is not paused"@)
        } else {
            &&& post == FakeBackendView {
                recording: Some(FakeRecordingView { paused: false, ..rec }),
                ..counted_pre
            }
            &&& r is Ok
        },
    }
}

/// A second start without a stop in between is an internal failure, and the
/// recording that the first start began is still active, untouched.
pub proof fn lemma_second_start_is_internal(
    before: FakeBackendView,
    started: FakeBackendView,
    after: FakeBackendView,
    first_path: Seq<char>,
    second_path: Seq<char>,
    first: Result<(), CaptureBackendError>,
    second: Result<(), CaptureBackendError>,
)
    requires
        fake_start(before, first_path, started, first),
        first is Ok,
        fake_start(started, second_path, after, second),
    ensures
        second matches Err(e) && e@ == internal("Recording already in progress"@),
        after.recording == Some(FakeRecordingView { output_path: first_path, paused: false }),
        after.recording == started.recording,
{
}

/// Pausing is an internal failure where no recording is active or the
/// recording is paused already, and it leaves the recording as it is.
pub proof fn lemma_pause_in_wrong_state_is_internal(
    pre: FakeBackendView,
    post: FakeBackendView,
    r: Result<(), CaptureBackendError>,
)
    requires
        !status_of(pre).active || status_of(pre).paused,
        fake_pause(pre, post, r),
    ensures
        r matches Err(e) && e@.kind == BackendErrorKind::Internal,
        post.recording == pre.recording,
{
}

/// Resuming is an internal failure where no recording is active or the
/// recording is not paused, and it leaves the recording as it is.
pub proof fn lemma_resume_in_wrong_state_is_internal(
    pre: FakeBackendView,
    post: FakeBackendView,
    r: Result<(), CaptureBackendError>,
)
    requires
        !status_of(pre).active || !status_of(pre).paused,
        fake_resume(pre, post, r),
    ensures
        r matches Err(e) && e@.kind == BackendErrorKind::Internal,
        post.recording == pre.recording,
{
}

/// A stop without an active recording is an internal failure, and no
/// recording is active afterwards either.
pub proof fn lemma_stop_without_recording_is_internal(
    pre: FakeBackendView,
    post: FakeBackendView,
    elapsed_ms: u64,
    r: Result<RecordingResult, CaptureBackendError>,
)
    requires
        !status_of(pre).active,
        fake_stop(pre, elapsed_ms, post, r),
    ensures
        r matches Err(e) && e@ == internal("No recording in progress"@),
        !status_of(post).active,
{
}

/// A stop of the recording that a start began succeeds, ends the recording,
/// and names the output path that the start was given.
pub proof fn lemma_stop_names_configured_path(
    before: FakeBackendView,
    started: FakeBackendView,
    stopped: FakeBackendView,
    output_path: Seq<char>,
    elapsed_ms: u64,
    start: Result<(), CaptureBackendError>,
    stop: Result<RecordingResult, CaptureBackendError>,
)
    requires
        fake_start(before, output_path, started, start),
        start is Ok,
        fake_stop(started, elapsed_ms, stopped, stop),
    ensures
        stop matches Ok(result) && result.path@ == output_path,
        !status_of(stopped).active,
        !status_of(stopped).paused,
{
}

/// A screenshot, failed or not, leaves no trace on the backend: a selection
/// requested after it goes as it would have gone before it.
pub proof fn lemma_screenshot_is_isolated(
    before: FakeBackendView,
    between: FakeBackendView,
    after: FakeBackendView,
    selection: SelectionResult,
    output_path: Seq<char>,
    shot: Result<ScreenshotResult, CaptureBackendError>,
    granted: Result<SelectionResult, CaptureBackendError>,
)
    requires
        fake_screenshot(before, selection, output_path, between, shot),
    ensures
        fake_selection(between, after, granted) == fake_selection(before, after, granted),
{
}

impl FakeCaptureBackend {
    /// A backend that succeeds, grants node 42, and has counted nothing.
    pub fn new() -> (b: Self)
        ensures
            b@ == fresh_backend(),
    {
        FakeCaptureBackend {
            should_succeed: true,
            error_type: FakeError::PermissionDenied,
            fake_node_id: 42,
            selection_count: 0,
            cancel_count: 0,
            recording: None,
            start_recording_count: 0,
            stop_recording_count: 0,
            pause_recording_count: 0,
            resume_recording_count: 0,
        }
    }

    /// A backend that succeeds.
    pub fn succeeding() -> (b: Self)
        ensures
            b@ == fresh_backend(),
    {
        FakeCaptureBackend::new()
    }

    /// A backend that fails with a denied permission.
    pub fn permission_denied() -> (b: Self)
        ensures
            b@ == (FakeBackendView {
                should_succeed: false,
                error_type: FakeError::PermissionDenied,
                ..fresh_backend()
            }),
    {
        let mut b = FakeCaptureBackend::new();
        b.should_succeed = false;
        b.error_type = FakeError::PermissionDenied;
        b
    }

    /// A backend that fails with a portal error.
    pub fn portal_error() -> (b: Self)
        ensures
            b@ == (FakeBackendView {
                should_succeed: false,
                error_type: FakeError::PortalError,
                ..fresh_backend()
            }),
    {
        let mut b = FakeCaptureBackend::new();
        b.should_succeed = false;
        b.error_type = FakeError::PortalError;
        b
    }

    /// Tells the backend whether to succeed.
    pub fn set_should_succeed(&mut self, succeed: bool)
        ensures
            final(self)@ == (FakeBackendView { should_succeed: succeed, ..old(self)@ }),
    {
        self.should_succeed = succeed;
    }

    /// Tells the backend which failure to report.
    pub fn set_error(&mut self, error: FakeError)
        ensures
            final(self)@ == (FakeBackendView { error_type: error, ..old(self)@ }),
    {
        self.error_type = error;
    }

    /// Tells the backend which node to grant.
    pub fn set_node_id(&mut self, node_id: u32)
        ensures
            final(self)@ == (FakeBackendView { node_id, ..old(self)@ }),
    {
        self.fake_node_id = node_id;
    }

    /// How often a selection was requested.
    pub fn selection_count(&self) -> (n: u32)
        ensures
            n == self@.selection_count,
    {
        self.selection_count
    }

    /// How often a selection was cancelled.
    pub fn cancel_count(&self) -> (n: u32)
        ensures
            n == self@.cancel_count,
    {
        self.cancel_count
    }

    /// How often a start of recording was asked for.
    pub fn start_recording_count(&self) -> (n: u32)
        ensures
            n == self@.start_recording_count,
    {
        self.start_recording_count
    }

    /// How often a stop was asked for.
    pub fn stop_recording_count(&self) -> (n: u32)
        ensures
            n == self@.stop_recording_count,
    {
        self.stop_recording_count
    }

    /// How often a pause was asked for.
    pub fn pause_recording_count(&self) -> (n: u32)
        ensures
            n == self@.pause_recording_count,
    {
        self.pause_recording_count
    }

    /// How often a resume was asked for.
    pub fn resume_recording_count(&self) -> (n: u32)
        ensures
            n == self@.resume_recording_count,
    {
        self.resume_recording_count
    }

    /// Whether a recording is active.
    pub fn is_recording(&self) -> (b: bool)
        ensures
            b == status_of(self@).active,
    {
        self.recording.is_some()
    }

    /// Whether the active recording is paused.
    pub fn is_paused(&self) -> (b: bool)
        ensures
            b == status_of(self@).paused,
    {
        match &self.recording {
            Some(rec) => rec.paused,
            None => false,
        }
    }

    /// The failure that the backend is told to report for `operation`.
    fn failure_for(&self, operation: FakeOperation) -> (e: CaptureBackendError)
        ensures
            e@ == configured_failure(self@.error_type, operation),
    {
        match self.error_type {
            FakeError::PermissionDenied => CaptureBackendError::PermissionDenied(
                String::from_str(
                    match operation {
                        FakeOperation::Selection => "User cancelled",
                        FakeOperation::Screenshot => "Screenshot permission denied",
                        FakeOperation::Recording => "Recording permission denied",
                    },
                ),
            ),
            FakeError::PortalError => CaptureBackendError::PortalError(
                String::from_str(
                    match operation {
                        FakeOperation::Selection => "Portal unavailable",
                        FakeOperation::Screenshot => "Portal unavailable for screenshot",
                        FakeOperation::Recording => "Recording portal error",
                    },
                ),
            ),
            FakeError::NoSource => CaptureBackendError::NoSourceAvailable(
                String::from_str(
                    match operation {
                        FakeOperation::Selection => "No display found",
                        FakeOperation::Screenshot => "No display for screenshot",
                        FakeOperation::Recording => "No source for recording",
                    },
                ),
            ),
        }
    }

    /// The failure of a placeholder image that could not be saved; `detail`
    /// is what the writer reported.
    pub fn save_failed(detail: &str) -> (e: CaptureBackendError)
        ensures
            e@ == internal("Failed to save placeholder PNG: "@ + detail@),
    {
        CaptureBackendError::internal_with("Failed to save placeholder PNG: ", detail)
    }

    /// Stops the active recording, `elapsed_ms` milliseconds after it
    /// started.
    pub fn stop_recording_after(&mut self, elapsed_ms: u64) -> (r: Result<
        RecordingResult,
        CaptureBackendError,
    >)
        ensures
            fake_stop(old(self)@, elapsed_ms, final(self)@, r),
    {
        self.stop_recording_count = self.stop_recording_count.wrapping_add(1);
        match self.recording.take() {
            Some(rec) => Ok(
                RecordingResult {
                    path: rec.output_path,
                    duration_ms: elapsed_ms,
                    width: FAKE_WIDTH,
                    height: FAKE_HEIGHT,
                },
            ),
            None => Err(CaptureBackendError::internal("No recording in progress")),
        }
    }
}

impl Default for FakeCaptureBackend {
    fn default() -> (b: Self)
        ensures
            b@ == fresh_backend(),
    {
        FakeCaptureBackend::new()
    }
}

impl CaptureBackend for FakeCaptureBackend {
    open spec fn recording_status(&self) -> RecordingStatus {
        status_of(self@)
    }

    fn request_selection(&mut self, config: &CaptureConfig) -> (r: Result<
        SelectionResult,
        CaptureBackendError,
    >)
        ensures
            fake_selection(old(self)@, final(self)@, r),
    {
        self.selection_count = self.selection_count.wrapping_add(1);
        if self.should_succeed {
            Ok(
                SelectionResult {
                    node_id: self.fake_node_id,
                    stream_fd: None,
                    width: Some(FAKE_WIDTH),
                    height: Some(FAKE_HEIGHT),
                },
            )
        } else {
            Err(self.failure_for(FakeOperation::Selection))
        }
    }

    fn cancel_selection(&mut self) -> (r: Result<(), CaptureBackendError>)
        ensures
            r is Ok,
            final(self)@ == (FakeBackendView {
                cancel_count: counted(old(self)@.cancel_count),
                ..old(self)@
            }),
    {
        self.cancel_count = self.cancel_count.wrapping_add(1);
        Ok(())
    }

    /// Decides what a screenshot yields. The placeholder image itself is
    /// written by the caller, at the path and of the size of the result.
    fn capture_screenshot(&mut self, selection: &SelectionResult, output_path: &str) -> (r: Result<
        ScreenshotResult,
        CaptureBackendError,
    >)
        ensures
            fake_screenshot(old(self)@, *selection, output_path@, final(self)@, r),
    {
        if !self.should_succeed {
            return Err(self.failure_for(FakeOperation::Screenshot));
        }
        let width = match selection.width {
            Some(w) => w,
            None => PLACEHOLDER_SIZE,
        };
        let height = match selection.height {
            Some(h) => h,
            None => PLACEHOLDER_SIZE,
        };
        Ok(ScreenshotResult { path: String::from_str(output_path), width, height })
    }

    fn start_recording(&mut self, selection: &SelectionResult, config: &CaptureConfig) -> (r:
        Result<(), CaptureBackendError>)
        ensures
            fake_start(old(self)@, config.output_path@, final(self)@, r),
    {
        self.start_recording_count = self.start_recording_count.wrapping_add(1);
        if !self.should_succeed {
            return Err(self.failure_for(FakeOperation::Recording));
        }
        if self.recording.is_some() {
            return Err(CaptureBackendError::internal("Recording already in progress"));
        }
        self.recording = Some(
            FakeRecording {
                started: now(),
                output_path: config.output_path.clone(),
                paused: false,
            },
        );
        Ok(())
    }

    /// Stops the active recording. The duration is the time on the monotonic
    /// clock since the recording started, pauses included.
    fn stop_recording(&mut self) -> (r: Result<RecordingResult, CaptureBackendError>)
        ensures
            exists|elapsed_ms: u64| #[trigger] fake_stop(old(self)@, elapsed_ms, final(self)@, r),
    {
        let elapsed_ms: u64 = match &self.recording {
            Some(rec) => elapsed_millis(&rec.started),
            None => 0,
        };
        self.stop_recording_after(elapsed_ms)
    }

    fn pause_recording(&mut self) -> (r: Result<(), CaptureBackendError>)
        ensures
            fake_pause(old(self)@, final(self)@, r),
    {
        self.pause_recording_count = self.pause_recording_count.wrapping_add(1);
        match self.recording.take() {
            None => Err(CaptureBackendError::internal("No recording in progress")),
            Some(rec) => {
                if rec.paused {
                    self.recording = Some(rec);
                    Err(CaptureBackendError::internal("Recording is already paused"))
                } else {
                    self.recording = Some(
                        FakeRecording {
                            started: rec.started,
                            output_path: rec.output_path,
                            paused: true,
                        },
                    );
                    Ok(())
                }
            },
        }
    }

    fn resume_recording(&mut self) -> (r: Result<(), CaptureBackendError>)
        ensures
            fake_resume(old(self)@, final(self)@, r),
    {
        self.resume_recording_count = self.resume_recording_count.wrapping_add(1);
        match self.recording.take() {
            None => Err(CaptureBackendError::internal("No recording in progress")),
            Some(rec) => {
                if !rec.paused {
                    self.recording = Some(rec);
                    Err(CaptureBackendError::internal("Recording is not paused"))
                } else {
                    self.recording = Some(
                        FakeRecording {
                            started: rec.started,
                            output_path: rec.output_path,
                            paused: false,
                        },
                    );
                    Ok(())
                }
            },
        }
    }
}

} // verus!
