//! The notifications that the capture core hands to whoever relays them.

pub mod event_names;

use crate::capture::{RecordingResult, ScreenshotResult, SelectionResult};
use crate::state::{CaptureError, CaptureState};
use vstd::prelude::*;

verus! {

/// The capture state changed.
#[derive(Debug, Clone, Copy, PartialEq, Eq, Structural)]
pub struct StateChangedEvent {
    pub state: CaptureState,
    pub previous: CaptureState,
}

/// What a permission is needed for.
#[derive(Debug, Clone, Copy, PartialEq, Eq, Structural)]
pub enum PermissionKind {
    Screen,
    Microphone,
    SystemAudio,
}

/// A permission is needed.
#[derive(Debug, Clone, Copy, PartialEq, Eq, Structural)]
pub struct PermissionNeededEvent {
    pub kind: PermissionKind,
}

/// Progress of a recording.
#[derive(Debug, Clone, Copy, PartialEq, Eq, Structural)]
pub struct ProgressEvent {
    pub duration_ms: u64,
}

/// A failure occurred.
#[derive(Debug, PartialEq)]
pub struct ErrorEvent {
    pub error: CaptureError,
}

impl Clone for ErrorEvent {
    fn clone(&self) -> (r: Self)
        ensures
            r == *self,
    {
        ErrorEvent { error: self.error.clone() }
    }
}

/// The selection was granted.
#[derive(Debug, Clone, Copy, PartialEq, Eq)]
pub struct SelectionCompleteEvent {
    pub selection: SelectionResult,
}

/// A screenshot was saved.
#[derive(Debug, PartialEq)]
pub struct ScreenshotCompleteEvent {
    pub path: String,
    pub width: u32,
    pub height: u32,
}

impl Clone for ScreenshotCompleteEvent {
    fn clone(&self) -> (r: Self)
        ensures
            r == *self,
    {
        ScreenshotCompleteEvent { path: self.path.clone(), width: self.width, height: self.height }
    }
}

/// A recording started.
#[derive(Debug, PartialEq)]
pub struct RecordingStartedEvent {
    pub output_path: String,
}

impl Clone for RecordingStartedEvent {
    fn clone(&self) -> (r: Self)
        ensures
            r == *self,
    {
        RecordingStartedEvent { output_path: self.output_path.clone() }
    }
}

/// A recording stopped and its file is finalized.
#[derive(Debug, PartialEq)]
pub struct RecordingStoppedEvent {
    pub path: String,
    pub duration_ms: u64,
    pub width: u32,
    pub height: u32,
}

impl Clone for RecordingStoppedEvent {
    fn clone(&self) -> (r: Self)
        ensures
            r == *self,
    {
        RecordingStoppedEvent {
            path: self.path.clone(),
            duration_ms: self.duration_ms,
            width: self.width,
            height: self.height,
        }
    }
}

/// Any of the notifications.
#[derive(Debug, PartialEq)]
pub enum CaptureEvent {
    StateChanged(StateChangedEvent),
    PermissionNeeded(PermissionNeededEvent),
    Progress(ProgressEvent),
    Error(ErrorEvent),
    SelectionComplete(SelectionCompleteEvent),
    ScreenshotComplete(ScreenshotCompleteEvent),
    RecordingStarted(RecordingStartedEvent),
    RecordingStopped(RecordingStoppedEvent),
}

impl Clone for CaptureEvent {
    fn clone(&self) -> (r: Self)
        ensures
            r == *self,
    {
        match self {
            CaptureEvent::StateChanged(e) => CaptureEvent::StateChanged(*e),
            CaptureEvent::PermissionNeeded(e) => CaptureEvent::PermissionNeeded(*e),
            CaptureEvent::Progress(e) => CaptureEvent::Progress(*e),
            CaptureEvent::Error(e) => CaptureEvent::Error(e.clone()),
            CaptureEvent::SelectionComplete(e) => CaptureEvent::SelectionComplete(*e),
            CaptureEvent::ScreenshotComplete(e) => CaptureEvent::ScreenshotComplete(e.clone()),
            CaptureEvent::RecordingStarted(e) => CaptureEvent::RecordingStarted(e.clone()),
            CaptureEvent::RecordingStopped(e) => CaptureEvent::RecordingStopped(e.clone()),
        }
    }
}

/// The name under which each notification is published.
pub open spec fn event_name(event: CaptureEvent) -> Seq<char> {
    match event {
        CaptureEvent::StateChanged(_) => event_names::STATE_CHANGED@,
        CaptureEvent::PermissionNeeded(_) => event_names::PERMISSION_NEEDED@,
        CaptureEvent::Progress(_) => event_names::PROGRESS@,
        CaptureEvent::Error(_) => event_names::ERROR@,
        CaptureEvent::SelectionComplete(_) => event_names::SELECTION_COMPLETE@,
        CaptureEvent::ScreenshotComplete(_) => event_names::SCREENSHOT_COMPLETE@,
        CaptureEvent::RecordingStarted(_) => event_names::RECORDING_STARTED@,
        CaptureEvent::RecordingStopped(_) => event_names::RECORDING_STOPPED@,
    }
}

impl CaptureEvent {
    /// The name under which this notification is published.
    pub fn name(&self) -> (n: &'static str)
        ensures
            n@ == event_name(*self),
    {
        match self {
            CaptureEvent::StateChanged(_) => event_names::STATE_CHANGED,
            CaptureEvent::PermissionNeeded(_) => event_names::PERMISSION_NEEDED,
            CaptureEvent::Progress(_) => event_names::PROGRESS,
            CaptureEvent::Error(_) => event_names::ERROR,
            CaptureEvent::SelectionComplete(_) => event_names::SELECTION_COMPLETE,
            CaptureEvent::ScreenshotComplete(_) => event_names::SCREENSHOT_COMPLETE,
            CaptureEvent::RecordingStarted(_) => event_names::RECORDING_STARTED,
            CaptureEvent::RecordingStopped(_) => event_names::RECORDING_STOPPED,
        }
    }
}

impl ScreenshotCompleteEvent {
    /// The notification for a saved screenshot.
    pub fn of(shot: &ScreenshotResult) -> (event: Self)
        ensures
            event.path == shot.path,
            event.width == shot.width,
            event.height == shot.height,
    {
        ScreenshotCompleteEvent { path: shot.path.clone(), width: shot.width, height: shot.height }
    }
}

impl RecordingStoppedEvent {
    /// The notification for a finished recording.
    pub fn of(recording: &RecordingResult) -> (event: Self)
        ensures
            event.path == recording.path,
            event.duration_ms == recording.duration_ms,
            event.width == recording.width,
            event.height == recording.height,
    {
        RecordingStoppedEvent {
            path: recording.path.clone(),
            duration_ms: recording.duration_ms,
            width: recording.width,
            height: recording.height,
        }
    }
}

} // verus!
