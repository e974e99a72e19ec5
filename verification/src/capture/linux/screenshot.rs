//! Capture of a single frame: the decisions of a one-shot encode graph, from
//! its description to the saved file.

use crate::capture::linux::engine::{
    initialization_failed, initialization_failure_text, pipeline_error, pipeline_error_text,
    text_of, unexpected_event, unexpected_event_text, BusMessage, EngineAction, EngineEvent,
    GraphState,
};
use crate::capture::{
    internal, CaptureBackendError, ScreenshotResult, ScreenshotResultView, SelectionResult,
};
use crate::text::{decimal, decimal_digits, push_decimal, push_signed_decimal};
use vstd::prelude::*;
use vstd::string::StringExecFns;

verus! {

/// Seconds that a screenshot waits for its graph to finish.
pub const SCREENSHOT_TIMEOUT_SECONDS: u64 = 10;

/// Width and height reported when neither the graph nor the selection knows
/// the size.
pub const FALLBACK_SCREENSHOT_SIZE: u32 = 100;

/// Where a screenshot capture stands.
#[derive(Debug, Clone, Copy, PartialEq, Eq, Structural)]
pub enum ScreenshotPhase {
    /// Nothing has been asked of the engine yet.
    Created,
    /// The engine is being initialized.
    Initializing,
    /// The graph is being built.
    Launching,
    /// The frame-size watch is being installed.
    Watching,
    /// The graph is being started.
    Starting,
    /// The status channel is being opened.
    OpeningBus,
    /// The graph runs; its end is awaited.
    Waiting,
    /// The graph is being torn down.
    Stopping,
    /// The frame size is being read.
    Sizing,
    /// The output file is being looked for.
    Checking,
    /// The capture has ended.
    Finished,
}

/// The capture of one frame from a selection into a file.
#[derive(Debug)]
pub struct ScreenshotCapture {
    selection: SelectionResult,
    output_path: String,
    phase: ScreenshotPhase,
    failure: Option<CaptureBackendError>,
    width: u32,
    height: u32,
}

/// What a capture asks for next, or how it ended.
#[derive(Debug, PartialEq)]
pub enum ScreenshotStep {
    /// The engine is to carry out this request.
    Do(EngineAction),
    /// The capture has ended with this result.
    Finished(Result<ScreenshotResult, CaptureBackendError>),
}

/// The source stage of a one-frame graph: the stream's node, reached through
/// the descriptor where the selection has one.
pub open spec fn single_frame_source(selection: SelectionResult) -> Seq<char> {
    match selection.stream_fd {
        Some(fd) => "pipewiresrc fd="@ + decimal(fd as int) + " path="@ + decimal_digits(
            selection.node_id as nat,
        ) + " num-buffers=1"@,
        None => "pipewiresrc path="@ + decimal_digits(selection.node_id as nat)
            + " num-buffers=1"@,
    }
}

/// The description of the graph that saves one frame of `selection` as a PNG
/// file at `output_path`.
pub open spec fn screenshot_description(selection: SelectionResult, output_path: Seq<char>) -> Seq<
    char,
> {
    single_frame_source(selection) + " ! videoconvert ! pngenc ! filesink location="@
        + output_path
}

/// The size of a screenshot: what the graph saw, where it saw both a width
/// and a height; else the size of the selection, where both are known; else
/// the fallback.
pub open spec fn resolved_size(seen: (u32, u32), selection: SelectionResult) -> (u32, u32) {
    if seen.0 != 0 && seen.1 != 0 {
        seen
    } else {
        match (selection.width, selection.height) {
            (Some(w), Some(h)) => (w, h),
            _ => (FALLBACK_SCREENSHOT_SIZE, FALLBACK_SCREENSHOT_SIZE),
        }
    }
}

/// Builds the description of the one-frame graph.
pub fn describe_screenshot(selection: &SelectionResult, output_path: &str) -> (description: String)
    ensures
        description@ == screenshot_description(*selection, output_path@),
{
    let mut text = String::from_str("pipewiresrc ");
    match selection.stream_fd {
        Some(fd) => {
            text.append("fd=");
            push_signed_decimal(&mut text, fd);
            text.append(" path=");
            push_decimal(&mut text, selection.node_id as u64);
        },
        None => {
            text.append("path=");
            push_decimal(&mut text, selection.node_id as u64);
        },
    }
    text.append(" num-buffers=1");
    text.append(" ! videoconvert ! pngenc ! filesink location=");
    text.append(output_path);
    proof {
        reveal_strlit("pipewiresrc ");
        reveal_strlit("fd=");
        reveal_strlit("path=");
        reveal_strlit("pipewiresrc fd=");
        reveal_strlit("pipewiresrc path=");
        assert("pipewiresrc "@ + "fd="@ =~= "pipewiresrc fd="@);
        assert("pipewiresrc "@ + "path="@ =~= "pipewiresrc path="@);
        assert(text@ =~= screenshot_description(*selection, output_path@));
    }
    text
}

/// Decides the size that a screenshot reports.
pub fn resolve_screenshot_size(
    seen_width: u32,
    seen_height: u32,
    selection: &SelectionResult,
) -> (size: (u32, u32))
    ensures
        size == resolved_size((seen_width, seen_height), *selection),
{
    if seen_width != 0 && seen_height != 0 {
        (seen_width, seen_height)
    } else {
        match (selection.width, selection.height) {
            (Some(w), Some(h)) => (w, h),
            _ => (FALLBACK_SCREENSHOT_SIZE, FALLBACK_SCREENSHOT_SIZE),
        }
    }
}

/// The capture moves on to `phase` and keeps what it has noted so far.
pub open spec fn moves_to(
    pre: ScreenshotCapture,
    post: ScreenshotCapture,
    phase: ScreenshotPhase,
) -> bool {
    &&& post.phase() == phase
    &&& post.pending_failure() == pre.pending_failure()
    &&& post.size() == pre.size()
}

/// The capture ends with an internal failure whose message is `text`.
pub open spec fn ends_with(post: ScreenshotCapture, r: ScreenshotStep, text: Seq<char>) -> bool {
    &&& post.phase() == ScreenshotPhase::Finished
    &&& r matches ScreenshotStep::Finished(Err(e))
    &&& e@ == internal(text)
}

/// The capture notes the failure `text` and asks for the graph to be torn
/// down.
pub open spec fn stops_with(
    pre: ScreenshotCapture,
    post: ScreenshotCapture,
    r: ScreenshotStep,
    text: Seq<char>,
) -> bool {
    &&& post.phase() == ScreenshotPhase::Stopping
    &&& post.size() == pre.size()
    &&& post.pending_failure() matches Some(e)
    &&& e@ == internal(text)
    &&& r == ScreenshotStep::Do(EngineAction::SetState(GraphState::Null))
}

/// What one answer of the engine does to a capture: `pre` and `post` are the
/// capture before and after, `r` is what it asks for next.
///
/// The engine is initialized, the graph built from the description, the
/// frame-size watch installed, the graph started and its status channel
/// opened; a refusal at any of these ends the capture. Then the end of the
/// stream is awaited: other messages are skipped, a hard error or a wait
/// that times out is noted as the failure. Whatever the wait brought,
/// the graph is torn down next. A noted failure is reported then; otherwise
/// the frame size is read and resolved, and the capture succeeds if the
/// output file exists.
pub open spec fn screenshot_step(
    pre: ScreenshotCapture,
    event: EngineEvent,
    post: ScreenshotCapture,
    r: ScreenshotStep,
) -> bool {
    &&& post.selection() == pre.selection()
    &&& post.output_path() == pre.output_path()
    &&& match pre.phase() {
        ScreenshotPhase::Initializing => match event {
            EngineEvent::Done => {
                &&& moves_to(pre, post, ScreenshotPhase::Launching)
                &&& r matches ScreenshotStep::Do(EngineAction::Launch(d))
                &&& d@ == screenshot_description(pre.selection(), pre.output_path())
            },
            EngineEvent::Refused(msg) => ends_with(
                post,
                r,
                initialization_failure_text(msg@),
            ),
            _ => ends_with(post, r, unexpected_event_text()),
        },
        ScreenshotPhase::Launching => match event {
            EngineEvent::Done => {
                &&& moves_to(pre, post, ScreenshotPhase::Watching)
                &&& r == ScreenshotStep::Do(EngineAction::WatchFrameSize)
            },
            EngineEvent::Refused(msg) => ends_with(post, r, "Failed to create pipeline: "@ + msg@),
            EngineEvent::NotAPipeline => ends_with(post, r, "Failed to downcast to Pipeline"@),
            _ => ends_with(post, r, unexpected_event_text()),
        },
        ScreenshotPhase::Watching => {
            &&& moves_to(pre, post, ScreenshotPhase::Starting)
            &&& r == ScreenshotStep::Do(EngineAction::SetState(GraphState::Playing))
        },
        ScreenshotPhase::Starting => match event {
            EngineEvent::Done => {
                &&& moves_to(pre, post, ScreenshotPhase::OpeningBus)
                &&& r == ScreenshotStep::Do(EngineAction::OpenBus)
            },
            EngineEvent::Refused(msg) => ends_with(post, r, "Failed to start pipeline: "@ + msg@),
            _ => ends_with(post, r, unexpected_event_text()),
        },
        ScreenshotPhase::OpeningBus => match event {
            EngineEvent::Done => {
                &&& moves_to(pre, post, ScreenshotPhase::Waiting)
                &&& r == ScreenshotStep::Do(EngineAction::AwaitMessage(SCREENSHOT_TIMEOUT_SECONDS))
            },
            EngineEvent::NoBus => ends_with(post, r, "Failed to get pipeline bus"@),
            _ => ends_with(post, r, unexpected_event_text()),
        },
        ScreenshotPhase::Waiting => match event {
            EngineEvent::Message(BusMessage::Eos) => {
                &&& moves_to(pre, post, ScreenshotPhase::Stopping)
                &&& r == ScreenshotStep::Do(EngineAction::SetState(GraphState::Null))
            },
            EngineEvent::Message(BusMessage::Error { error, debug }) => stops_with(
                pre,
                post,
                r,
                pipeline_error_text(error@, text_of(debug)),
            ),
            EngineEvent::Message(BusMessage::Other) => {
                &&& moves_to(pre, post, ScreenshotPhase::Waiting)
                &&& r == ScreenshotStep::Do(EngineAction::AwaitMessage(SCREENSHOT_TIMEOUT_SECONDS))
            },
            EngineEvent::TimedOut => stops_with(pre, post, r, "Pipeline timed out"@),
            _ => stops_with(pre, post, r, unexpected_event_text()),
        },
        ScreenshotPhase::Stopping => match pre.pending_failure() {
            Some(failure) => {
                &&& post.phase() == ScreenshotPhase::Finished
                &&& r == ScreenshotStep::Finished(Err(failure))
            },
            None => {
                &&& moves_to(pre, post, ScreenshotPhase::Sizing)
                &&& r == ScreenshotStep::Do(EngineAction::ReadFrameSize)
            },
        },
        ScreenshotPhase::Sizing => match event {
            EngineEvent::FrameSize(w, h) => {
                &&& post.phase() == ScreenshotPhase::Checking
                &&& post.pending_failure() == pre.pending_failure()
                &&& post.size() == resolved_size((w, h), pre.selection())
                &&& r matches ScreenshotStep::Do(EngineAction::CheckOutput(p))
                &&& p@ == pre.output_path()
            },
            _ => ends_with(post, r, unexpected_event_text()),
        },
        ScreenshotPhase::Checking => match event {
            EngineEvent::OutputExists(true) => {
                &&& post.phase() == ScreenshotPhase::Finished
                &&& r matches ScreenshotStep::Finished(Ok(shot))
                &&& shot@ == (ScreenshotResultView {
                    path: pre.output_path(),
                    width: pre.size().0,
                    height: pre.size().1,
                })
            },
            EngineEvent::OutputExists(false) => ends_with(
                post,
                r,
                "Screenshot file was not created"@,
            ),
            _ => ends_with(post, r, unexpected_event_text()),
        },
        ScreenshotPhase::Created | ScreenshotPhase::Finished => ends_with(
            post,
            r,
            unexpected_event_text(),
        ),
    }
}

/// A graph that runs is torn down before the capture ends: while the end of
/// the stream is awaited, no answer ends the capture; it either keeps
/// waiting or asks for the teardown.
pub proof fn lemma_running_graph_is_torn_down(
    pre: ScreenshotCapture,
    event: EngineEvent,
    post: ScreenshotCapture,
    r: ScreenshotStep,
)
    requires
        pre.phase() == ScreenshotPhase::Waiting,
        screenshot_step(pre, event, post, r),
    ensures
        r is Do,
        post.phase() == ScreenshotPhase::Waiting || (post.phase() == ScreenshotPhase::Stopping
            && r == ScreenshotStep::Do(EngineAction::SetState(GraphState::Null))),
{
}

/// A capture that succeeds names the path it was given and the resolved
/// size: it succeeds only as the answer to the look for the output file.
pub proof fn lemma_success_names_path_and_size(
    pre: ScreenshotCapture,
    event: EngineEvent,
    post: ScreenshotCapture,
    r: ScreenshotStep,
)
    requires
        screenshot_step(pre, event, post, r),
        r matches ScreenshotStep::Finished(Ok(_)),
    ensures
        pre.phase() == ScreenshotPhase::Checking,
        event == EngineEvent::OutputExists(true),
        r matches ScreenshotStep::Finished(Ok(shot)) && shot.path@ == pre.output_path()
            && (shot.width, shot.height) == pre.size(),
{
}

impl ScreenshotCapture {
    /// Where the capture stands.
    pub closed spec fn spec_phase(&self) -> ScreenshotPhase {
        self.phase
    }

    /// The selection that is captured.
    pub closed spec fn selection(&self) -> SelectionResult {
        self.selection
    }

    /// The path of the file that is written.
    pub closed spec fn output_path(&self) -> Seq<char> {
        self.output_path@
    }

    /// The failure noted while the graph ran, reported once it is torn down.
    pub closed spec fn pending_failure(&self) -> Option<CaptureBackendError> {
        self.failure
    }

    /// The resolved width and height; zero until they are resolved.
    pub closed spec fn size(&self) -> (u32, u32) {
        (self.width, self.height)
    }

    /// A capture of `selection` into the file at `output_path`, of which
    /// nothing has been asked yet.
    pub fn new(selection: SelectionResult, output_path: &str) -> (capture: Self)
        ensures
            capture.phase() == ScreenshotPhase::Created,
            capture.selection() == selection,
            capture.output_path() == output_path@,
            capture.pending_failure() is None,
            capture.size() == (0u32, 0u32),
    {
        ScreenshotCapture {
            selection,
            output_path: String::from_str(output_path),
            phase: ScreenshotPhase::Created,
            failure: None,
            width: 0,
            height: 0,
        }
    }

    /// Where the capture stands.
    #[verifier::when_used_as_spec(spec_phase)]
    pub fn phase(&self) -> (p: ScreenshotPhase)
        ensures
            p == self.spec_phase(),
    {
        self.phase
    }

    /// Starts the capture: a fresh capture asks for the engine to be
    /// initialized. One that was begun before ends with an internal failure.
    pub fn begin(&mut self) -> (r: ScreenshotStep)
        ensures
            final(self).selection() == old(self).selection(),
            final(self).output_path() == old(self).output_path(),
            old(self).phase() == ScreenshotPhase::Created ==> moves_to(
                *old(self),
                *final(self),
                ScreenshotPhase::Initializing,
            ) && r == ScreenshotStep::Do(EngineAction::Initialize),
            old(self).phase() != ScreenshotPhase::Created ==> ends_with(
                *final(self),
                r,
                "Screenshot capture was already begun"@,
            ),
    {
        match self.phase {
            ScreenshotPhase::Created => {
                self.phase = ScreenshotPhase::Initializing;
                ScreenshotStep::Do(EngineAction::Initialize)
            },
            _ => self.end(CaptureBackendError::internal("Screenshot capture was already begun")),
        }
    }

    /// Ends the capture with `failure`.
    fn end(&mut self, failure: CaptureBackendError) -> (r: ScreenshotStep)
        ensures
            final(self).selection() == old(self).selection(),
            final(self).output_path() == old(self).output_path(),
            final(self).phase() == ScreenshotPhase::Finished,
            r == ScreenshotStep::Finished(Err(failure)),
    {
        self.phase = ScreenshotPhase::Finished;
        ScreenshotStep::Finished(Err(failure))
    }

    /// Notes `failure` and asks for the graph to be torn down.
    fn stop_after(&mut self, failure: CaptureBackendError) -> (r: ScreenshotStep)
        ensures
            final(self).selection() == old(self).selection(),
            final(self).output_path() == old(self).output_path(),
            final(self).size() == old(self).size(),
            final(self).phase() == ScreenshotPhase::Stopping,
            final(self).pending_failure() == Some(failure),
            r == ScreenshotStep::Do(EngineAction::SetState(GraphState::Null)),
    {
        self.failure = Some(failure);
        self.phase = ScreenshotPhase::Stopping;
        ScreenshotStep::Do(EngineAction::SetState(GraphState::Null))
    }

    /// Takes the engine's answer to the pending request and decides what
    /// comes next.
    pub fn step(&mut self, event: EngineEvent) -> (r: ScreenshotStep)
        ensures
            screenshot_step(*old(self), event, *final(self), r),
    {
        match self.phase {
            ScreenshotPhase::Initializing => match event {
                EngineEvent::Done => {
                    self.phase = ScreenshotPhase::Launching;
                    ScreenshotStep::Do(
                        EngineAction::Launch(
                            describe_screenshot(&self.selection, self.output_path.as_str()),
                        ),
                    )
                },
                EngineEvent::Refused(msg) => self.end(
                    initialization_failed(msg.as_str()),
                ),
                _ => self.end(unexpected_event()),
            },
            ScreenshotPhase::Launching => match event {
                EngineEvent::Done => {
                    self.phase = ScreenshotPhase::Watching;
                    ScreenshotStep::Do(EngineAction::WatchFrameSize)
                },
                EngineEvent::Refused(msg) => self.end(
                    CaptureBackendError::internal_with("Failed to create pipeline: ", msg.as_str()),
                ),
                EngineEvent::NotAPipeline => self.end(
                    CaptureBackendError::internal("Failed to downcast to Pipeline"),
                ),
                _ => self.end(unexpected_event()),
            },
            ScreenshotPhase::Watching => {
                self.phase = ScreenshotPhase::Starting;
                ScreenshotStep::Do(EngineAction::SetState(GraphState::Playing))
            },
            ScreenshotPhase::Starting => match event {
                EngineEvent::Done => {
                    self.phase = ScreenshotPhase::OpeningBus;
                    ScreenshotStep::Do(EngineAction::OpenBus)
                },
                EngineEvent::Refused(msg) => self.end(
                    CaptureBackendError::internal_with("Failed to start pipeline: ", msg.as_str()),
                ),
                _ => self.end(unexpected_event()),
            },
            ScreenshotPhase::OpeningBus => match event {
                EngineEvent::Done => {
                    self.phase = ScreenshotPhase::Waiting;
                    ScreenshotStep::Do(EngineAction::AwaitMessage(SCREENSHOT_TIMEOUT_SECONDS))
                },
                EngineEvent::NoBus => self.end(
                    CaptureBackendError::internal("Failed to get pipeline bus"),
                ),
                _ => self.end(unexpected_event()),
            },
            ScreenshotPhase::Waiting => match event {
                EngineEvent::Message(BusMessage::Eos) => {
                    self.phase = ScreenshotPhase::Stopping;
                    ScreenshotStep::Do(EngineAction::SetState(GraphState::Null))
                },
                EngineEvent::Message(BusMessage::Error { error, debug }) => self.stop_after(
                    pipeline_error(error.as_str(), &debug),
                ),
                EngineEvent::Message(BusMessage::Other) => ScreenshotStep::Do(
                    EngineAction::AwaitMessage(SCREENSHOT_TIMEOUT_SECONDS),
                ),
                EngineEvent::TimedOut => self.stop_after(
                    CaptureBackendError::internal("Pipeline timed out"),
                ),
                _ => self.stop_after(unexpected_event()),
            },
            ScreenshotPhase::Stopping => match self.failure.take() {
                Some(failure) => self.end(failure),
                None => {
                    self.phase = ScreenshotPhase::Sizing;
                    ScreenshotStep::Do(EngineAction::ReadFrameSize)
                },
            },
            ScreenshotPhase::Sizing => match event {
                EngineEvent::FrameSize(w, h) => {
                    let size = resolve_screenshot_size(w, h, &self.selection);
                    self.width = size.0;
                    self.height = size.1;
                    self.phase = ScreenshotPhase::Checking;
                    ScreenshotStep::Do(EngineAction::CheckOutput(self.output_path.clone()))
                },
                _ => self.end(unexpected_event()),
            },
            ScreenshotPhase::Checking => match event {
                EngineEvent::OutputExists(true) => {
                    self.phase = ScreenshotPhase::Finished;
                    ScreenshotStep::Finished(
                        Ok(
                            ScreenshotResult {
                                path: self.output_path.clone(),
                                width: self.width,
                                height: self.height,
                            },
                        ),
                    )
                },
                EngineEvent::OutputExists(false) => self.end(
                    CaptureBackendError::internal("Screenshot file was not created"),
                ),
                _ => self.end(unexpected_event()),
            },
            ScreenshotPhase::Created | ScreenshotPhase::Finished => self.end(unexpected_event()),
        }
    }
}

} // verus!
