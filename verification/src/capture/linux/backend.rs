//! The registry of the Linux backend: at most one held session and at most
//! one active recording, each in a slot of its own.
//!
//! The registry owns what keeps the selected stream alive (`S`) and the graph
//! of the active recording (`G`); it never looks inside either.

use crate::capture::linux::encoding::CodecRegistry;
use crate::capture::linux::engine::{EngineAction, EngineEvent, GraphState};
use crate::capture::linux::pipeline::{
    command_effect, is_live, pipeline_step, planned_recording, PipelinePhase, PipelineStep,
    RecordingPipeline,
};
use crate::capture::linux::portal::SourceType;
use crate::capture::linux::screenshot::{ScreenshotCapture, ScreenshotPhase};
use crate::capture::linux::selection::{
    failure, portal_source_type, source_type_for, unexpected_answer, unexpected_answer_text,
    SelectionFlow, SelectionPhase,
};
use crate::capture::{
    internal, BackendErrorKind, CaptureBackendError, RecordingResult, RecordingStatus,
    SelectionResult,
};
use crate::config::{CaptureConfig, CaptureSource};
use vstd::prelude::*;

verus! {

/// A held session: what keeps the selected stream alive, and the handle of
/// that stream.
#[derive(Debug)]
pub struct ActiveSession<S> {
    /// The resources of the authorization service. The stream is valid for as
    /// long as they are kept.
    pub keeper: S,
    /// Node identifier of the stream.
    pub node_id: u32,
    /// Descriptor of the connection that carries the stream.
    pub pipewire_fd: i32,
}

/// An active recording: its pipeline and the graph that the engine runs for
/// it.
#[derive(Debug)]
pub struct ActiveRecording<G> {
    pub pipeline: RecordingPipeline,
    pub graph: G,
}

/// The Linux capture backend.
#[derive(Debug)]
pub struct LinuxCaptureBackend<S, G> {
    session: Option<ActiveSession<S>>,
    recording: Option<ActiveRecording<G>>,
}

/// What offering a started recording does to the registry: `pre` and `post`
/// are the registry before and after. While a recording is active the offer
/// is an internal failure and the active recording is not disturbed;
/// otherwise the offered recording becomes the active one. The held session
/// is never touched.
pub open spec fn registration<S, G>(
    pre: LinuxCaptureBackend<S, G>,
    recording: ActiveRecording<G>,
    post: LinuxCaptureBackend<S, G>,
    r: Result<(), CaptureBackendError>,
) -> bool {
    &&& post.held_session() == pre.held_session()
    &&& match pre.active_recording() {
        Some(_) => post.active_recording() == pre.active_recording() && (r matches Err(e) && e@
            == internal("Recording already in progress"@)),
        None => post.active_recording() == Some(recording) && r is Ok,
    }
}

/// A control call ends with an internal failure whose message is `text`.
pub open spec fn refused(r: PipelineStep, text: Seq<char>) -> bool {
    r matches PipelineStep::Done(Err(e)) && e@ == internal(text)
}

impl<S, G> LinuxCaptureBackend<S, G> {
    /// The held session, if there is one.
    pub closed spec fn held_session(&self) -> Option<ActiveSession<S>> {
        self.session
    }

    /// The active recording, if there is one.
    pub closed spec fn active_recording(&self) -> Option<ActiveRecording<G>> {
        self.recording
    }

    /// Whether a recording is active, and whether it is paused.
    pub open spec fn status(&self) -> RecordingStatus {
        RecordingStatus {
            active: self.active_recording() is Some,
            paused: self.active_recording() matches Some(rec) && rec.pipeline.phase()
                == PipelinePhase::Paused,
        }
    }

    /// A backend that holds no session and no recording.
    pub fn new() -> (b: Self)
        ensures
            b.held_session() is None,
            b.active_recording() is None,
    {
        LinuxCaptureBackend { session: None, recording: None }
    }

    /// The kind of source that the picker offers for a configured source.
    pub fn source_type_from_config(source: &CaptureSource) -> (t: SourceType)
        ensures
            t == portal_source_type(*source),
    {
        source_type_for(source)
    }

    /// Whether a session is held.
    pub fn has_session(&self) -> (b: bool)
        ensures
            b == self.held_session() is Some,
    {
        self.session.is_some()
    }

    /// Whether a recording is active.
    pub fn is_recording(&self) -> (b: bool)
        ensures
            b == self.status().active,
    {
        self.recording.is_some()
    }

    /// Whether the active recording is paused.
    pub fn is_paused(&self) -> (b: bool)
        ensures
            b == self.status().paused,
    {
        match &self.recording {
            Some(rec) => rec.pipeline.is_paused(),
            None => false,
        }
    }

    /// The graph of the active recording.
    pub fn graph(&self) -> (g: Option<&G>)
        ensures
            match g {
                Some(graph) => self.active_recording() matches Some(rec) && rec.graph == *graph,
                None => self.active_recording() is None,
            },
    {
        match &self.recording {
            Some(rec) => Some(&rec.graph),
            None => None,
        }
    }

    /// Keeps the session of a granted selection, in place of any held before.
    pub fn hold_session(&mut self, session: ActiveSession<S>)
        ensures
            final(self).held_session() == Some(session),
            final(self).active_recording() == old(self).active_recording(),
    {
        self.session = Some(session);
    }

    /// Begins a request for selection: the flow through the authorization
    /// service for `config`. Its outcome is handed to
    /// [`complete_selection`](Self::complete_selection).
    pub fn request_selection(&self, config: &CaptureConfig) -> (flow: SelectionFlow)
        ensures
            flow.phase() == SelectionPhase::Created,
            flow.source() == config.source,
            flow.include_cursor() == config.include_cursor,
            flow.granted_stream() is None,
    {
        SelectionFlow::new(config)
    }

    /// Begins the capture of one frame of `selection` into the file at
    /// `output_path`. A screenshot touches neither the held session nor the
    /// active recording.
    pub fn capture_screenshot(&self, selection: &SelectionResult, output_path: &str) -> (capture:
        ScreenshotCapture)
        ensures
            capture.phase() == ScreenshotPhase::Created,
            capture.selection() == *selection,
            capture.output_path() == output_path@,
            capture.pending_failure() is None,
            capture.size() == (0u32, 0u32),
    {
        ScreenshotCapture::new(*selection, output_path)
    }

    /// Takes the outcome of a selection, with what keeps its stream alive.
    ///
    /// A granted selection is handed back, and its session is held from now
    /// on, in place of any held before. A failed selection is handed back as
    /// it came and leaves the held session alone. A selection that comes
    /// without its keeper or without the descriptor of its connection is an
    /// internal failure.
    pub fn complete_selection(
        &mut self,
        outcome: Result<SelectionResult, CaptureBackendError>,
        keeper: Option<S>,
    ) -> (r: Result<SelectionResult, CaptureBackendError>)
        ensures
            final(self).active_recording() == old(self).active_recording(),
            match outcome {
                Ok(selection) => match (keeper, selection.stream_fd) {
                    (Some(kept), Some(fd)) => {
                        &&& r == Ok::<SelectionResult, CaptureBackendError>(selection)
                        &&& final(self).held_session() == Some(
                            ActiveSession {
                                keeper: kept,
                                node_id: selection.node_id,
                                pipewire_fd: fd,
                            },
                        )
                    },
                    _ => {
                        &&& final(self).held_session() == old(self).held_session()
                        &&& r matches Err(e)
                        &&& e@ == failure(BackendErrorKind::Internal, unexpected_answer_text())
                    },
                },
                Err(failed) => {
                    &&& final(self).held_session() == old(self).held_session()
                    &&& r == Err::<SelectionResult, CaptureBackendError>(failed)
                },
            },
    {
        match outcome {
            Ok(selection) => match (keeper, selection.stream_fd) {
                (Some(kept), Some(fd)) => {
                    self.session = Some(
                        ActiveSession { keeper: kept, node_id: selection.node_id, pipewire_fd: fd },
                    );
                    Ok(selection)
                },
                _ => Err(unexpected_answer()),
            },
            Err(failed) => Err(failed),
        }
    }

    /// Releases the held session. Does nothing where none is held.
    pub fn cancel_selection(&mut self) -> (r: Result<(), CaptureBackendError>)
        ensures
            r is Ok,
            final(self).held_session() is None,
            final(self).active_recording() == old(self).active_recording(),
    {
        self.session = None;
        Ok(())
    }

    /// Checks that a recording may start: an internal failure while one is
    /// active. The check comes before anything is asked of the media engine.
    pub fn ensure_idle(&self) -> (r: Result<(), CaptureBackendError>)
        ensures
            if self.status().active {
                r matches Err(e) && e@ == internal("Recording already in progress"@)
            } else {
                r is Ok
            },
    {
        if self.recording.is_some() {
            return Err(CaptureBackendError::internal("Recording already in progress"));
        }
        Ok(())
    }

    /// Begins the start of a recording: an internal failure while a recording
    /// is active, else the pipeline that negotiation against `registry`
    /// yields. Once that pipeline is built and started, it is handed to
    /// [`register_recording`](Self::register_recording).
    pub fn start_recording(
        &self,
        selection: &SelectionResult,
        config: &CaptureConfig,
        registry: &CodecRegistry,
    ) -> (r: Result<RecordingPipeline, CaptureBackendError>)
        ensures
            if self.status().active {
                r matches Err(e) && e@ == internal("Recording already in progress"@)
            } else {
                planned_recording(
                    r,
                    selection.node_id,
                    selection.stream_fd,
                    config.output_path@,
                    config.fps,
                    config.container,
                    config.audio,
                    selection.width,
                    selection.height,
                    registry@,
                )
            },
    {
        match self.ensure_idle() {
            Err(e) => {
                return Err(e);
            },
            Ok(_) => {},
        }
        RecordingPipeline::new(
            selection.node_id,
            selection.stream_fd,
            config.output_path.as_str(),
            config.fps,
            config.container,
            &config.audio,
            selection.width,
            selection.height,
            registry,
        )
    }

    /// Registers a started recording as the active one. While a recording is
    /// active this is an internal failure: the active recording is not
    /// disturbed, and the offered one is dropped.
    pub fn register_recording(&mut self, recording: ActiveRecording<G>) -> (r: Result<
        (),
        CaptureBackendError,
    >)
        ensures
            registration(*old(self), recording, *final(self), r),
    {
        if self.recording.is_some() {
            return Err(CaptureBackendError::internal("Recording already in progress"));
        }
        self.recording = Some(recording);
        Ok(())
    }

    /// Asks for the active recording to pause. An internal failure where no
    /// recording is active or the recording is paused already; otherwise what
    /// the pipeline decides.
    pub fn pause_recording(&mut self) -> (r: PipelineStep)
        ensures
            final(self).held_session() == old(self).held_session(),
            match old(self).active_recording() {
                None => final(self).active_recording() is None && refused(
                    r,
                    "No recording in progress"@,
                ),
                Some(rec) => if rec.pipeline.phase() == PipelinePhase::Paused {
                    final(self).active_recording() == old(self).active_recording() && refused(
                        r,
                        "Recording is already paused"@,
                    )
                } else {
                    &&& final(self).active_recording() matches Some(after)
                    &&& after.graph == rec.graph
                    &&& command_effect(
                        rec.pipeline,
                        after.pipeline,
                        r,
                        is_live(rec.pipeline.phase()),
                        PipelinePhase::Pausing,
                        EngineAction::SetState(GraphState::Paused),
                        "Pipeline is not running"@,
                    )
                },
            },
    {
        match self.recording.take() {
            None => PipelineStep::Done(
                Err(CaptureBackendError::internal("No recording in progress")),
            ),
            Some(rec) => {
                if rec.pipeline.is_paused() {
                    self.recording = Some(rec);
                    PipelineStep::Done(
                        Err(CaptureBackendError::internal("Recording is already paused")),
                    )
                } else {
                    let mut pipeline = rec.pipeline;
                    let r = pipeline.pause();
                    self.recording = Some(ActiveRecording { pipeline, graph: rec.graph });
                    r
                }
            },
        }
    }

    /// Asks for the paused recording to run again. An internal failure where
    /// no recording is active or the recording is not paused; otherwise what
    /// the pipeline decides.
    pub fn resume_recording(&mut self) -> (r: PipelineStep)
        ensures
            final(self).held_session() == old(self).held_session(),
            match old(self).active_recording() {
                None => final(self).active_recording() is None && refused(
                    r,
                    "No recording in progress"@,
                ),
                Some(rec) => if rec.pipeline.phase() != PipelinePhase::Paused {
                    final(self).active_recording() == old(self).active_recording() && refused(
                        r,
                        "Recording is not paused"@,
                    )
                } else {
                    &&& final(self).active_recording() matches Some(after)
                    &&& after.graph == rec.graph
                    &&& command_effect(
                        rec.pipeline,
                        after.pipeline,
                        r,
                        true,
                        PipelinePhase::Resuming,
                        EngineAction::SetState(GraphState::Playing),
                        "Pipeline is not running"@,
                    )
                },
            },
    {
        match self.recording.take() {
            None => PipelineStep::Done(
                Err(CaptureBackendError::internal("No recording in progress")),
            ),
            Some(rec) => {
                if !rec.pipeline.is_paused() {
                    self.recording = Some(rec);
                    PipelineStep::Done(
                        Err(CaptureBackendError::internal("Recording is not paused")),
                    )
                } else {
                    let mut pipeline = rec.pipeline;
                    let r = pipeline.resume();
                    self.recording = Some(ActiveRecording { pipeline, graph: rec.graph });
                    r
                }
            },
        }
    }

    /// Hands the engine's answer to the active recording's pipeline. An
    /// internal failure where no recording is active.
    pub fn advance_recording(&mut self, event: EngineEvent) -> (r: PipelineStep)
        ensures
            final(self).held_session() == old(self).held_session(),
            match old(self).active_recording() {
                None => final(self).active_recording() is None && refused(
                    r,
                    "No recording in progress"@,
                ),
                Some(rec) => {
                    &&& final(self).active_recording() matches Some(after)
                    &&& after.graph == rec.graph
                    &&& pipeline_step(rec.pipeline, event, after.pipeline, r)
                },
            },
    {
        match self.recording.take() {
            None => PipelineStep::Done(
                Err(CaptureBackendError::internal("No recording in progress")),
            ),
            Some(rec) => {
                let mut pipeline = rec.pipeline;
                let r = pipeline.advance(event);
                self.recording = Some(ActiveRecording { pipeline, graph: rec.graph });
                r
            },
        }
    }

    /// Takes the active recording out of the registry, to be stopped. An
    /// internal failure where no recording is active. Afterwards none is.
    pub fn stop_recording(&mut self) -> (r: Result<ActiveRecording<G>, CaptureBackendError>)
        ensures
            final(self).held_session() == old(self).held_session(),
            final(self).active_recording() is None,
            match old(self).active_recording() {
                Some(rec) => r == Ok::<ActiveRecording<G>, CaptureBackendError>(rec),
                None => r matches Err(e) && e@ == internal("No recording in progress"@),
            },
    {
        match self.recording.take() {
            Some(rec) => Ok(rec),
            None => Err(CaptureBackendError::internal("No recording in progress")),
        }
    }

    /// Takes note of how stopping ended: after a recording that was finalized
    /// the session is released, since its stream is no longer needed. The
    /// outcome is handed back as it came.
    pub fn finish_stop(&mut self, outcome: Result<RecordingResult, CaptureBackendError>) -> (r:
        Result<RecordingResult, CaptureBackendError>)
        ensures
            r == outcome,
            final(self).active_recording() == old(self).active_recording(),
            final(self).held_session() == if outcome is Ok {
                None
            } else {
                old(self).held_session()
            },
    {
        if outcome.is_ok() {
            self.session = None;
        }
        outcome
    }
}

impl<S, G> Default for LinuxCaptureBackend<S, G> {
    fn default() -> (b: Self)
        ensures
            b.held_session() is None,
            b.active_recording() is None,
    {
        LinuxCaptureBackend::new()
    }
}

/// A second recording offered while one is active is refused, and the active
/// one stays as it is: whatever is registered first is what the registry
/// holds after both calls.
pub proof fn lemma_registry_keeps_first_recording<S, G>(
    before: LinuxCaptureBackend<S, G>,
    between: LinuxCaptureBackend<S, G>,
    after: LinuxCaptureBackend<S, G>,
    first: ActiveRecording<G>,
    second: ActiveRecording<G>,
    r1: Result<(), CaptureBackendError>,
    r2: Result<(), CaptureBackendError>,
)
    requires
        registration(before, first, between, r1),
        r1 is Ok,
        registration(between, second, after, r2),
    ensures
        r2 matches Err(e) && e@ == internal("Recording already in progress"@),
        after.active_recording() == Some(first),
        after.status().active,
{
}

} // verus!
