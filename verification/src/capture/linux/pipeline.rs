//! The recording pipeline: the description of its graph, and the decisions
//! of its lifecycle from construction to the finalized file.

use crate::capture::linux::encoding::{
    audio_candidates, detect_available_audio_encoder, detect_available_encoder,
    first_instantiable, get_muxer_for_container, get_system_audio_source, h264_candidates,
    muxer_name, CodecRegistry,
};
use crate::capture::linux::engine::{
    initialization_failed, initialization_failure_text, pipeline_error, pipeline_error_text,
    text_of, unexpected_event, unexpected_event_text, BusMessage, EngineAction, EngineEvent,
    GraphState,
};
use crate::capture::{internal, CaptureBackendError, RecordingResult, RecordingResultView};
use crate::clock::{elapsed_millis, now};
use crate::config::{AudioConfig, ContainerFormat};
use crate::text::{decimal, decimal_digits, push_decimal, push_signed_decimal};
use std::time::Instant;
use vstd::prelude::*;
use vstd::string::StringExecFns;

verus! {

/// Seconds that a stopping pipeline waits for its graph to finish.
pub const STOP_TIMEOUT_SECONDS: u64 = 5;

/// Width recorded when the selection does not know its size.
pub const FALLBACK_WIDTH: u32 = 1920;

/// Height recorded when the selection does not know its size.
pub const FALLBACK_HEIGHT: u32 = 1080;

/// How the audio branches of a graph are laid out.
#[derive(Debug, Clone, Copy, PartialEq, Eq, Structural)]
pub enum AudioTopology {
    /// No audio: the video branch feeds the muxer alone.
    Silent,
    /// One microphone branch into the muxer.
    Microphone,
    /// One system-loopback branch into the muxer.
    System,
    /// A microphone branch and a system-loopback branch are mixed; the mix
    /// feeds one audio branch into the muxer.
    Mixed,
}

/// The audio topology of a configuration.
pub open spec fn audio_topology(audio: AudioConfig) -> AudioTopology {
    if audio.mic && audio.system {
        AudioTopology::Mixed
    } else if audio.system {
        AudioTopology::System
    } else if audio.mic {
        AudioTopology::Microphone
    } else {
        AudioTopology::Silent
    }
}

/// The source stage of a recording graph: the stream's node, reached through
/// the descriptor where there is one.
pub open spec fn video_source(node_id: u32, stream_fd: Option<i32>) -> Seq<char> {
    match stream_fd {
        Some(fd) => "pipewiresrc fd="@ + decimal(fd as int) + " path="@ + decimal_digits(
            node_id as nat,
        ) + " client-name=opensnipping"@,
        None => "pipewiresrc path="@ + decimal_digits(node_id as nat)
            + " client-name=opensnipping"@,
    }
}

/// The video branch: source, convert, scale, the frame rate, the encoder.
pub open spec fn video_branch(
    node_id: u32,
    stream_fd: Option<i32>,
    fps: u8,
    encoder: Seq<char>,
) -> Seq<char> {
    video_source(node_id, stream_fd) + " ! videoconvert ! videoscale ! video/x-raw,framerate="@
        + decimal_digits(fps as nat) + "/1 ! "@ + encoder
}

/// What follows the video branch in the description, up to the muxer: the
/// audio branches.
pub open spec fn audio_branches(topology: AudioTopology, encoder: Seq<char>) -> Seq<char> {
    match topology {
        AudioTopology::Silent => " ! "@,
        AudioTopology::Microphone => " ! mux. pulsesrc ! audioconvert ! audioresample ! "@
            + encoder + " ! mux. "@,
        AudioTopology::System =>
            " ! mux. pulsesrc device=@DEFAULT_MONITOR@ ! audioconvert ! audioresample ! "@
            + encoder + " ! mux. "@,
        AudioTopology::Mixed => " ! mux. audiomixer name=mix ! audioconvert ! audioresample ! "@
            + encoder
            + " ! mux. pulsesrc ! audioconvert ! audioresample ! mix. pulsesrc device=@DEFAULT_MONITOR@ ! audioconvert ! audioresample ! mix. "@,
    }
}

/// The muxer and the file sink. A muxer that takes audio is named, so that
/// every branch can link to it.
pub open spec fn sink_stage(
    topology: AudioTopology,
    muxer: Seq<char>,
    output_path: Seq<char>,
) -> Seq<char> {
    if topology == AudioTopology::Silent {
        muxer + " ! filesink location="@ + output_path
    } else {
        muxer + " name=mux ! filesink location="@ + output_path
    }
}

/// What a recording graph is built from.
pub struct GraphPlan {
    pub node_id: u32,
    pub stream_fd: Option<i32>,
    pub output_path: Seq<char>,
    pub fps: u8,
    pub container: ContainerFormat,
    pub topology: AudioTopology,
    pub video_encoder: Seq<char>,
    pub audio_encoder: Seq<char>,
}

/// The description of a recording graph.
pub open spec fn recording_description(plan: GraphPlan) -> Seq<char> {
    video_branch(plan.node_id, plan.stream_fd, plan.fps, plan.video_encoder) + audio_branches(
        plan.topology,
        plan.audio_encoder,
    ) + sink_stage(plan.topology, muxer_name(plan.container), plan.output_path)
}

/// Why a pipeline cannot be constructed against a registry, if it cannot: no
/// H.264 encoder is available, or audio is asked for and no audio encoder is.
pub open spec fn construction_failure(
    container: ContainerFormat,
    audio: AudioConfig,
    registry: Set<Seq<char>>,
) -> Option<Seq<char>> {
    if first_instantiable(h264_candidates(), registry) is None {
        Some("No H.264 encoder available"@)
    } else if audio_topology(audio) != AudioTopology::Silent && first_instantiable(
        audio_candidates(container),
        registry,
    ) is None {
        Some("No audio encoder available"@)
    } else {
        None
    }
}

/// The plan that negotiation yields where construction succeeds.
pub open spec fn negotiated_plan(
    node_id: u32,
    stream_fd: Option<i32>,
    output_path: Seq<char>,
    fps: u8,
    container: ContainerFormat,
    audio: AudioConfig,
    registry: Set<Seq<char>>,
) -> GraphPlan {
    GraphPlan {
        node_id,
        stream_fd,
        output_path,
        fps,
        container,
        topology: audio_topology(audio),
        video_encoder: first_instantiable(h264_candidates(), registry).unwrap(),
        audio_encoder: if audio_topology(audio) == AudioTopology::Silent {
            Seq::<char>::empty()
        } else {
            first_instantiable(audio_candidates(container), registry).unwrap()
        },
    }
}

/// Decides the audio topology of a configuration.
pub fn topology_for(audio: &AudioConfig) -> (t: AudioTopology)
    ensures
        t == audio_topology(*audio),
{
    if audio.mic && audio.system {
        AudioTopology::Mixed
    } else if audio.system {
        AudioTopology::System
    } else if audio.mic {
        AudioTopology::Microphone
    } else {
        AudioTopology::Silent
    }
}

/// Builds the description of a recording graph.
pub fn describe_recording(
    node_id: u32,
    stream_fd: Option<i32>,
    output_path: &str,
    fps: u8,
    container: ContainerFormat,
    topology: AudioTopology,
    video_encoder: &str,
    audio_encoder: &str,
) -> (description: String)
    ensures
        description@ == recording_description(
            GraphPlan {
                node_id,
                stream_fd,
                output_path: output_path@,
                fps,
                container,
                topology,
                video_encoder: video_encoder@,
                audio_encoder: audio_encoder@,
            },
        ),
{
    let mut text = String::from_str("pipewiresrc ");
    match stream_fd {
        Some(fd) => {
            text.append("fd=");
            push_signed_decimal(&mut text, fd);
            text.append(" path=");
            push_decimal(&mut text, node_id as u64);
        },
        None => {
            text.append("path=");
            push_decimal(&mut text, node_id as u64);
        },
    }
    text.append(" client-name=opensnipping");
    proof {
        reveal_strlit("pipewiresrc ");
        reveal_strlit("fd=");
        reveal_strlit("path=");
        reveal_strlit("pipewiresrc fd=");
        reveal_strlit("pipewiresrc path=");
        assert("pipewiresrc "@ + "fd="@ =~= "pipewiresrc fd="@);
        assert("pipewiresrc "@ + "path="@ =~= "pipewiresrc path="@);
        assert(text@ =~= video_source(node_id, stream_fd));
    }
    text.append(" ! videoconvert ! videoscale ! video/x-raw,framerate=");
    push_decimal(&mut text, fps as u64);
    text.append("/1 ! ");
    text.append(video_encoder);
    assert(text@ =~= video_branch(node_id, stream_fd, fps, video_encoder@));
    let ghost video = text@;
    match topology {
        AudioTopology::Silent => {
            text.append(" ! ");
        },
        AudioTopology::Microphone => {
            text.append(" ! mux. pulsesrc ! audioconvert ! audioresample ! ");
            text.append(audio_encoder);
            text.append(" ! mux. ");
        },
        AudioTopology::System => {
            text.append(" ! mux. pulsesrc device=");
            text.append(get_system_audio_source());
            text.append(" ! audioconvert ! audioresample ! ");
            text.append(audio_encoder);
            text.append(" ! mux. ");
            proof {
                reveal_strlit(" ! mux. pulsesrc device=");
                reveal_strlit("@DEFAULT_MONITOR@");
                reveal_strlit(" ! audioconvert ! audioresample ! ");
                reveal_strlit(
                    " ! mux. pulsesrc device=@DEFAULT_MONITOR@ ! audioconvert ! audioresample ! ",
                );
                assert(" ! mux. pulsesrc device="@ + "@DEFAULT_MONITOR@"@
                    + " ! audioconvert ! audioresample ! "@
                    =~= " ! mux. pulsesrc device=@DEFAULT_MONITOR@ ! audioconvert ! audioresample ! "@);
            }
        },
        AudioTopology::Mixed => {
            text.append(" ! mux. audiomixer name=mix ! audioconvert ! audioresample ! ");
            text.append(audio_encoder);
            text.append(" ! mux. pulsesrc ! audioconvert ! audioresample ! mix. pulsesrc device=");
            text.append(get_system_audio_source());
            text.append(" ! audioconvert ! audioresample ! mix. ");
            proof {
                reveal_strlit(
                    " ! mux. pulsesrc ! audioconvert ! audioresample ! mix. pulsesrc device=",
                );
                reveal_strlit("@DEFAULT_MONITOR@");
                reveal_strlit(" ! audioconvert ! audioresample ! mix. ");
                reveal_strlit(
                    " ! mux. pulsesrc ! audioconvert ! audioresample ! mix. pulsesrc device=@DEFAULT_MONITOR@ ! audioconvert ! audioresample ! mix. ",
                );
                assert(" ! mux. pulsesrc ! audioconvert ! audioresample ! mix. pulsesrc device="@
                    + "@DEFAULT_MONITOR@"@ + " ! audioconvert ! audioresample ! mix. "@
                    =~= " ! mux. pulsesrc ! audioconvert ! audioresample ! mix. pulsesrc device=@DEFAULT_MONITOR@ ! audioconvert ! audioresample ! mix. "@);
            }
        },
    }
    assert(text@ =~= video + audio_branches(topology, audio_encoder@));
    let ghost branches = text@;
    text.append(get_muxer_for_container(container));
    match topology {
        AudioTopology::Silent => {
            text.append(" ! filesink location=");
        },
        _ => {
            text.append(" name=mux ! filesink location=");
        },
    }
    text.append(output_path);
    assert(text@ =~= branches + sink_stage(topology, muxer_name(container), output_path@));
    text
}

/// Where a recording pipeline stands.
#[derive(Debug, Clone, Copy, PartialEq, Eq, Structural)]
pub enum PipelinePhase {
    /// Negotiated and described; no graph exists yet.
    Planned,
    /// The engine is being initialized.
    Initializing,
    /// The graph is being built.
    Launching,
    /// The graph exists and was never started.
    Constructed,
    /// The graph is being linked, on the way to running.
    Linking,
    /// The graph is being set running for the first time.
    Starting,
    /// Recording.
    Running,
    /// The graph is being paused.
    Pausing,
    /// Paused; the graph is kept.
    Paused,
    /// The graph is being set running again.
    Resuming,
    /// End-of-stream is being signalled.
    Draining,
    /// The status channel is being opened.
    OpeningBus,
    /// The end of the stream is awaited.
    Waiting,
    /// The graph is being torn down.
    TearingDown,
    /// The output file is being looked for.
    Checking,
    /// The pipeline has ended.
    Stopped,
}

/// One recording: the description of its graph and the state of its
/// lifecycle.
#[derive(Debug)]
pub struct RecordingPipeline {
    description: String,
    output_path: String,
    start_time: Option<Instant>,
    width: u32,
    height: u32,
    phase: PipelinePhase,
    settled: PipelinePhase,
    duration_ms: u64,
    failure: Option<CaptureBackendError>,
}

/// What a pipeline asks for next, or how a command ended.
#[derive(Debug, PartialEq)]
pub enum PipelineStep {
    /// The engine is to carry out this request.
    Do(EngineAction),
    /// Building, starting, pausing or resuming has ended with this result.
    Done(Result<(), CaptureBackendError>),
    /// Stopping has ended with this result.
    Stopped(Result<RecordingResult, CaptureBackendError>),
}

impl PipelineStep {
    /// The result of a build, a start, a pause or a resume that has ended:
    /// what the command reported; for a stop, whether it succeeded. A step
    /// that still asks for something has no result, which is an internal
    /// failure.
    pub fn into_command_result(self) -> (r: Result<(), CaptureBackendError>)
        ensures
            match self {
                PipelineStep::Done(result) => r == result,
                PipelineStep::Stopped(Ok(_)) => r == Ok::<(), CaptureBackendError>(()),
                PipelineStep::Stopped(Err(e)) => r == Err::<(), CaptureBackendError>(e),
                PipelineStep::Do(_) => r matches Err(e) && e@ == internal(unexpected_event_text()),
            },
    {
        match self {
            PipelineStep::Done(result) => result,
            PipelineStep::Stopped(Ok(_)) => Ok(()),
            PipelineStep::Stopped(Err(e)) => Err(e),
            PipelineStep::Do(_) => Err(unexpected_event()),
        }
    }

    /// The result of a stop that has ended: the recording, or the failure
    /// that ended it. A step that is no end of a stop is an internal failure,
    /// unless it carries a failure of its own.
    pub fn into_stop_result(self) -> (r: Result<RecordingResult, CaptureBackendError>)
        ensures
            match self {
                PipelineStep::Stopped(result) => r == result,
                PipelineStep::Done(Err(e)) => r == Err::<RecordingResult, CaptureBackendError>(e),
                _ => r matches Err(e) && e@ == internal(unexpected_event_text()),
            },
    {
        match self {
            PipelineStep::Stopped(result) => result,
            PipelineStep::Done(Err(e)) => Err(e),
            _ => Err(unexpected_event()),
        }
    }
}

/// The pipeline is the same recording after as before: the description, the
/// output path and the size never change.
pub open spec fn same_recording(pre: RecordingPipeline, post: RecordingPipeline) -> bool {
    &&& post.description() == pre.description()
    &&& post.output_path() == pre.output_path()
    &&& post.size() == pre.size()
}

/// The pipeline moves on to `phase`; what it has noted so far stays.
pub open spec fn goes_to(
    pre: RecordingPipeline,
    post: RecordingPipeline,
    phase: PipelinePhase,
) -> bool {
    &&& post.phase() == phase
    &&& post.has_started() == pre.has_started()
    &&& post.duration_ms() == pre.duration_ms()
    &&& post.settled_phase() == pre.settled_phase()
    &&& post.pending_failure() == pre.pending_failure()
}

/// The pending command ends in `phase` with an internal failure whose
/// message is `text`.
pub open spec fn command_fails(
    pre: RecordingPipeline,
    post: RecordingPipeline,
    r: PipelineStep,
    phase: PipelinePhase,
    text: Seq<char>,
) -> bool {
    &&& goes_to(pre, post, phase)
    &&& r matches PipelineStep::Done(Err(e))
    &&& e@ == internal(text)
}

/// The pipeline notes the failure `text` and asks for the graph to be torn
/// down.
pub open spec fn tears_down_with(
    pre: RecordingPipeline,
    post: RecordingPipeline,
    r: PipelineStep,
    text: Seq<char>,
) -> bool {
    &&& post.phase() == PipelinePhase::TearingDown
    &&& post.has_started() == pre.has_started()
    &&& post.duration_ms() == pre.duration_ms()
    &&& post.settled_phase() == pre.settled_phase()
    &&& post.pending_failure() matches Some(e)
    &&& e@ == internal(text)
    &&& r == PipelineStep::Do(EngineAction::SetState(GraphState::Null))
}

/// Stopping ends with an internal failure whose message is `text`.
pub open spec fn stop_fails(
    pre: RecordingPipeline,
    post: RecordingPipeline,
    r: PipelineStep,
    text: Seq<char>,
) -> bool {
    &&& goes_to(pre, post, PipelinePhase::Stopped)
    &&& r matches PipelineStep::Stopped(Err(e))
    &&& e@ == internal(text)
}

/// What one answer of the engine does to a pipeline: `pre` and `post` are the
/// pipeline before and after, `r` is what it asks for next.
///
/// Building initializes the engine and builds the graph from the
/// description; a refusal ends the pipeline. Starting links the graph and
/// sets it running; a refusal leaves it constructed. Pausing and resuming
/// change the run state and keep the graph; a refusal leaves the pipeline as
/// it was. Stopping signals end-of-stream and awaits the end on the status
/// channel: other messages are skipped, a hard error is noted as the
/// failure, and a wait that times out goes on as if the end had come.
/// Whatever the wait brought, the graph is torn down next. A noted failure
/// is reported then; otherwise stopping succeeds if the output file exists.
pub open spec fn pipeline_step(
    pre: RecordingPipeline,
    event: EngineEvent,
    post: RecordingPipeline,
    r: PipelineStep,
) -> bool {
    &&& same_recording(pre, post)
    &&& match pre.phase() {
        PipelinePhase::Initializing => match event {
            EngineEvent::Done => {
                &&& goes_to(pre, post, PipelinePhase::Launching)
                &&& r matches PipelineStep::Do(EngineAction::Launch(d))
                &&& d@ == pre.description()
            },
            EngineEvent::Refused(msg) => command_fails(
                pre,
                post,
                r,
                PipelinePhase::Stopped,
                initialization_failure_text(msg@),
            ),
            _ => command_fails(pre, post, r, PipelinePhase::Stopped, unexpected_event_text()),
        },
        PipelinePhase::Launching => match event {
            EngineEvent::Done => {
                &&& goes_to(pre, post, PipelinePhase::Constructed)
                &&& r == PipelineStep::Done(Ok(()))
            },
            EngineEvent::Refused(msg) => command_fails(
                pre,
                post,
                r,
                PipelinePhase::Stopped,
                "Failed to create pipeline: "@ + msg@,
            ),
            EngineEvent::NotAPipeline => command_fails(
                pre,
                post,
                r,
                PipelinePhase::Stopped,
                "Failed to downcast to Pipeline"@,
            ),
            _ => command_fails(pre, post, r, PipelinePhase::Stopped, unexpected_event_text()),
        },
        PipelinePhase::Linking => match event {
            EngineEvent::Done => {
                &&& goes_to(pre, post, PipelinePhase::Starting)
                &&& r == PipelineStep::Do(EngineAction::SetState(GraphState::Playing))
            },
            EngineEvent::Refused(msg) => command_fails(
                pre,
                post,
                r,
                PipelinePhase::Constructed,
                "Failed to pause pipeline for linking: "@ + msg@,
            ),
            _ => command_fails(pre, post, r, PipelinePhase::Constructed, unexpected_event_text()),
        },
        PipelinePhase::Starting => match event {
            EngineEvent::Done => {
                &&& post.phase() == PipelinePhase::Running
                &&& post.has_started()
                &&& post.duration_ms() == pre.duration_ms()
                &&& post.settled_phase() == pre.settled_phase()
                &&& post.pending_failure() == pre.pending_failure()
                &&& r == PipelineStep::Done(Ok(()))
            },
            EngineEvent::Refused(msg) => command_fails(
                pre,
                post,
                r,
                PipelinePhase::Constructed,
                "Failed to start pipeline: "@ + msg@,
            ),
            _ => command_fails(pre, post, r, PipelinePhase::Constructed, unexpected_event_text()),
        },
        PipelinePhase::Pausing => match event {
            EngineEvent::Done => {
                &&& goes_to(pre, post, PipelinePhase::Paused)
                &&& r == PipelineStep::Done(Ok(()))
            },
            EngineEvent::Refused(msg) => command_fails(
                pre,
                post,
                r,
                pre.settled_phase(),
                "Failed to pause pipeline: "@ + msg@,
            ),
            _ => command_fails(pre, post, r, pre.settled_phase(), unexpected_event_text()),
        },
        PipelinePhase::Resuming => match event {
            EngineEvent::Done => {
                &&& goes_to(pre, post, PipelinePhase::Running)
                &&& r == PipelineStep::Done(Ok(()))
            },
            EngineEvent::Refused(msg) => command_fails(
                pre,
                post,
                r,
                pre.settled_phase(),
                "Failed to resume pipeline: "@ + msg@,
            ),
            _ => command_fails(pre, post, r, pre.settled_phase(), unexpected_event_text()),
        },
        PipelinePhase::Draining => {
            &&& goes_to(pre, post, PipelinePhase::OpeningBus)
            &&& r == PipelineStep::Do(EngineAction::OpenBus)
        },
        PipelinePhase::OpeningBus => match event {
            EngineEvent::Done => {
                &&& goes_to(pre, post, PipelinePhase::Waiting)
                &&& r == PipelineStep::Do(EngineAction::AwaitMessage(STOP_TIMEOUT_SECONDS))
            },
            EngineEvent::NoBus => tears_down_with(pre, post, r, "Failed to get pipeline bus"@),
            _ => tears_down_with(pre, post, r, unexpected_event_text()),
        },
        PipelinePhase::Waiting => match event {
            EngineEvent::Message(BusMessage::Eos) | EngineEvent::TimedOut => {
                &&& goes_to(pre, post, PipelinePhase::TearingDown)
                &&& r == PipelineStep::Do(EngineAction::SetState(GraphState::Null))
            },
            EngineEvent::Message(BusMessage::Error { error, debug }) => tears_down_with(
                pre,
                post,
                r,
                pipeline_error_text(error@, text_of(debug)),
            ),
            EngineEvent::Message(BusMessage::Other) => {
                &&& goes_to(pre, post, PipelinePhase::Waiting)
                &&& r == PipelineStep::Do(EngineAction::AwaitMessage(STOP_TIMEOUT_SECONDS))
            },
            _ => tears_down_with(pre, post, r, unexpected_event_text()),
        },
        PipelinePhase::TearingDown => match pre.pending_failure() {
            Some(failure) => {
                &&& post.phase() == PipelinePhase::Stopped
                &&& post.has_started() == pre.has_started()
                &&& post.duration_ms() == pre.duration_ms()
                &&& r == PipelineStep::Stopped(Err(failure))
            },
            None => {
                &&& goes_to(pre, post, PipelinePhase::Checking)
                &&& r matches PipelineStep::Do(EngineAction::CheckOutput(p))
                &&& p@ == pre.output_path()
            },
        },
        PipelinePhase::Checking => match event {
            EngineEvent::OutputExists(true) => {
                &&& goes_to(pre, post, PipelinePhase::Stopped)
                &&& r matches PipelineStep::Stopped(Ok(recording))
                &&& recording@ == (RecordingResultView {
                    path: pre.output_path(),
                    duration_ms: pre.duration_ms(),
                    width: pre.size().0,
                    height: pre.size().1,
                })
            },
            EngineEvent::OutputExists(false) => stop_fails(
                pre,
                post,
                r,
                "Recording file was not created"@,
            ),
            _ => stop_fails(pre, post, r, unexpected_event_text()),
        },
        PipelinePhase::Planned | PipelinePhase::Constructed | PipelinePhase::Running
        | PipelinePhase::Paused | PipelinePhase::Stopped => command_fails(
            pre,
            post,
            r,
            pre.phase(),
            unexpected_event_text(),
        ),
    }
}

/// What a command does that is accepted in the phases for which `accepted`
/// holds: there the pipeline moves on to `next` and asks for `action`;
/// elsewhere it stays as it is, and the command ends with an internal failure
/// whose message is `refusal`.
pub open spec fn command_effect(
    pre: RecordingPipeline,
    post: RecordingPipeline,
    r: PipelineStep,
    accepted: bool,
    next: PipelinePhase,
    action: EngineAction,
    refusal: Seq<char>,
) -> bool {
    &&& same_recording(pre, post)
    &&& if accepted {
        &&& post.phase() == next
        &&& post.has_started() == pre.has_started()
        &&& post.duration_ms() == pre.duration_ms()
        &&& post.pending_failure() == pre.pending_failure()
        &&& post.settled_phase() == pre.phase()
        &&& r == PipelineStep::Do(action)
    } else {
        command_fails(pre, post, r, pre.phase(), refusal)
    }
}

/// Whether a pipeline holds a graph whose run state can be changed.
pub open spec fn is_live(phase: PipelinePhase) -> bool {
    phase == PipelinePhase::Running || phase == PipelinePhase::Paused
}

/// Whether a pipeline can be asked to stop: it holds a graph and no other
/// command is under way.
pub open spec fn is_stoppable(phase: PipelinePhase) -> bool {
    phase == PipelinePhase::Constructed || is_live(phase)
}

/// What the request to stop does to a pipeline, where `elapsed_ms` is the
/// time measured since it started.
///
/// A pipeline that holds a graph notes the duration and asks for
/// end-of-stream to be signalled. Any other stays as it is, and stopping ends
/// with an internal failure.
pub open spec fn stop_effect(
    pre: RecordingPipeline,
    elapsed_ms: u64,
    post: RecordingPipeline,
    r: PipelineStep,
) -> bool {
    &&& same_recording(pre, post)
    &&& post.has_started() == pre.has_started()
    &&& post.pending_failure() == pre.pending_failure()
    &&& post.settled_phase() == pre.settled_phase()
    &&& if is_stoppable(pre.phase()) {
        &&& post.phase() == PipelinePhase::Draining
        &&& post.duration_ms() == elapsed_ms
        &&& r == PipelineStep::Do(EngineAction::SendEos)
    } else {
        &&& post.phase() == pre.phase()
        &&& post.duration_ms() == pre.duration_ms()
        &&& r matches PipelineStep::Stopped(Err(e))
        &&& e@ == internal("Pipeline cannot be stopped in its present state"@)
    }
}

/// Once stopping has begun, the pipeline never ends without the teardown:
/// while end-of-stream is signalled, the status channel opened or the end
/// awaited, no answer ends the stop.
pub proof fn lemma_stop_always_tears_down(
    pre: RecordingPipeline,
    event: EngineEvent,
    post: RecordingPipeline,
    r: PipelineStep,
)
    requires
        pre.phase() == PipelinePhase::Draining || pre.phase() == PipelinePhase::OpeningBus
            || pre.phase() == PipelinePhase::Waiting,
        pipeline_step(pre, event, post, r),
    ensures
        r is Do,
        post.phase() == PipelinePhase::TearingDown ==> r == PipelineStep::Do(
            EngineAction::SetState(GraphState::Null),
        ),
        post.phase() == PipelinePhase::OpeningBus || post.phase() == PipelinePhase::Waiting
            || post.phase() == PipelinePhase::TearingDown,
{
}

/// A wait that times out is no failure: the stop goes on to the teardown
/// with no failure noted beyond what was noted before.
pub proof fn lemma_timeout_is_no_failure(
    pre: RecordingPipeline,
    post: RecordingPipeline,
    r: PipelineStep,
)
    requires
        pre.phase() == PipelinePhase::Waiting,
        pipeline_step(pre, EngineEvent::TimedOut, post, r),
    ensures
        post.phase() == PipelinePhase::TearingDown,
        post.pending_failure() == pre.pending_failure(),
        post.duration_ms() == pre.duration_ms(),
{
}

/// A pause or a resume that the engine refuses leaves the pipeline in the
/// phase it was in when the command was given.
pub proof fn lemma_refused_toggle_changes_nothing(
    given: RecordingPipeline,
    pending: RecordingPipeline,
    after: RecordingPipeline,
    pausing: bool,
    asked: PipelineStep,
    reason: String,
    r: PipelineStep,
)
    requires
        is_live(given.phase()),
        command_effect(
            given,
            pending,
            asked,
            true,
            if pausing {
                PipelinePhase::Pausing
            } else {
                PipelinePhase::Resuming
            },
            EngineAction::SetState(
                if pausing {
                    GraphState::Paused
                } else {
                    GraphState::Playing
                },
            ),
            "Pipeline is not running"@,
        ),
        pipeline_step(pending, EngineEvent::Refused(reason), after, r),
    ensures
        after.phase() == given.phase(),
        after.has_started() == given.has_started(),
        same_recording(given, after),
        r matches PipelineStep::Done(Err(_)),
{
}

/// What planning a recording yields.
///
/// It fails, with the reason as the message of an internal failure, exactly
/// when construction is impossible against the registry. Otherwise it yields
/// a planned pipeline that was never started, described by the negotiated
/// plan, with the size of the selection, or 1920 by 1080 where that is
/// unknown.
pub open spec fn planned_recording(
    r: Result<RecordingPipeline, CaptureBackendError>,
    node_id: u32,
    stream_fd: Option<i32>,
    output_path: Seq<char>,
    fps: u8,
    container: ContainerFormat,
    audio: AudioConfig,
    width: Option<u32>,
    height: Option<u32>,
    registry: Set<Seq<char>>,
) -> bool {
    match r {
        Ok(pipeline) => {
            &&& construction_failure(container, audio, registry) is None
            &&& pipeline.phase() == PipelinePhase::Planned
            &&& pipeline.description() == recording_description(
                negotiated_plan(node_id, stream_fd, output_path, fps, container, audio, registry),
            )
            &&& pipeline.output_path() == output_path
            &&& pipeline.size() == (
                match width {
                    Some(w) => w,
                    None => FALLBACK_WIDTH,
                },
                match height {
                    Some(h) => h,
                    None => FALLBACK_HEIGHT,
                },
            )
            &&& !pipeline.has_started()
            &&& pipeline.duration_ms() == 0
            &&& pipeline.pending_failure() is None
        },
        Err(e) => construction_failure(container, audio, registry) == Some(e@.message) && e@
            == internal(e@.message),
    }
}

impl RecordingPipeline {
    /// Where the pipeline stands.
    pub closed spec fn spec_phase(&self) -> PipelinePhase {
        self.phase
    }

    /// The description that the graph is built from.
    pub closed spec fn description(&self) -> Seq<char> {
        self.description@
    }

    /// The path of the file that is written.
    pub closed spec fn output_path(&self) -> Seq<char> {
        self.output_path@
    }

    /// Width and height of the recording.
    pub closed spec fn size(&self) -> (u32, u32) {
        (self.width, self.height)
    }

    /// Whether the graph was set running, so that a start time is known.
    pub closed spec fn has_started(&self) -> bool {
        self.start_time is Some
    }

    /// The duration noted when stopping began; zero before.
    pub closed spec fn duration_ms(&self) -> u64 {
        self.duration_ms
    }

    /// The phase that a refused pause or resume returns to.
    pub closed spec fn settled_phase(&self) -> PipelinePhase {
        self.settled
    }

    /// The failure noted while stopping, reported once the graph is torn
    /// down.
    pub closed spec fn pending_failure(&self) -> Option<CaptureBackendError> {
        self.failure
    }

    /// Plans a recording of the stream `node_id` into the file at
    /// `output_path`: negotiates the encoders against `registry` and
    /// describes the graph.
    ///
    /// Fails when the registry offers no H.264 encoder or, where audio is
    /// asked for, no audio encoder for the container. The size is that of
    /// the selection, or 1920 by 1080 where it is unknown.
    pub fn new(
        node_id: u32,
        stream_fd: Option<i32>,
        output_path: &str,
        fps: u8,
        container: ContainerFormat,
        audio: &AudioConfig,
        width: Option<u32>,
        height: Option<u32>,
        registry: &CodecRegistry,
    ) -> (r: Result<Self, CaptureBackendError>)
        ensures
            planned_recording(
                r,
                node_id,
                stream_fd,
                output_path@,
                fps,
                container,
                *audio,
                width,
                height,
                registry@,
            ),
    {
        let video_encoder = match detect_available_encoder(registry) {
            Some(encoder) => encoder,
            None => {
                return Err(CaptureBackendError::internal("No H.264 encoder available"));
            },
        };
        let topology = topology_for(audio);
        let audio_encoder = match topology {
            AudioTopology::Silent => "",
            _ => match detect_available_audio_encoder(container, registry) {
                Some(encoder) => encoder,
                None => {
                    return Err(CaptureBackendError::internal("No audio encoder available"));
                },
            },
        };
        proof {
            reveal_strlit("");
            assert(""@ =~= Seq::<char>::empty());
        }
        let description = describe_recording(
            node_id,
            stream_fd,
            output_path,
            fps,
            container,
            topology,
            video_encoder,
            audio_encoder,
        );
        Ok(
            RecordingPipeline {
                description,
                output_path: String::from_str(output_path),
                start_time: None,
                width: match width {
                    Some(w) => w,
                    None => FALLBACK_WIDTH,
                },
                height: match height {
                    Some(h) => h,
                    None => FALLBACK_HEIGHT,
                },
                phase: PipelinePhase::Planned,
                settled: PipelinePhase::Planned,
                duration_ms: 0,
                failure: None,
            },
        )
    }

    /// Where the pipeline stands.
    #[verifier::when_used_as_spec(spec_phase)]
    pub fn phase(&self) -> (p: PipelinePhase)
        ensures
            p == self.spec_phase(),
    {
        self.phase
    }

    /// The description that the graph is built from.
    pub fn graph_description(&self) -> (d: &str)
        ensures
            d@ == self.description(),
    {
        self.description.as_str()
    }

    /// Whether the pipeline is paused.
    pub fn is_paused(&self) -> (b: bool)
        ensures
            b == (self.phase() == PipelinePhase::Paused),
    {
        self.phase == PipelinePhase::Paused
    }

    /// Ends the pending command in `phase` with `failure`.
    fn fail(&mut self, phase: PipelinePhase, failure: CaptureBackendError) -> (r: PipelineStep)
        ensures
            same_recording(*old(self), *final(self)),
            goes_to(*old(self), *final(self), phase),
            r == PipelineStep::Done(Err(failure)),
    {
        self.phase = phase;
        PipelineStep::Done(Err(failure))
    }

    /// Notes `failure` and asks for the graph to be torn down.
    fn tear_down_after(&mut self, failure: CaptureBackendError) -> (r: PipelineStep)
        ensures
            same_recording(*old(self), *final(self)),
            final(self).phase() == PipelinePhase::TearingDown,
            final(self).has_started() == old(self).has_started(),
            final(self).duration_ms() == old(self).duration_ms(),
            final(self).settled_phase() == old(self).settled_phase(),
            final(self).pending_failure() == Some(failure),
            r == PipelineStep::Do(EngineAction::SetState(GraphState::Null)),
    {
        self.failure = Some(failure);
        self.phase = PipelinePhase::TearingDown;
        PipelineStep::Do(EngineAction::SetState(GraphState::Null))
    }

    /// Ends stopping with `failure`.
    fn stop_failed(&mut self, failure: CaptureBackendError) -> (r: PipelineStep)
        ensures
            same_recording(*old(self), *final(self)),
            goes_to(*old(self), *final(self), PipelinePhase::Stopped),
            r == PipelineStep::Stopped(Err(failure)),
    {
        self.phase = PipelinePhase::Stopped;
        PipelineStep::Stopped(Err(failure))
    }

    /// Asks for the graph to be built: accepted once, on a planned pipeline.
    pub fn build(&mut self) -> (r: PipelineStep)
        ensures
            command_effect(
                *old(self),
                *final(self),
                r,
                old(self).phase() == PipelinePhase::Planned,
                PipelinePhase::Initializing,
                EngineAction::Initialize,
                "Pipeline was already built"@,
            ),
    {
        match self.phase {
            PipelinePhase::Planned => {
                self.settled = self.phase;
                self.phase = PipelinePhase::Initializing;
                PipelineStep::Do(EngineAction::Initialize)
            },
            _ => {
                let phase = self.phase;
                self.fail(phase, CaptureBackendError::internal("Pipeline was already built"))
            },
        }
    }

    /// Asks for the recording to start: accepted on a constructed pipeline
    /// that was never started.
    pub fn start(&mut self) -> (r: PipelineStep)
        ensures
            command_effect(
                *old(self),
                *final(self),
                r,
                old(self).phase() == PipelinePhase::Constructed,
                PipelinePhase::Linking,
                EngineAction::SetState(GraphState::Paused),
                "Pipeline cannot be started in its present state"@,
            ),
    {
        match self.phase {
            PipelinePhase::Constructed => {
                self.settled = self.phase;
                self.phase = PipelinePhase::Linking;
                PipelineStep::Do(EngineAction::SetState(GraphState::Paused))
            },
            _ => {
                let phase = self.phase;
                self.fail(
                    phase,
                    CaptureBackendError::internal(
                        "Pipeline cannot be started in its present state",
                    ),
                )
            },
        }
    }

    /// Asks for the recording to pause: accepted while the pipeline runs or
    /// is paused. The graph is kept.
    pub fn pause(&mut self) -> (r: PipelineStep)
        ensures
            command_effect(
                *old(self),
                *final(self),
                r,
                is_live(old(self).phase()),
                PipelinePhase::Pausing,
                EngineAction::SetState(GraphState::Paused),
                "Pipeline is not running"@,
            ),
    {
        match self.phase {
            PipelinePhase::Running | PipelinePhase::Paused => {
                self.settled = self.phase;
                self.phase = PipelinePhase::Pausing;
                PipelineStep::Do(EngineAction::SetState(GraphState::Paused))
            },
            _ => {
                let phase = self.phase;
                self.fail(phase, CaptureBackendError::internal("Pipeline is not running"))
            },
        }
    }

    /// Asks for the recording to run again: accepted while the pipeline runs
    /// or is paused.
    pub fn resume(&mut self) -> (r: PipelineStep)
        ensures
            command_effect(
                *old(self),
                *final(self),
                r,
                is_live(old(self).phase()),
                PipelinePhase::Resuming,
                EngineAction::SetState(GraphState::Playing),
                "Pipeline is not running"@,
            ),
    {
        match self.phase {
            PipelinePhase::Running | PipelinePhase::Paused => {
                self.settled = self.phase;
                self.phase = PipelinePhase::Resuming;
                PipelineStep::Do(EngineAction::SetState(GraphState::Playing))
            },
            _ => {
                let phase = self.phase;
                self.fail(phase, CaptureBackendError::internal("Pipeline is not running"))
            },
        }
    }

    /// Asks for the recording to stop, `elapsed_ms` milliseconds after it
    /// started.
    pub fn stop_after(&mut self, elapsed_ms: u64) -> (r: PipelineStep)
        ensures
            stop_effect(*old(self), elapsed_ms, *final(self), r),
    {
        match self.phase {
            PipelinePhase::Constructed | PipelinePhase::Running | PipelinePhase::Paused => {
                self.duration_ms = elapsed_ms;
                self.phase = PipelinePhase::Draining;
                PipelineStep::Do(EngineAction::SendEos)
            },
            _ => PipelineStep::Stopped(
                Err(
                    CaptureBackendError::internal(
                        "Pipeline cannot be stopped in its present state",
                    ),
                ),
            ),
        }
    }

    /// Asks for the recording to stop. The duration is the time on the
    /// monotonic clock since the graph was set running, pauses included; it
    /// is zero for a pipeline that never ran.
    pub fn stop(&mut self) -> (r: PipelineStep)
        ensures
            exists|elapsed_ms: u64|
                {
                    &&& #[trigger] stop_effect(*old(self), elapsed_ms, *final(self), r)
                    &&& !old(self).has_started() ==> elapsed_ms == 0
                },
    {
        let elapsed_ms: u64 = match &self.start_time {
            Some(started) => elapsed_millis(started),
            None => 0,
        };
        self.stop_after(elapsed_ms)
    }

    /// Takes the engine's answer to the pending request and decides what
    /// comes next.
    pub fn advance(&mut self, event: EngineEvent) -> (r: PipelineStep)
        ensures
            pipeline_step(*old(self), event, *final(self), r),
    {
        match self.phase {
            PipelinePhase::Initializing => match event {
                EngineEvent::Done => {
                    self.phase = PipelinePhase::Launching;
                    PipelineStep::Do(EngineAction::Launch(self.description.clone()))
                },
                EngineEvent::Refused(msg) => self.fail(
                    PipelinePhase::Stopped,
                    initialization_failed(msg.as_str()),
                ),
                _ => self.fail(PipelinePhase::Stopped, unexpected_event()),
            },
            PipelinePhase::Launching => match event {
                EngineEvent::Done => {
                    self.phase = PipelinePhase::Constructed;
                    PipelineStep::Done(Ok(()))
                },
                EngineEvent::Refused(msg) => self.fail(
                    PipelinePhase::Stopped,
                    CaptureBackendError::internal_with("Failed to create pipeline: ", msg.as_str()),
                ),
                EngineEvent::NotAPipeline => self.fail(
                    PipelinePhase::Stopped,
                    CaptureBackendError::internal("Failed to downcast to Pipeline"),
                ),
                _ => self.fail(PipelinePhase::Stopped, unexpected_event()),
            },
            PipelinePhase::Linking => match event {
                EngineEvent::Done => {
                    self.phase = PipelinePhase::Starting;
                    PipelineStep::Do(EngineAction::SetState(GraphState::Playing))
                },
                EngineEvent::Refused(msg) => self.fail(
                    PipelinePhase::Constructed,
                    CaptureBackendError::internal_with(
                        "Failed to pause pipeline for linking: ",
                        msg.as_str(),
                    ),
                ),
                _ => self.fail(PipelinePhase::Constructed, unexpected_event()),
            },
            PipelinePhase::Starting => match event {
                EngineEvent::Done => {
                    self.start_time = Some(now());
                    self.phase = PipelinePhase::Running;
                    PipelineStep::Done(Ok(()))
                },
                EngineEvent::Refused(msg) => self.fail(
                    PipelinePhase::Constructed,
                    CaptureBackendError::internal_with("Failed to start pipeline: ", msg.as_str()),
                ),
                _ => self.fail(PipelinePhase::Constructed, unexpected_event()),
            },
            PipelinePhase::Pausing => match event {
                EngineEvent::Done => {
                    self.phase = PipelinePhase::Paused;
                    PipelineStep::Done(Ok(()))
                },
                EngineEvent::Refused(msg) => {
                    let back = self.settled;
                    self.fail(
                        back,
                        CaptureBackendError::internal_with(
                            "Failed to pause pipeline: ",
                            msg.as_str(),
                        ),
                    )
                },
                _ => {
                    let back = self.settled;
                    self.fail(back, unexpected_event())
                },
            },
            PipelinePhase::Resuming => match event {
                EngineEvent::Done => {
                    self.phase = PipelinePhase::Running;
                    PipelineStep::Done(Ok(()))
                },
                EngineEvent::Refused(msg) => {
                    let back = self.settled;
                    self.fail(
                        back,
                        CaptureBackendError::internal_with(
                            "Failed to resume pipeline: ",
                            msg.as_str(),
                        ),
                    )
                },
                _ => {
                    let back = self.settled;
                    self.fail(back, unexpected_event())
                },
            },
            PipelinePhase::Draining => {
                self.phase = PipelinePhase::OpeningBus;
                PipelineStep::Do(EngineAction::OpenBus)
            },
            PipelinePhase::OpeningBus => match event {
                EngineEvent::Done => {
                    self.phase = PipelinePhase::Waiting;
                    PipelineStep::Do(EngineAction::AwaitMessage(STOP_TIMEOUT_SECONDS))
                },
                EngineEvent::NoBus => self.tear_down_after(
                    CaptureBackendError::internal("Failed to get pipeline bus"),
                ),
                _ => self.tear_down_after(unexpected_event()),
            },
            PipelinePhase::Waiting => match event {
                EngineEvent::Message(BusMessage::Eos) | EngineEvent::TimedOut => {
                    self.phase = PipelinePhase::TearingDown;
                    PipelineStep::Do(EngineAction::SetState(GraphState::Null))
                },
                EngineEvent::Message(BusMessage::Error { error, debug }) => self.tear_down_after(
                    pipeline_error(error.as_str(), &debug),
                ),
                EngineEvent::Message(BusMessage::Other) => PipelineStep::Do(
                    EngineAction::AwaitMessage(STOP_TIMEOUT_SECONDS),
                ),
                _ => self.tear_down_after(unexpected_event()),
            },
            PipelinePhase::TearingDown => match self.failure.take() {
                Some(failure) => {
                    self.phase = PipelinePhase::Stopped;
                    PipelineStep::Stopped(Err(failure))
                },
                None => {
                    self.phase = PipelinePhase::Checking;
                    PipelineStep::Do(EngineAction::CheckOutput(self.output_path.clone()))
                },
            },
            PipelinePhase::Checking => match event {
                EngineEvent::OutputExists(true) => {
                    self.phase = PipelinePhase::Stopped;
                    PipelineStep::Stopped(
                        Ok(
                            RecordingResult {
                                path: self.output_path.clone(),
                                duration_ms: self.duration_ms,
                                width: self.width,
                                height: self.height,
                            },
                        ),
                    )
                },
                EngineEvent::OutputExists(false) => self.stop_failed(
                    CaptureBackendError::internal("Recording file was not created"),
                ),
                _ => self.stop_failed(unexpected_event()),
            },
            PipelinePhase::Planned | PipelinePhase::Constructed | PipelinePhase::Running
            | PipelinePhase::Paused | PipelinePhase::Stopped => {
                let phase = self.phase;
                self.fail(phase, unexpected_event())
            },
        }
    }
}

} // verus!
