//! Source selection: the decisions of one pass through the authorization
//! flow, from connecting to the service to the granted stream.

use crate::capture::linux::portal::{
    is_refusal, tells_refusal, CursorMode, PersistMode, PortalAction, PortalEvent, SourceOptions,
    SourceType, StreamInfo,
};
use crate::capture::{BackendErrorKind, BackendErrorView, CaptureBackendError, SelectionResult};
use crate::config::{CaptureConfig, CaptureSource};
use vstd::prelude::*;
use vstd::string::StringExecFns;

verus! {

/// Where a selection stands.
#[derive(Debug, Clone, Copy, PartialEq, Eq, Structural)]
pub enum SelectionPhase {
    /// Nothing has been asked of the service yet.
    Created,
    /// The connection to the service is being made.
    Connecting,
    /// The session is being created.
    CreatingSession,
    /// The picker is shown.
    Selecting,
    /// The stream is being started.
    Starting,
    /// The connection that carries the stream is being opened.
    OpeningRemote,
    /// The selection has ended.
    Finished,
}

/// One pass through the authorization flow.
#[derive(Debug)]
pub struct SelectionFlow {
    source: CaptureSource,
    include_cursor: bool,
    phase: SelectionPhase,
    stream: Option<StreamInfo>,
}

/// What a selection asks for next, or how it ended.
#[derive(Debug, PartialEq)]
pub enum SelectionStep {
    /// The service is to carry out this request.
    Do(PortalAction),
    /// The selection has ended with this result.
    Finished(Result<SelectionResult, CaptureBackendError>),
}

/// The kind of source that the picker offers for each configured source. A
/// screen and a region are picked as a monitor; the region is cropped later.
pub open spec fn portal_source_type(source: CaptureSource) -> SourceType {
    match source {
        CaptureSource::Screen => SourceType::Monitor,
        CaptureSource::Monitor => SourceType::Monitor,
        CaptureSource::Window => SourceType::Window,
        CaptureSource::Region => SourceType::Monitor,
    }
}

/// What the picker is asked to offer for a configuration: one source of the
/// configured kind, the cursor drawn in or left out, nothing remembered.
pub open spec fn source_options(source: CaptureSource, include_cursor: bool) -> SourceOptions {
    SourceOptions {
        cursor_mode: if include_cursor {
            CursorMode::Embedded
        } else {
            CursorMode::Hidden
        },
        source_type: portal_source_type(source),
        multiple: false,
        persist_mode: PersistMode::DoNot,
    }
}

/// The selection that a granted stream and the descriptor of its connection
/// amount to.
pub open spec fn granted_selection(stream: StreamInfo, fd: i32) -> SelectionResult {
    SelectionResult {
        node_id: stream.node_id,
        stream_fd: Some(fd),
        width: match stream.size {
            Some(size) => Some(size.0 as u32),
            None => None,
        },
        height: match stream.size {
            Some(size) => Some(size.1 as u32),
            None => None,
        },
    }
}

/// A failure of the given kind with the given message.
pub open spec fn failure(kind: BackendErrorKind, message: Seq<char>) -> BackendErrorView {
    BackendErrorView { kind, message }
}

/// The failure for a request that the service did not carry out while the
/// picker was shown or the stream started: a refusal by the user where the
/// service's text tells so, a portal error with that text otherwise.
pub open spec fn refusal_or(
    text: Seq<char>,
    refusal: Seq<char>,
    context: Seq<char>,
) -> BackendErrorView {
    if tells_refusal(text) {
        failure(BackendErrorKind::PermissionDenied, refusal)
    } else {
        failure(BackendErrorKind::PortalError, context + text)
    }
}

/// The selection moves on to `phase` and keeps the stream it has noted.
pub open spec fn proceeds_to(
    pre: SelectionFlow,
    post: SelectionFlow,
    phase: SelectionPhase,
) -> bool {
    &&& post.phase() == phase
    &&& post.granted_stream() == pre.granted_stream()
}

/// The selection ends with the failure `e`.
pub open spec fn fails_with(post: SelectionFlow, r: SelectionStep, e: BackendErrorView) -> bool {
    &&& post.phase() == SelectionPhase::Finished
    &&& r matches SelectionStep::Finished(Err(err))
    &&& err@ == e
}

/// The message for an answer that does not fit the pending request.
pub open spec fn unexpected_answer_text() -> Seq<char> {
    "Portal answer does not match the pending request"@
}

/// What one answer of the service does to a selection: `pre` and `post` are
/// the selection before and after, `r` is what it asks for next.
///
/// The service is connected to, a session created, the picker shown with the
/// options of the configuration, and the stream started. A failure of the
/// connection or the session is a portal error. While the picker is shown or
/// the stream starts, a failure whose text tells that the user cancelled or
/// declined is a denied permission, any other a portal error. A start that
/// grants no stream means that no source is available. The first granted
/// stream is the selection; it is complete once the connection that carries
/// it is open.
pub open spec fn selection_step(
    pre: SelectionFlow,
    event: PortalEvent,
    post: SelectionFlow,
    r: SelectionStep,
) -> bool {
    &&& post.source() == pre.source()
    &&& post.include_cursor() == pre.include_cursor()
    &&& match pre.phase() {
        SelectionPhase::Connecting => match event {
            PortalEvent::Done => {
                &&& proceeds_to(pre, post, SelectionPhase::CreatingSession)
                &&& r == SelectionStep::Do(PortalAction::CreateSession)
            },
            PortalEvent::Failed(text) => fails_with(
                post,
                r,
                failure(
                    BackendErrorKind::PortalError,
                    "Failed to connect to screencast portal: "@ + text@,
                ),
            ),
            _ => fails_with(
                post,
                r,
                failure(BackendErrorKind::Internal, unexpected_answer_text()),
            ),
        },
        SelectionPhase::CreatingSession => match event {
            PortalEvent::Done => {
                &&& proceeds_to(pre, post, SelectionPhase::Selecting)
                &&& r == SelectionStep::Do(
                    PortalAction::SelectSources(source_options(pre.source(), pre.include_cursor())),
                )
            },
            PortalEvent::Failed(text) => fails_with(
                post,
                r,
                failure(BackendErrorKind::PortalError, "Failed to create session: "@ + text@),
            ),
            _ => fails_with(
                post,
                r,
                failure(BackendErrorKind::Internal, unexpected_answer_text()),
            ),
        },
        SelectionPhase::Selecting => match event {
            PortalEvent::Done => {
                &&& proceeds_to(pre, post, SelectionPhase::Starting)
                &&& r == SelectionStep::Do(PortalAction::Start)
            },
            PortalEvent::Failed(text) => fails_with(
                post,
                r,
                refusal_or(text@, "User cancelled selection"@, "Failed to select sources: "@),
            ),
            _ => fails_with(
                post,
                r,
                failure(BackendErrorKind::Internal, unexpected_answer_text()),
            ),
        },
        SelectionPhase::Starting => match event {
            PortalEvent::Streams(streams) => if streams@.len() == 0 {
                fails_with(
                    post,
                    r,
                    failure(
                        BackendErrorKind::NoSourceAvailable,
                        "No streams returned from portal"@,
                    ),
                )
            } else {
                &&& post.phase() == SelectionPhase::OpeningRemote
                &&& post.granted_stream() == Some(streams@[0])
                &&& r == SelectionStep::Do(PortalAction::OpenRemote)
            },
            PortalEvent::Failed(text) => fails_with(
                post,
                r,
                refusal_or(
                    text@,
                    "User denied screencast permission"@,
                    "Failed to start screencast: "@,
                ),
            ),
            PortalEvent::ResponseFailed(text) => fails_with(
                post,
                r,
                failure(BackendErrorKind::PortalError, "Failed to get response: "@ + text@),
            ),
            _ => fails_with(
                post,
                r,
                failure(BackendErrorKind::Internal, unexpected_answer_text()),
            ),
        },
        SelectionPhase::OpeningRemote => match (event, pre.granted_stream()) {
            (PortalEvent::Remote(fd), Some(stream)) => {
                &&& post.phase() == SelectionPhase::Finished
                &&& r == SelectionStep::Finished(Ok(granted_selection(stream, fd)))
            },
            (PortalEvent::Failed(text), _) => fails_with(
                post,
                r,
                failure(BackendErrorKind::PortalError, "Failed to open PipeWire remote: "@ + text@),
            ),
            _ => fails_with(
                post,
                r,
                failure(BackendErrorKind::Internal, unexpected_answer_text()),
            ),
        },
        SelectionPhase::Created | SelectionPhase::Finished => fails_with(
            post,
            r,
            failure(BackendErrorKind::Internal, unexpected_answer_text()),
        ),
    }
}

/// A selection never ends with a failure that tells an unsupported
/// platform: what it reports is a denied permission, a portal error, a
/// missing source, or an internal failure.
pub proof fn lemma_selection_failures_are_classified(
    pre: SelectionFlow,
    event: PortalEvent,
    post: SelectionFlow,
    r: SelectionStep,
)
    requires
        selection_step(pre, event, post, r),
    ensures
        r matches SelectionStep::Finished(Err(e)) ==> e@.kind != BackendErrorKind::NotSupported,
        r matches SelectionStep::Finished(Ok(selection)) ==> pre.phase()
            == SelectionPhase::OpeningRemote && selection.stream_fd is Some,
{
}

/// The kind of source that the picker offers for a configured source.
pub fn source_type_for(source: &CaptureSource) -> (t: SourceType)
    ensures
        t == portal_source_type(*source),
{
    match source {
        CaptureSource::Screen => SourceType::Monitor,
        CaptureSource::Monitor => SourceType::Monitor,
        CaptureSource::Window => SourceType::Window,
        CaptureSource::Region => SourceType::Monitor,
    }
}

/// The failure for a request that the service did not carry out while the
/// picker was shown or the stream started.
pub fn classify_failure(text: &str, refusal: &str, context: &str) -> (e: CaptureBackendError)
    ensures
        e@ == refusal_or(text@, refusal@, context@),
{
    if is_refusal(text) {
        CaptureBackendError::PermissionDenied(String::from_str(refusal))
    } else {
        CaptureBackendError::PortalError(String::from_str(context).concat(text))
    }
}

/// The failure for an answer that does not fit the pending request.
pub fn unexpected_answer() -> (e: CaptureBackendError)
    ensures
        e@ == failure(BackendErrorKind::Internal, unexpected_answer_text()),
{
    CaptureBackendError::internal("Portal answer does not match the pending request")
}

/// A portal error whose message is `context` followed by the service's text.
fn portal_error(context: &str, text: &str) -> (e: CaptureBackendError)
    ensures
        e@ == failure(BackendErrorKind::PortalError, context@ + text@),
{
    CaptureBackendError::PortalError(String::from_str(context).concat(text))
}

/// The selection that a granted stream and the descriptor of its connection
/// amount to.
pub fn selection_from_stream(stream: &StreamInfo, fd: i32) -> (selection: SelectionResult)
    ensures
        selection == granted_selection(*stream, fd),
{
    let (width, height) = match stream.size {
        Some((w, h)) => (
            Some(#[verifier::truncate] (w as u32)),
            Some(#[verifier::truncate] (h as u32)),
        ),
        None => (None, None),
    };
    SelectionResult { node_id: stream.node_id, stream_fd: Some(fd), width, height }
}

impl SelectionFlow {
    /// Where the selection stands.
    pub closed spec fn spec_phase(&self) -> SelectionPhase {
        self.phase
    }

    /// The configured kind of source.
    pub closed spec fn source(&self) -> CaptureSource {
        self.source
    }

    /// Whether the cursor is to be part of the picture.
    pub closed spec fn include_cursor(&self) -> bool {
        self.include_cursor
    }

    /// The stream that the service granted, once it has.
    pub closed spec fn granted_stream(&self) -> Option<StreamInfo> {
        self.stream
    }

    /// A selection for `config`, of which nothing has been asked yet.
    pub fn new(config: &CaptureConfig) -> (flow: Self)
        ensures
            flow.phase() == SelectionPhase::Created,
            flow.source() == config.source,
            flow.include_cursor() == config.include_cursor,
            flow.granted_stream() is None,
    {
        SelectionFlow {
            source: config.source,
            include_cursor: config.include_cursor,
            phase: SelectionPhase::Created,
            stream: None,
        }
    }

    /// Where the selection stands.
    #[verifier::when_used_as_spec(spec_phase)]
    pub fn phase(&self) -> (p: SelectionPhase)
        ensures
            p == self.spec_phase(),
    {
        self.phase
    }

    /// What the picker is asked to offer.
    pub fn options(&self) -> (o: SourceOptions)
        ensures
            o == source_options(self.source(), self.include_cursor()),
    {
        SourceOptions {
            cursor_mode: if self.include_cursor {
                CursorMode::Embedded
            } else {
                CursorMode::Hidden
            },
            source_type: source_type_for(&self.source),
            multiple: false,
            persist_mode: PersistMode::DoNot,
        }
    }

    /// Starts the selection: a fresh selection asks for the connection to the
    /// service. One that was begun before ends with an internal failure.
    pub fn begin(&mut self) -> (r: SelectionStep)
        ensures
            final(self).source() == old(self).source(),
            final(self).include_cursor() == old(self).include_cursor(),
            old(self).phase() == SelectionPhase::Created ==> proceeds_to(
                *old(self),
                *final(self),
                SelectionPhase::Connecting,
            ) && r == SelectionStep::Do(PortalAction::Connect),
            old(self).phase() != SelectionPhase::Created ==> fails_with(
                *final(self),
                r,
                failure(BackendErrorKind::Internal, "Selection was already begun"@),
            ),
    {
        match self.phase {
            SelectionPhase::Created => {
                self.phase = SelectionPhase::Connecting;
                SelectionStep::Do(PortalAction::Connect)
            },
            _ => self.end(CaptureBackendError::internal("Selection was already begun")),
        }
    }

    /// Ends the selection with `failure`.
    fn end(&mut self, failure: CaptureBackendError) -> (r: SelectionStep)
        ensures
            final(self).source() == old(self).source(),
            final(self).include_cursor() == old(self).include_cursor(),
            final(self).phase() == SelectionPhase::Finished,
            r == SelectionStep::Finished(Err(failure)),
    {
        self.phase = SelectionPhase::Finished;
        SelectionStep::Finished(Err(failure))
    }

    /// Ends the selection because the answer does not fit the request.
    fn end_unexpected(&mut self) -> (r: SelectionStep)
        ensures
            final(self).source() == old(self).source(),
            final(self).include_cursor() == old(self).include_cursor(),
            fails_with(
                *final(self),
                r,
                failure(BackendErrorKind::Internal, unexpected_answer_text()),
            ),
    {
        self.end(unexpected_answer())
    }

    /// Takes the service's answer to the pending request and decides what
    /// comes next.
    pub fn step(&mut self, event: PortalEvent) -> (r: SelectionStep)
        ensures
            selection_step(*old(self), event, *final(self), r),
    {
        match self.phase {
            SelectionPhase::Connecting => match event {
                PortalEvent::Done => {
                    self.phase = SelectionPhase::CreatingSession;
                    SelectionStep::Do(PortalAction::CreateSession)
                },
                PortalEvent::Failed(text) => self.end(
                    portal_error("Failed to connect to screencast portal: ", text.as_str()),
                ),
                _ => self.end_unexpected(),
            },
            SelectionPhase::CreatingSession => match event {
                PortalEvent::Done => {
                    self.phase = SelectionPhase::Selecting;
                    SelectionStep::Do(PortalAction::SelectSources(self.options()))
                },
                PortalEvent::Failed(text) => self.end(
                    portal_error("Failed to create session: ", text.as_str()),
                ),
                _ => self.end_unexpected(),
            },
            SelectionPhase::Selecting => match event {
                PortalEvent::Done => {
                    self.phase = SelectionPhase::Starting;
                    SelectionStep::Do(PortalAction::Start)
                },
                PortalEvent::Failed(text) => self.end(
                    classify_failure(
                        text.as_str(),
                        "User cancelled selection",
                        "Failed to select sources: ",
                    ),
                ),
                _ => self.end_unexpected(),
            },
            SelectionPhase::Starting => match event {
                PortalEvent::Streams(streams) => {
                    if streams.len() == 0 {
                        self.end(
                            CaptureBackendError::NoSourceAvailable(
                                String::from_str("No streams returned from portal"),
                            ),
                        )
                    } else {
                        self.stream = Some(streams[0]);
                        self.phase = SelectionPhase::OpeningRemote;
                        SelectionStep::Do(PortalAction::OpenRemote)
                    }
                },
                PortalEvent::Failed(text) => self.end(
                    classify_failure(
                        text.as_str(),
                        "User denied screencast permission",
                        "Failed to start screencast: ",
                    ),
                ),
                PortalEvent::ResponseFailed(text) => self.end(
                    portal_error("Failed to get response: ", text.as_str()),
                ),
                _ => self.end_unexpected(),
            },
            SelectionPhase::OpeningRemote => match event {
                PortalEvent::Remote(fd) => match self.stream {
                    Some(stream) => {
                        self.phase = SelectionPhase::Finished;
                        SelectionStep::Finished(Ok(selection_from_stream(&stream, fd)))
                    },
                    None => self.end_unexpected(),
                },
                PortalEvent::Failed(text) => self.end(
                    portal_error("Failed to open PipeWire remote: ", text.as_str()),
                ),
                _ => self.end_unexpected(),
            },
            SelectionPhase::Created | SelectionPhase::Finished => self.end_unexpected(),
        }
    }
}

} // verus!
