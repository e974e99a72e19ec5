use opensnipping::capture::{
    CaptureBackendError, RecordingResult, ScreenshotResult, SelectionResult,
};
use opensnipping::config::{CaptureConfig, ContainerFormat};
use opensnipping::events::event_names;
use opensnipping::events::{
    CaptureEvent, ErrorEvent, PermissionKind, PermissionNeededEvent, ProgressEvent,
    RecordingStartedEvent, RecordingStoppedEvent, ScreenshotCompleteEvent,
    SelectionCompleteEvent, StateChangedEvent,
};
use opensnipping::ipc::commands::{
    begin_recording, cancel_capture, finalize_complete, finish_selection, get_state,
    pause_recording, pause_recording_video, ping, recording_started, recording_stopped,
    require_backend, reset_error, resume_recording, resume_recording_video, screenshot_finished,
    screenshot_selection_finished, start_capture, start_recording_video, stop_recording,
    stop_recording_video, take_screenshot,
};
use opensnipping::ipc::errors::backend_error_to_capture_error;
use opensnipping::state::{CaptureError, CaptureState, ErrorCode};
use opensnipping::{generate_screenshot_temp_path, AppState};
use std::collections::HashSet;
use std::path::PathBuf;

/// Stands for the backend that records.
#[derive(Debug, PartialEq)]
struct Backend(u8);

fn valid_config() -> CaptureConfig {
    CaptureConfig {
        output_path: "/tmp/recording.mp4".to_string(),
        ..Default::default()
    }
}

fn selection() -> SelectionResult {
    SelectionResult {
        node_id: 99,
        stream_fd: Some(4),
        width: Some(1920),
        height: Some(1080),
    }
}

fn changed(previous: CaptureState, state: CaptureState) -> CaptureEvent {
    CaptureEvent::StateChanged(StateChangedEvent { state, previous })
}

fn error_event(code: ErrorCode, message: &str) -> CaptureEvent {
    CaptureEvent::Error(ErrorEvent {
        error: CaptureError {
            code,
            message: message.to_string(),
        },
    })
}

/// A session whose selection was granted: the machine records.
fn recording_session() -> AppState<Backend> {
    let mut state = AppState::new();
    start_capture(&mut state, valid_config());
    finish_selection(&mut state, Ok(selection()));
    assert_eq!(get_state(&state), CaptureState::Recording);
    state
}

#[test]
fn test_ping_returns_pong() {
    assert_eq!(ping(), "Pong from Rust!");
}

#[test]
fn test_screenshot_temp_path_is_in_tmp_dir() {
    let path = PathBuf::from(generate_screenshot_temp_path());
    assert!(
        path.starts_with("/tmp"),
        "Path should be in /tmp directory: {:?}",
        path
    );
}

#[test]
fn test_screenshot_temp_path_has_correct_prefix() {
    let path = PathBuf::from(generate_screenshot_temp_path());
    let filename = path.file_name().unwrap().to_str().unwrap();
    assert!(
        filename.starts_with("opensnipping-"),
        "Filename should start with 'opensnipping-': {}",
        filename
    );
}

#[test]
fn test_screenshot_temp_path_has_png_extension() {
    let path = PathBuf::from(generate_screenshot_temp_path());
    assert_eq!(
        path.extension().and_then(|e| e.to_str()),
        Some("png"),
        "Path should have .png extension: {:?}",
        path
    );
}

#[test]
fn test_screenshot_temp_path_is_unique() {
    // Generate multiple paths and ensure they are all unique
    let mut paths = HashSet::new();
    for _ in 0..100 {
        let path = PathBuf::from(generate_screenshot_temp_path());
        assert!(
            paths.insert(path.clone()),
            "Generated path should be unique: {:?}",
            path
        );
    }
    assert_eq!(paths.len(), 100);
}

#[test]
fn a_temp_path_holds_an_identifier_of_36_characters() {
    let path = generate_screenshot_temp_path();
    assert_eq!(path.len(), "/tmp/opensnipping-".len() + 36 + ".png".len());
    assert_eq!(
        opensnipping::screenshot_temp_path("abc"),
        "/tmp/opensnipping-abc.png"
    );
}

#[test]
fn a_new_application_is_idle_and_empty() {
    let state: AppState<Backend> = AppState::default();
    assert_eq!(get_state(&state), CaptureState::Idle);
    assert!(state.config.is_none());
    assert!(state.selection.is_none());
    assert!(state.backend.is_none());
}

#[test]
fn starting_a_capture_keeps_the_config_and_goes_to_selecting() {
    let mut state: AppState<Backend> = AppState::new();
    let out = start_capture(&mut state, valid_config());
    assert_eq!(out.result, Ok(CaptureState::Selecting));
    assert_eq!(
        out.events,
        vec![changed(CaptureState::Idle, CaptureState::Selecting)]
    );
    assert_eq!(state.config, Some(valid_config()));
    assert_eq!(get_state(&state), CaptureState::Selecting);
}

#[test]
fn an_invalid_config_puts_the_session_in_the_error_state() {
    let mut state: AppState<Backend> = AppState::new();
    let out = start_capture(
        &mut state,
        CaptureConfig {
            fps: 0,
            ..valid_config()
        },
    );
    assert_eq!(out.result, Err("fps: FPS must be between 1 and 60".to_string()));
    assert_eq!(
        out.events,
        vec![error_event(
            ErrorCode::InvalidConfig,
            "fps: FPS must be between 1 and 60"
        )]
    );
    assert_eq!(get_state(&state), CaptureState::Error);
    assert_eq!(
        state.state_machine.last_error().unwrap().code,
        ErrorCode::InvalidConfig
    );
    assert!(state.config.is_none());

    let out = start_capture(&mut state, CaptureConfig::default());
    assert_eq!(
        out.result,
        Err("output_path: Output path cannot be empty".to_string())
    );
}

#[test]
fn a_capture_cannot_start_while_recording() {
    let mut state = recording_session();
    let out = start_capture(&mut state, valid_config());
    assert_eq!(
        out.result,
        Err("Cannot transition from Recording to Selecting".to_string())
    );
    assert!(out.events.is_empty());
    assert_eq!(get_state(&state), CaptureState::Recording);
}

#[test]
fn a_granted_selection_is_kept_published_and_starts_recording() {
    let mut state: AppState<Backend> = AppState::new();
    start_capture(&mut state, valid_config());
    let out = finish_selection(&mut state, Ok(selection()));
    assert_eq!(out.result, Ok(CaptureState::Recording));
    assert_eq!(
        out.events,
        vec![
            CaptureEvent::SelectionComplete(SelectionCompleteEvent {
                selection: selection()
            }),
            changed(CaptureState::Selecting, CaptureState::Recording),
        ]
    );
    assert_eq!(state.selection, Some(selection()));
    assert_eq!(state.config, Some(valid_config()));
}

#[test]
fn a_failed_selection_is_mapped_into_the_error_state() {
    let cases = [
        (
            CaptureBackendError::PermissionDenied("User cancelled selection".to_string()),
            ErrorCode::PermissionDenied,
            "User cancelled selection",
        ),
        (
            CaptureBackendError::PortalError("Failed to create session: x".to_string()),
            ErrorCode::PortalError,
            "Failed to create session: x",
        ),
        (
            CaptureBackendError::NoSourceAvailable("No streams returned from portal".to_string()),
            ErrorCode::NoSourceAvailable,
            "No streams returned from portal",
        ),
        (
            CaptureBackendError::NotSupported("Capture not implemented".to_string()),
            ErrorCode::NotSupported,
            "Capture not implemented",
        ),
        (
            CaptureBackendError::Internal("bug".to_string()),
            ErrorCode::Internal,
            "bug",
        ),
    ];
    for (failure, code, message) in cases {
        assert_eq!(
            backend_error_to_capture_error(&failure),
            CaptureError {
                code,
                message: message.to_string()
            }
        );
        let mut state: AppState<Backend> = AppState::new();
        start_capture(&mut state, valid_config());
        let out = finish_selection(&mut state, Err(failure));
        assert_eq!(out.result, Err(message.to_string()));
        assert_eq!(out.events, vec![error_event(code, message)]);
        assert_eq!(get_state(&state), CaptureState::Error);
        assert_eq!(state.state_machine.last_error().unwrap().code, code);
        assert!(state.config.is_none());
        assert!(state.selection.is_none());

        // The session is usable again after a reset.
        let out = reset_error(&mut state);
        assert_eq!(out.result, Ok(CaptureState::Idle));
        assert_eq!(out.events, vec![changed(CaptureState::Error, CaptureState::Idle)]);
        assert!(state.state_machine.last_error().is_none());
        assert_eq!(
            start_capture(&mut state, valid_config()).result,
            Ok(CaptureState::Selecting)
        );
    }
}

#[test]
fn the_five_kinds_of_failure_are_shown_under_five_codes() {
    let codes = [
        backend_error_to_capture_error(&CaptureBackendError::PermissionDenied("m".to_string())).code,
        backend_error_to_capture_error(&CaptureBackendError::PortalError("m".to_string())).code,
        backend_error_to_capture_error(&CaptureBackendError::NoSourceAvailable("m".to_string()))
            .code,
        backend_error_to_capture_error(&CaptureBackendError::NotSupported("m".to_string())).code,
        backend_error_to_capture_error(&CaptureBackendError::Internal("m".to_string())).code,
    ];
    assert_eq!(
        codes,
        [
            ErrorCode::PermissionDenied,
            ErrorCode::PortalError,
            ErrorCode::NoSourceAvailable,
            ErrorCode::NotSupported,
            ErrorCode::Internal,
        ]
    );
    for (i, a) in codes.iter().enumerate() {
        for (j, b) in codes.iter().enumerate() {
            assert_eq!(a == b, i == j);
        }
    }
    let shown = backend_error_to_capture_error(&CaptureBackendError::NoSourceAvailable(
        "No display found".to_string(),
    ));
    assert_eq!(shown.message, "No display found");
}

#[test]
fn cancelling_clears_the_session() {
    let mut state: AppState<Backend> = AppState::new();
    start_capture(&mut state, valid_config());
    state.selection = Some(selection());
    let out = cancel_capture(&mut state);
    assert_eq!(out.result, Ok(CaptureState::Idle));
    assert_eq!(
        out.events,
        vec![changed(CaptureState::Selecting, CaptureState::Idle)]
    );
    assert!(state.config.is_none());
    assert!(state.selection.is_none());
}

#[test]
fn a_refused_cancel_clears_nothing() {
    let mut state = recording_session();
    let out = cancel_capture(&mut state);
    assert_eq!(
        out.result,
        Err("Cannot transition from Recording to Idle".to_string())
    );
    assert!(out.events.is_empty());
    assert!(state.config.is_some());
    assert!(state.selection.is_some());
}

#[test]
fn the_transition_commands_follow_the_table() {
    let mut state = recording_session();
    assert_eq!(pause_recording(&mut state).result, Ok(CaptureState::Paused));
    assert_eq!(
        begin_recording(&mut state).events,
        vec![changed(CaptureState::Paused, CaptureState::Recording)]
    );
    assert_eq!(pause_recording(&mut state).result, Ok(CaptureState::Paused));
    assert_eq!(resume_recording(&mut state).result, Ok(CaptureState::Recording));
    assert_eq!(stop_recording(&mut state).result, Ok(CaptureState::Finalizing));
    assert_eq!(
        pause_recording(&mut state).result,
        Err("Cannot transition from Finalizing to Paused".to_string())
    );
    assert!(state.config.is_some());
    let out = finalize_complete(&mut state);
    assert_eq!(out.result, Ok(CaptureState::Idle));
    assert_eq!(
        out.events,
        vec![changed(CaptureState::Finalizing, CaptureState::Idle)]
    );
    assert!(state.config.is_none());
    assert!(state.selection.is_none());
    assert_eq!(
        reset_error(&mut state).events,
        vec![changed(CaptureState::Idle, CaptureState::Idle)]
    );
}

#[test]
fn a_screenshot_needs_a_valid_config() {
    let mut state = recording_session();
    let out = take_screenshot(&mut state, &valid_config());
    assert_eq!(out.result, Ok(()));
    assert!(out.events.is_empty());
    assert_eq!(get_state(&state), CaptureState::Recording);

    let out = take_screenshot(
        &mut state,
        &CaptureConfig {
            fps: 61,
            ..valid_config()
        },
    );
    assert_eq!(out.result, Err("fps: FPS must be between 1 and 60".to_string()));
    assert_eq!(
        out.events,
        vec![error_event(
            ErrorCode::InvalidConfig,
            "fps: FPS must be between 1 and 60"
        )]
    );
    assert_eq!(get_state(&state), CaptureState::Error);
    // A rejected configuration clears nothing.
    assert!(state.config.is_some());
    assert!(state.selection.is_some());
}

#[test]
fn the_steps_of_a_screenshot_relay_the_backend() {
    let mut state: AppState<Backend> = AppState::new();
    let out = screenshot_selection_finished(&mut state, Ok(selection()));
    assert_eq!(out.result, Ok(selection()));
    assert!(out.events.is_empty());
    assert_eq!(get_state(&state), CaptureState::Idle);
    assert!(state.selection.is_none());

    let shot = ScreenshotResult {
        path: "/tmp/opensnipping-1.png".to_string(),
        width: 64,
        height: 48,
    };
    let out = screenshot_finished(&mut state, Ok(shot.clone()));
    assert_eq!(out.result, Ok(shot));
    assert_eq!(
        out.events,
        vec![CaptureEvent::ScreenshotComplete(ScreenshotCompleteEvent {
            path: "/tmp/opensnipping-1.png".to_string(),
            width: 64,
            height: 48,
        })]
    );
    assert_eq!(get_state(&state), CaptureState::Idle);
}

#[test]
fn a_failed_screenshot_fails_the_session() {
    let mut state = recording_session();
    let out = screenshot_selection_finished(
        &mut state,
        Err(CaptureBackendError::PermissionDenied(
            "User cancelled selection".to_string(),
        )),
    );
    assert_eq!(out.result, Err("User cancelled selection".to_string()));
    assert_eq!(
        out.events,
        vec![error_event(
            ErrorCode::PermissionDenied,
            "User cancelled selection"
        )]
    );
    assert_eq!(get_state(&state), CaptureState::Error);
    assert!(state.config.is_none());
    assert!(state.selection.is_none());

    let mut state: AppState<Backend> = AppState::new();
    let out = screenshot_finished(
        &mut state,
        Err(CaptureBackendError::Internal("Pipeline timed out".to_string())),
    );
    assert_eq!(out.result, Err("Pipeline timed out".to_string()));
    assert_eq!(
        out.events,
        vec![error_event(ErrorCode::Internal, "Pipeline timed out")]
    );
    assert_eq!(get_state(&state), CaptureState::Error);
    assert_eq!(
        state.state_machine.last_error(),
        Some(&CaptureError {
            code: ErrorCode::Internal,
            message: "Pipeline timed out".to_string(),
        })
    );
    assert_eq!(reset_error(&mut state).result, Ok(CaptureState::Idle));
}

#[test]
fn a_video_recording_needs_config_and_selection() {
    let mut state: AppState<Backend> = AppState::new();
    assert_eq!(
        start_recording_video(&state),
        Err("No capture config set. Call start_capture first.".to_string())
    );
    state.config = Some(valid_config());
    assert_eq!(
        start_recording_video(&state),
        Err("No selection available. Call start_capture first.".to_string())
    );
    state.selection = Some(selection());
    assert_eq!(
        start_recording_video(&state),
        Ok((valid_config(), selection()))
    );
    state.config = None;
    assert_eq!(
        start_recording_video(&state),
        Err("No capture config set. Call start_capture first.".to_string())
    );
}

#[test]
fn a_started_recording_keeps_its_backend() {
    let mut state = recording_session();
    let config = CaptureConfig {
        container: ContainerFormat::Mkv,
        output_path: "/tmp/video.mkv".to_string(),
        ..valid_config()
    };
    let out = recording_started(&mut state, Backend(1), &config, Ok(()));
    assert_eq!(out.result, Ok(()));
    assert_eq!(
        out.events,
        vec![CaptureEvent::RecordingStarted(RecordingStartedEvent {
            output_path: "/tmp/video.mkv".to_string()
        })]
    );
    assert_eq!(state.backend, Some(Backend(1)));
    assert_eq!(require_backend(&state), Ok(&Backend(1)));
}

#[test]
fn a_failed_start_drops_its_backend_and_fails_the_session() {
    let mut state = recording_session();
    state.backend = Some(Backend(1));
    let out = recording_started(
        &mut state,
        Backend(2),
        &valid_config(),
        Err(CaptureBackendError::Internal(
            "No H.264 encoder available".to_string(),
        )),
    );
    assert_eq!(out.result, Err("No H.264 encoder available".to_string()));
    assert_eq!(
        out.events,
        vec![error_event(ErrorCode::Internal, "No H.264 encoder available")]
    );
    assert_eq!(state.backend, Some(Backend(1)));
    assert_eq!(get_state(&state), CaptureState::Error);
    assert!(state.config.is_none());
    assert!(state.selection.is_none());
}

#[test]
fn pause_and_resume_of_the_video_need_a_backend() {
    let mut state = recording_session();
    assert_eq!(
        require_backend(&state),
        Err("No recording in progress".to_string())
    );
    state.backend = Some(Backend(1));
    assert_eq!(require_backend(&state), Ok(&Backend(1)));

    let out = pause_recording_video(&mut state, Ok(()));
    assert_eq!(out.result, Ok(()));
    assert!(out.events.is_empty());
    let out = resume_recording_video(&mut state, Ok(()));
    assert_eq!(out.result, Ok(()));
    assert!(out.events.is_empty());
    assert_eq!(get_state(&state), CaptureState::Recording);
    assert!(state.config.is_some());
}

#[test]
fn a_failed_pause_or_resume_fails_the_session() {
    let mut state = recording_session();
    state.backend = Some(Backend(1));
    let out = pause_recording_video(
        &mut state,
        Err(CaptureBackendError::Internal(
            "Recording is already paused".to_string(),
        )),
    );
    assert_eq!(
        out.result,
        Err("Failed to pause recording: Internal error: Recording is already paused".to_string())
    );
    assert_eq!(
        out.events,
        vec![error_event(ErrorCode::Internal, "Recording is already paused")]
    );
    assert_eq!(get_state(&state), CaptureState::Error);
    assert!(state.config.is_none());
    assert!(state.selection.is_none());
    assert_eq!(state.backend, Some(Backend(1)));

    let mut state = recording_session();
    let out = resume_recording_video(
        &mut state,
        Err(CaptureBackendError::NotSupported(
            "Recording not implemented for this platform".to_string(),
        )),
    );
    assert_eq!(
        out.result,
        Err(
            "Failed to resume recording: Not supported: Recording not implemented for this platform"
                .to_string()
        )
    );
    assert_eq!(get_state(&state), CaptureState::Error);
}

#[test]
fn stopping_the_video_takes_the_backend() {
    let mut state = recording_session();
    assert_eq!(
        stop_recording_video(&mut state),
        Err("No recording in progress".to_string())
    );
    state.backend = Some(Backend(5));
    assert_eq!(stop_recording_video(&mut state), Ok(Backend(5)));
    assert!(state.backend.is_none());
    // A second stop sees nothing active.
    assert_eq!(
        stop_recording_video(&mut state),
        Err("No recording in progress".to_string())
    );
}

#[test]
fn a_stopped_recording_finalizes_the_session() {
    let recording = RecordingResult {
        path: "/tmp/recording.mp4".to_string(),
        duration_ms: 3000,
        width: 1920,
        height: 1080,
    };
    let stopped = CaptureEvent::RecordingStopped(RecordingStoppedEvent {
        path: "/tmp/recording.mp4".to_string(),
        duration_ms: 3000,
        width: 1920,
        height: 1080,
    });

    let mut state = recording_session();
    let out = recording_stopped(&mut state, Ok(recording.clone()));
    assert_eq!(out.result, Ok(recording.clone()));
    assert_eq!(
        out.events,
        vec![
            changed(CaptureState::Recording, CaptureState::Finalizing),
            changed(CaptureState::Finalizing, CaptureState::Idle),
            stopped.clone(),
        ]
    );
    assert_eq!(get_state(&state), CaptureState::Idle);
    assert!(state.config.is_none());
    assert!(state.selection.is_none());

    // From a paused session too.
    let mut state = recording_session();
    pause_recording(&mut state);
    let out = recording_stopped(&mut state, Ok(recording.clone()));
    assert_eq!(
        out.events,
        vec![
            changed(CaptureState::Paused, CaptureState::Finalizing),
            changed(CaptureState::Finalizing, CaptureState::Idle),
            stopped.clone(),
        ]
    );

    // From a state that does not allow finalizing the machine stays.
    let mut state: AppState<Backend> = AppState::new();
    state.config = Some(valid_config());
    let out = recording_stopped(&mut state, Ok(recording.clone()));
    assert_eq!(out.result, Ok(recording));
    assert_eq!(out.events, vec![stopped]);
    assert_eq!(get_state(&state), CaptureState::Idle);
    assert!(state.config.is_none());
}

#[test]
fn a_failed_stop_fails_the_session() {
    let mut state = recording_session();
    let out = recording_stopped(
        &mut state,
        Err(CaptureBackendError::Internal(
            "Recording file was not created".to_string(),
        )),
    );
    assert_eq!(out.result, Err("Recording file was not created".to_string()));
    assert_eq!(
        out.events,
        vec![error_event(
            ErrorCode::Internal,
            "Recording file was not created"
        )]
    );
    assert_eq!(get_state(&state), CaptureState::Error);
    assert!(state.config.is_none());
    assert!(state.selection.is_none());
    assert_eq!(reset_error(&mut state).result, Ok(CaptureState::Idle));
}

#[test]
fn every_event_has_its_name() {
    let shot = ScreenshotResult {
        path: "a.png".to_string(),
        width: 1,
        height: 2,
    };
    let recording = RecordingResult {
        path: "a.mp4".to_string(),
        duration_ms: 3,
        width: 1,
        height: 2,
    };
    let named = [
        (changed(CaptureState::Idle, CaptureState::Selecting), "capture:state_changed"),
        (
            CaptureEvent::PermissionNeeded(PermissionNeededEvent {
                kind: PermissionKind::Microphone,
            }),
            "capture:permission_needed",
        ),
        (
            CaptureEvent::Progress(ProgressEvent { duration_ms: 5 }),
            "capture:progress",
        ),
        (error_event(ErrorCode::IoError, "x"), "capture:error"),
        (
            CaptureEvent::SelectionComplete(SelectionCompleteEvent {
                selection: selection(),
            }),
            "capture:selection_complete",
        ),
        (
            CaptureEvent::ScreenshotComplete(ScreenshotCompleteEvent::of(&shot)),
            "capture:screenshot_complete",
        ),
        (
            CaptureEvent::RecordingStarted(RecordingStartedEvent {
                output_path: "a.mp4".to_string(),
            }),
            "capture:recording_started",
        ),
        (
            CaptureEvent::RecordingStopped(RecordingStoppedEvent::of(&recording)),
            "capture:recording_stopped",
        ),
    ];
    for (event, name) in named {
        assert_eq!(event.name(), name);
    }
    assert_eq!(event_names::STATE_CHANGED, "capture:state_changed");
    assert_eq!(event_names::ERROR, "capture:error");
    assert_eq!(event_names::RECORDING_STOPPED, "capture:recording_stopped");
}
