use opensnipping::capture::fake::{
    FakeCaptureBackend, FakeError, PLACEHOLDER_COLOR, PLACEHOLDER_SIZE,
};
use opensnipping::capture::{
    CaptureBackend, CaptureBackendError, ScreenshotResult, SelectionResult,
};
use opensnipping::config::{AudioConfig, CaptureConfig, CaptureSource, ContainerFormat};
use opensnipping::events::ScreenshotCompleteEvent;
use std::path::{Path, PathBuf};

fn test_config() -> CaptureConfig {
    CaptureConfig {
        source: CaptureSource::Screen,
        fps: 30,
        include_cursor: true,
        audio: AudioConfig {
            system: false,
            mic: false,
        },
        container: ContainerFormat::Mp4,
        output_path: "/tmp/test.mp4".to_string(),
    }
}

fn full_hd_selection() -> SelectionResult {
    SelectionResult {
        node_id: 42,
        stream_fd: None,
        width: Some(1920),
        height: Some(1080),
    }
}

fn fresh_png_path() -> PathBuf {
    Path::new("/tmp").join(format!("test_screenshot_{}.png", uuid::Uuid::new_v4()))
}

/// Asks the backend for a screenshot and, where it grants one, writes the
/// placeholder image that the result describes.
fn capture_screenshot(
    backend: &mut FakeCaptureBackend,
    selection: &SelectionResult,
    output_path: &Path,
) -> Result<ScreenshotResult, CaptureBackendError> {
    let shot = backend.capture_screenshot(selection, &output_path.to_string_lossy())?;
    let img: image::ImageBuffer<image::Rgb<u8>, Vec<u8>> =
        image::ImageBuffer::from_fn(shot.width, shot.height, |_, _| image::Rgb(PLACEHOLDER_COLOR));
    img.save(&shot.path)
        .map_err(|e| FakeCaptureBackend::save_failed(&e.to_string()))?;
    Ok(shot)
}

// --- Selection ---

#[test]
fn selection_test_fake_backend_succeeds() {
    let mut backend = FakeCaptureBackend::succeeding();
    let config = test_config();

    let result = backend.request_selection(&config);
    assert!(result.is_ok());

    let selection = result.unwrap();
    assert_eq!(selection.node_id, 42);
    assert_eq!(backend.selection_count(), 1);
}

#[test]
fn selection_test_fake_backend_permission_denied() {
    let mut backend = FakeCaptureBackend::permission_denied();
    let config = test_config();

    let result = backend.request_selection(&config);
    assert!(result.is_err());
    assert!(matches!(
        result.unwrap_err(),
        CaptureBackendError::PermissionDenied(_)
    ));
}

#[test]
fn selection_test_fake_backend_portal_error() {
    let mut backend = FakeCaptureBackend::portal_error();
    let config = test_config();

    let result = backend.request_selection(&config);
    assert!(result.is_err());
    assert!(matches!(
        result.unwrap_err(),
        CaptureBackendError::PortalError(_)
    ));
}

#[test]
fn selection_test_fake_backend_cancel() {
    let mut backend = FakeCaptureBackend::new();

    let result = backend.cancel_selection();
    assert!(result.is_ok());
    assert_eq!(backend.cancel_count(), 1);
}

#[test]
fn selection_test_fake_backend_custom_node_id() {
    let mut backend = FakeCaptureBackend::succeeding();
    backend.set_node_id(123);

    let config = test_config();
    let result = backend.request_selection(&config).unwrap();
    assert_eq!(result.node_id, 123);
}

#[test]
fn a_granted_selection_is_full_hd_without_descriptor() {
    let mut backend = FakeCaptureBackend::default();
    assert_eq!(
        backend.request_selection(&test_config()),
        Ok(SelectionResult {
            node_id: 42,
            stream_fd: None,
            width: Some(1920),
            height: Some(1080),
        })
    );
}

#[test]
fn each_configured_failure_has_its_message_per_operation() {
    let mut backend = FakeCaptureBackend::new();
    backend.set_should_succeed(false);
    let selection = full_hd_selection();
    let config = test_config();

    backend.set_error(FakeError::PermissionDenied);
    assert_eq!(
        backend.request_selection(&config),
        Err(CaptureBackendError::PermissionDenied("User cancelled".to_string()))
    );
    assert_eq!(
        backend.capture_screenshot(&selection, "/tmp/x.png"),
        Err(CaptureBackendError::PermissionDenied(
            "Screenshot permission denied".to_string()
        ))
    );
    assert_eq!(
        backend.start_recording(&selection, &config),
        Err(CaptureBackendError::PermissionDenied(
            "Recording permission denied".to_string()
        ))
    );

    backend.set_error(FakeError::PortalError);
    assert_eq!(
        backend.request_selection(&config),
        Err(CaptureBackendError::PortalError("Portal unavailable".to_string()))
    );
    assert_eq!(
        backend.capture_screenshot(&selection, "/tmp/x.png"),
        Err(CaptureBackendError::PortalError(
            "Portal unavailable for screenshot".to_string()
        ))
    );
    assert_eq!(
        backend.start_recording(&selection, &config),
        Err(CaptureBackendError::PortalError("Recording portal error".to_string()))
    );

    backend.set_error(FakeError::NoSource);
    assert_eq!(
        backend.request_selection(&config),
        Err(CaptureBackendError::NoSourceAvailable("No display found".to_string()))
    );
    assert_eq!(
        backend.capture_screenshot(&selection, "/tmp/x.png"),
        Err(CaptureBackendError::NoSourceAvailable(
            "No display for screenshot".to_string()
        ))
    );
    assert_eq!(
        backend.start_recording(&selection, &config),
        Err(CaptureBackendError::NoSourceAvailable(
            "No source for recording".to_string()
        ))
    );
    assert_eq!(backend.selection_count(), 3);
    assert_eq!(backend.start_recording_count(), 3);
    assert!(!backend.is_recording());
}

// --- Screenshot ---

#[test]
fn screenshot_test_fake_backend_screenshot_creates_file() {
    let mut backend = FakeCaptureBackend::succeeding();
    let selection = SelectionResult {
        node_id: 42,
        stream_fd: None,
        width: Some(64),
        height: Some(48),
    };

    let output_path = fresh_png_path();

    let result = capture_screenshot(&mut backend, &selection, &output_path);
    assert!(result.is_ok());

    let screenshot = result.unwrap();
    assert_eq!(screenshot.width, 64);
    assert_eq!(screenshot.height, 48);
    assert!(std::path::Path::new(&screenshot.path).exists());

    // The file holds an image of that size.
    let (w, h) = image::image_dimensions(&screenshot.path).unwrap();
    assert_eq!((w, h), (64, 48));
}

#[test]
fn screenshot_test_fake_backend_screenshot_uses_default_dimensions() {
    let mut backend = FakeCaptureBackend::succeeding();
    let selection = SelectionResult {
        node_id: 42,
        stream_fd: None,
        width: None,
        height: None,
    };

    let output_path = fresh_png_path();

    let result = capture_screenshot(&mut backend, &selection, &output_path);
    assert!(result.is_ok());

    let screenshot = result.unwrap();
    assert_eq!(screenshot.width, 100); // default
    assert_eq!(screenshot.height, 100); // default
    assert_eq!(PLACEHOLDER_SIZE, 100);
}

#[test]
fn screenshot_test_fake_backend_screenshot_fails_when_configured() {
    let mut backend = FakeCaptureBackend::permission_denied();
    let selection = SelectionResult {
        node_id: 42,
        stream_fd: None,
        width: Some(100),
        height: Some(100),
    };

    let output_path = fresh_png_path();

    let result = capture_screenshot(&mut backend, &selection, &output_path);
    assert!(result.is_err());
    assert!(matches!(
        result.unwrap_err(),
        CaptureBackendError::PermissionDenied(_)
    ));

    // File should not exist
    assert!(!output_path.exists());
}

/// A screenshot result has every field that its notification needs.
#[test]
fn screenshot_test_screenshot_result_has_all_event_fields() {
    let mut backend = FakeCaptureBackend::succeeding();
    let selection = SelectionResult {
        node_id: 42,
        stream_fd: None,
        width: Some(800),
        height: Some(600),
    };

    let output_path = fresh_png_path();

    let result = capture_screenshot(&mut backend, &selection, &output_path).unwrap();

    // Verify we can construct a ScreenshotCompleteEvent from the result
    let event = ScreenshotCompleteEvent {
        path: result.path.clone(),
        width: result.width,
        height: result.height,
    };

    // Verify event has expected values
    assert!(!event.path.is_empty(), "Event path should not be empty");
    assert!(
        event.path.ends_with(".png"),
        "Event path should end with .png"
    );
    assert_eq!(event.width, 800);
    assert_eq!(event.height, 600);
    assert_eq!(event, ScreenshotCompleteEvent::of(&result));
}

/// The full flow from selection to screenshot.
#[test]
fn screenshot_test_full_screenshot_flow_selection_to_capture() {
    let mut backend = FakeCaptureBackend::succeeding();
    backend.set_node_id(99);
    let config = test_config();

    // Step 1: Request selection (like portal picker)
    let selection = backend.request_selection(&config).unwrap();
    assert_eq!(selection.node_id, 99);
    assert_eq!(backend.selection_count(), 1);

    // Step 2: Capture screenshot using selection result
    let output_path = fresh_png_path();

    let screenshot = capture_screenshot(&mut backend, &selection, &output_path).unwrap();

    // Verify screenshot uses selection dimensions
    assert_eq!(screenshot.width, selection.width.unwrap());
    assert_eq!(screenshot.height, selection.height.unwrap());
    assert!(std::path::Path::new(&screenshot.path).exists());
}

/// A failed screenshot does not affect later selections.
#[test]
fn screenshot_test_screenshot_failure_is_isolated() {
    let mut backend = FakeCaptureBackend::new();
    let config = test_config();

    // First selection succeeds
    let selection1 = backend.request_selection(&config).unwrap();

    // Configure to fail
    backend.set_should_succeed(false);

    // Screenshot fails
    let output_path = fresh_png_path();
    let screenshot_result = capture_screenshot(&mut backend, &selection1, &output_path);
    assert!(screenshot_result.is_err());

    // Configure to succeed again
    backend.set_should_succeed(true);

    // New selection should succeed
    let selection2 = backend.request_selection(&config).unwrap();
    assert_eq!(selection2.node_id, 42);
    assert_eq!(backend.selection_count(), 2);
}

#[test]
fn a_screenshot_names_the_path_it_was_asked_for() {
    let mut backend = FakeCaptureBackend::new();
    let selection = SelectionResult {
        node_id: 7,
        stream_fd: Some(3),
        width: Some(64),
        height: None,
    };
    assert_eq!(
        backend.capture_screenshot(&selection, "/tmp/shot.png"),
        Ok(ScreenshotResult {
            path: "/tmp/shot.png".to_string(),
            width: 64,
            height: 100,
        })
    );
}

#[test]
fn a_placeholder_that_cannot_be_saved_is_an_internal_failure() {
    assert_eq!(
        FakeCaptureBackend::save_failed("disk full"),
        CaptureBackendError::Internal("Failed to save placeholder PNG: disk full".to_string())
    );
    let mut backend = FakeCaptureBackend::new();
    let missing_dir = Path::new("/tmp")
        .join(format!("no_such_dir_{}", uuid::Uuid::new_v4()))
        .join("shot.png");
    let result = capture_screenshot(&mut backend, &full_hd_selection(), &missing_dir);
    assert!(matches!(result, Err(CaptureBackendError::Internal(_))));
}

#[test]
fn the_placeholder_is_cornflower_blue() {
    assert_eq!(PLACEHOLDER_COLOR, [100u8, 149u8, 237u8]);
}

// --- Recording ---

#[test]
fn recording_test_fake_backend_start_recording_succeeds() {
    let mut backend = FakeCaptureBackend::succeeding();
    let config = test_config();
    let selection = full_hd_selection();

    let result = backend.start_recording(&selection, &config);
    assert!(result.is_ok());
    assert!(backend.is_recording());
    assert_eq!(backend.start_recording_count(), 1);
}

#[test]
fn recording_test_fake_backend_start_recording_fails_when_configured() {
    let mut backend = FakeCaptureBackend::permission_denied();
    let config = test_config();
    let selection = full_hd_selection();

    let result = backend.start_recording(&selection, &config);
    assert!(result.is_err());
    assert!(matches!(
        result.unwrap_err(),
        CaptureBackendError::PermissionDenied(_)
    ));
    assert!(!backend.is_recording());
}

#[test]
fn recording_test_fake_backend_start_recording_fails_if_already_recording() {
    let mut backend = FakeCaptureBackend::succeeding();
    let config = test_config();
    let selection = full_hd_selection();

    // First start succeeds
    backend.start_recording(&selection, &config).unwrap();

    // Second start fails
    let result = backend.start_recording(&selection, &config);
    assert!(result.is_err());
    assert!(matches!(
        result.unwrap_err(),
        CaptureBackendError::Internal(_)
    ));
    assert_eq!(backend.start_recording_count(), 2); // Both calls counted
    assert!(backend.is_recording()); // The first recording is untouched
}

#[test]
fn recording_test_fake_backend_stop_recording_succeeds() {
    let mut backend = FakeCaptureBackend::succeeding();
    let config = test_config();
    let selection = full_hd_selection();

    // Start recording first
    backend.start_recording(&selection, &config).unwrap();
    assert!(backend.is_recording());

    // Stop recording
    let result = backend.stop_recording();
    assert!(result.is_ok());

    let recording = result.unwrap();
    assert_eq!(recording.path, config.output_path);
    assert_eq!(recording.width, 1920);
    assert_eq!(recording.height, 1080);
    assert!(!backend.is_recording());
    assert_eq!(backend.stop_recording_count(), 1);
}

#[test]
fn recording_test_fake_backend_stop_recording_fails_if_not_recording() {
    let mut backend = FakeCaptureBackend::succeeding();

    let result = backend.stop_recording();
    assert!(result.is_err());
    assert!(matches!(
        result.unwrap_err(),
        CaptureBackendError::Internal(_)
    ));
}

#[test]
fn recording_test_fake_backend_full_recording_flow() {
    let mut backend = FakeCaptureBackend::succeeding();
    let config = test_config();

    // Step 1: Selection
    let selection = backend.request_selection(&config).unwrap();
    assert_eq!(backend.selection_count(), 1);

    // Step 2: Start recording
    backend.start_recording(&selection, &config).unwrap();
    assert!(backend.is_recording());

    // Step 3: Stop recording
    let result = backend.stop_recording().unwrap();
    assert!(!backend.is_recording());
    assert_eq!(result.path, config.output_path);

    // Verify counts
    assert_eq!(backend.start_recording_count(), 1);
    assert_eq!(backend.stop_recording_count(), 1);
}

// Pause/Resume tests

#[test]
fn recording_test_fake_backend_pause_recording_succeeds() {
    let mut backend = FakeCaptureBackend::succeeding();
    let config = test_config();
    let selection = full_hd_selection();

    // Start recording first
    backend.start_recording(&selection, &config).unwrap();
    assert!(backend.is_recording());
    assert!(!backend.is_paused());

    // Pause recording
    let result = backend.pause_recording();
    assert!(result.is_ok());
    assert!(backend.is_recording());
    assert!(backend.is_paused());
    assert_eq!(backend.pause_recording_count(), 1);
}

#[test]
fn recording_test_fake_backend_pause_recording_fails_if_not_recording() {
    let mut backend = FakeCaptureBackend::succeeding();

    let result = backend.pause_recording();
    assert!(result.is_err());
    assert!(matches!(
        result.unwrap_err(),
        CaptureBackendError::Internal(_)
    ));
}

#[test]
fn recording_test_fake_backend_pause_recording_fails_if_already_paused() {
    let mut backend = FakeCaptureBackend::succeeding();
    let config = test_config();
    let selection = full_hd_selection();

    // Start and pause
    backend.start_recording(&selection, &config).unwrap();
    backend.pause_recording().unwrap();

    // Second pause fails
    let result = backend.pause_recording();
    assert!(result.is_err());
    assert!(matches!(
        result.unwrap_err(),
        CaptureBackendError::Internal(_)
    ));
}

#[test]
fn recording_test_fake_backend_resume_recording_succeeds() {
    let mut backend = FakeCaptureBackend::succeeding();
    let config = test_config();
    let selection = full_hd_selection();

    // Start, pause, then resume
    backend.start_recording(&selection, &config).unwrap();
    backend.pause_recording().unwrap();
    assert!(backend.is_paused());

    let result = backend.resume_recording();
    assert!(result.is_ok());
    assert!(backend.is_recording());
    assert!(!backend.is_paused());
    assert_eq!(backend.resume_recording_count(), 1);
}

#[test]
fn recording_test_fake_backend_resume_recording_fails_if_not_recording() {
    let mut backend = FakeCaptureBackend::succeeding();

    let result = backend.resume_recording();
    assert!(result.is_err());
    assert!(matches!(
        result.unwrap_err(),
        CaptureBackendError::Internal(_)
    ));
}

#[test]
fn recording_test_fake_backend_resume_recording_fails_if_not_paused() {
    let mut backend = FakeCaptureBackend::succeeding();
    let config = test_config();
    let selection = full_hd_selection();

    // Start recording but don't pause
    backend.start_recording(&selection, &config).unwrap();

    let result = backend.resume_recording();
    assert!(result.is_err());
    assert!(matches!(
        result.unwrap_err(),
        CaptureBackendError::Internal(_)
    ));
}

#[test]
fn recording_test_fake_backend_full_recording_with_pause_flow() {
    let mut backend = FakeCaptureBackend::succeeding();
    let config = test_config();

    // Step 1: Selection
    let selection = backend.request_selection(&config).unwrap();

    // Step 2: Start recording
    backend.start_recording(&selection, &config).unwrap();
    assert!(backend.is_recording());
    assert!(!backend.is_paused());

    // Step 3: Pause
    backend.pause_recording().unwrap();
    assert!(backend.is_recording());
    assert!(backend.is_paused());

    // Step 4: Resume
    backend.resume_recording().unwrap();
    assert!(backend.is_recording());
    assert!(!backend.is_paused());

    // Step 5: Stop
    let result = backend.stop_recording().unwrap();
    assert!(!backend.is_recording());
    assert!(!backend.is_paused());

    // Verify counts
    assert_eq!(backend.start_recording_count(), 1);
    assert_eq!(backend.pause_recording_count(), 1);
    assert_eq!(backend.resume_recording_count(), 1);
    assert_eq!(backend.stop_recording_count(), 1);
    assert_eq!(result.path, config.output_path);
}

/// Selection with node 99, then start, pause, resume and stop.
#[test]
fn end_to_end_session_on_node_99() {
    let mut backend = FakeCaptureBackend::succeeding();
    backend.set_node_id(99);
    let config = test_config();

    let selection = backend.request_selection(&config).unwrap();
    assert_eq!(selection.node_id, 99);
    assert_eq!(backend.selection_count(), 1);

    backend.start_recording(&selection, &config).unwrap();
    assert!(backend.is_recording());

    backend.pause_recording().unwrap();
    assert!(backend.is_paused());

    backend.resume_recording().unwrap();
    assert!(!backend.is_paused());

    let result = backend.stop_recording().unwrap();
    assert_eq!(result.path, config.output_path);
    assert!(!backend.is_recording());
}

#[test]
fn wrong_state_failures_have_exact_messages() {
    let mut backend = FakeCaptureBackend::new();
    let config = test_config();
    assert_eq!(
        backend.stop_recording(),
        Err(CaptureBackendError::Internal("No recording in progress".to_string()))
    );
    assert_eq!(
        backend.pause_recording(),
        Err(CaptureBackendError::Internal("No recording in progress".to_string()))
    );
    assert_eq!(
        backend.resume_recording(),
        Err(CaptureBackendError::Internal("No recording in progress".to_string()))
    );
    backend.start_recording(&full_hd_selection(), &config).unwrap();
    assert_eq!(
        backend.start_recording(&full_hd_selection(), &config),
        Err(CaptureBackendError::Internal("Recording already in progress".to_string()))
    );
    assert_eq!(
        backend.resume_recording(),
        Err(CaptureBackendError::Internal("Recording is not paused".to_string()))
    );
    backend.pause_recording().unwrap();
    assert_eq!(
        backend.pause_recording(),
        Err(CaptureBackendError::Internal("Recording is already paused".to_string()))
    );
    assert!(backend.is_paused());
    assert_eq!(backend.pause_recording_count(), 3);
    assert_eq!(backend.resume_recording_count(), 2);
    assert_eq!(backend.stop_recording_count(), 1);
}

#[test]
fn a_second_start_keeps_the_output_path_of_the_first() {
    let mut backend = FakeCaptureBackend::new();
    let first = test_config();
    let second = CaptureConfig {
        output_path: "/tmp/other.mp4".to_string(),
        ..test_config()
    };
    backend.start_recording(&full_hd_selection(), &first).unwrap();
    assert!(backend.start_recording(&full_hd_selection(), &second).is_err());
    assert_eq!(backend.stop_recording().unwrap().path, "/tmp/test.mp4");
}

#[test]
fn stopping_after_a_given_time_reports_that_duration() {
    let mut backend = FakeCaptureBackend::new();
    backend.start_recording(&full_hd_selection(), &test_config()).unwrap();
    backend.pause_recording().unwrap();
    let result = backend.stop_recording_after(1234).unwrap();
    assert_eq!(result.duration_ms, 1234);
    assert_eq!(result.path, "/tmp/test.mp4");
    assert_eq!((result.width, result.height), (1920, 1080));
    assert!(!backend.is_recording());
    assert!(!backend.is_paused());
    // A stop leaves nothing to stop.
    assert!(backend.stop_recording_after(5).is_err());
    assert_eq!(backend.stop_recording_count(), 2);
}

#[test]
fn a_recording_can_start_again_after_a_stop() {
    let mut backend = FakeCaptureBackend::new();
    let config = test_config();
    backend.start_recording(&full_hd_selection(), &config).unwrap();
    backend.stop_recording().unwrap();
    assert_eq!(backend.start_recording(&full_hd_selection(), &config), Ok(()));
    assert!(backend.is_recording());
    assert!(!backend.is_paused());
}
