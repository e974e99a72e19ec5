//! The Linux capture backend: encoder negotiation, the recording pipeline and
//! the registry of the active session and recording.

pub mod backend;
pub mod encoding;
pub mod engine;
pub mod pipeline;
pub mod portal;
pub mod screenshot;
pub mod selection;

pub use backend::{ActiveRecording, ActiveSession, LinuxCaptureBackend};
pub use encoding::{
    detect_available_audio_encoder, detect_available_encoder, get_muxer_for_container,
    get_system_audio_source, CodecRegistry,
};
pub use pipeline::RecordingPipeline;
