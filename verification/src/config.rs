//! Configuration of a capture session and its validation.

use vstd::prelude::*;
use vstd::string::StringExecFns;

verus! {

/// What kind of source the user is asked to pick.
#[derive(Debug, Clone, Copy, PartialEq, Eq, Structural)]
pub enum CaptureSource {
    Screen,
    Monitor,
    Window,
    Region,
}

impl Default for CaptureSource {
    fn default() -> (s: Self)
        ensures
            s == CaptureSource::Screen,
    {
        CaptureSource::Screen
    }
}

/// Container format of a recording.
#[derive(Debug, Clone, Copy, PartialEq, Eq, Structural)]
pub enum ContainerFormat {
    Mp4,
    Mkv,
}

impl Default for ContainerFormat {
    fn default() -> (c: Self)
        ensures
            c == ContainerFormat::Mp4,
    {
        ContainerFormat::Mp4
    }
}

/// Which audio sources are recorded. The two switches are independent.
#[derive(Debug, Clone, Copy, PartialEq, Eq, Structural)]
pub struct AudioConfig {
    /// Capture what the system plays.
    pub system: bool,
    /// Capture the microphone.
    pub mic: bool,
}

impl Default for AudioConfig {
    fn default() -> (a: Self)
        ensures
            a == (AudioConfig { system: false, mic: false }),
    {
        AudioConfig { system: false, mic: false }
    }
}

/// Configuration of one capture session.
#[derive(Debug, PartialEq)]
pub struct CaptureConfig {
    /// Kind of capture source.
    pub source: CaptureSource,
    /// Frames per second, 1 to 60.
    pub fps: u8,
    /// Whether the cursor is part of the picture.
    pub include_cursor: bool,
    /// Audio sources.
    pub audio: AudioConfig,
    /// Output container format.
    pub container: ContainerFormat,
    /// Output file path, not empty.
    pub output_path: String,
}

/// Mathematical value of a [`CaptureConfig`].
pub struct CaptureConfigView {
    pub source: CaptureSource,
    pub fps: u8,
    pub include_cursor: bool,
    pub audio: AudioConfig,
    pub container: ContainerFormat,
    pub output_path: Seq<char>,
}

impl View for CaptureConfig {
    type V = CaptureConfigView;

    open spec fn view(&self) -> CaptureConfigView {
        CaptureConfigView {
            source: self.source,
            fps: self.fps,
            include_cursor: self.include_cursor,
            audio: self.audio,
            container: self.container,
            output_path: self.output_path@,
        }
    }
}

impl Clone for CaptureConfig {
    fn clone(&self) -> (r: Self)
        ensures
            r == *self,
    {
        CaptureConfig {
            source: self.source,
            fps: self.fps,
            include_cursor: self.include_cursor,
            audio: self.audio,
            container: self.container,
            output_path: self.output_path.clone(),
        }
    }
}

impl Default for CaptureConfig {
    fn default() -> (c: Self)
        ensures
            c@ == (CaptureConfigView {
                source: CaptureSource::Screen,
                fps: 30,
                include_cursor: true,
                audio: AudioConfig { system: false, mic: false },
                container: ContainerFormat::Mp4,
                output_path: Seq::<char>::empty(),
            }),
    {
        CaptureConfig {
            source: CaptureSource::Screen,
            fps: 30,
            include_cursor: true,
            audio: AudioConfig { system: false, mic: false },
            container: ContainerFormat::Mp4,
            output_path: String::new(),
        }
    }
}

/// A configuration field that failed validation, and why.
#[derive(Debug, PartialEq)]
pub struct ConfigError {
    pub field: String,
    pub message: String,
}

/// Mathematical value of a [`ConfigError`].
pub struct ConfigErrorView {
    pub field: Seq<char>,
    pub message: Seq<char>,
}

impl View for ConfigError {
    type V = ConfigErrorView;

    open spec fn view(&self) -> ConfigErrorView {
        ConfigErrorView { field: self.field@, message: self.message@ }
    }
}

impl Clone for ConfigError {
    fn clone(&self) -> (r: Self)
        ensures
            r == *self,
    {
        ConfigError { field: self.field.clone(), message: self.message.clone() }
    }
}

/// The first rule that a configuration breaks, if it breaks one: the frame
/// rate is checked before the output path.
pub open spec fn validation_failure(c: CaptureConfigView) -> Option<ConfigErrorView> {
    if c.fps == 0 || c.fps > 60 {
        Some(ConfigErrorView { field: "fps"@, message: "FPS must be between 1 and 60"@ })
    } else if c.output_path.len() == 0 {
        Some(
            ConfigErrorView { field: "output_path"@, message: "Output path cannot be empty"@ },
        )
    } else {
        None
    }
}

impl CaptureConfig {
    /// A configuration is valid when its frame rate is between 1 and 60 and
    /// its output path is not empty.
    pub open spec fn is_valid(&self) -> bool {
        1 <= self.fps <= 60 && self.output_path@.len() > 0
    }

    /// Checks the configuration and names the first field that is wrong.
    pub fn validate(&self) -> (r: Result<(), ConfigError>)
        ensures
            r is Ok <==> self.is_valid(),
            match r {
                Ok(_) => validation_failure(self@) is None,
                Err(e) => validation_failure(self@) == Some(e@),
            },
    {
        if self.fps == 0 || self.fps > 60 {
            return Err(
                ConfigError {
                    field: String::from_str("fps"),
                    message: String::from_str("FPS must be between 1 and 60"),
                },
            );
        }
        if self.output_path.as_str().is_empty() {
            return Err(
                ConfigError {
                    field: String::from_str("output_path"),
                    message: String::from_str("Output path cannot be empty"),
                },
            );
        }
        Ok(())
    }
}

} // verus!
