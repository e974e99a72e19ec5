//! The names under which events are published.

use vstd::prelude::*;

verus! {

pub const STATE_CHANGED: &'static str = "capture:state_changed";

pub const PERMISSION_NEEDED: &'static str = "capture:permission_needed";

pub const PROGRESS: &'static str = "capture:progress";

pub const ERROR: &'static str = "capture:error";

pub const SELECTION_COMPLETE: &'static str = "capture:selection_complete";

pub const SCREENSHOT_COMPLETE: &'static str = "capture:screenshot_complete";

pub const RECORDING_STARTED: &'static str = "capture:recording_started";

pub const RECORDING_STOPPED: &'static str = "capture:recording_stopped";

} // verus!
