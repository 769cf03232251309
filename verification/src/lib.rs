//! Press-to-talk speech input for X11: the decisions behind the hotkey loop,
//! the dependency check, the recorder and clipboard commands, the transcript
//! clean-up and the pruning of old recordings.

use vstd::prelude::*;

pub mod commands;
pub mod paths;
pub mod prune;
pub mod report;
pub mod session;
pub mod text;

verus! {

/// X11 keycode of the F8 key, which the daemon grabs.
pub const HOTKEY_KEYCODE: u8 = 74;

/// How many recordings stay in the recording directory.
pub const RECORDING_HISTORY_LIMIT: usize = 10;

} // verus!
