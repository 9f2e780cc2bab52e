//! Core engine of a live show-control tool.
//!
//! An operator curates an ordered list of heterogeneous cues (remarks, test
//! "bonk" counters, audio clips) and fires them one at a time with a single
//! "Go" action that advances a playhead. This crate holds the verified core:
//! the cue records and their uniform dispatch surface, the cue list with id
//! assignment and reordering, the playhead state machine, and the audio
//! trim/duration bookkeeping. All I/O (audio device, decoding, persistence,
//! user interface) lives outside, in unverified collaborators that hand this
//! crate plain values.

pub mod attrs;
pub mod audio;
pub mod cache;
pub mod cues;
pub mod ids;
pub mod list;
pub mod multitype;
pub mod playback;

pub use attrs::CueError;
pub use attrs::CueRunning;
pub use attrs::CueTypeAttributes;
pub use audio::AudioCue;
pub use cues::BonkCue;
pub use cues::RemarkCue;
pub use list::CueList;
pub use multitype::MultitypeCue;
pub use playback::AppState;
pub use playback::Project;
