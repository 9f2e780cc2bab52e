//! Static cue capability descriptors, transport states, and the engine's
//! error taxonomy.

use vstd::prelude::*;

verus! {

/// Static capability flags of a cue type. Immutable per variant: the engine
/// queries them and never mutates them.
#[derive(Clone, Copy, Debug, PartialEq, Eq, Structural)]
pub struct CueTypeAttributes {
    /// The cue does something when fired.
    pub runnable: bool,
    /// The cue has a notion of elapsed time while running.
    pub timed: bool,
    /// The cue's run time has a known bound.
    pub timed_bounded: bool,
    /// Whether the cue touches the network; `None` when unknown.
    pub networked: Option<bool>,
    /// Firing the cue twice has the same effect as firing it once.
    pub idempotent: bool,
    /// The cue is time-coded.
    pub tc: bool,
}

impl CueTypeAttributes {
    /// The baseline descriptor: not runnable, not timed, known not networked,
    /// idempotent, not time-coded.
    pub fn new() -> (r: CueTypeAttributes)
        ensures
            r == CueTypeAttributes::spec_default(),
    {
        CueTypeAttributes {
            runnable: false,
            timed: false,
            timed_bounded: false,
            networked: Some(false),
            idempotent: true,
            tc: false,
        }
    }

    /// The value `new` (and `Default::default`) returns.
    pub open spec fn spec_default() -> CueTypeAttributes {
        CueTypeAttributes {
            runnable: false,
            timed: false,
            timed_bounded: false,
            networked: Some(false),
            idempotent: true,
            tc: false,
        }
    }
}

impl Default for CueTypeAttributes {
    fn default() -> (r: CueTypeAttributes)
        ensures
            r == CueTypeAttributes::spec_default(),
    {
        CueTypeAttributes::new()
    }
}

/// Transport state of a cue, as reported by `running()`.
#[derive(Clone, Copy, Debug, PartialEq, Eq, Structural)]
pub enum CueRunning {
    /// Playback is in progress.
    Running,
    /// Playback is suspended and can resume.
    Paused,
    /// Nothing is playing.
    Stopped,
}

/// Failures reported by cue operations that return a result.
#[derive(Clone, Copy, Debug, PartialEq, Eq, Structural)]
pub enum CueError {
    /// The operation needs a playback sink, and none has been attached yet.
    NotInitialized,
    /// The runner could not read or decode the cue's source file.
    DecodeFailed,
    /// The cue variant does not support the operation.
    Unsupported,
}

} // verus!
