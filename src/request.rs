use vstd::prelude::*;

verus! {

/// The step by which `--increase` and `--decrease` change the level when
/// they are given without a value.
pub const DEFAULT_STEP: u8 = 5;

/// The fade duration used when `--fade` is not given.
pub const DEFAULT_FADE_MS: u32 = 100;

/// The number of fade steps used when `--steps` is not given.
pub const DEFAULT_STEPS: u32 = 25;

/// The notification timeout used when `--timeout` is not given.
pub const DEFAULT_TIMEOUT_MS: i32 = 2000;

/// What one run is asked to do to the brightness.
#[derive(Clone, Copy, Debug, PartialEq, Eq, Structural)]
pub enum Request {
    /// Only report the current level.
    Get,
    /// Raise the level by this many percent.
    Increase(u8),
    /// Lower the level by this many percent.
    Decrease(u8),
    /// Set the level to this percentage.
    SetLevel(u8),
    /// Change nothing, then report the level.
    NoChange,
}

/// How a change of brightness is spread over time.
#[derive(Clone, Copy, Debug, PartialEq, Eq, Structural)]
pub struct FadeParameters {
    /// Duration of the transition, in milliseconds.
    pub fade_time_ms: u32,
    /// Number of steps the transition is made in.
    pub steps: u32,
}

/// A validated command line.
#[derive(Clone, Copy, Debug, PartialEq, Eq, Structural)]
pub struct Invocation {
    pub request: Request,
    pub fade: FadeParameters,
    /// Notification timeout in milliseconds; zero or less leaves the
    /// duration to the notification server.
    pub timeout_ms: i32,
}

impl Invocation {
    /// Fade and step counts within their ranges, and a set target in 1 to 100.
    pub open spec fn wf(&self) -> bool {
        &&& self.fade.fade_time_ms <= 60000
        &&& 1 <= self.fade.steps <= 200
        &&& (self.request matches Request::SetLevel(n) ==> 1 <= n <= 100)
    }
}

} // verus!
