//! The startup splash state: a marker of when the application started and
//! whether the splash has run its course.  Drawing is the renderer's part;
//! this module only decides when the splash is over.

use vstd::prelude::*;

verus! {

/// How long the splash stays up, in milliseconds.
pub const SPLASH_DURATION_MS: u64 = 3000;

#[verifier::external_type_specification]
#[verifier::external_body]
pub struct ExInstant(std::time::Instant);

/// Relies on `std::time::Instant::now`: a marker of the present moment on
/// the monotonic clock.
#[verifier::external_body]
fn instant_now() -> std::time::Instant {
    std::time::Instant::now()
}

/// Relies on `std::time::Instant::elapsed` and `Duration::as_millis`: the
/// milliseconds since the marker was taken.  The result depends on the
/// clock, so nothing is promised of it.
#[verifier::external_body]
fn elapsed_millis(start: &std::time::Instant) -> u64 {
    start.elapsed().as_millis() as u64
}

/// The splash screen's state: when it started, and whether it is done.
pub struct SplashScreen {
    pub start: std::time::Instant,
    pub done: bool,
}

impl SplashScreen {
    /// Starts the splash now.
    pub fn new() -> (s: SplashScreen)
        ensures
            !s.done,
    {
        SplashScreen { start: instant_now(), done: false }
    }

    /// Whether the splash stays up for the given elapsed time.
    pub fn still_running(elapsed_ms: u64) -> (r: bool)
        ensures
            r == (elapsed_ms <= SPLASH_DURATION_MS),
    {
        elapsed_ms <= SPLASH_DURATION_MS
    }

    /// Reads the clock and marks the splash done once its duration has
    /// passed.  Once done, it stays done.
    pub fn update(&mut self)
        ensures
            final(self).start == old(self).start,
            old(self).done ==> final(self).done,
    {
        let elapsed = elapsed_millis(&self.start);
        if !Self::still_running(elapsed) {
            self.done = true;
        }
    }

    /// Whether the splash has run its course.
    pub fn is_done(&self) -> (r: bool)
        ensures
            r == self.done,
    {
        self.done
    }
}

} // verus!
