//! Progress indicators' state: a bounded progress bar and a spinner whose
//! frame cycles.
use vstd::prelude::*;
use std::time::Instant;

verus! {

/// std's `Instant`, carried through opaque.
#[verifier::external_type_specification]
#[verifier::external_body]
pub struct ExInstant(Instant);

/// Relies on `std::time::Instant::now`: the current instant; nothing is
/// promised of it.
#[verifier::external_body]
fn instant_now() -> Instant {
    Instant::now()
}

/// The spinner's frames.
pub const SPINNER_FRAME_COUNT: usize = 10;

/// A progress bar's state.
pub struct ProgressBar {
    pub total: u64,
    pub current: u64,
    pub message: String,
    pub start_time: Instant,
}

/// A spinner's state.
pub struct Spinner {
    pub message: String,
    pub frames: Vec<&'static str>,
    pub current_frame: usize,
    pub start_time: Instant,
}

/// Output helpers.
pub struct OutputFormatter;

impl OutputFormatter {
    /// A spinner for a long operation.
    pub fn spinner(message: &str) -> (r: Spinner)
        ensures
            r.message@ == message@,
            r.wf(),
            r.current_frame == 0,
    {
        Spinner::new(String::from_str(message))
    }
}

impl ProgressBar {
    /// A bar at zero of `total`.
    pub fn new(total: u64, message: String) -> (r: Self)
        ensures
            r.total == total,
            r.current == 0,
            r.message == message,
    {
        ProgressBar { total, current: 0, message, start_time: instant_now() }
    }

    /// Moves the bar to `current`.
    pub fn update(&mut self, current: u64)
        ensures
            final(self).current == current,
            final(self).total == old(self).total,
            final(self).message == old(self).message,
    {
        self.current = current;
    }

    /// Replaces the message.
    pub fn set_message(&mut self, message: String)
        ensures
            final(self).message == message,
            final(self).total == old(self).total,
            final(self).current == old(self).current,
    {
        self.message = message;
    }

    /// The share done, in percent; zero for an empty total.
    pub fn percentage(&self) -> (r: u64)
        ensures
            self.total == 0 ==> r == 0,
            self.total > 0 ==> r == (self.current as int * 100) / self.total as int
                || (r == u64::MAX && (self.current as int * 100) / self.total as int > u64::MAX),
    {
        if self.total == 0 {
            return 0;
        }
        let p: u128 = (self.current as u128 * 100) / self.total as u128;
        if p > u64::MAX as u128 {
            u64::MAX
        } else {
            p as u64
        }
    }
}

impl Spinner {
    /// Ten frames, and the current one among them.
    pub open spec fn wf(&self) -> bool {
        self.frames@.len() == SPINNER_FRAME_COUNT && self.current_frame < SPINNER_FRAME_COUNT
    }

    /// A spinner at its first frame.
    pub fn new(message: String) -> (r: Self)
        ensures
            r.message == message,
            r.wf(),
            r.current_frame == 0,
    {
        let frames = vec!["⠋", "⠙", "⠹", "⠸", "⠼", "⠴", "⠦", "⠧", "⠇", "⠏"];
        Spinner { message, frames, current_frame: 0, start_time: instant_now() }
    }

    /// Advances to the next frame, after the last back to the first.
    pub fn tick(&mut self)
        requires
            old(self).wf(),
        ensures
            final(self).wf(),
            final(self).current_frame == (old(self).current_frame + 1) % SPINNER_FRAME_COUNT as int,
            final(self).message == old(self).message,
    {
        self.current_frame = (self.current_frame + 1) % self.frames.len();
    }

    /// The frame to show.
    pub fn frame(&self) -> (r: &'static str)
        requires
            self.wf(),
        ensures
            r == self.frames@[self.current_frame as int],
    {
        self.frames[self.current_frame]
    }
}

} // verus!
