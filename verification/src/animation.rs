//! The animation clock: a frame samples elapsed wall time and turns it into
//! a fixed-point progress value, optionally remapped by a curve.
use vstd::prelude::*;

verus! {

/// Progress of a finished animation. Progress is fixed-point with a
/// thousand steps per percent, so this is one hundred percent.
pub const COMPLETE: i32 = 100_000;

/// Duration of a frame unless another is given, in microseconds.
pub const DEFAULT_DURATION: u64 = 300_000;

/// `iced::time::Instant`, a point on the monotonic clock. A frame carries
/// the instant at which it started and never looks inside it.
#[verifier::external_type_specification]
#[verifier::external_body]
pub struct ExInstant(iced::time::Instant);

/// Reads the clock through `iced::time::Instant::now`. Nothing is claimed of
/// the instant that comes back.
#[verifier::external_body]
fn clock_now() -> (now: iced::time::Instant) {
    iced::time::Instant::now()
}

/// Time that has passed since `start`, by `iced::time::Instant::elapsed`.
/// The result depends on the clock, so nothing is claimed of it.
#[verifier::external_body]
fn clock_elapsed(start: &iced::time::Instant) -> (elapsed: core::time::Duration) {
    start.elapsed()
}

/// Whole microseconds of a duration, by `core::time::Duration::as_micros`.
/// The durations that reach it come from the clock, so nothing is claimed
/// of the number.
#[verifier::external_body]
fn duration_micros(d: &core::time::Duration) -> (micros: u128) {
    d.as_micros()
}

/// The progress that a frame of `duration` microseconds has reached once
/// `elapsed` microseconds have passed.
pub open spec fn progress_at(elapsed: int, duration: int) -> int {
    if elapsed >= duration {
        COMPLETE as int
    } else {
        elapsed * COMPLETE / duration
    }
}

/// Progress never leaves the range from zero to `COMPLETE`.
pub proof fn lemma_progress_bounds(elapsed: int, duration: int)
    requires
        0 <= elapsed,
        0 <= duration,
    ensures
        0 <= progress_at(elapsed, duration) <= COMPLETE,
{
    if elapsed < duration {
        lemma_progress_below(elapsed, duration);
    }
}

/// Before the duration has passed, progress is short of `COMPLETE`.
proof fn lemma_progress_below(elapsed: int, duration: int)
    requires
        0 <= elapsed < duration,
    ensures
        0 <= elapsed * COMPLETE / duration < COMPLETE,
{
    assert(elapsed * COMPLETE < duration * COMPLETE) by (nonlinear_arith)
        requires
            0 <= elapsed < duration,
    ;
    vstd::arithmetic::div_mod::lemma_multiply_divide_lt(
        elapsed * COMPLETE,
        duration,
        COMPLETE as int,
    );
    vstd::arithmetic::div_mod::lemma_div_pos_is_pos(elapsed * COMPLETE, duration);
}

/// A frame is complete exactly from the moment at which the elapsed time
/// reaches its duration, and stays complete for every later time.
pub proof fn lemma_complete_iff_elapsed(elapsed: int, duration: int)
    requires
        0 <= elapsed,
        0 <= duration,
    ensures
        progress_at(elapsed, duration) == COMPLETE <==> elapsed >= duration,
{
    if elapsed < duration {
        lemma_progress_below(elapsed, duration);
    }
}

/// Progress never runs backwards as time passes.
pub proof fn lemma_progress_monotonic(earlier: int, later: int, duration: int)
    requires
        0 <= earlier <= later,
        0 <= duration,
    ensures
        progress_at(earlier, duration) <= progress_at(later, duration),
{
    lemma_progress_bounds(earlier, duration);
    if later < duration {
        vstd::arithmetic::div_mod::lemma_div_is_ordered(
            earlier * COMPLETE,
            later * COMPLETE,
            duration,
        );
    }
}

/// A remapping of raw progress, applied when a frame's value is read.
#[derive(Clone, Copy, Debug, PartialEq, Eq, Structural)]
pub enum Curve {
    /// Runs from `COMPLETE` down to zero: the distance still to travel.
    Reverse,
    /// Runs from `-COMPLETE` up to zero.
    Approach,
    /// Runs from zero down to `-COMPLETE`.
    Retreat,
}

impl Curve {
    /// The value this curve gives for raw progress `percent`.
    pub open spec fn apply_spec(self, percent: int) -> int {
        match self {
            Curve::Reverse => if percent >= COMPLETE { percent - COMPLETE } else { COMPLETE - percent },
            Curve::Approach => percent - COMPLETE,
            Curve::Retreat => -percent,
        }
    }

    /// Remaps raw progress.
    pub fn apply(self, percent: i32) -> (value: i64)
        ensures
            value == self.apply_spec(percent as int),
    {
        let raw: i64 = percent as i64;
        let full: i64 = COMPLETE as i64;
        match self {
            Curve::Reverse => if raw >= full {
                raw - full
            } else {
                full - raw
            },
            Curve::Approach => raw - full,
            Curve::Retreat => -raw,
        }
    }
}

/// What contracts say of a frame: its raw progress, its duration in
/// microseconds, and the curve installed on it.
pub struct FrameView {
    pub percent: int,
    pub duration: int,
    pub curve: Option<Curve>,
}

impl FrameView {
    /// Holds of every frame: the raw progress lies between zero and
    /// `COMPLETE`.
    pub open spec fn wf(self) -> bool {
        0 <= self.percent <= COMPLETE && 0 <= self.duration
    }

    /// The value of a frame lies between `-COMPLETE` and `COMPLETE`.
    pub proof fn lemma_value_bounds(self)
        requires
            self.wf(),
        ensures
            -COMPLETE <= self.value() <= COMPLETE,
    {
    }

    /// The value read from a frame in this state.
    pub open spec fn value(self) -> int {
        match self.curve {
            Some(curve) => curve.apply_spec(self.percent),
            None => self.percent,
        }
    }

    /// Whether the raw progress has reached `COMPLETE`.
    pub open spec fn complete(self) -> bool {
        self.percent == COMPLETE
    }

    /// This state once the clock shows `elapsed` microseconds.
    pub open spec fn at(self, elapsed: int) -> FrameView {
        FrameView { percent: progress_at(elapsed, self.duration), ..self }
    }
}

/// One in-flight animation: a start instant, a fixed duration, and the
/// progress reached at the last sampling of the clock.
#[derive(Clone, Copy, Debug)]
pub struct Frame {
    start: iced::time::Instant,
    percent: i32,
    duration: u64,
    curve: Option<Curve>,
}

impl View for Frame {
    type V = FrameView;

    closed spec fn view(&self) -> FrameView {
        FrameView {
            percent: self.percent as int,
            duration: self.duration as int,
            curve: self.curve,
        }
    }
}

impl Frame {
    #[verifier::type_invariant]
    spec fn in_range(self) -> bool {
        0 <= self.percent <= COMPLETE
    }

    /// The instant at which the frame was started.
    pub closed spec fn start(&self) -> iced::time::Instant {
        self.start
    }

    /// A frame that starts now, with the default duration and no curve.
    pub fn new() -> (frame: Frame)
        ensures
            frame@ == (FrameView { percent: 0, duration: DEFAULT_DURATION as int, curve: None }),
            frame@.wf(),
    {
        Frame { start: clock_now(), percent: 0, duration: DEFAULT_DURATION, curve: None }
    }

    /// Replaces the duration, given in microseconds.
    pub fn duration(self, micros: u64) -> (frame: Frame)
        ensures
            frame@ == (FrameView { duration: micros as int, ..self@ }),
            frame.start() == self.start(),
            frame@.wf(),
    {
        proof {
            use_type_invariant(&self);
        }
        Frame { start: self.start, percent: self.percent, duration: micros, curve: self.curve }
    }

    /// Installs a curve, applied to the raw progress when the value is read.
    pub fn map(self, curve: Curve) -> (frame: Frame)
        ensures
            frame@ == (FrameView { curve: Some(curve), ..self@ }),
            frame.start() == self.start(),
            frame@.wf(),
    {
        proof {
            use_type_invariant(&self);
        }
        Frame { start: self.start, percent: self.percent, duration: self.duration, curve: Some(curve) }
    }

    /// Sets the progress to what it is once `elapsed` microseconds have
    /// passed since the start.
    pub fn advance(&mut self, elapsed: u128)
        ensures
            final(self)@ == old(self)@.at(elapsed as int),
            final(self).start() == old(self).start(),
            final(self)@.complete() <==> elapsed >= old(self)@.duration,
            final(self)@.wf(),
    {
        proof {
            lemma_complete_iff_elapsed(elapsed as int, self.duration as int);
            lemma_progress_bounds(elapsed as int, self.duration as int);
        }
        let span: u128 = self.duration as u128;
        if elapsed >= span {
            self.percent = COMPLETE;
        } else {
            let scaled: u128 = elapsed * (COMPLETE as u128) / span;
            self.percent = scaled as i32;
        }
    }

    /// Samples the clock and recomputes the progress from the time that has
    /// passed since the start. Whatever the clock shows, the progress is the
    /// one that belongs to some elapsed time.
    pub fn update(&mut self)
        ensures
            exists|elapsed: int| 0 <= elapsed && final(self)@ == #[trigger] old(self)@.at(elapsed),
            final(self).start() == old(self).start(),
            final(self)@.wf(),
    {
        let passed = clock_elapsed(&self.start);
        let micros: u128 = duration_micros(&passed);
        self.advance(micros);
    }

    /// True once the raw progress has reached `COMPLETE` exactly.
    pub fn is_complete(&self) -> (done: bool)
        ensures
            done == self@.complete(),
            self@.wf(),
    {
        proof {
            use_type_invariant(self);
        }
        self.percent == COMPLETE
    }

    /// The curve-mapped progress, or the raw progress without a curve.
    pub fn get_value(&self) -> (value: i32)
        ensures
            value == self@.value(),
            -COMPLETE <= value <= COMPLETE,
    {
        proof {
            use_type_invariant(self);
        }
        match self.curve {
            Some(curve) => curve.apply(self.percent) as i32,
            None => self.percent,
        }
    }
}

} // verus!
