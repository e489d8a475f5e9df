//! The pre-play countdown: a fixed play delay followed by a short "GO!"
//! display, advanced by real elapsed time each frame so that frame-rate
//! fluctuations never desynchronize it from wall-clock time.

use vstd::prelude::*;

verus! {

/// Longest accepted countdown part, in milliseconds.
pub const COUNTDOWN_LIMIT_MS: u64 = 3_600_000;

/// A countdown in progress. All durations are in milliseconds.
#[derive(Clone, Copy, Debug, PartialEq, Eq, Structural)]
pub struct Countdown {
    /// Time before play begins: the numbered part of the countdown.
    pub play_delay_ms: u64,
    /// How long the "GO!" overlay stays up after play begins.
    pub go_ms: u64,
    /// Real time accumulated so far, saturated at the total duration.
    pub elapsed_ms: u64,
}

/// What the countdown overlay shows: a number of whole seconds left, or
/// "GO!".
#[derive(Clone, Copy, Debug, PartialEq, Eq, Structural)]
pub enum CountdownDisplay {
    Seconds(u64),
    Go,
}

impl Countdown {
    /// Full duration: the play delay plus the "GO!" display time.
    pub open spec fn total_ms(self) -> int {
        self.play_delay_ms + self.go_ms
    }

    pub open spec fn wf(self) -> bool {
        &&& self.play_delay_ms <= COUNTDOWN_LIMIT_MS
        &&& self.go_ms <= COUNTDOWN_LIMIT_MS
        &&& self.elapsed_ms <= self.total_ms()
    }

    /// A fresh countdown with nothing elapsed.
    pub fn start(play_delay_ms: u64, go_ms: u64) -> (c: Countdown)
        requires
            play_delay_ms <= COUNTDOWN_LIMIT_MS,
            go_ms <= COUNTDOWN_LIMIT_MS,
        ensures
            c == (Countdown { play_delay_ms, go_ms, elapsed_ms: 0 }),
            c.wf(),
    {
        Countdown { play_delay_ms, go_ms, elapsed_ms: 0 }
    }

    /// Play begins once the elapsed time reaches the play delay.
    pub open spec fn spec_ready(self) -> bool {
        self.elapsed_ms >= self.play_delay_ms
    }

    pub fn ready_to_play(&self) -> (b: bool)
        ensures
            b == self.spec_ready(),
    {
        self.elapsed_ms >= self.play_delay_ms
    }

    /// The overlay comes down once the whole countdown has elapsed.
    pub open spec fn spec_finished(self) -> bool {
        self.elapsed_ms >= self.total_ms()
    }

    pub fn finished(&self) -> (b: bool)
        requires
            self.wf(),
        ensures
            b == self.spec_finished(),
    {
        self.elapsed_ms >= self.play_delay_ms + self.go_ms
    }

    /// The countdown after `dt` more milliseconds of real time, saturated
    /// at the total duration.
    pub open spec fn spec_advance(self, dt: u64) -> Countdown {
        Countdown {
            elapsed_ms: (if self.elapsed_ms + dt >= self.total_ms() {
                self.total_ms()
            } else {
                self.elapsed_ms + dt
            }) as u64,
            ..self
        }
    }

    /// Advance by the real time elapsed since the last frame.
    pub fn advance(&mut self, dt: u64)
        requires
            old(self).wf(),
        ensures
            *final(self) == old(self).spec_advance(dt),
            final(self).wf(),
            final(self).elapsed_ms >= old(self).elapsed_ms,
            old(self).elapsed_ms + dt >= old(self).play_delay_ms ==> final(self).spec_ready(),
    {
        let total = self.play_delay_ms + self.go_ms;
        if dt >= total - self.elapsed_ms {
            self.elapsed_ms = total;
        } else {
            self.elapsed_ms = self.elapsed_ms + dt;
        }
    }

    /// What the overlay shows: the whole seconds still to run before play,
    /// rounded up, and "GO!" once that number reaches zero.
    pub open spec fn spec_display(self) -> CountdownDisplay {
        if self.elapsed_ms >= self.play_delay_ms {
            CountdownDisplay::Go
        } else {
            CountdownDisplay::Seconds(
                (((self.play_delay_ms - self.elapsed_ms) + 999) / 1000) as u64,
            )
        }
    }

    pub fn display(&self) -> (d: CountdownDisplay)
        requires
            self.wf(),
        ensures
            d == self.spec_display(),
            (d == CountdownDisplay::Go) <==> self.spec_ready(),
    {
        if self.elapsed_ms >= self.play_delay_ms {
            CountdownDisplay::Go
        } else {
            CountdownDisplay::Seconds((self.play_delay_ms - self.elapsed_ms + 999) / 1000)
        }
    }
}

/// Advancing twice is advancing by the sum: the countdown follows
/// accumulated wall-clock time, whatever the frame boundaries are.
pub proof fn lemma_advance_additive(c: Countdown, a: u64, b: u64)
    requires
        c.wf(),
        a + b <= u64::MAX,
    ensures
        c.spec_advance(a).spec_advance(b) == c.spec_advance((a + b) as u64),
{
}

/// The countdown lifecycle: starting from a delay `d` and a "GO!" time `g`,
/// after `e` milliseconds of accumulated real time the countdown is ready
/// for play exactly when `e >= d`, shows "GO!" exactly when `e >= d`, and
/// is finished — the overlay comes down — exactly when `e >= d + g`.
pub proof fn lemma_countdown_lifecycle(d: u64, g: u64, e: u64)
    requires
        d <= COUNTDOWN_LIMIT_MS,
        g <= COUNTDOWN_LIMIT_MS,
    ensures
        ({
            let c = (Countdown { play_delay_ms: d, go_ms: g, elapsed_ms: 0 }).spec_advance(e);
            &&& c.spec_ready() <==> e >= d
            &&& (c.spec_display() == CountdownDisplay::Go) <==> e >= d
            &&& c.spec_finished() <==> e >= d + g
        }),
{
}

} // verus!
