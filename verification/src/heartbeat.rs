//! Periodic two-level output patterns, and the heartbeat among them.
//!
//! A [`Blinker`] alternates between holding its output low and holding it
//! high, for a fixed time each. It never waits itself: every step names the
//! level to drive and how long to hold it, and the caller does both.

use vstd::prelude::*;

verus! {

/// Time for which the heartbeat holds its output low, in milliseconds.
pub const HEARTBEAT_LOW_MS: u64 = 200;

/// Time for which the heartbeat holds its output high, in milliseconds.
pub const HEARTBEAT_HIGH_MS: u64 = 4000;

/// Level of a digital output.
#[derive(Clone, Copy, Debug, PartialEq, Eq, Structural)]
pub enum Level {
    Low,
    High,
}

impl Level {
    /// The other level.
    pub open spec fn spec_toggled(self) -> Level {
        match self {
            Level::Low => Level::High,
            Level::High => Level::Low,
        }
    }

    /// The other level.
    #[verifier::when_used_as_spec(spec_toggled)]
    pub fn toggled(self) -> (other: Level)
        ensures
            other == self.spec_toggled(),
    {
        match self {
            Level::Low => Level::High,
            Level::High => Level::Low,
        }
    }
}

/// One step of a pattern: drive the output to `level`, then leave it there
/// for `hold_ms` milliseconds.
#[derive(Clone, Copy, Debug, PartialEq, Eq, Structural)]
pub struct Beat {
    pub level: Level,
    pub hold_ms: u64,
}

/// A pattern that holds its output low for `low_ms`, high for `high_ms`, and
/// so on for ever. `next` is the level that the coming step drives.
#[derive(Clone, Copy, Debug, PartialEq, Eq, Structural)]
pub struct Blinker {
    pub low_ms: u64,
    pub high_ms: u64,
    pub next: Level,
}

impl Blinker {
    /// The step that comes next.
    pub open spec fn beat(self) -> Beat {
        Beat {
            level: self.next,
            hold_ms: match self.next {
                Level::Low => self.low_ms,
                Level::High => self.high_ms,
            },
        }
    }

    /// The pattern once the next step is taken.
    pub open spec fn advanced(self) -> Blinker {
        Blinker { low_ms: self.low_ms, high_ms: self.high_ms, next: self.next.spec_toggled() }
    }

    /// The next `n` steps.
    pub open spec fn beats(self, n: nat) -> Seq<Beat>
        decreases n,
    {
        if n == 0 {
            Seq::empty()
        } else {
            seq![self.beat()] + self.advanced().beats((n - 1) as nat)
        }
    }

    /// A pattern that starts at level `first`.
    pub fn new(first: Level, low_ms: u64, high_ms: u64) -> (blinker: Blinker)
        ensures
            blinker == (Blinker { low_ms, high_ms, next: first }),
    {
        Blinker { low_ms, high_ms, next: first }
    }

    /// Takes one step: returns what to drive and for how long, and moves on
    /// to the other level.
    pub fn step(&mut self) -> (beat: Beat)
        ensures
            beat == old(self).beat(),
            *final(self) == old(self).advanced(),
    {
        let level = self.next;
        let hold_ms: u64 = match level {
            Level::Low => self.low_ms,
            Level::High => self.high_ms,
        };
        self.next = level.toggled();
        Beat { level, hold_ms }
    }
}

/// A heartbeat: a pattern whose two hold times differ, so that it cannot be
/// taken for an even blink. It starts with the low pulse.
#[derive(Clone, Copy, Debug, PartialEq, Eq)]
pub struct Heartbeat {
    pattern: Blinker,
}

impl Heartbeat {
    /// What makes a pattern a heartbeat: the two hold times differ.
    #[verifier::type_invariant]
    spec fn uneven(self) -> bool {
        self.pattern.low_ms != self.pattern.high_ms
    }

    /// The pattern that the heartbeat follows from here on.
    pub closed spec fn pattern(self) -> Blinker {
        self.pattern
    }

    /// A heartbeat that is low for `low_ms` and high for `high_ms`, or `None`
    /// where the two are equal.
    pub fn new(low_ms: u64, high_ms: u64) -> (heartbeat: Option<Heartbeat>)
        ensures
            match heartbeat {
                Some(h) => low_ms != high_ms && h.pattern() == (Blinker {
                    low_ms,
                    high_ms,
                    next: Level::Low,
                }),
                None => low_ms == high_ms,
            },
    {
        if low_ms == high_ms {
            None
        } else {
            Some(Heartbeat { pattern: Blinker { low_ms, high_ms, next: Level::Low } })
        }
    }

    /// The heartbeat of the beacon: a short low pulse of
    /// [`HEARTBEAT_LOW_MS`], then a long high hold of [`HEARTBEAT_HIGH_MS`].
    pub fn standard() -> (heartbeat: Heartbeat)
        ensures
            heartbeat.pattern() == (Blinker {
                low_ms: HEARTBEAT_LOW_MS,
                high_ms: HEARTBEAT_HIGH_MS,
                next: Level::Low,
            }),
    {
        Heartbeat {
            pattern: Blinker {
                low_ms: HEARTBEAT_LOW_MS,
                high_ms: HEARTBEAT_HIGH_MS,
                next: Level::Low,
            },
        }
    }

    /// Takes one step: returns what to drive and for how long, and moves on
    /// to the other level. The two hold times stay what they were, and
    /// different.
    pub fn step(&mut self) -> (beat: Beat)
        ensures
            beat == old(self).pattern().beat(),
            final(self).pattern() == old(self).pattern().advanced(),
            final(self).pattern().low_ms != final(self).pattern().high_ms,
    {
        proof {
            use_type_invariant(&*self);
        }
        let mut pattern = self.pattern;
        let beat = pattern.step();
        self.pattern = pattern;
        beat
    }
}

/// Time for which a run of steps holds the output low, in milliseconds.
pub open spec fn low_time(beats: Seq<Beat>) -> int
    decreases beats.len(),
{
    if beats.len() == 0 {
        0
    } else {
        low_time(beats.drop_last()) + match beats.last().level {
            Level::Low => beats.last().hold_ms as int,
            Level::High => 0,
        }
    }
}

/// Time that a run of steps takes in all, in milliseconds.
pub open spec fn total_time(beats: Seq<Beat>) -> int
    decreases beats.len(),
{
    if beats.len() == 0 {
        0
    } else {
        total_time(beats.drop_last()) + beats.last().hold_ms
    }
}

/// The next `n + 1` steps are the next `n`, then one more.
proof fn lemma_beats_last(blinker: Blinker, n: nat)
    ensures
        blinker.beats(n).len() == n,
        blinker.beats(n + 1) == blinker.beats(n).push(
            Beat {
                level: if n % 2 == 0 {
                    blinker.next
                } else {
                    blinker.next.spec_toggled()
                },
                hold_ms: if (n % 2 == 0) == (blinker.next == Level::Low) {
                    blinker.low_ms
                } else {
                    blinker.high_ms
                },
            },
        ),
    decreases n,
{
    if n == 0 {
        reveal_with_fuel(Blinker::beats, 2);
    } else {
        lemma_beats_last(blinker.advanced(), (n - 1) as nat);
    }
}

/// Alternation: the steps of a pattern drive the two levels in turn,
/// starting with `next`, each for its own hold time.
pub proof fn lemma_levels_alternate(blinker: Blinker, n: nat, i: int)
    requires
        0 <= i < n,
    ensures
        blinker.beats(n).len() == n,
        blinker.beats(n)[i].level == if i % 2 == 0 {
            blinker.next
        } else {
            blinker.next.spec_toggled()
        },
        blinker.beats(n)[i].hold_ms == match blinker.beats(n)[i].level {
            Level::Low => blinker.low_ms,
            Level::High => blinker.high_ms,
        },
    decreases n,
{
    lemma_beats_last(blinker, (n - 1) as nat);
    if i < n - 1 {
        lemma_levels_alternate(blinker, (n - 1) as nat, i);
    }
}

/// Duty cycle: over any number of full cycles, from either level, the
/// output is low for `low_ms` out of every `low_ms + high_ms` milliseconds.
pub proof fn lemma_duty_cycle(blinker: Blinker, cycles: nat)
    ensures
        low_time(blinker.beats(2 * cycles)) == cycles * blinker.low_ms,
        total_time(blinker.beats(2 * cycles)) == cycles * (blinker.low_ms + blinker.high_ms),
        low_time(blinker.beats(2 * cycles)) * (blinker.low_ms + blinker.high_ms) == blinker.low_ms
            * total_time(blinker.beats(2 * cycles)),
    decreases cycles,
{
    let low = blinker.low_ms as int;
    let high = blinker.high_ms as int;
    if cycles > 0 {
        // The last cycle adds two steps, one at each level.
        let before = (2 * (cycles - 1)) as nat;
        lemma_duty_cycle(blinker, (cycles - 1) as nat);
        lemma_beats_last(blinker, before);
        lemma_beats_last(blinker, before + 1);
        let earlier = blinker.beats(before);
        let half = blinker.beats(before + 1);
        let all = blinker.beats(2 * cycles);
        assert(half.drop_last() =~= earlier);
        assert(all.drop_last() =~= half);
        assert(low_time(half) == low_time(earlier) + if blinker.next == Level::Low {
            low
        } else {
            0
        });
        assert(total_time(half) == total_time(earlier) + half.last().hold_ms);
        assert(low_time(all) == cycles * low) by (nonlinear_arith)
            requires
                low_time(all) == low_time(earlier) + low,
                low_time(earlier) == (cycles - 1) * low,
        ;
        assert(total_time(all) == cycles * (low + high)) by (nonlinear_arith)
            requires
                total_time(all) == total_time(earlier) + low + high,
                total_time(earlier) == (cycles - 1) * (low + high),
        ;
    } else {
        assert(cycles * low == 0 && cycles * (low + high) == 0) by (nonlinear_arith)
            requires
                cycles == 0,
        ;
    }
    assert((cycles * low) * (low + high) == low * (cycles * (low + high))) by (nonlinear_arith);
}

} // verus!
