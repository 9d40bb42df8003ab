//! A span of time to wait before an operation is tried again.

use vstd::prelude::*;

verus! {

/// Nanoseconds in one second.
pub const NANOS_PER_SEC: u32 = 1_000_000_000;

/// Nanoseconds in one millisecond.
pub const NANOS_PER_MILLI: u32 = 1_000_000;

/// Milliseconds in one second.
pub const MILLIS_PER_SEC: u64 = 1_000;

/// A span of time: whole seconds, and the nanoseconds beyond them, which stay
/// under one second. Two delays are equal exactly when they last equally long.
#[derive(Clone, Copy, Debug, PartialEq, Eq, Hash, Structural)]
pub struct Delay {
    secs: u64,
    nanos: u32,
}

impl Delay {
    /// Holds of every delay that a program can make: the nanoseconds stay
    /// under one second.
    #[verifier::type_invariant]
    pub closed spec fn normal(self) -> bool {
        self.nanos < NANOS_PER_SEC
    }

    /// The whole seconds of the span.
    pub closed spec fn secs(self) -> nat {
        self.secs as nat
    }

    /// The nanoseconds beyond the whole seconds.
    pub closed spec fn subsec(self) -> nat {
        self.nanos as nat
    }

    /// The length of the span in nanoseconds.
    pub open spec fn total_nanos(self) -> nat {
        self.secs() * (NANOS_PER_SEC as nat) + self.subsec()
    }

    /// The whole milliseconds that fit in the span.
    pub open spec fn millis(self) -> nat {
        self.total_nanos() / (NANOS_PER_MILLI as nat)
    }

    /// A delay of `secs` seconds and `nanos` nanoseconds, where `nanos` is less
    /// than a second; `None` where it is not.
    pub fn new(secs: u64, nanos: u32) -> (d: Option<Delay>)
        ensures
            match d {
                Some(v) => nanos < NANOS_PER_SEC && v.secs() == secs && v.subsec() == nanos
                    && v.normal(),
                None => nanos >= NANOS_PER_SEC,
            },
    {
        if nanos < NANOS_PER_SEC {
            Some(Delay { secs, nanos })
        } else {
            None
        }
    }

    /// A delay of `millis` milliseconds.
    pub fn from_millis(millis: u64) -> (d: Delay)
        ensures
            d.secs() == millis / MILLIS_PER_SEC,
            d.subsec() == (millis % MILLIS_PER_SEC) * NANOS_PER_MILLI,
            d.millis() == millis,
            d.normal(),
    {
        let secs: u64 = millis / MILLIS_PER_SEC;
        let rest: u32 = (millis % MILLIS_PER_SEC) as u32;
        let nanos: u32 = rest * NANOS_PER_MILLI;
        Delay { secs, nanos }
    }

    /// The whole seconds of the span.
    pub fn as_secs(&self) -> (s: u64)
        ensures
            s == self.secs(),
    {
        self.secs
    }

    /// The nanoseconds beyond the whole seconds: always less than a second.
    pub fn subsec_nanos(&self) -> (n: u32)
        ensures
            n == self.subsec(),
            n < NANOS_PER_SEC,
    {
        proof {
            use_type_invariant(self);
        }
        self.nanos
    }

    /// The whole milliseconds that fit in the span.
    pub fn as_millis(&self) -> (m: u128)
        ensures
            m == self.millis(),
    {
        proof {
            use_type_invariant(self);
        }
        let whole: u128 = (self.secs as u128) * (MILLIS_PER_SEC as u128);
        let part: u128 = (self.nanos / NANOS_PER_MILLI) as u128;
        assert(whole == self.secs * 1_000 && part == self.nanos / 1_000_000);
        assert(whole + part == (self.secs * 1_000_000_000 + self.nanos) / 1_000_000);
        whole + part
    }
}

/// A delay is no more than its seconds and its nanoseconds.
pub proof fn lemma_same_parts_same_delay(first: Delay, second: Delay)
    requires
        first.secs() == second.secs(),
        first.subsec() == second.subsec(),
    ensures
        first == second,
{
}

/// The nanoseconds of a normal delay stay under one second.
pub proof fn lemma_normal_subsec(delay: Delay)
    requires
        delay.normal(),
    ensures
        delay.subsec() < NANOS_PER_SEC,
{
}

/// Two normal delays that last equally long are equal.
pub proof fn lemma_same_length_same_delay(first: Delay, second: Delay)
    requires
        first.normal(),
        second.normal(),
        first.total_nanos() == second.total_nanos(),
    ensures
        first == second,
{
}

/// The whole milliseconds of a delay are those of its seconds and those of
/// its nanoseconds.
pub proof fn lemma_millis_by_parts(delay: Delay)
    ensures
        delay.millis() == delay.secs() * MILLIS_PER_SEC + delay.subsec() / (
        NANOS_PER_MILLI as nat),
{
}

} // verus!
