//! A span of time with nanosecond precision, as seconds plus sub-second nanoseconds.

use vstd::prelude::*;

verus! {

/// Nanoseconds in one second.
pub const NANOS_PER_SEC: u32 = 1_000_000_000;

/// A span of time: whole seconds and the nanoseconds of the last, partial second.
#[derive(Clone, Copy, Debug)]
pub struct Duration {
    secs: u64,
    nanos: u32,
}

impl Duration {
    /// The nanosecond part always stays below one second.
    #[verifier::type_invariant]
    spec fn well_formed(self) -> bool {
        self.nanos < NANOS_PER_SEC
    }

    /// The whole seconds of this span.
    pub closed spec fn spec_secs(self) -> u64 {
        self.secs
    }

    /// The nanoseconds of this span beyond its whole seconds.
    pub closed spec fn spec_subsec_nanos(self) -> u32 {
        self.nanos
    }
}

impl View for Duration {
    type V = nat;

    /// The length of the span in nanoseconds.
    closed spec fn view(&self) -> nat {
        (self.secs * 1_000_000_000 + self.nanos) as nat
    }
}

/// Whole seconds and sub-second nanoseconds describe a span exactly.
pub proof fn lemma_nanos_split(secs: u64, nanos: u32)
    requires
        nanos < NANOS_PER_SEC,
    ensures
        ((secs * 1_000_000_000 + nanos) as nat) / 1_000_000_000 == secs,
        ((secs * 1_000_000_000 + nanos) as nat) % 1_000_000_000 == nanos,
{
    let total: int = secs * 1_000_000_000 + nanos;
    vstd::arithmetic::div_mod::lemma_fundamental_div_mod_converse(
        total,
        1_000_000_000,
        secs as int,
        nanos as int,
    );
}

impl Duration {
    /// A span of `secs` whole seconds.
    pub fn from_secs(secs: u64) -> (d: Duration)
        ensures
            d@ == secs * 1_000_000_000,
            d.spec_secs() == secs,
            d.spec_subsec_nanos() == 0,
    {
        Duration { secs, nanos: 0 }
    }

    /// A span of `secs` seconds plus `nanos` nanoseconds; nanoseconds of a whole
    /// second or more carry into the seconds.
    pub fn new(secs: u64, nanos: u32) -> (d: Duration)
        requires
            secs + nanos / 1_000_000_000 <= u64::MAX,
        ensures
            d@ == secs * 1_000_000_000 + nanos,
            d.spec_secs() == secs + nanos / 1_000_000_000,
            d.spec_subsec_nanos() == nanos % 1_000_000_000,
    {
        let carry: u32 = nanos / NANOS_PER_SEC;
        let rest: u32 = nanos % NANOS_PER_SEC;
        assert(nanos == carry * 1_000_000_000 + rest) by {
            vstd::arithmetic::div_mod::lemma_fundamental_div_mod(nanos as int, 1_000_000_000);
        }
        let total_secs: u64 = secs + carry as u64;
        Duration { secs: total_secs, nanos: rest }
    }

    /// The whole seconds of this span.
    pub fn as_secs(&self) -> (s: u64)
        ensures
            s == self.spec_secs(),
            s == self@ / 1_000_000_000,
    {
        proof {
            use_type_invariant(self);
            lemma_nanos_split(self.secs, self.nanos);
        }
        self.secs
    }

    /// The nanoseconds of this span beyond its whole seconds.
    pub fn subsec_nanos(&self) -> (n: u32)
        ensures
            n == self.spec_subsec_nanos(),
            n == self@ % 1_000_000_000,
            n < NANOS_PER_SEC,
    {
        proof {
            use_type_invariant(self);
            lemma_nanos_split(self.secs, self.nanos);
        }
        self.nanos
    }

    /// Whether this span is strictly longer than `other`.
    pub fn exceeds(&self, other: &Duration) -> (b: bool)
        ensures
            b == (self@ > other@),
    {
        proof {
            use_type_invariant(self);
            use_type_invariant(other);
        }
        self.secs > other.secs || (self.secs == other.secs && self.nanos > other.nanos)
    }
}

/// A span is its whole seconds plus its sub-second nanoseconds, and spans
/// are ordered by their seconds first and their nanoseconds second.
pub proof fn lemma_order_by_parts(a: Duration, b: Duration)
    requires
        a.spec_subsec_nanos() < NANOS_PER_SEC,
        b.spec_subsec_nanos() < NANOS_PER_SEC,
    ensures
        a@ == a.spec_secs() * 1_000_000_000 + a.spec_subsec_nanos(),
        a@ > b@ <==> (a.spec_secs() > b.spec_secs() || (a.spec_secs() == b.spec_secs()
            && a.spec_subsec_nanos() > b.spec_subsec_nanos())),
{
}

} // verus!
