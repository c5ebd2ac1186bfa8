//! The time that a run took and the throughput that follows from it.

use vstd::prelude::*;

verus! {

/// The time that the inserts took, as whole seconds and the nanoseconds
/// beyond them.
#[derive(Debug, PartialEq, Eq)]
pub struct Elapsed {
    secs: u64,
    nanos: u32,
}

/// An elapsed time as contracts see it.
pub struct ElapsedView {
    pub secs: u64,
    pub nanos: u32,
}

impl ElapsedView {
    /// The whole time in nanoseconds.
    pub open spec fn total_nanos(self) -> nat {
        (self.secs * 1_000_000_000 + self.nanos) as nat
    }
}

impl View for Elapsed {
    type V = ElapsedView;

    closed spec fn view(&self) -> ElapsedView {
        ElapsedView { secs: self.secs, nanos: self.nanos }
    }
}

impl Elapsed {
    #[verifier::type_invariant]
    spec fn inv(self) -> bool {
        self.nanos < 1_000_000_000
    }

    /// An elapsed time of `secs` seconds and `nanos` nanoseconds, where
    /// `nanos` is less than a second.
    pub fn new(secs: u64, nanos: u32) -> (r: Option<Elapsed>)
        ensures
            r is Some <==> nanos < 1_000_000_000,
            r matches Some(e) ==> e@ == (ElapsedView { secs, nanos }),
    {
        if nanos < 1_000_000_000 {
            Some(Elapsed { secs, nanos })
        } else {
            None
        }
    }

    /// The whole seconds.
    pub fn secs(&self) -> (n: u64)
        ensures
            n == self@.secs,
    {
        self.secs
    }

    /// The nanoseconds beyond the whole seconds; less than a second.
    pub fn subsec_nanos(&self) -> (n: u32)
        ensures
            n == self@.nanos,
            n < 1_000_000_000,
    {
        proof {
            use_type_invariant(self);
        }
        self.nanos
    }
}

/// `total` units in `nanos` nanoseconds as units per second, rounded to the
/// nearest integer, a half upwards.
pub open spec fn rate(total: nat, nanos: nat) -> nat
    recommends
        nanos > 0,
{
    (2 * total * 1_000_000_000 + nanos) / (2 * nanos)
}

/// The throughput of `total` inserts in the time `elapsed`; there is none
/// when no time has passed.
pub open spec fn throughput_of(total: nat, elapsed: ElapsedView) -> Option<nat> {
    if elapsed.total_nanos() == 0 {
        None
    } else {
        Some(rate(total, elapsed.total_nanos()))
    }
}

/// Inserts per second, rounded to the nearest integer, or `None` when no
/// time has passed.
pub fn throughput(total: u64, elapsed: &Elapsed) -> (r: Option<u128>)
    ensures
        match r {
            Some(v) => throughput_of(total as nat, elapsed@) == Some(v as nat),
            None => throughput_of(total as nat, elapsed@) is None,
        },
{
    proof {
        use_type_invariant(elapsed);
    }
    let nanos: u128 = elapsed.secs as u128 * 1_000_000_000 + elapsed.nanos as u128;
    if nanos == 0 {
        None
    } else {
        let scaled: u128 = total as u128 * 1_000_000_000;
        Some((2 * scaled + nanos) / (2 * nanos))
    }
}

/// The rate differs from the exact quotient by at most a half, and a
/// quotient that ends in a half is rounded upwards.
pub proof fn lemma_rate_is_nearest(total: nat, nanos: nat)
    requires
        nanos > 0,
    ensures
        2 * rate(total, nanos) * nanos - nanos <= 2 * total * 1_000_000_000,
        2 * total * 1_000_000_000 < 2 * rate(total, nanos) * nanos + nanos,
{
    let a = 2 * total * 1_000_000_000 + nanos;
    let b = 2 * nanos;
    let q = a / b;
    assert(q * b <= a < q * b + b) by (nonlinear_arith)
        requires
            b > 0,
            q == a / b,
            a >= 0,
    ;
    assert(q * b == 2 * q * nanos) by (nonlinear_arith)
        requires
            b == 2 * nanos,
    ;
}

/// A run without inserts has the throughput zero, whatever time has passed.
pub proof fn lemma_idle_rate(elapsed: ElapsedView)
    ensures
        throughput_of(0, elapsed) == if elapsed.total_nanos() == 0 {
            None
        } else {
            Some(0nat)
        },
{
    let n = elapsed.total_nanos();
    if n > 0 {
        assert(n / (2 * n) == 0) by (nonlinear_arith)
            requires
                n > 0,
        ;
    }
}

} // verus!
