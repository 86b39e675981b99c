//! Integer state machines of the excitation model.
//!
//! The lattice synthesizer is driven either by a pitch-synchronous pulse
//! train or, for unvoiced sound, by a maximal-length linear-feedback shift
//! register.  The decisions of both models are integer state transitions
//! and live here; the surrounding application only turns them into sample
//! amplitudes.

use vstd::prelude::*;

verus! {

/// One step of the 16-bit linear-feedback shift register with tap
/// polynomial 0xb800 that generates the unvoiced excitation.
pub open spec fn spec_lfsr_step(r: u16) -> u16 {
    (r >> 1) ^ (if r & 1 == 1 {
        0xb800u16
    } else {
        0u16
    })
}

/// Advance the unvoiced-excitation shift register by one step.
pub fn lfsr_step(r: u16) -> (s: u16)
    ensures
        s == spec_lfsr_step(r),
{
    (r >> 1) ^ (if r & 1 == 1 {
        0xb800
    } else {
        0
    })
}

/// The emitted noise bit: the register's low bit decides whether the
/// excitation sample is positive or negative.
pub fn lfsr_bit(r: u16) -> (b: bool)
    ensures
        b == (r & 1 == 1),
{
    r & 1 == 1
}

/// A nonzero shift register stays nonzero: the generator never falls into
/// the all-zero lock-up state.
pub proof fn lemma_lfsr_nonzero(r: u16)
    requires
        r != 0,
    ensures
        spec_lfsr_step(r) != 0,
{
    assert(r != 0 ==> (r >> 1) ^ (if r & 1 == 1 {
        0xb800u16
    } else {
        0u16
    }) != 0) by (bit_vector);
}

/// The pitch phase counter after one sample: it counts up by one and wraps
/// to zero when it reaches the pitch period.
pub open spec fn spec_next_phase(phase: u16, period: u16) -> u16 {
    if phase + 1 >= period {
        0
    } else {
        (phase + 1) as u16
    }
}

/// Advance the voiced-excitation phase counter by one sample.  The pulse
/// (the sample on which the leaky accumulator is topped up) falls exactly
/// where the counter reads zero.
pub fn next_phase(phase: u16, period: u16) -> (p: u16)
    requires
        period > 0,
    ensures
        p == spec_next_phase(phase, period),
{
    if phase >= period - 1 {
        0
    } else {
        phase + 1
    }
}

/// The phase counter read before the n-th sample of a voiced stream that
/// starts at phase zero.
pub open spec fn spec_phase_after(n: nat, period: u16) -> u16
    decreases n,
{
    if n == 0 {
        0
    } else {
        spec_next_phase(spec_phase_after((n - 1) as nat, period), period)
    }
}

/// The phase counter is exactly the sample index modulo the pitch period.
pub proof fn lemma_phase_after_mod(n: nat, period: u16)
    requires
        period > 0,
    ensures
        spec_phase_after(n, period) as nat == n % (period as nat),
    decreases n,
{
    let p = period as nat;
    if n == 0 {
        assert(0nat % p == 0) by (nonlinear_arith)
            requires
                p > 0,
        ;
    } else {
        lemma_phase_after_mod((n - 1) as nat, period);
        let r = (n - 1) as nat % p;
        assert(r < p) by (nonlinear_arith)
            requires
                p > 0,
                r == (n - 1) as nat % p,
        ;
        if r + 1 >= p {
            assert(n % p == 0) by (nonlinear_arith)
                requires
                    p > 0,
                    n >= 1,
                    (n - 1) as nat % p == p - 1,
            ;
        } else {
            assert(n % p == r + 1) by (nonlinear_arith)
                requires
                    p > 0,
                    n >= 1,
                    r == (n - 1) as nat % p,
                    r + 1 < p,
            ;
        }
    }
}

/// The voiced pulse recurs with the exact pitch period: starting from phase
/// zero, the accumulator-reset sample falls on sample n if and only if n is
/// a multiple of the period.
pub proof fn lemma_pulse_period(n: nat, period: u16)
    requires
        period > 0,
    ensures
        (spec_phase_after(n, period) == 0) <==> (n % (period as nat) == 0),
{
    lemma_phase_after_mod(n, period);
}

} // verus!
