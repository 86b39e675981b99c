//! Pseudo-random noise source for the synthesizer.

use vstd::prelude::*;

verus! {

/// State of the 32-bit xorshift pseudo-random generator that supplies the
/// noise excitation for synthesis.
pub struct Noise {
    x: u32,
}

/// One step of the 32-bit xorshift recurrence with shift counts 13, 17, 5.
pub open spec fn spec_xorshift(x: u32) -> u32 {
    let a = x ^ (x << 13);
    let b = a ^ (a >> 17);
    b ^ (b << 5)
}

impl View for Noise {
    type V = u32;

    closed spec fn view(&self) -> u32 {
        self.x
    }
}

impl Noise {
    /// Advance the register by one xorshift step and return the new value.
    pub fn next_u32(&mut self) -> (r: u32)
        ensures
            final(self)@ == spec_xorshift(old(self)@),
            r == final(self)@,
    {
        let mut x = self.x;
        x ^= x << 13;
        x ^= x >> 17;
        x ^= x << 5;
        self.x = x;
        x
    }
}

impl Default for Noise {
    /// The fixed seed: every stream of noise samples is reproducible.
    fn default() -> (r: Self)
        ensures
            r@ == 0x1ebdf0c5u32,
    {
        Noise { x: 0x1ebdf0c5 }
    }
}

/// The xorshift register never collapses to the all-zero lock-up state:
/// a nonzero register stays nonzero forever.
pub proof fn lemma_xorshift_nonzero(x: u32)
    requires
        x != 0,
    ensures
        spec_xorshift(x) != 0,
{
    assert(x != 0 ==> ((x ^ (x << 13)) ^ ((x ^ (x << 13)) >> 17))
        ^ (((x ^ (x << 13)) ^ ((x ^ (x << 13)) >> 17)) << 5) != 0) by (bit_vector);
}

} // verus!
