//! Tests of the excitation state machines and the noise generator.

use phonate::excitation::{lfsr_bit, lfsr_step, next_phase};
use phonate::noise::Noise;

#[test]
fn lfsr_first_steps() {
    let mut r: u16 = 1;
    let expected: [u16; 6] = [0xb800, 0x5c00, 0x2e00, 0x1700, 0x0b80, 0x05c0];
    for e in expected {
        r = lfsr_step(r);
        assert_eq!(r, e);
    }
}

#[test]
fn lfsr_stays_nonzero() {
    let mut r: u16 = 1;
    for _ in 0..100_000 {
        r = lfsr_step(r);
        assert_ne!(r, 0);
    }
}

#[test]
fn lfsr_bit_follows_the_low_bit() {
    assert!(lfsr_bit(1));
    assert!(!lfsr_bit(2));
    assert!(lfsr_bit(0xb801));
    assert!(!lfsr_bit(0xb800));
}

#[test]
fn phase_wraps_at_the_period() {
    assert_eq!(next_phase(0, 140), 1);
    assert_eq!(next_phase(138, 140), 139);
    assert_eq!(next_phase(139, 140), 0);
    assert_eq!(next_phase(0, 1), 0);
    assert_eq!(next_phase(500, 140), 0);
}

#[test]
fn pulse_recurs_with_exact_period_140() {
    // Over ten periods, the phase counter reads zero exactly on the
    // multiples of the pitch period.
    let period: u16 = 140;
    let mut phase: u16 = 0;
    for n in 0u32..=1400 {
        assert_eq!(phase == 0, n % 140 == 0);
        phase = next_phase(phase, period);
    }
}

#[test]
fn noise_first_values() {
    let mut n = Noise::default();
    assert_eq!(n.next_u32(), 0xb4051277);
    assert_eq!(n.next_u32(), 0xdf34d312);
    assert_eq!(n.next_u32(), 0xef808699);
    assert_eq!(n.next_u32(), 0x1528ff30);
}

#[test]
fn noise_is_deterministic() {
    let mut a = Noise::default();
    let mut b = Noise::default();
    for _ in 0..1000 {
        assert_eq!(a.next_u32(), b.next_u32());
    }
}

#[test]
fn noise_stays_nonzero() {
    let mut n = Noise::default();
    for _ in 0..100_000 {
        assert_ne!(n.next_u32(), 0);
    }
}
