//! Core of a linear-predictive speech synthesizer.
//!
//! This crate holds the discrete heart of the engine: the letter-to-sound
//! rule matcher that turns normalized text into a phonetic transcription,
//! the phone parameter-target tables, and the integer state machines that
//! drive the excitation models (pitch-synchronous phase counter, shift
//! register noise sources).  The surrounding application supplies audio
//! I/O and the floating-point filter arithmetic.

pub mod excitation;
pub mod noise;
pub mod phones;
pub mod text_to_phoneme;
