//! Control core of a four-operator phase-modulation synthesizer.
//!
//! The crate holds the discrete decisions of the instrument: the routing
//! graph between operators, the order in which the operators of a voice are
//! evaluated on every sample, the envelope state machines, and the policy
//! that hands notes to a fixed pool of voices. Signal arithmetic is left to
//! the caller, who asks this crate what to do next and reports what happened.

pub mod algorithm;
pub mod effects;
pub mod envelope;
pub mod filter;
pub mod lfo;
pub mod mod_envelope;
pub mod noop_envelope;
pub mod operator;
pub mod oscillator;
pub mod pool;
pub mod pool_laws;
pub mod schedule;
pub mod schedule_laws;
pub mod synth;
pub mod voice;
