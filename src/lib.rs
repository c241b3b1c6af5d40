//! Synthesis of traffic-padding machines: state graphs that approximate a
//! windowed (FRONT-style) padding scheme and a decaying-rate (RegulaTor-style)
//! surge scheme, for an external padding-machine engine.
//!
//! Real-valued quantities are carried as fixed-point integers in millionths
//! (see [`machine::SCALE`]); probabilities too, so that `1.0` is `SCALE`.
pub mod front;
pub mod machine;
pub mod regulator;
pub mod search;
