//! Safe, verified core of a binding layer over a native zero-knowledge
//! proving library (the ACIR composer).
//!
//! The native library is reachable only through its foreign calling
//! convention, which a verifier cannot inspect. This crate therefore holds
//! everything the binding itself decides and computes, stated and proved:
//!
//! * the length-prefixed buffer framing shared with the native side
//!   ([`codec`]),
//! * the composer's lifecycle bookkeeping and the translation of the native
//!   side's dual failure channels (diagnostic message, null output) into
//!   result values ([`composer`]),
//! * the circuit-size query's request construction and response decoding
//!   ([`sizes`]).
//!
//! An embedding layer performs the actual foreign calls and hands their raw
//! outcomes to these functions as plain values.

pub mod codec;
pub mod composer;
pub mod sizes;

pub use codec::DecodeError;
pub use composer::AcirComposer;
pub use composer::ComposerError;
pub use composer::ErrorKind;
pub use sizes::get_circuit_sizes;
pub use sizes::CircuitSizes;
