//! A C-callable plugin bridge for emulated hardware peripherals.
//!
//! A peripheral is a unit of emulated hardware loaded into a host emulator
//! as a shared module. The host drives it through a fixed set of exported
//! entry points; this crate provides the verified core of that bridge:
//!
//! - the [`Peripheral`](lifecycle::Peripheral) lifecycle contract a
//!   peripheral implementation must satisfy,
//! - the stateful [`Bridge`](bridge::Bridge), a handle table that turns a
//!   lifecycle implementation into the fixed entry-point set while ruling
//!   out double-free and use-after-free of instances,
//! - the last-error channel with its byte-exact retrieval protocol
//!   ([`errors`]),
//! - signature validation for the stateless authoring style
//!   ([`stateless`]),
//! - a register-style example peripheral ([`register`]).
//!
//! The unsafe C ABI shims themselves (raw pointers, `thread_local!`
//! storage, token emission) live outside this library; they hand plain
//! values in and out of the verified core.

pub mod bridge;
pub mod errors;
pub mod lifecycle;
pub mod register;
pub mod stateless;

pub use lifecycle::Peripheral;
