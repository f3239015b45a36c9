//! Direct kernel-service invocation without the system library's stubs.
//!
//! The service identifiers are read out of the system library's own export
//! table: every named export whose code is a kernel-transition trampoline
//! gives one (fingerprint of name, identifier) entry. A call site looks its
//! routine up by name and loads the identifier and its arguments into the
//! registers the transition instruction expects.
pub mod fingerprint;
pub mod image;
pub mod exports;
pub mod trampoline;
pub mod table;
pub mod laws;
pub mod invoke;

pub use fingerprint::fnv1a_64;
