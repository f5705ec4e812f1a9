//! Enumerate the IKE transforms that a server accepts.
//!
//! The crate holds a bit-exact codec for ISAKMP (IKEv1) and IKEv2 messages and the
//! decision logic of a scanner that probes a server with batches of transforms and
//! bisects every batch that the server answered positively.
//!
//! - [`wire`]: big-endian integers and byte ranges.
//! - [`v1`]: IKEv1 identifiers, message model, parser and the Main Mode probe generator.
//! - [`v2`]: IKEv2 identifiers, message model, generator and parser, with round-trip laws.
//! - [`engine`]: candidate enumeration, batching, bisection, decoding of responses, the
//!   result set and the scan state machine driven by timer ticks and received messages.
//! - [`candidate_laws`], [`probe_laws`]: laws about the enumeration and about reading
//!   probes back.

pub mod wire;
pub mod v1;
pub mod v2;
pub mod engine;
pub mod candidate_laws;
pub mod probe_laws;
