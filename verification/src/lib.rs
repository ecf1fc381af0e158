//! Client-side logic for a schema registry: framing of schema identifiers in
//! record bytes, subject naming, the registry's request and response
//! envelopes, the resolution protocol and the resolution cache, each with a
//! machine-checked contract.
//!
//! Nothing in this library performs a request. A resolution states the
//! request it waits for and goes on with the reply it is given, so that the
//! transport, blocking or not, is the caller's.

pub mod schema_registry;
