//! A verified boundary layer for a native visual-effects engine.
//!
//! The engine itself is a foreign component reached through a fixed
//! C-linkage interface; it is out of scope here and no code in this crate
//! calls it. Instead, every operation of the lifecycle and parameter
//! protocol is a verified decision: it inspects the local state, and either
//! fails deterministically or returns the exact native call — as a
//! [`protocol::NativeCall`] value — that an embedder must issue. The
//! outcome of such a call (a raw handle, a raw error code) is then handed
//! back to a verified function that performs the state transition and the
//! error mapping. This keeps the whole resource-lifecycle and
//! concurrency-safety policy inside the proved code, while the unsafe
//! foreign calls stay with the embedder.

pub mod errors;
pub mod guard;
pub mod handles;
pub mod protocol;
pub mod system;
pub mod window;
