//! Client-side core for invoking named functions on remote modules over a
//! streaming RPC channel, with optional auto-provisioning of a local server.
//!
//! The crate is split into the payload codec boundary ([`codec`]), the
//! invocation and stream-consumption logic ([`invoke`]), the connect and
//! bootstrap decision machine ([`bootstrap`]), and the error taxonomy
//! ([`errors`]). The asynchronous transport itself lives outside this
//! library; callers drive the decision machine and hand each transport
//! outcome back as a plain event.

pub mod bootstrap;
pub mod codec;
pub mod errors;
pub mod invoke;

pub use codec::MessagePack;
pub use errors::ClientError;
pub use invoke::Invocation;
