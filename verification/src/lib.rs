//! A verified core for an outbound key-value command host.
//!
//! A sandboxed caller issues commands to a remote key-value/pub-sub store
//! through opaque connection handles.  This crate owns the hard parts of that
//! host: the connection-handle table ([`table`]), the explicit-connection
//! command facade and its generic command path ([`host`]), the recursive
//! decoding of nested server replies into a flat, typed result list
//! ([`reply`]), and the legacy implicit-connection surface that collapses all
//! failures into a single error ([`legacy`]).  Wire-level work is delegated to
//! the `redis` client library behind a small set of trusted declarations.
//!
//! [`plugins`] holds the pure decision logic of the CLI plugin commands; the
//! surrounding I/O lives outside the verified library.

pub mod client;
pub mod error;
pub mod host;
pub mod legacy;
pub mod plugins;
pub mod redis_io;
pub mod reply;
pub mod table;
