//! An opaque-handle instance registry for a foreign-callable boundary.
//!
//! Foreign callers cannot be handed raw addresses of managed memory, so every
//! object that crosses the boundary is owned by a registry and identified by a
//! nonzero 64-bit handle. The registry mints never-reused handles, serves
//! borrows behind them, and releases them idempotently. On top of it sits the
//! boundary surface for the bootstrap specs adapter: a constructor that
//! validates a byte buffer and registers the adapter, and a destructor that
//! releases the handle.

pub mod adapter;
pub mod boundary;
pub mod registry;
pub mod text;
