//! Safe, ownership-tracked wrappers for a native browser-engine embedding API
//! and a JavaScript-engine API.
//!
//! The native side is modeled by [`native::NativeHost`]: an explicit state
//! machine that allocates opaque addresses, tracks which native objects are
//! live, and records every call that crosses the boundary. Every wrapper is
//! verified against that model, so the ownership rules (one destroy per owning
//! handle, none for borrowed views), the callback registration protocol, the
//! string bridge, and the scoped pixel locks carry machine-checked contracts.

pub mod native;
pub mod handle;
pub mod callback;
pub mod app_core;
pub mod ul;
pub mod javascript_core;
