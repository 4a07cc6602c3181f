//! The Windows presence helper: what it asks of the Discord Social SDK for
//! each command from the bridge. The SDK itself is driven by the caller.
pub mod bridge;
pub mod ffi;
