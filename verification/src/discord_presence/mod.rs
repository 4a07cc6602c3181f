//! The WSL side of Discord Rich Presence: the line protocol spoken with
//! the Windows presence helper and the bridge that decides what to send it.
pub mod client;
pub mod protocol;
