//! The WSL side of the desktop pet overlay: the line protocol spoken with
//! the Windows helper and the bridge that decides what to send it.
pub mod client;
pub mod protocol;
