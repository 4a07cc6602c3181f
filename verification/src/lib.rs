pub mod discord_presence;
pub mod discord_presence_windows;
pub mod hostpath;
pub mod pets;
pub mod pets_windows;
pub mod text;
pub mod tui;
pub mod winpath;
