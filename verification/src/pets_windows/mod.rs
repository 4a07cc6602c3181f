//! The Windows pet overlay: what it draws into its window and how it
//! answers the bridge's commands. Window creation, messages and painting to
//! the screen are done by the caller.
pub mod animation;
pub mod canvas;
pub mod card;
pub mod draw;
pub mod glyph;
pub mod overlay;
pub mod sprite;
pub mod window;
pub mod wrap;
