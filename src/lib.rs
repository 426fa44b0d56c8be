//! Change-gated sampling of the focused window and of the primary screen.
pub mod application;
mod clock;
pub mod detector;
pub mod filter;
pub mod screen;
pub mod text;
pub mod window;
