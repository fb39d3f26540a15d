//! The terminal: emulator core and tabs.

pub mod emulator;
pub mod guard;
pub mod tabs;
pub mod panel;
pub mod session;
