//! What the operations promise, stated over the operations themselves: `call_ensures` of a function stands
//! for any call of it, with these arguments and this result.

pub mod emulator;
pub mod gate;
pub mod ground;
pub mod palette;
pub mod picker_views;
pub mod pickers;
pub mod requests;
pub mod settings;
pub mod shell;
pub mod state;
pub mod terminal;
