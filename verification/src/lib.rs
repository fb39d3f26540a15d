pub mod gate;
pub mod json;
pub mod laws;
pub mod lists;
pub mod model;
pub mod options;
pub mod order;
pub mod pickers;
pub mod popover;
pub mod project;
pub mod rail;
pub mod requests;
pub mod settings;
pub mod shell;
pub mod sorting;
pub mod state;
pub mod terminal;
pub mod text;
pub mod time;
