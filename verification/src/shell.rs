//! The shell: sidebar, main panel, right pane, and what floats above them.

pub mod frame;
pub mod org;
pub mod overlays;
pub mod palette;
pub mod sidebar;
pub mod spaces;
pub mod tabs;
