//! Display decisions of the terminal's panels: status kinds, icons and labels.
pub mod overview;
pub mod sidebar;
pub mod theme;
