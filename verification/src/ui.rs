pub mod commands;
pub mod theme;
