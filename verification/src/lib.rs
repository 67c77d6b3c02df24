pub mod irmin;
pub mod ui;
