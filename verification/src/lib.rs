pub mod autohide;
pub mod geometry;
pub mod session;
pub mod sleep;
pub mod ui_context;
