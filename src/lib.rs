pub mod config;
pub mod event;
pub mod frame;
pub mod lifecycle;
pub mod runs;
pub mod status;
