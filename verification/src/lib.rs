pub mod config;
pub mod debouncer;
pub mod devices;
pub mod text;
pub mod util;
pub mod control;
pub mod audio;
pub mod framework;
pub mod tray;
pub mod ui;
pub mod laws;
