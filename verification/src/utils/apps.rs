//! The screens of the application: their state and the logic behind it.

pub mod editor;
pub mod emulator;
pub mod file_explorer;
pub mod help_guide;
pub mod io_devices;
pub mod settings;
pub mod start_menu;
