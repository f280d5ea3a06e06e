//! State shared by the screens of the user interface.

pub mod common;
pub mod resources;
