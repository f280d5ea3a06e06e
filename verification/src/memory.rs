//! Memory-related components of the ARC CPU: the main working memory and the
//! CPU registers.

pub mod main_memory;
pub mod registers;
