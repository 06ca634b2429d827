//! The decisions of the program's commands.

pub mod get_page;
pub mod get_store_page;
