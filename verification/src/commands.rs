//! The operations offered to the user interface, each as a function from what
//! the caller read to what the caller is to write or show.

pub mod config;
pub mod storage;
pub mod upload;
