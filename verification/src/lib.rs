//! Local persistence and upload logic of a desktop file uploader.
//!
//! The crate holds the decisions of the application: the shape of the two JSON
//! files it keeps, how the upload history changes, where the files live, and how
//! the answer of the upload endpoint is read. Every operation is a function from
//! plain values to plain values; reading and writing files and talking to the
//! network are left to the caller.

pub mod commands;
pub mod config;
pub mod decimal;
pub mod error;
pub mod json;
pub mod storage;
