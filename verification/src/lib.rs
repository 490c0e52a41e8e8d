//! Verified core of the EPICS archiver viewer.

pub mod text;
pub mod calendar;
pub mod constants;
pub mod types;
pub mod decode;
pub mod decode_helpers;
pub mod client;
pub mod commands;
pub mod error;
pub mod export;
pub mod archiver;
