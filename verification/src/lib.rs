//! The contact inquiries of a mathematics academy: the rules a submitted form
//! is held to, the cool-down between two submissions of one client, the file
//! that stores an accepted inquiry, and the export of what is stored.
//!
//! The library decides and computes; it reads no file and no clock but the
//! one behind [`timestamp::Timestamp::now`]. A server hands it what a request
//! and the disk hold and carries out what it answers.

pub mod config;
pub mod error;
pub mod formats;
pub mod handlers;
pub mod json;
pub mod models;
pub mod pages;
pub mod rate_limit;
pub mod storage;
pub mod text;
pub mod timestamp;
