//! A high-level interface to Linux `perf_event_open`: attribute assembly, counter
//! statistics decoding, ring-buffer consumption and record parsing, all verified.
//! The system calls themselves are made by the caller.
pub mod attr;
pub mod aux_rb;
pub mod bytes;
pub mod config;
pub mod count;
pub mod dp;
pub mod error;
pub mod event;
pub mod parser;
pub mod rb;
pub mod record;
pub mod sample;
pub mod sibling;
pub mod stat;
pub mod target;
pub mod uapi;
pub mod version;
