//! A small FTP server core: per-session command handling, request parsing,
//! reply framing, directory-listing lines and the job queue of the worker pool.
pub mod cli;
pub mod client;
pub mod commands;
pub mod config;
pub mod job_queue;
pub mod listing;
pub mod options;
pub mod protocol;
pub mod session;
pub mod text;
pub mod thread_pool;
