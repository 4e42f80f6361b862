//! Decision logic shared by three small services: a user account HTTP API,
//! a URL shortener and a command-line todo list.
//!
//! Every function here is verified; the network, database, cache, terminal and
//! file handling that surround it live in the application crate.
pub mod auth;
pub mod error;
pub mod handlers;
pub mod ids;
pub mod models;
pub mod reply;
pub mod shortener;
pub mod todos;
