//! A client library for a remote task-list service.
//!
//! The library builds the requests, reads the answers, keeps the settings and
//! lays out what is shown to the user. It performs no input or output itself:
//! a program around it sends what the library describes and hands back what
//! came in.

pub mod api;
pub mod auth;
pub mod config;
pub mod dispatch;
pub mod error;
pub mod json;
pub mod output;
pub mod text;
