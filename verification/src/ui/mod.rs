//! The control surface: what the HTTP handlers answer.

pub mod handlers;
