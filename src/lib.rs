//! Input decoding and event queueing for a console window backend.
pub mod backlog;
pub mod controller;
