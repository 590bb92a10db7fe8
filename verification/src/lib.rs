//! Verified core of a small collection of Unix system programs.
//!
//! The heart of the library is a command-pipeline engine: a token
//! sequence is split into command stages around a pipe delimiter, an
//! optional output redirection is extracted from the final stage, a
//! plan of pipe creations, process spawns and descriptor closes is
//! computed, and the termination of every spawned process is collected
//! and reported.  A small HTTP request model for a companion web
//! server is verified alongside it.


pub mod errors;
pub mod http;
pub mod pipes;
pub mod plan;
pub mod reaper;
pub mod render;
pub mod redirect;
pub mod stage;
pub mod wiring;
