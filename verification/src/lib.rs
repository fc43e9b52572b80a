//! Bridge between a desktop front end and a locally installed text-recognition
//! program: it decides which commands to run, in which order, and recovers the
//! prediction from what the program printed.

pub mod bridge;
pub mod command;
pub mod error;
pub mod extract;
pub mod text;
pub mod trace;
