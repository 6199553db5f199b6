//! Decision logic of a small HTTP ingestion endpoint: a JSON payload posted
//! under a name is stored in a file whose name is derived from the name, the
//! UTC date and the client's address.
//!
//! Everything here works on plain values. Sockets, the clock and the file
//! system belong to the program that links this library.

pub mod date;
pub mod filename;
pub mod handler;
pub mod json;
pub mod name;
mod text;
