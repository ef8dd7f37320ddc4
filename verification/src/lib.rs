//! A small verified core for a command-line client of a REST-style "todos"
//! service: it maps subcommands to HTTP request descriptors and turns HTTP
//! responses into the text printed for the user.

pub mod command;
pub mod json;
pub mod response;
