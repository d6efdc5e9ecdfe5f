//! What comes in from outside: the HTTP side.

pub mod http;
