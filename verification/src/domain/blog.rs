pub mod models;
pub mod ports;
pub mod service;
