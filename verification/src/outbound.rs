//! The adapters behind the domain's ports.

pub mod dev_to_publisher;
pub mod email_client;
pub mod sqlite;
