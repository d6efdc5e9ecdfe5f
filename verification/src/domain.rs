//! The blog domain: its models, its ports and its service.

pub mod blog;
