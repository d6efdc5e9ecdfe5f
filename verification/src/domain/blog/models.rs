pub mod blog;
