pub mod create_blog;
