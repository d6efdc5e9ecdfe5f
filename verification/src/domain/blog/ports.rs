//! The ports of the blog domain: what the domain offers to the outside, and
//! what it asks of it.
//!
//! Every port is `Send + Sync + Clone + 'static`: an implementation is shared
//! between the threads that handle requests. A call returns when its work is
//! done; an implementation that waits for a database or a network does so
//! inside the call.

use vstd::prelude::*;
use crate::domain::blog::models::blog::{Blog, CreateBlogError, CreateBlogRequest};

verus! {

/// The blog domain as the outside sees it.
pub trait BlogService: Clone + Send + Sync + 'static {
    /// Creates the blog that `req` asks for.
    ///
    /// Fails with [`CreateBlogError::Duplicate`] if a blog of that name exists
    /// already.
    fn create_blog(&self, req: &CreateBlogRequest) -> Result<Blog, CreateBlogError>;
}

/// A store of blogs.
pub trait BlogRepository: Send + Sync + Clone + 'static {
    /// Persists a new blog, in one transaction: after an error nothing of it
    /// remains in the store.
    ///
    /// An implementation must fail with [`CreateBlogError::Duplicate`] if a
    /// blog of that name exists already.
    fn create_blog(&self, req: &CreateBlogRequest) -> Result<Blog, CreateBlogError>;
}

/// A publisher of blogs to other platforms.
pub trait BlogPublisher: Send + Sync + Clone + 'static {
    /// Publishes to `dev.to`. A failure stays with the publisher: the domain
    /// hears nothing of it.
    fn publish_to_dev_to(&self);
}

/// A sender of notifications about blogs. A failure to notify stays with the
/// notifier: the domain hears nothing of it.
pub trait BlogNotifier: Send + Sync + Clone + 'static {
    /// Tells that the blog that `req` asked for was not created, and why.
    fn blog_failed(&self, req: &CreateBlogRequest, error: &CreateBlogError);

    /// Tells that `blog` was created.
    fn blog_created(&self, blog: &Blog);
}

} // verus!
