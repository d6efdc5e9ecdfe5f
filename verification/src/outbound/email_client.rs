//! The adapter that notifies by e-mail.

use vstd::prelude::*;
use crate::domain::blog::models::blog::{Blog, CreateBlogError, CreateBlogRequest};
use crate::domain::blog::ports::BlogNotifier;

verus! {

/// A notifier that does not send anything yet.
#[derive(Debug, Clone)]
pub struct EmailClient;

impl EmailClient {
    pub fn new() -> (client: Self)
        ensures
            client == EmailClient,
    {
        EmailClient
    }
}

impl BlogNotifier for EmailClient {
    fn blog_failed(&self, req: &CreateBlogRequest, error: &CreateBlogError) {
    }

    fn blog_created(&self, blog: &Blog) {
    }
}

} // verus!
