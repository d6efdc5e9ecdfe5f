//! The blog service: the one implementation of [`BlogService`], and the rule
//! by which it picks its hooks.

use vstd::prelude::*;
use crate::domain::blog::models::blog::{Blog, CreateBlogError, CreateBlogRequest};
use crate::domain::blog::ports::{BlogNotifier, BlogPublisher, BlogRepository, BlogService};

verus! {

/// A call that the service makes once the repository has answered.
#[derive(Debug, Clone, Copy, PartialEq, Eq, Structural)]
pub enum Hook {
    /// [`BlogPublisher::publish_to_dev_to`].
    PublishToDevTo,
    /// [`BlogNotifier::blog_created`], with the blog that was created.
    BlogCreated,
    /// [`BlogNotifier::blog_failed`], with the request and the error.
    BlogFailed,
}

/// The hooks that follow the repository's answer, in the order in which they
/// run: after a creation the publisher and then the notifier; after a failure
/// the notifier alone.
pub open spec fn hooks_after(created: bool) -> Seq<Hook> {
    if created {
        seq![Hook::PublishToDevTo, Hook::BlogCreated]
    } else {
        seq![Hook::BlogFailed]
    }
}

/// The hooks to run for `answer`, first to last.
pub fn hooks_for(answer: &Result<Blog, CreateBlogError>) -> (hooks: Vec<Hook>)
    ensures
        hooks@ == hooks_after(answer is Ok),
{
    let mut hooks: Vec<Hook> = Vec::new();
    match answer {
        Ok(_) => {
            hooks.push(Hook::PublishToDevTo);
            hooks.push(Hook::BlogCreated);
        },
        Err(_) => {
            hooks.push(Hook::BlogFailed);
        },
    }
    hooks
}

/// The blog service over a repository, a publisher and a notifier.
#[derive(Debug, Clone)]
pub struct Service<R, P, N> where R: BlogRepository, P: BlogPublisher, N: BlogNotifier {
    repo: R,
    publisher: P,
    blog_notifier: N,
}

impl<R, P, N> Service<R, P, N> where R: BlogRepository, P: BlogPublisher, N: BlogNotifier {
    /// The repository that the service writes to.
    pub closed spec fn repository(&self) -> R {
        self.repo
    }

    /// The publisher that the service calls after a creation.
    pub closed spec fn publisher(&self) -> P {
        self.publisher
    }

    /// The notifier that the service calls after every answer.
    pub closed spec fn notifier(&self) -> N {
        self.blog_notifier
    }

    pub fn new(repo: R, metrics: P, blog_notifier: N) -> (service: Self)
        ensures
            service.repository() == repo,
            service.publisher() == metrics,
            service.notifier() == blog_notifier,
    {
        Service { repo, publisher: metrics, blog_notifier }
    }

    /// That `hook` has run to its end, on what `answer` holds for it: the
    /// postcondition of the port's method holds of that call.
    pub open spec fn ran(
        &self,
        hook: Hook,
        req: &CreateBlogRequest,
        answer: Result<Blog, CreateBlogError>,
    ) -> bool {
        match hook {
            Hook::PublishToDevTo => call_ensures(P::publish_to_dev_to, (&self.publisher(),), ()),
            Hook::BlogCreated => answer matches Ok(blog) && call_ensures(
                N::blog_created,
                (&self.notifier(), &blog),
                (),
            ),
            Hook::BlogFailed => answer matches Err(error) && call_ensures(
                N::blog_failed,
                (&self.notifier(), req, &error),
                (),
            ),
        }
    }

    /// That every hook that follows `answer` has run.
    pub open spec fn followed_up(
        &self,
        req: &CreateBlogRequest,
        answer: Result<Blog, CreateBlogError>,
    ) -> bool {
        forall|i: int|
            0 <= i < hooks_after(answer is Ok).len() ==> self.ran(
                #[trigger] hooks_after(answer is Ok)[i],
                req,
                answer,
            )
    }

    /// Runs the hooks that follow `answer`, which the repository gave to
    /// `req`, first to last, and hands the answer back as it came.
    ///
    /// Each hook gets what the answer holds for it: none is run on a value
    /// that the answer does not have.
    pub fn follow_up(
        &self,
        req: &CreateBlogRequest,
        answer: Result<Blog, CreateBlogError>,
    ) -> (returned: Result<Blog, CreateBlogError>)
        ensures
            returned == answer,
            self.followed_up(req, answer),
    {
        let hooks = hooks_for(&answer);
        let mut next: usize = 0;
        while next < hooks.len()
            invariant
                hooks@ == hooks_after(answer is Ok),
                next <= hooks.len(),
                forall|i: int| 0 <= i < next ==> self.ran(#[trigger] hooks@[i], req, answer),
            decreases hooks.len() - next,
        {
            match (hooks[next], &answer) {
                (Hook::PublishToDevTo, _) => self.publisher.publish_to_dev_to(),
                (Hook::BlogCreated, Ok(blog)) => self.blog_notifier.blog_created(blog),
                (Hook::BlogFailed, Err(error)) => self.blog_notifier.blog_failed(req, error),
                _ => {
                    assert(false);
                },
            }
            next = next + 1;
        }
        answer
    }
}

impl<R, P, N> BlogService for Service<R, P, N> where
    R: BlogRepository,
    P: BlogPublisher,
    N: BlogNotifier,
{
    /// Asks the repository for the blog, runs the hooks that follow its
    /// answer, and returns that answer.
    fn create_blog(&self, req: &CreateBlogRequest) -> (answer: Result<Blog, CreateBlogError>)
        ensures
            call_ensures(R::create_blog, (&self.repository(), req), answer),
            self.followed_up(req, answer),
    {
        let answer = self.repo.create_blog(req);
        self.follow_up(req, answer)
    }
}

} // verus!
