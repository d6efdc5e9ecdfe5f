//! The blog entity, the request that creates one, and the ways creation fails.

use vstd::prelude::*;
use vstd::string::StringExecFns;

verus! {

/// A [`Blog`] as plain data: its identifier, its name and its author's address.
pub struct BlogView {
    pub id: Seq<char>,
    pub name: Seq<char>,
    pub email_address: Seq<char>,
}

/// A persisted blog.
///
/// The identifier is generated where the blog is stored; the name is the one
/// that the store keeps unique; the address is what the blog keeps of its
/// creation: that of the author who asked for it.
#[derive(Debug, Clone, PartialEq, Eq)]
pub struct Blog {
    id: String,
    name: String,
    email_address: String,
}

impl View for Blog {
    type V = BlogView;

    closed spec fn view(&self) -> BlogView {
        BlogView { id: self.id@, name: self.name@, email_address: self.email_address@ }
    }
}

impl Blog {
    pub fn new(id: String, name: String, email_address: String) -> (blog: Self)
        ensures
            blog@ == (BlogView { id: id@, name: name@, email_address: email_address@ }),
    {
        Blog { id, name, email_address }
    }

    pub fn id(&self) -> (id: &String)
        ensures
            id@ == self@.id,
    {
        &self.id
    }

    pub fn name(&self) -> (name: &String)
        ensures
            name@ == self@.name,
    {
        &self.name
    }

    pub fn email_address(&self) -> (email_address: &String)
        ensures
            email_address@ == self@.email_address,
    {
        &self.email_address
    }
}

/// A [`CreateBlogRequest`] as plain data.
pub struct CreateBlogRequestView {
    pub name: Seq<char>,
    pub email_address: Seq<char>,
}

/// The command to create a blog: the name it is to have, and the address of
/// the author who asks for it.
///
/// A request always carries a name: [`CreateBlogRequest::new`] makes none
/// without one.
#[derive(Debug, PartialEq, Eq)]
pub struct CreateBlogRequest {
    name: String,
    email_address: String,
}

impl View for CreateBlogRequest {
    type V = CreateBlogRequestView;

    closed spec fn view(&self) -> CreateBlogRequestView {
        CreateBlogRequestView { name: self.name@, email_address: self.email_address@ }
    }
}

impl Clone for CreateBlogRequest {
    fn clone(&self) -> (copy: Self)
        ensures
            copy == *self,
    {
        proof {
            use_type_invariant(self);
        }
        CreateBlogRequest { name: self.name.clone(), email_address: self.email_address.clone() }
    }
}

impl CreateBlogRequest {
    #[verifier::type_invariant]
    spec fn named(self) -> bool {
        self.name@.len() > 0
    }

    /// Makes the request, unless `name` is empty.
    pub fn new(name: String, email_address: String) -> (request: Option<Self>)
        ensures
            request is None <==> name@.len() == 0,
            request matches Some(r) ==> r@ == (CreateBlogRequestView {
                name: name@,
                email_address: email_address@,
            }),
    {
        if name.as_str().is_empty() {
            None
        } else {
            Some(CreateBlogRequest { name, email_address })
        }
    }

    pub fn name(&self) -> (name: &String)
        ensures
            name@ == self@.name,
            name@.len() > 0,
    {
        proof {
            use_type_invariant(self);
        }
        &self.name
    }

    pub fn email_address(&self) -> (email_address: &String)
        ensures
            email_address@ == self@.email_address,
    {
        &self.email_address
    }
}

/// A [`CreateBlogError`] as plain data.
pub enum CreateBlogErrorView {
    Duplicate { name: Seq<char> },
    Unknown { context: Seq<char>, cause: Seq<char> },
}

/// Why a blog was not created.
#[derive(Debug, Clone, PartialEq, Eq)]
pub enum CreateBlogError {
    /// A blog of this name exists already.
    Duplicate { name: String },
    /// Anything else. `context` says which operation failed and on what;
    /// `cause` is the underlying failure in its own words, kept for the log
    /// and never shown to a client.
    Unknown { context: String, cause: String },
}

impl View for CreateBlogError {
    type V = CreateBlogErrorView;

    open spec fn view(&self) -> CreateBlogErrorView {
        match *self {
            CreateBlogError::Duplicate { name } => CreateBlogErrorView::Duplicate { name: name@ },
            CreateBlogError::Unknown { context, cause } => CreateBlogErrorView::Unknown {
                context: context@,
                cause: cause@,
            },
        }
    }
}

/// The sentence that reports a second blog of the name `name`.
pub open spec fn duplicate_message(name: Seq<char>) -> Seq<char> {
    "blog with name "@ + name + " already exists"@
}

impl CreateBlogErrorView {
    /// The error in one sentence: for a duplicate the sentence that names the
    /// blog, for anything else the context.
    pub open spec fn message(self) -> Seq<char> {
        match self {
            CreateBlogErrorView::Duplicate { name } => duplicate_message(name),
            CreateBlogErrorView::Unknown { context, cause } => context,
        }
    }
}

impl CreateBlogError {
    /// The error in one sentence.
    pub fn message(&self) -> (message: String)
        ensures
            message@ == self@.message(),
    {
        match self {
            CreateBlogError::Duplicate { name } => {
                String::from_str("blog with name ").concat(name.as_str()).concat(" already exists")
            },
            CreateBlogError::Unknown { context, cause } => context.clone(),
        }
    }
}

/// The answer to a request, as plain data.
pub open spec fn answer_view(answer: Result<Blog, CreateBlogError>) -> Result<
    BlogView,
    CreateBlogErrorView,
> {
    match answer {
        Ok(blog) => Ok(blog@),
        Err(error) => Err(error@),
    }
}

} // verus!
