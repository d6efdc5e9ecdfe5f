//! The handler that creates a blog, and the bodies that it reads and writes.

use vstd::prelude::*;
use vstd::std_specs::convert::FromSpecImpl;
use vstd::string::StringExecFns;
use crate::domain::blog::models::blog::{
    answer_view,
    Blog,
    BlogView,
    CreateBlogError,
    CreateBlogErrorView,
    CreateBlogRequest,
    CreateBlogRequestView,
};
use crate::domain::blog::ports::BlogService;
use crate::inbound::http::responses::{ApiError, ApiErrorView, ApiSuccess, StatusCode};

verus! {

/// The one thing that a client learns of a failure inside the service.
pub open spec fn internal_error_message() -> Seq<char> {
    "Internal server error"@
}

/// What a client is told when the body names no blog.
pub open spec fn empty_name_message() -> Seq<char> {
    "blog name cannot be empty"@
}

/// The error that answers a failed creation: a duplicate is the client's to
/// mend, and the client is told the error's own sentence; anything else is
/// the service's own, and the client is told no more than that.
pub open spec fn creation_error(error: CreateBlogErrorView) -> ApiErrorView {
    match error {
        CreateBlogErrorView::Duplicate { .. } => ApiErrorView::UnprocessableEntity(
            error.message(),
        ),
        CreateBlogErrorView::Unknown { .. } => ApiErrorView::InternalServerError(
            internal_error_message(),
        ),
    }
}

impl FromSpecImpl<CreateBlogError> for ApiError {
    /// No spec function can make the `String` that the error holds, so the
    /// conversion is stated over views, by the clause on `from`.
    open spec fn obeys_from_spec() -> bool {
        false
    }

    open spec fn from_spec(e: CreateBlogError) -> ApiError {
        arbitrary()
    }
}

impl From<CreateBlogError> for ApiError {
    fn from(e: CreateBlogError) -> (error: Self)
        ensures
            error@ == creation_error(e@),
    {
        match &e {
            CreateBlogError::Duplicate { .. } => ApiError::UnprocessableEntity(e.message()),
            CreateBlogError::Unknown { .. } => ApiError::InternalServerError(
                String::from_str("Internal server error"),
            ),
        }
    }
}

/// Why a request body does not make a domain request.
#[derive(Debug, Clone, Copy, PartialEq, Eq, Structural)]
pub enum ParseCreateBlogHttpRequestError {
    /// The name is empty.
    EmptyName,
}

impl FromSpecImpl<ParseCreateBlogHttpRequestError> for ApiError {
    /// As for [`CreateBlogError`]: the conversion is stated by the clause on
    /// `from`.
    open spec fn obeys_from_spec() -> bool {
        false
    }

    open spec fn from_spec(e: ParseCreateBlogHttpRequestError) -> ApiError {
        arbitrary()
    }
}

impl From<ParseCreateBlogHttpRequestError> for ApiError {
    fn from(e: ParseCreateBlogHttpRequestError) -> (error: Self)
        ensures
            error@ == ApiErrorView::UnprocessableEntity(empty_name_message()),
    {
        match e {
            ParseCreateBlogHttpRequestError::EmptyName => ApiError::UnprocessableEntity(
                String::from_str("blog name cannot be empty"),
            ),
        }
    }
}

/// The body of a request that names a blog and nothing else.
#[derive(Debug, Clone, PartialEq, Eq)]
pub struct CreateBlogRequestBody {
    pub name: String,
}

/// The data of the answer to a successful creation.
#[derive(Debug, Clone, PartialEq, Eq)]
pub struct CreateBlogResponseData {
    pub id: String,
}

impl<'a> FromSpecImpl<&'a Blog> for CreateBlogResponseData {
    /// No spec function can make the `String` that the data hold, so the
    /// conversion is stated over views, by the clause on `from`.
    open spec fn obeys_from_spec() -> bool {
        false
    }

    open spec fn from_spec(blog: &'a Blog) -> CreateBlogResponseData {
        arbitrary()
    }
}

impl<'a> From<&'a Blog> for CreateBlogResponseData {
    fn from(blog: &'a Blog) -> (data: Self)
        ensures
            data.id@ == blog@.id,
    {
        CreateBlogResponseData { id: blog.id().clone() }
    }
}

/// The body of a request to create a blog.
#[derive(Debug, Clone, PartialEq, Eq)]
pub struct CreateBlogHttpRequestBody {
    pub name: String,
    pub email_address: String,
}

impl CreateBlogHttpRequestBody {
    /// Converts the body into a domain request: the name and the address go
    /// over as they are. A body with an empty name makes none.
    pub fn try_into_domain(
        self,
    ) -> (request: Result<CreateBlogRequest, ParseCreateBlogHttpRequestError>)
        ensures
            request is Err <==> self.name@.len() == 0,
            request matches Ok(r) ==> r@ == (CreateBlogRequestView {
                name: self.name@,
                email_address: self.email_address@,
            }),
    {
        match CreateBlogRequest::new(self.name, self.email_address) {
            Some(request) => Ok(request),
            None => Err(ParseCreateBlogHttpRequestError::EmptyName),
        }
    }
}

/// A response as plain data: the status and the identifier of a success, or
/// the error.
pub open spec fn response_view(
    response: Result<ApiSuccess<CreateBlogResponseData>, ApiError>,
) -> Result<(StatusCode, Seq<char>), ApiErrorView> {
    match response {
        Ok(success) => Ok((success.status, success.data.id@)),
        Err(error) => Err(error@),
    }
}

/// The response to what the service answered: `Created` with the blog's
/// identifier, or the error that [`creation_error`] picks.
pub open spec fn response_to(answer: Result<BlogView, CreateBlogErrorView>) -> Result<
    (StatusCode, Seq<char>),
    ApiErrorView,
> {
    match answer {
        Ok(blog) => Ok((StatusCode::Created, blog.id)),
        Err(error) => Err(creation_error(error)),
    }
}

/// Turns the service's answer into the response.
pub fn respond(
    answer: Result<Blog, CreateBlogError>,
) -> (response: Result<ApiSuccess<CreateBlogResponseData>, ApiError>)
    ensures
        response_view(response) == response_to(answer_view(answer)),
{
    match answer {
        Ok(blog) => Ok(ApiSuccess::new(StatusCode::Created, CreateBlogResponseData::from(&blog))),
        Err(error) => Err(ApiError::from(error)),
    }
}

/// Creates a blog.
///
/// A body without a name is answered with `UnprocessableEntity`, and the
/// service is not asked. Any other body goes to the service as the domain
/// request of its name and address, and the response is the one that
/// [`response_to`] gives for what the service answered to that request:
/// `Created` with the new blog's identifier, `UnprocessableEntity` for a name
/// that is taken, `InternalServerError` for anything else.
pub fn create_blog<BS: BlogService>(
    service: &BS,
    body: CreateBlogHttpRequestBody,
) -> (response: Result<ApiSuccess<CreateBlogResponseData>, ApiError>)
    ensures
        body.name@.len() == 0 ==> response_view(response) == Err::<(StatusCode, Seq<char>), _>(
            ApiErrorView::UnprocessableEntity(empty_name_message()),
        ),
        body.name@.len() > 0 ==> exists|
            req: CreateBlogRequest,
            answer: Result<Blog, CreateBlogError>,
        |
            {
                &&& req@ == (CreateBlogRequestView {
                    name: body.name@,
                    email_address: body.email_address@,
                })
                &&& #[trigger] call_ensures(BS::create_blog, (service, &req), answer)
                &&& response_view(response) == response_to(answer_view(answer))
            },
{
    match body.try_into_domain() {
        Err(error) => Err(ApiError::from(error)),
        Ok(domain_req) => {
            let answer = service.create_blog(&domain_req);
            respond(answer)
        },
    }
}

/// A response is a success exactly if the service's answer is one, and a
/// failure inside the service is never described to the client: whatever the
/// context and the cause of the error are, the message is the fixed one.
pub proof fn internal_detail_is_not_shown(answer: Result<BlogView, CreateBlogErrorView>)
    ensures
        response_to(answer) is Ok <==> answer is Ok,
        response_to(answer) matches Err(error) ==> (error.status()
            == StatusCode::InternalServerError <==> answer matches Err(
            CreateBlogErrorView::Unknown { .. },
        )),
        response_to(answer) matches Err(error) ==> (error.status()
            == StatusCode::InternalServerError ==> error.message() == internal_error_message()),
{
}

} // verus!
