//! The HTTP face of the backend: the route table and the shape of a response.

use crate::comment::{Comment, CommentView};
use crate::failure::{outcome, Failure, FailureView};
use crate::post::{Post, PostView};
use crate::user::{User, UserView};
use vstd::prelude::*;
use vstd::string::*;

verus! {

/// The content type of a JSON body.
pub const JSON: &'static str = "application/json;charset=utf-8";

/// The content type of the text that says that a post was not found.
pub const TEXT: &'static str = "application/text;charset=utf-8";

/// The content type of the text that answers a change of a like count.
pub const LIKES_TEXT: &'static str = "application/text;charset=utf-8;";

/// The method of a request.
#[derive(Clone, Copy, Debug, PartialEq, Eq, Structural)]
pub enum Method {
    Get,
    Post,
    Delete,
    Patch,
}

/// What a route leads to.
#[derive(Clone, Copy, Debug, PartialEq, Eq, Structural)]
pub enum Handler {
    NewUser,
    GetUser,
    DeleteUser,
    GetPosts,
    GetPost,
    InsertPost,
    DeletePost,
    GetComments,
    InsertComment,
    ModifyLikes,
}

/// A route: requests with this method on this path go to this handler. A part
/// of the path in braces stands for any one segment, which the handler gets.
#[derive(Debug, PartialEq, Eq)]
pub struct Route {
    pub method: Method,
    pub path: String,
    pub handler: Handler,
}

/// The mathematical value of a [`Route`].
pub struct RouteView {
    pub method: Method,
    pub path: Seq<char>,
    pub handler: Handler,
}

impl View for Route {
    type V = RouteView;

    open spec fn view(&self) -> RouteView {
        RouteView { method: self.method, path: self.path@, handler: self.handler }
    }
}

impl DeepView for Route {
    type V = RouteView;

    open spec fn deep_view(&self) -> RouteView {
        self@
    }
}

/// The path of the routes that write and remove users.
pub const USERS: &'static str = "/api/users";

/// The path of the route that looks one user up.
pub const USER: &'static str = "/api/users/{user_id}";

/// The path of the routes that list, create and delete posts.
pub const POSTS: &'static str = "/api/posts";

/// The path of the route that fetches one post.
pub const POST: &'static str = "/api/posts/{post_id}";

/// The path of the route that lists the comments on one post.
pub const COMMENTS_OF: &'static str = "/api/comments/{post_id}";

/// The path of the route that creates a comment.
pub const COMMENTS: &'static str = "/api/comments";

/// The path of the route that moves a like count.
pub const LIKES: &'static str = "/api/likes";

/// The route table.
pub open spec fn route_table() -> Seq<RouteView> {
    seq![
        RouteView { method: Method::Post, path: USERS@, handler: Handler::NewUser },
        RouteView { method: Method::Get, path: USER@, handler: Handler::GetUser },
        RouteView { method: Method::Delete, path: USERS@, handler: Handler::DeleteUser },
        RouteView { method: Method::Get, path: POSTS@, handler: Handler::GetPosts },
        RouteView { method: Method::Get, path: POST@, handler: Handler::GetPost },
        RouteView { method: Method::Post, path: POSTS@, handler: Handler::InsertPost },
        RouteView { method: Method::Delete, path: POSTS@, handler: Handler::DeletePost },
        RouteView { method: Method::Get, path: COMMENTS_OF@, handler: Handler::GetComments },
        RouteView { method: Method::Post, path: COMMENTS@, handler: Handler::InsertComment },
        RouteView { method: Method::Patch, path: LIKES@, handler: Handler::ModifyLikes },
    ]
}

/// One route of the table.
fn route(method: Method, path: &'static str, handler: Handler) -> (r: Route)
    ensures
        r@ == (RouteView { method, path: path@, handler }),
{
    Route { method, path: String::from_str(path), handler }
}

/// The route table: every route of the backend, each handler once.
pub fn routes() -> (table: Vec<Route>)
    ensures
        table.deep_view() == route_table(),
{
    let mut table: Vec<Route> = Vec::new();
    table.push(route(Method::Post, USERS, Handler::NewUser));
    table.push(route(Method::Get, USER, Handler::GetUser));
    table.push(route(Method::Delete, USERS, Handler::DeleteUser));
    table.push(route(Method::Get, POSTS, Handler::GetPosts));
    table.push(route(Method::Get, POST, Handler::GetPost));
    table.push(route(Method::Post, POSTS, Handler::InsertPost));
    table.push(route(Method::Delete, POSTS, Handler::DeletePost));
    table.push(route(Method::Get, COMMENTS_OF, Handler::GetComments));
    table.push(route(Method::Post, COMMENTS, Handler::InsertComment));
    table.push(route(Method::Patch, LIKES, Handler::ModifyLikes));
    assert(table.deep_view() =~= route_table());
    table
}

/// The status of a response.
#[derive(Clone, Copy, Debug, PartialEq, Eq, Structural)]
pub enum Status {
    Success,
    Created,
    BadRequest,
    NotFound,
    InternalServerError,
}

impl Status {
    /// The number of the status.
    pub open spec fn code_spec(self) -> u16 {
        match self {
            Status::Success => 200,
            Status::Created => 201,
            Status::BadRequest => 400,
            Status::NotFound => 404,
            Status::InternalServerError => 500,
        }
    }

    /// The number of the status.
    #[verifier::when_used_as_spec(code_spec)]
    pub fn code(self) -> (r: u16)
        ensures
            r == self.code_spec(),
    {
        match self {
            Status::Success => 200,
            Status::Created => 201,
            Status::BadRequest => 400,
            Status::NotFound => 404,
            Status::InternalServerError => 500,
        }
    }
}

/// What a response carries. Values are carried as they are; turning them into
/// JSON is left to the server around this library.
#[derive(Debug, PartialEq, Eq)]
pub enum Body {
    Empty,
    Text(String),
    User(User),
    Post(Post),
    Posts(Vec<Post>),
    Comments(Vec<Comment>),
}

/// The mathematical value of a [`Body`].
pub enum BodyView {
    Empty,
    Text(Seq<char>),
    User(UserView),
    Post(PostView),
    Posts(Seq<PostView>),
    Comments(Seq<CommentView>),
}

impl View for Body {
    type V = BodyView;

    open spec fn view(&self) -> BodyView {
        match self {
            Body::Empty => BodyView::Empty,
            Body::Text(t) => BodyView::Text(t@),
            Body::User(u) => BodyView::User(u@),
            Body::Post(p) => BodyView::Post(p@),
            Body::Posts(ps) => BodyView::Posts(ps.deep_view()),
            Body::Comments(cs) => BodyView::Comments(cs.deep_view()),
        }
    }
}

/// A response: its status, the content type it names (none: the server's
/// default for the body), and its body.
#[derive(Debug, PartialEq, Eq)]
pub struct Response {
    pub status: Status,
    pub content_type: Option<String>,
    pub body: Body,
}

/// The mathematical value of a [`Response`].
pub struct ResponseView {
    pub status: Status,
    pub content_type: Option<Seq<char>>,
    pub body: BodyView,
}

impl View for Response {
    type V = ResponseView;

    open spec fn view(&self) -> ResponseView {
        ResponseView {
            status: self.status,
            content_type: self.content_type.deep_view(),
            body: self.body@,
        }
    }
}

impl ResponseView {
    /// A response without a body.
    pub open spec fn bare(status: Status) -> ResponseView {
        ResponseView { status, content_type: None, body: BodyView::Empty }
    }

    /// A response that carries `body` as JSON.
    pub open spec fn json(status: Status, body: BodyView) -> ResponseView {
        ResponseView { status, content_type: Some(JSON@), body }
    }

    /// A response that carries the text `words`, under the content type
    /// `content_type` if one is given.
    pub open spec fn text(
        status: Status,
        content_type: Option<Seq<char>>,
        words: Seq<char>,
    ) -> ResponseView {
        ResponseView { status, content_type, body: BodyView::Text(words) }
    }
}

impl ResponseView {
    /// The response to the creation of a post or of a comment.
    pub open spec fn created<T>(created: Result<T, FailureView>) -> ResponseView {
        match created {
            Ok(_) => ResponseView::bare(Status::Created),
            Err(FailureView::UserNotFound) => ResponseView::text(
                Status::BadRequest,
                None,
                FailureView::UserNotFound.message(),
            ),
            Err(FailureView::Store(_)) => ResponseView::bare(Status::InternalServerError),
        }
    }
}

impl Response {
    /// A response without a body.
    pub fn bare(status: Status) -> (r: Response)
        ensures
            r@ == ResponseView::bare(status),
    {
        Response { status, content_type: None, body: Body::Empty }
    }

    /// A response that carries `body` as JSON.
    pub fn json(status: Status, body: Body) -> (r: Response)
        ensures
            r@ == ResponseView::json(status, body@),
    {
        Response { status, content_type: Some(String::from_str(JSON)), body }
    }

    /// A response that carries the text `words`, under the content type
    /// `content_type` if one is given.
    pub fn text(status: Status, content_type: Option<&'static str>, words: String) -> (r: Response)
        ensures
            r@ == ResponseView::text(
                status,
                match content_type {
                    Some(t) => Some(t@),
                    None => None,
                },
                words@,
            ),
    {
        let content_type = match content_type {
            Some(t) => Some(String::from_str(t)),
            None => None,
        };
        Response { status, content_type, body: Body::Text(words) }
    }
}

impl Response {
    /// The response to the creation of a post or of a comment: created when
    /// it went through, a bad request that names the reason when the author
    /// is unknown, and a server error when the store failed.
    pub fn created<T: DeepView>(created: Result<T, Failure>) -> (r: Response)
        ensures
            r@ == ResponseView::created(outcome(created)),
    {
        match created {
            Ok(_) => Response::bare(Status::Created),
            Err(Failure::UserNotFound) => Response::text(
                Status::BadRequest,
                None,
                Failure::UserNotFound.message(),
            ),
            Err(Failure::Store(_)) => Response::bare(Status::InternalServerError),
        }
    }
}

} // verus!
