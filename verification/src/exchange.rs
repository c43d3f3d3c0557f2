//! Serving a request against a store that lives elsewhere. The handler of a
//! request is cut at every point where it needs the store: it says which
//! statement it wants carried out (`Step::Ask`), keeps what it knows so far
//! (`Pending`), and goes on from the store's answer (`resume`) until it has
//! the response (`Step::Reply`). Whoever drives it carries the statements out.

use crate::comment::{Comment, CommentRequest, CommentRequestView, CommentRow, CommentRowView, CommentView};
use crate::failure::{outcome, Failure, FailureView};
use crate::http::{Response, ResponseView, Status};
use crate::likes::LikeRequest;
use crate::post::{
    DeletePostRequest, DeletePostRequestView, Post, PostRequest, PostRequestView, PostRow, PostRowView,
    PostView,
};
use crate::statement::{Answer, AnswerView, Statement, StatementView};
use crate::store::{Database, DatabaseView};
use crate::text::{parse_u64, parse_u64_spec};
use crate::user::{User, UserView};
use vstd::prelude::*;
use vstd::string::*;

verus! {

/// What is said when the store answers with rows where a count was due, or
/// the other way round, or with rows of another table.
pub const UNEXPECTED_ANSWER: &'static str = "unexpected answer from the store";

/// What a client asks for: one variant for each route.
#[derive(Debug, PartialEq, Eq)]
pub enum Request {
    /// `POST /api/users`
    NewUser(User),
    /// `GET /api/users/{user_id}`
    GetUser(String),
    /// `DELETE /api/users`
    DeleteUser(User),
    /// `GET /api/posts`
    GetPosts,
    /// `GET /api/posts/{post_id}`
    GetPost(String),
    /// `POST /api/posts`
    InsertPost(PostRequest),
    /// `DELETE /api/posts`
    DeletePost(DeletePostRequest),
    /// `GET /api/comments/{post_id}`
    GetComments(u32),
    /// `POST /api/comments`
    InsertComment(CommentRequest),
    /// `PATCH /api/likes`
    ModifyLikes(LikeRequest),
}

/// The mathematical value of a [`Request`].
pub enum RequestView {
    NewUser(UserView),
    GetUser(Seq<char>),
    DeleteUser(UserView),
    GetPosts,
    GetPost(Seq<char>),
    InsertPost(PostRequestView),
    DeletePost(DeletePostRequestView),
    GetComments(u32),
    InsertComment(CommentRequestView),
    ModifyLikes(LikeRequest),
}

impl View for Request {
    type V = RequestView;

    open spec fn view(&self) -> RequestView {
        match self {
            Request::NewUser(user) => RequestView::NewUser(user@),
            Request::GetUser(user_id) => RequestView::GetUser(user_id@),
            Request::DeleteUser(user) => RequestView::DeleteUser(user@),
            Request::GetPosts => RequestView::GetPosts,
            Request::GetPost(post_id) => RequestView::GetPost(post_id@),
            Request::InsertPost(request) => RequestView::InsertPost(request@),
            Request::DeletePost(request) => RequestView::DeletePost(request@),
            Request::GetComments(post_id) => RequestView::GetComments(*post_id),
            Request::InsertComment(request) => RequestView::InsertComment(request@),
            Request::ModifyLikes(info) => RequestView::ModifyLikes(*info),
        }
    }
}

/// What a handler keeps while it waits for the store's answer.
#[derive(Debug, PartialEq, Eq)]
#[allow(inconsistent_fields)]
pub enum Pending {
    /// A user is being written.
    UserWritten,
    /// A user is being looked up for the client.
    UserFound,
    /// A user is being removed.
    UserDeleted,
    /// The rows of the listing of posts are being read.
    PostRows,
    /// The author of `rows[shown.len()]` is being looked up; the rows before
    /// it stand in `shown` with their authors' names.
    PostAuthors { rows: Vec<PostRow>, shown: Vec<Post> },
    /// The row of one post is being read.
    PostRow,
    /// The author of the one post `row` is being looked up.
    PostAuthor { row: PostRow },
    /// The author of a post that is to be created is being looked up.
    NewPostAuthor { request: PostRequest },
    /// A post is being stored.
    PostStored,
    /// A post is being deleted.
    PostDeleted,
    /// The comments on a post are being read.
    CommentRows,
    /// The author of `rows[shown.len()]` is being looked up; the rows before
    /// it stand in `shown` with their authors' names.
    CommentAuthors { rows: Vec<CommentRow>, shown: Vec<Comment> },
    /// The author of a comment that is to be created is being looked up.
    NewCommentAuthor { request: CommentRequest },
    /// A comment is being stored.
    CommentStored,
    /// A like count is being moved.
    LikesModified,
}

/// The mathematical value of a [`Pending`].
#[allow(inconsistent_fields)]
pub enum PendingView {
    UserWritten,
    UserFound,
    UserDeleted,
    PostRows,
    PostAuthors { rows: Seq<PostRowView>, shown: Seq<PostView> },
    PostRow,
    PostAuthor { row: PostRowView },
    NewPostAuthor { request: PostRequestView },
    PostStored,
    PostDeleted,
    CommentRows,
    CommentAuthors { rows: Seq<CommentRowView>, shown: Seq<CommentView> },
    NewCommentAuthor { request: CommentRequestView },
    CommentStored,
    LikesModified,
}

impl View for Pending {
    type V = PendingView;

    open spec fn view(&self) -> PendingView {
        match self {
            Pending::UserWritten => PendingView::UserWritten,
            Pending::UserFound => PendingView::UserFound,
            Pending::UserDeleted => PendingView::UserDeleted,
            Pending::PostRows => PendingView::PostRows,
            Pending::PostAuthors { rows, shown } => PendingView::PostAuthors {
                rows: rows.deep_view(),
                shown: shown.deep_view(),
            },
            Pending::PostRow => PendingView::PostRow,
            Pending::PostAuthor { row } => PendingView::PostAuthor { row: row@ },
            Pending::NewPostAuthor { request } => PendingView::NewPostAuthor { request: request@ },
            Pending::PostStored => PendingView::PostStored,
            Pending::PostDeleted => PendingView::PostDeleted,
            Pending::CommentRows => PendingView::CommentRows,
            Pending::CommentAuthors { rows, shown } => PendingView::CommentAuthors {
                rows: rows.deep_view(),
                shown: shown.deep_view(),
            },
            Pending::NewCommentAuthor { request } => PendingView::NewCommentAuthor {
                request: request@,
            },
            Pending::CommentStored => PendingView::CommentStored,
            Pending::LikesModified => PendingView::LikesModified,
        }
    }
}

/// Where a handler stands: it wants a statement carried out and will go on
/// from the answer, or it has the response.
#[derive(Debug, PartialEq, Eq)]
pub enum Step {
    Ask(Statement, Pending),
    Reply(Response),
}

/// The mathematical value of a [`Step`].
pub enum StepView {
    Ask(StatementView, PendingView),
    Reply(ResponseView),
}

impl View for Step {
    type V = StepView;

    open spec fn view(&self) -> StepView {
        match self {
            Step::Ask(statement, pending) => StepView::Ask(statement@, pending@),
            Step::Reply(response) => StepView::Reply(response@),
        }
    }
}

/// The rows of the user directory in `answer`; a failure when the store
/// failed or answered with something else.
pub open spec fn users_in(answer: AnswerView) -> Result<Seq<UserView>, FailureView> {
    match answer {
        AnswerView::Users(rows) => Ok(rows),
        AnswerView::Failed(why) => Err(FailureView::Store(why)),
        _ => Err(FailureView::Store(UNEXPECTED_ANSWER@)),
    }
}

/// The rows of the post table in `answer`; a failure when the store failed
/// or answered with something else.
pub open spec fn posts_in(answer: AnswerView) -> Result<Seq<PostRowView>, FailureView> {
    match answer {
        AnswerView::Posts(rows) => Ok(rows),
        AnswerView::Failed(why) => Err(FailureView::Store(why)),
        _ => Err(FailureView::Store(UNEXPECTED_ANSWER@)),
    }
}

/// The rows of the comment table in `answer`; a failure when the store
/// failed or answered with something else.
pub open spec fn comments_in(answer: AnswerView) -> Result<Seq<CommentRowView>, FailureView> {
    match answer {
        AnswerView::Comments(rows) => Ok(rows),
        AnswerView::Failed(why) => Err(FailureView::Store(why)),
        _ => Err(FailureView::Store(UNEXPECTED_ANSWER@)),
    }
}

/// The identifier in `answer` that the store gave to a new row; a failure
/// when the store failed or answered with something else.
pub open spec fn written_in(answer: AnswerView) -> Result<u64, FailureView> {
    match answer {
        AnswerView::Done(id) => Ok(id),
        AnswerView::Failed(why) => Err(FailureView::Store(why)),
        _ => Err(FailureView::Store(UNEXPECTED_ANSWER@)),
    }
}

/// Whether `answer` says that a write went through; a failure when the store
/// failed or answered with something else.
pub open spec fn done_in(answer: AnswerView) -> Result<(), FailureView> {
    match written_in(answer) {
        Ok(_) => Ok(()),
        Err(why) => Err(why),
    }
}

/// The user that a lookup found: the first row of the answer, if it has one.
pub open spec fn user_in(answer: AnswerView) -> Result<Option<UserView>, FailureView> {
    match users_in(answer) {
        Ok(rows) => Ok(
            if rows.len() > 0 {
                Some(rows[0])
            } else {
                None
            },
        ),
        Err(why) => Err(why),
    }
}

/// The display name of the author that a lookup found; a failure when it
/// found none.
pub open spec fn author_in(answer: AnswerView) -> Result<Seq<char>, FailureView> {
    match user_in(answer) {
        Ok(Some(user)) => Ok(user.user_name),
        Ok(None) => Err(FailureView::UserNotFound),
        Err(why) => Err(why),
    }
}

/// How the listing of posts goes on when the rows before `rows[shown.len()]`
/// stand in `shown`: with a lookup of the next author, or, when no row is
/// left, with the response.
pub open spec fn name_posts(rows: Seq<PostRowView>, shown: Seq<PostView>) -> StepView {
    if shown.len() < rows.len() {
        StepView::Ask(
            StatementView::SelectUser { user_id: rows[shown.len() as int].user_id },
            PendingView::PostAuthors { rows, shown },
        )
    } else {
        StepView::Reply(ResponseView::posts_listed(Ok(shown)))
    }
}

/// How the listing of comments goes on when the rows before
/// `rows[shown.len()]` stand in `shown`: with a lookup of the next author,
/// or, when no row is left, with the response.
pub open spec fn name_comments(rows: Seq<CommentRowView>, shown: Seq<CommentView>) -> StepView {
    if shown.len() < rows.len() {
        StepView::Ask(
            StatementView::SelectUser { user_id: rows[shown.len() as int].user_id },
            PendingView::CommentAuthors { rows, shown },
        )
    } else {
        StepView::Reply(ResponseView::comments_listed(Ok(shown)))
    }
}

impl RequestView {
    /// How serving the request begins.
    pub open spec fn begin(self) -> StepView {
        match self {
            RequestView::NewUser(user) => StepView::Ask(
                StatementView::ReplaceUser { user_id: user.user_id, user_name: user.user_name },
                PendingView::UserWritten,
            ),
            RequestView::GetUser(user_id) => StepView::Ask(
                StatementView::SelectUser { user_id },
                PendingView::UserFound,
            ),
            RequestView::DeleteUser(user) => StepView::Ask(
                StatementView::DeleteUser { user_id: user.user_id },
                PendingView::UserDeleted,
            ),
            RequestView::GetPosts => StepView::Ask(StatementView::SelectPosts, PendingView::PostRows),
            RequestView::GetPost(post_id) => match parse_u64_spec(post_id) {
                Some(post_id) => StepView::Ask(
                    StatementView::SelectPost { post_id },
                    PendingView::PostRow,
                ),
                None => StepView::Reply(ResponseView::post_found(Ok(None))),
            },
            RequestView::InsertPost(request) => StepView::Ask(
                StatementView::SelectUser { user_id: request.user_id },
                PendingView::NewPostAuthor { request },
            ),
            RequestView::DeletePost(request) => match parse_u64_spec(request.post_id) {
                Some(post_id) => StepView::Ask(
                    StatementView::DeletePost { user_id: request.user_id, post_id },
                    PendingView::PostDeleted,
                ),
                None => StepView::Reply(ResponseView::post_deleted(Ok(()))),
            },
            RequestView::GetComments(post_id) => StepView::Ask(
                StatementView::SelectComments { post_id },
                PendingView::CommentRows,
            ),
            RequestView::InsertComment(request) => StepView::Ask(
                StatementView::SelectUser { user_id: request.user_id },
                PendingView::NewCommentAuthor { request },
            ),
            RequestView::ModifyLikes(info) => StepView::Ask(
                StatementView::UpdateLikes { post_id: info.post_id, mode: info.mode },
                PendingView::LikesModified,
            ),
        }
    }
}

impl PendingView {
    /// How the handler goes on from the store's answer.
    pub open spec fn resume(self, answer: AnswerView) -> StepView {
        match self {
            PendingView::UserWritten => StepView::Reply(ResponseView::user_written(done_in(answer))),
            PendingView::UserFound => StepView::Reply(ResponseView::user_found(user_in(answer))),
            PendingView::UserDeleted => StepView::Reply(ResponseView::user_deleted(done_in(answer))),
            PendingView::PostRows => match posts_in(answer) {
                Ok(rows) => name_posts(rows, Seq::empty()),
                Err(why) => StepView::Reply(ResponseView::posts_listed(Err(why))),
            },
            PendingView::PostAuthors { rows, shown } => {
                if shown.len() < rows.len() {
                    match author_in(answer) {
                        Ok(name) => name_posts(
                            rows,
                            shown.push(rows[shown.len() as int].with_author(name)),
                        ),
                        Err(why) => StepView::Reply(ResponseView::posts_listed(Err(why))),
                    }
                } else {
                    StepView::Reply(ResponseView::posts_listed(Ok(shown)))
                }
            },
            PendingView::PostRow => match posts_in(answer) {
                Ok(rows) => {
                    if rows.len() > 0 {
                        StepView::Ask(
                            StatementView::SelectUser { user_id: rows[0].user_id },
                            PendingView::PostAuthor { row: rows[0] },
                        )
                    } else {
                        StepView::Reply(ResponseView::post_found(Ok(None)))
                    }
                },
                Err(why) => StepView::Reply(ResponseView::post_found(Err(why))),
            },
            PendingView::PostAuthor { row } => match author_in(answer) {
                Ok(name) => StepView::Reply(
                    ResponseView::post_found(Ok(Some(row.with_author(name)))),
                ),
                Err(why) => StepView::Reply(ResponseView::post_found(Err(why))),
            },
            PendingView::NewPostAuthor { request } => match author_in(answer) {
                Ok(_) => StepView::Ask(
                    StatementView::InsertPost {
                        user_id: request.user_id,
                        title: request.title,
                        language: request.language,
                        data: request.data,
                        likes: 0,
                        report_count: 0,
                    },
                    PendingView::PostStored,
                ),
                Err(why) => StepView::Reply(ResponseView::created(Err::<u64, FailureView>(why))),
            },
            PendingView::PostStored => StepView::Reply(ResponseView::created(written_in(answer))),
            PendingView::PostDeleted => StepView::Reply(ResponseView::post_deleted(done_in(answer))),
            PendingView::CommentRows => match comments_in(answer) {
                Ok(rows) => name_comments(rows, Seq::empty()),
                Err(why) => StepView::Reply(ResponseView::comments_listed(Err(why))),
            },
            PendingView::CommentAuthors { rows, shown } => {
                if shown.len() < rows.len() {
                    match author_in(answer) {
                        Ok(name) => name_comments(
                            rows,
                            shown.push(rows[shown.len() as int].with_author(name)),
                        ),
                        Err(why) => StepView::Reply(ResponseView::comments_listed(Err(why))),
                    }
                } else {
                    StepView::Reply(ResponseView::comments_listed(Ok(shown)))
                }
            },
            PendingView::NewCommentAuthor { request } => match author_in(answer) {
                Ok(_) => StepView::Ask(
                    StatementView::InsertComment {
                        post_id: request.post_id,
                        user_id: request.user_id,
                        data: request.data,
                    },
                    PendingView::CommentStored,
                ),
                Err(why) => StepView::Reply(ResponseView::created(Err::<u64, FailureView>(why))),
            },
            PendingView::CommentStored => StepView::Reply(ResponseView::created(written_in(answer))),
            PendingView::LikesModified => StepView::Reply(
                ResponseView::likes_modified(done_in(answer)),
            ),
        }
    }

    /// Whether the handler has not seen its rows yet.
    pub open spec fn awaits_rows(self) -> bool {
        self is PostRows || self is PostRow || self is CommentRows
    }

    /// A bound on the statements that the handler will still ask for once
    /// it has its rows.
    pub open spec fn asks_left(self) -> nat {
        match self {
            PendingView::PostAuthors { rows, shown } => if shown.len() < rows.len() {
                (rows.len() - shown.len()) as nat
            } else {
                0
            },
            PendingView::CommentAuthors { rows, shown } => if shown.len() < rows.len() {
                (rows.len() - shown.len()) as nat
            } else {
                0
            },
            PendingView::NewPostAuthor { .. } => 2,
            PendingView::NewCommentAuthor { .. } => 2,
            _ => 1,
        }
    }
}

impl StepView {
    /// 1 while the handler has not seen its rows yet, 0 after.
    pub open spec fn phase(self) -> nat {
        match self {
            StepView::Ask(_, pending) => if pending.awaits_rows() {
                1
            } else {
                0
            },
            StepView::Reply(_) => 0,
        }
    }

    /// Within a phase, a bound on the answers that the handler still needs.
    pub open spec fn answers_left(self) -> nat {
        match self {
            StepView::Ask(_, pending) => pending.asks_left() + 1,
            StepView::Reply(_) => 0,
        }
    }

    /// Whether `self` is nearer to the response than `earlier`.
    pub open spec fn nearer_than(self, earlier: StepView) -> bool {
        self.phase() < earlier.phase() || (self.phase() == earlier.phase() && self.answers_left()
            < earlier.answers_left())
    }
}

/// Takes the rows of the user directory out of `answer`.
fn take_users(answer: Answer) -> (r: Result<Vec<User>, Failure>)
    ensures
        outcome(r) == users_in(answer@),
{
    match answer {
        Answer::Users(rows) => Ok(rows),
        Answer::Failed(why) => Err(Failure::Store(why)),
        _ => Err(Failure::Store(String::from_str(UNEXPECTED_ANSWER))),
    }
}

/// Takes the rows of the post table out of `answer`.
fn take_posts(answer: Answer) -> (r: Result<Vec<PostRow>, Failure>)
    ensures
        outcome(r) == posts_in(answer@),
{
    match answer {
        Answer::Posts(rows) => Ok(rows),
        Answer::Failed(why) => Err(Failure::Store(why)),
        _ => Err(Failure::Store(String::from_str(UNEXPECTED_ANSWER))),
    }
}

/// Takes the rows of the comment table out of `answer`.
fn take_comments(answer: Answer) -> (r: Result<Vec<CommentRow>, Failure>)
    ensures
        outcome(r) == comments_in(answer@),
{
    match answer {
        Answer::Comments(rows) => Ok(rows),
        Answer::Failed(why) => Err(Failure::Store(why)),
        _ => Err(Failure::Store(String::from_str(UNEXPECTED_ANSWER))),
    }
}

/// Takes the identifier of a new row out of `answer`.
fn take_written(answer: Answer) -> (r: Result<u64, Failure>)
    ensures
        outcome(r) == written_in(answer@),
{
    match answer {
        Answer::Done(id) => Ok(id),
        Answer::Failed(why) => Err(Failure::Store(why)),
        _ => Err(Failure::Store(String::from_str(UNEXPECTED_ANSWER))),
    }
}

/// Reads from `answer` whether a write went through.
fn take_done(answer: Answer) -> (r: Result<(), Failure>)
    ensures
        outcome(r) == done_in(answer@),
{
    match take_written(answer) {
        Ok(_) => Ok(()),
        Err(why) => Err(why),
    }
}

/// Takes the user that a lookup found out of `answer`: the first row.
fn take_user(answer: Answer) -> (r: Result<Option<User>, Failure>)
    ensures
        outcome(r) == user_in(answer@),
{
    match take_users(answer) {
        Ok(rows) => {
            let mut rows = rows;
            if rows.len() > 0 {
                let ghost all = rows.deep_view();
                let user = rows.remove(0);
                assert(user@ == all[0]);
                Ok(Some(user))
            } else {
                Ok(None)
            }
        },
        Err(why) => Err(why),
    }
}

/// Goes on with the listing of posts: asks for the next author, or replies.
fn go_on_with_posts(rows: Vec<PostRow>, shown: Vec<Post>) -> (step: Step)
    ensures
        step@ == name_posts(rows.deep_view(), shown.deep_view()),
{
    if shown.len() < rows.len() {
        let user_id = rows[shown.len()].user_id.clone();
        Step::Ask(Statement::SelectUser { user_id }, Pending::PostAuthors { rows, shown })
    } else {
        Step::Reply(Response::posts_listed(Ok(shown)))
    }
}

/// Goes on with the listing of comments: asks for the next author, or
/// replies.
fn go_on_with_comments(rows: Vec<CommentRow>, shown: Vec<Comment>) -> (step: Step)
    ensures
        step@ == name_comments(rows.deep_view(), shown.deep_view()),
{
    if shown.len() < rows.len() {
        let user_id = rows[shown.len()].user_id.clone();
        Step::Ask(Statement::SelectUser { user_id }, Pending::CommentAuthors { rows, shown })
    } else {
        Step::Reply(Response::comments_listed(Ok(shown)))
    }
}

/// Begins to serve `request`: the first statement for the store, or the
/// response where none is needed.
pub fn begin(request: Request) -> (step: Step)
    ensures
        step@ == request@.begin(),
{
    match request {
        Request::NewUser(user) => Step::Ask(
            Statement::ReplaceUser { user_id: user.user_id, user_name: user.user_name },
            Pending::UserWritten,
        ),
        Request::GetUser(user_id) => Step::Ask(Statement::SelectUser { user_id }, Pending::UserFound),
        Request::DeleteUser(user) => Step::Ask(
            Statement::DeleteUser { user_id: user.user_id },
            Pending::UserDeleted,
        ),
        Request::GetPosts => Step::Ask(Statement::SelectPosts, Pending::PostRows),
        Request::GetPost(post_id) => match parse_u64(post_id.as_str()) {
            Some(post_id) => Step::Ask(Statement::SelectPost { post_id }, Pending::PostRow),
            None => Step::Reply(Response::post_found(Ok(None))),
        },
        Request::InsertPost(request) => {
            let user_id = request.user_id.clone();
            Step::Ask(Statement::SelectUser { user_id }, Pending::NewPostAuthor { request })
        },
        Request::DeletePost(request) => match parse_u64(request.post_id.as_str()) {
            Some(post_id) => Step::Ask(
                Statement::DeletePost { user_id: request.user_id, post_id },
                Pending::PostDeleted,
            ),
            None => Step::Reply(Response::post_deleted(Ok(()))),
        },
        Request::GetComments(post_id) => Step::Ask(
            Statement::SelectComments { post_id },
            Pending::CommentRows,
        ),
        Request::InsertComment(request) => {
            let user_id = request.user_id.clone();
            Step::Ask(Statement::SelectUser { user_id }, Pending::NewCommentAuthor { request })
        },
        Request::ModifyLikes(info) => Step::Ask(
            Statement::UpdateLikes { post_id: info.post_id, mode: info.mode },
            Pending::LikesModified,
        ),
    }
}

/// Goes on from the store's answer to the statement that was asked for with
/// `pending`: the next statement, or the response.
pub fn resume(pending: Pending, answer: Answer) -> (step: Step)
    ensures
        step@ == pending@.resume(answer@),
{
    match pending {
        Pending::UserWritten => Step::Reply(Response::user_written(take_done(answer))),
        Pending::UserFound => Step::Reply(Response::user_found(take_user(answer))),
        Pending::UserDeleted => Step::Reply(Response::user_deleted(take_done(answer))),
        Pending::PostRows => match take_posts(answer) {
            Ok(rows) => {
                let shown: Vec<Post> = Vec::new();
                assert(shown.deep_view() =~= Seq::<PostView>::empty());
                go_on_with_posts(rows, shown)
            },
            Err(why) => Step::Reply(Response::posts_listed(Err(why))),
        },
        Pending::PostAuthors { rows, shown } => {
            if shown.len() < rows.len() {
                let ghost before = shown.deep_view();
                let mut shown = shown;
                match take_user(answer) {
                    Ok(author) => match Post::from_row(&rows[shown.len()], author) {
                        Ok(post) => {
                            shown.push(post);
                            assert(shown.deep_view() =~= before.push(post@));
                            go_on_with_posts(rows, shown)
                        },
                        Err(why) => Step::Reply(Response::posts_listed(Err(why))),
                    },
                    Err(why) => Step::Reply(Response::posts_listed(Err(why))),
                }
            } else {
                Step::Reply(Response::posts_listed(Ok(shown)))
            }
        },
        Pending::PostRow => match take_posts(answer) {
            Ok(rows) => {
                let mut rows = rows;
                if rows.len() > 0 {
                    let ghost all = rows.deep_view();
                    let row = rows.remove(0);
                    assert(row@ == all[0]);
                    let user_id = row.user_id.clone();
                    Step::Ask(Statement::SelectUser { user_id }, Pending::PostAuthor { row })
                } else {
                    Step::Reply(Response::post_found(Ok(None)))
                }
            },
            Err(why) => Step::Reply(Response::post_found(Err(why))),
        },
        Pending::PostAuthor { row } => match take_user(answer) {
            Ok(author) => match Post::from_row(&row, author) {
                Ok(post) => Step::Reply(Response::post_found(Ok(Some(post)))),
                Err(why) => Step::Reply(Response::post_found(Err(why))),
            },
            Err(why) => Step::Reply(Response::post_found(Err(why))),
        },
        Pending::NewPostAuthor { request } => match take_user(answer) {
            Ok(author) => match Post::draft(
                request.user_id,
                request.title,
                request.language,
                request.data,
                author,
            ) {
                Ok(post) => Step::Ask(
                    Statement::InsertPost {
                        user_id: post.user_id,
                        title: post.title,
                        language: post.language,
                        data: post.data,
                        likes: post.likes,
                        report_count: post.report_count,
                    },
                    Pending::PostStored,
                ),
                Err(why) => Step::Reply(Response::created::<u64>(Err(why))),
            },
            Err(why) => Step::Reply(Response::created::<u64>(Err(why))),
        },
        Pending::PostStored => Step::Reply(Response::created(take_written(answer))),
        Pending::PostDeleted => Step::Reply(Response::post_deleted(take_done(answer))),
        Pending::CommentRows => match take_comments(answer) {
            Ok(rows) => {
                let shown: Vec<Comment> = Vec::new();
                assert(shown.deep_view() =~= Seq::<CommentView>::empty());
                go_on_with_comments(rows, shown)
            },
            Err(why) => Step::Reply(Response::comments_listed(Err(why))),
        },
        Pending::CommentAuthors { rows, shown } => {
            if shown.len() < rows.len() {
                let ghost before = shown.deep_view();
                let mut shown = shown;
                match take_user(answer) {
                    Ok(author) => match Comment::from_row(&rows[shown.len()], author) {
                        Ok(comment) => {
                            shown.push(comment);
                            assert(shown.deep_view() =~= before.push(comment@));
                            go_on_with_comments(rows, shown)
                        },
                        Err(why) => Step::Reply(Response::comments_listed(Err(why))),
                    },
                    Err(why) => Step::Reply(Response::comments_listed(Err(why))),
                }
            } else {
                Step::Reply(Response::comments_listed(Ok(shown)))
            }
        },
        Pending::NewCommentAuthor { request } => match take_user(answer) {
            Ok(author) => match Comment::compose(
                None,
                request.post_id,
                request.user_id,
                request.data,
                None,
                author,
            ) {
                Ok(comment) => Step::Ask(
                    Statement::InsertComment {
                        post_id: comment.post_id,
                        user_id: comment.user_id,
                        data: comment.data,
                    },
                    Pending::CommentStored,
                ),
                Err(why) => Step::Reply(Response::created::<u64>(Err(why))),
            },
            Err(why) => Step::Reply(Response::created::<u64>(Err(why))),
        },
        Pending::CommentStored => Step::Reply(Response::created(take_written(answer))),
        Pending::LikesModified => Step::Reply(Response::likes_modified(take_done(answer))),
    }
}

/// Whatever the store answers, the handler is nearer to its response after
/// the answer than it was when it asked: no exchange goes on for ever.
pub proof fn law_every_answer_brings_the_response_nearer(
    statement: StatementView,
    pending: PendingView,
    answer: AnswerView,
)
    ensures
        pending.resume(answer).nearer_than(StepView::Ask(statement, pending)),
{
}

impl DatabaseView {
    /// What driving a handler from `step` to its response does when this
    /// store carries the statements out: the store afterwards, and the
    /// response.
    pub open spec fn run(self, step: StepView) -> (DatabaseView, ResponseView)
        decreases step.phase(), step.answers_left(),
    {
        match step {
            StepView::Reply(response) => (self, response),
            StepView::Ask(statement, pending) => {
                let (next, answer) = self.perform(statement);
                proof {
                    law_every_answer_brings_the_response_nearer(statement, pending, answer);
                }
                next.run(pending.resume(answer))
            },
        }
    }

    /// What serving `request` does to the store, and the response it gives.
    pub open spec fn serve(self, request: RequestView) -> (DatabaseView, ResponseView) {
        match request {
            RequestView::NewUser(user) => (
                self.with_user(user),
                ResponseView::bare(Status::Created),
            ),
            RequestView::GetUser(user_id) => (self, ResponseView::user_found(Ok(self.user(user_id)))),
            RequestView::DeleteUser(user) => (
                self.without_user(user.user_id),
                ResponseView::bare(Status::Success),
            ),
            RequestView::GetPosts => (self, ResponseView::posts_listed(self.listing())),
            RequestView::GetPost(post_id) => (self, ResponseView::post_found(self.fetch(post_id))),
            RequestView::InsertPost(request) => (
                self.create_post(request).0,
                ResponseView::created(self.create_post(request).1),
            ),
            RequestView::DeletePost(request) => (
                self.remove_post(request),
                ResponseView::bare(Status::Created),
            ),
            RequestView::GetComments(post_id) => (
                self,
                ResponseView::comments_listed(self.thread(post_id)),
            ),
            RequestView::InsertComment(request) => (
                self.create_comment(request).0,
                ResponseView::created(self.create_comment(request).1),
            ),
            RequestView::ModifyLikes(info) => (
                self.adjust(info).0,
                ResponseView::likes_modified(self.adjust(info).1),
            ),
        }
    }
}

/// Naming the authors of `rows` one lookup at a time ends with the response
/// to the listing of `rows`, and leaves the store as it was.
proof fn lemma_naming_posts(db: DatabaseView, rows: Seq<PostRowView>, shown: Seq<PostView>)
    requires
        shown.len() <= rows.len(),
        forall|j: int|
            0 <= j < shown.len() ==> db.shown_post(rows[j]) == Ok::<PostView, FailureView>(
                #[trigger] shown[j],
            ),
    ensures
        db.run(name_posts(rows, shown)) == (db, ResponseView::posts_listed(db.shown_posts(rows))),
    decreases rows.len() - shown.len(),
{
    if shown.len() < rows.len() {
        let k = shown.len() as int;
        let statement = StatementView::SelectUser { user_id: rows[k].user_id };
        let pending = PendingView::PostAuthors { rows, shown };
        let answer = db.perform(statement).1;
        assert(db.perform(statement).0 == db);
        assert(db.run(name_posts(rows, shown)) == db.run(pending.resume(answer)));
        if db.users.contains_key(rows[k].user_id) {
            let more = shown.push(rows[k].with_author(db.users[rows[k].user_id]));
            assert(pending.resume(answer) == name_posts(rows, more));
            lemma_naming_posts(db, rows, more);
        } else {
            assert(!db.authors_known(rows));
        }
    } else {
        assert forall|i: int| 0 <= i < rows.len() implies db.users.contains_key(
            (#[trigger] rows[i]).user_id,
        ) by {
            assert(db.shown_post(rows[i]) == Ok::<PostView, FailureView>(shown[i]));
        }
        assert forall|i: int| 0 <= i < rows.len() implies shown[i] == rows[i].with_author(
            db.users[rows[i].user_id],
        ) by {
            assert(db.shown_post(rows[i]) == Ok::<PostView, FailureView>(shown[i]));
        }
        assert(shown =~= db.shown_posts(rows)->Ok_0);
    }
}

/// Naming the authors of `rows` one lookup at a time ends with the response
/// to the listing of `rows`, and leaves the store as it was.
proof fn lemma_naming_comments(
    db: DatabaseView,
    rows: Seq<CommentRowView>,
    shown: Seq<CommentView>,
)
    requires
        shown.len() <= rows.len(),
        forall|j: int|
            0 <= j < shown.len() ==> db.shown_comment(rows[j]) == Ok::<CommentView, FailureView>(
                #[trigger] shown[j],
            ),
    ensures
        db.run(name_comments(rows, shown)) == (
            db,
            ResponseView::comments_listed(db.shown_comments(rows)),
        ),
    decreases rows.len() - shown.len(),
{
    if shown.len() < rows.len() {
        let k = shown.len() as int;
        let statement = StatementView::SelectUser { user_id: rows[k].user_id };
        let pending = PendingView::CommentAuthors { rows, shown };
        let answer = db.perform(statement).1;
        assert(db.perform(statement).0 == db);
        assert(db.run(name_comments(rows, shown)) == db.run(pending.resume(answer)));
        if db.users.contains_key(rows[k].user_id) {
            let more = shown.push(rows[k].with_author(db.users[rows[k].user_id]));
            assert(pending.resume(answer) == name_comments(rows, more));
            lemma_naming_comments(db, rows, more);
        } else {
            assert(!db.commenters_known(rows));
        }
    } else {
        assert forall|i: int| 0 <= i < rows.len() implies db.users.contains_key(
            (#[trigger] rows[i]).user_id,
        ) by {
            assert(db.shown_comment(rows[i]) == Ok::<CommentView, FailureView>(shown[i]));
        }
        assert forall|i: int| 0 <= i < rows.len() implies shown[i] == rows[i].with_author(
            db.users[rows[i].user_id],
        ) by {
            assert(db.shown_comment(rows[i]) == Ok::<CommentView, FailureView>(shown[i]));
        }
        assert(shown =~= db.shown_comments(rows)->Ok_0);
    }
}

/// Driving the handler of a request against a store, one statement at a
/// time, does to the store what serving the request is specified to do, and
/// ends with the specified response.
pub proof fn law_exchange_serves_as_specified(db: DatabaseView, request: RequestView)
    ensures
        db.run(request.begin()) == db.serve(request),
{
    reveal_with_fuel(DatabaseView::run, 4);
    match request {
        RequestView::GetPosts => {
            lemma_naming_posts(db, db.summaries(), Seq::empty());
        },
        RequestView::GetComments(post_id) => {
            lemma_naming_comments(db, db.comments_of(post_id), Seq::empty());
        },
        _ => {},
    }
}

/// Serves `request` on `db`: drives the handler of the request, carrying
/// each statement it asks for out on `db`, until it has the response.
pub fn serve(db: &mut Database, request: Request) -> (response: Response)
    requires
        old(db).wf(),
    ensures
        final(db).wf(),
        (final(db)@, response@) == old(db)@.serve(request@),
{
    let ghost start = db@;
    proof {
        law_exchange_serves_as_specified(start, request@);
    }
    let mut step = begin(request);
    loop
        invariant
            db.wf(),
            start == old(db)@,
            db@.run(step@) == start.serve(request@),
        decreases step@.phase(), step@.answers_left(),
    {
        match step {
            Step::Reply(response) => {
                return response;
            },
            Step::Ask(statement, pending) => {
                proof {
                    law_every_answer_brings_the_response_nearer(
                        statement@,
                        pending@,
                        db@.perform(statement@).1,
                    );
                }
                let answer = db.perform(statement);
                step = resume(pending, answer);
            },
        }
    }
}

} // verus!
