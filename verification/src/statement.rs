//! What the backend says to its relational store, and what the store says
//! back: a closed set of parameterised statements and the shapes of their
//! answers.

use crate::comment::{CommentRow, CommentRowView};
use crate::likes::LikeMode;
use crate::post::{PostRow, PostRowView};
use crate::user::{User, UserView};
use vstd::prelude::*;
use vstd::string::*;

verus! {

/// A statement for the store. Each variant has a fixed text with named
/// placeholders; the fields are bound to the placeholders and never become
/// part of the text.
#[derive(Debug, PartialEq, Eq)]
#[allow(inconsistent_fields)]
pub enum Statement {
    /// Read the user `user_id`.
    SelectUser { user_id: String },
    /// Write a user: a new row, or a new name for the row with that identifier.
    ReplaceUser { user_id: String, user_name: String },
    /// Delete the user `user_id`.
    DeleteUser { user_id: String },
    /// Read all posts, newest first, with shortened bodies.
    SelectPosts,
    /// Read the post `post_id`.
    SelectPost { post_id: u64 },
    /// Store a new post.
    InsertPost {
        user_id: String,
        title: String,
        language: String,
        data: String,
        likes: i64,
        report_count: u64,
    },
    /// Delete the post `post_id` if `user_id` wrote it.
    DeletePost { user_id: String, post_id: u64 },
    /// Move the like count of post `post_id` by one.
    UpdateLikes { post_id: i64, mode: LikeMode },
    /// Read the comments on post `post_id`, newest first.
    SelectComments { post_id: u32 },
    /// Store a new comment.
    InsertComment { post_id: u32, user_id: String, data: String },
}

/// The mathematical value of a [`Statement`].
#[allow(inconsistent_fields)]
pub enum StatementView {
    SelectUser { user_id: Seq<char> },
    ReplaceUser { user_id: Seq<char>, user_name: Seq<char> },
    DeleteUser { user_id: Seq<char> },
    SelectPosts,
    SelectPost { post_id: u64 },
    InsertPost {
        user_id: Seq<char>,
        title: Seq<char>,
        language: Seq<char>,
        data: Seq<char>,
        likes: i64,
        report_count: u64,
    },
    DeletePost { user_id: Seq<char>, post_id: u64 },
    UpdateLikes { post_id: i64, mode: LikeMode },
    SelectComments { post_id: u32 },
    InsertComment { post_id: u32, user_id: Seq<char>, data: Seq<char> },
}

impl View for Statement {
    type V = StatementView;

    open spec fn view(&self) -> StatementView {
        match self {
            Statement::SelectUser { user_id } => StatementView::SelectUser { user_id: user_id@ },
            Statement::ReplaceUser { user_id, user_name } => StatementView::ReplaceUser {
                user_id: user_id@,
                user_name: user_name@,
            },
            Statement::DeleteUser { user_id } => StatementView::DeleteUser { user_id: user_id@ },
            Statement::SelectPosts => StatementView::SelectPosts,
            Statement::SelectPost { post_id } => StatementView::SelectPost { post_id: *post_id },
            Statement::InsertPost {
                user_id,
                title,
                language,
                data,
                likes,
                report_count,
            } => StatementView::InsertPost {
                user_id: user_id@,
                title: title@,
                language: language@,
                data: data@,
                likes: *likes,
                report_count: *report_count,
            },
            Statement::DeletePost { user_id, post_id } => StatementView::DeletePost {
                user_id: user_id@,
                post_id: *post_id,
            },
            Statement::UpdateLikes { post_id, mode } => StatementView::UpdateLikes {
                post_id: *post_id,
                mode: *mode,
            },
            Statement::SelectComments { post_id } => StatementView::SelectComments {
                post_id: *post_id,
            },
            Statement::InsertComment { post_id, user_id, data } => StatementView::InsertComment {
                post_id: *post_id,
                user_id: user_id@,
                data: data@,
            },
        }
    }
}

/// A value bound to a placeholder.
#[derive(Debug, PartialEq, Eq)]
pub enum Value {
    Text(String),
    Unsigned(u64),
    Signed(i64),
}

/// The mathematical value of a [`Value`].
pub enum ValueView {
    Text(Seq<char>),
    Unsigned(u64),
    Signed(i64),
}

impl View for Value {
    type V = ValueView;

    open spec fn view(&self) -> ValueView {
        match self {
            Value::Text(t) => ValueView::Text(t@),
            Value::Unsigned(n) => ValueView::Unsigned(*n),
            Value::Signed(n) => ValueView::Signed(*n),
        }
    }
}

/// A placeholder's name, without the colon, and the value bound to it.
#[derive(Debug, PartialEq, Eq)]
pub struct Param {
    pub name: String,
    pub value: Value,
}

/// The mathematical value of a [`Param`].
pub struct ParamView {
    pub name: Seq<char>,
    pub value: ValueView,
}

impl View for Param {
    type V = ParamView;

    open spec fn view(&self) -> ParamView {
        ParamView { name: self.name@, value: self.value@ }
    }
}

impl DeepView for Param {
    type V = ParamView;

    open spec fn deep_view(&self) -> ParamView {
        self@
    }
}

/// The text of the statement that reads one user.
pub const SELECT_USER: &'static str = "select * from user where user_id = :user_id";

/// The text of the statement that writes one user.
pub const REPLACE_USER: &'static str =
    "replace into user set user_id = :user_id, user_name = :user_name";

/// The text of the statement that deletes one user.
pub const DELETE_USER: &'static str = "delete from user where user_id = :user_id";

/// The text of the statement that lists the posts.
pub const SELECT_POSTS: &'static str =
    "select post_id, user_id, title, language, substr(data, 1, 35), likes, report_count, create_at from post order by post_id desc";

/// The text of the statement that reads one post.
pub const SELECT_POST: &'static str = "select * from post where post_id = :post_id";

/// The text of the statement that stores a post.
pub const INSERT_POST: &'static str =
    "insert into post(user_id, title, language, data, likes, report_count) values(:user_id, :title, :language, :data, :likes, :report_count)";

/// The text of the statement that deletes one post of one author.
pub const DELETE_POST: &'static str =
    "delete from post where user_id = :user_id and post_id = :post_id";

/// The text of the statement that adds one like.
pub const INCREMENT_LIKES: &'static str =
    "update post set likes = likes + 1 where post_id = :post_id";

/// The text of the statement that takes one like away.
pub const DECREMENT_LIKES: &'static str =
    "update post set likes = likes - 1 where post_id = :post_id";

/// The text of the statement that lists the comments on one post.
pub const SELECT_COMMENTS: &'static str =
    "select * from comment where post_id = :post_id order by comment_id desc";

/// The text of the statement that stores a comment.
pub const INSERT_COMMENT: &'static str =
    "insert into comment(post_id, user_id, data) values(:post_id, :user_id, :data)";

/// The binding of the text `value` to the placeholder `name`.
pub open spec fn text_param(name: &str, value: Seq<char>) -> ParamView {
    ParamView { name: name@, value: ValueView::Text(value) }
}

/// The binding of the unsigned number `value` to the placeholder `name`.
pub open spec fn unsigned_param(name: &str, value: u64) -> ParamView {
    ParamView { name: name@, value: ValueView::Unsigned(value) }
}

/// The binding of the signed number `value` to the placeholder `name`.
pub open spec fn signed_param(name: &str, value: i64) -> ParamView {
    ParamView { name: name@, value: ValueView::Signed(value) }
}

impl StatementView {
    /// The text of the statement.
    pub open spec fn sql(self) -> Seq<char> {
        match self {
            StatementView::SelectUser { .. } => SELECT_USER@,
            StatementView::ReplaceUser { .. } => REPLACE_USER@,
            StatementView::DeleteUser { .. } => DELETE_USER@,
            StatementView::SelectPosts => SELECT_POSTS@,
            StatementView::SelectPost { .. } => SELECT_POST@,
            StatementView::InsertPost { .. } => INSERT_POST@,
            StatementView::DeletePost { .. } => DELETE_POST@,
            StatementView::UpdateLikes { mode, .. } => match mode {
                LikeMode::Increment => INCREMENT_LIKES@,
                LikeMode::Decrement => DECREMENT_LIKES@,
            },
            StatementView::SelectComments { .. } => SELECT_COMMENTS@,
            StatementView::InsertComment { .. } => INSERT_COMMENT@,
        }
    }

    /// The values bound to the placeholders of the text, in the order in
    /// which the placeholders first occur.
    pub open spec fn params(self) -> Seq<ParamView> {
        match self {
            StatementView::SelectUser { user_id } => seq![text_param("user_id", user_id)],
            StatementView::ReplaceUser { user_id, user_name } => seq![
                text_param("user_id", user_id),
                text_param("user_name", user_name),
            ],
            StatementView::DeleteUser { user_id } => seq![text_param("user_id", user_id)],
            StatementView::SelectPosts => seq![],
            StatementView::SelectPost { post_id } => seq![unsigned_param("post_id", post_id)],
            StatementView::InsertPost { user_id, title, language, data, likes, report_count } => seq![
                text_param("user_id", user_id),
                text_param("title", title),
                text_param("language", language),
                text_param("data", data),
                signed_param("likes", likes),
                unsigned_param("report_count", report_count),
            ],
            StatementView::DeletePost { user_id, post_id } => seq![
                text_param("user_id", user_id),
                unsigned_param("post_id", post_id),
            ],
            StatementView::UpdateLikes { post_id, .. } => seq![signed_param("post_id", post_id)],
            StatementView::SelectComments { post_id } => seq![
                unsigned_param("post_id", post_id as u64),
            ],
            StatementView::InsertComment { post_id, user_id, data } => seq![
                unsigned_param("post_id", post_id as u64),
                text_param("user_id", user_id),
                text_param("data", data),
            ],
        }
    }
}

/// Binds the text `value` to the placeholder `name`.
fn bind_text(name: &'static str, value: &String) -> (p: Param)
    ensures
        p@ == text_param(name, value@),
{
    Param { name: String::from_str(name), value: Value::Text(value.clone()) }
}

/// Binds the unsigned number `value` to the placeholder `name`.
fn bind_unsigned(name: &'static str, value: u64) -> (p: Param)
    ensures
        p@ == unsigned_param(name, value),
{
    Param { name: String::from_str(name), value: Value::Unsigned(value) }
}

/// Binds the signed number `value` to the placeholder `name`.
fn bind_signed(name: &'static str, value: i64) -> (p: Param)
    ensures
        p@ == signed_param(name, value),
{
    Param { name: String::from_str(name), value: Value::Signed(value) }
}

impl Statement {
    /// The text of the statement, with a named placeholder for every value.
    pub fn sql(&self) -> (r: String)
        ensures
            r@ == self@.sql(),
    {
        match self {
            Statement::SelectUser { .. } => String::from_str(SELECT_USER),
            Statement::ReplaceUser { .. } => String::from_str(REPLACE_USER),
            Statement::DeleteUser { .. } => String::from_str(DELETE_USER),
            Statement::SelectPosts => String::from_str(SELECT_POSTS),
            Statement::SelectPost { .. } => String::from_str(SELECT_POST),
            Statement::InsertPost { .. } => String::from_str(INSERT_POST),
            Statement::DeletePost { .. } => String::from_str(DELETE_POST),
            Statement::UpdateLikes { mode, .. } => match mode {
                LikeMode::Increment => String::from_str(INCREMENT_LIKES),
                LikeMode::Decrement => String::from_str(DECREMENT_LIKES),
            },
            Statement::SelectComments { .. } => String::from_str(SELECT_COMMENTS),
            Statement::InsertComment { .. } => String::from_str(INSERT_COMMENT),
        }
    }

    /// The values to bind to the placeholders of the text.
    pub fn params(&self) -> (r: Vec<Param>)
        ensures
            r.deep_view() == self@.params(),
    {
        let mut out: Vec<Param> = Vec::new();
        match self {
            Statement::SelectUser { user_id } => {
                out.push(bind_text("user_id", user_id));
            },
            Statement::ReplaceUser { user_id, user_name } => {
                out.push(bind_text("user_id", user_id));
                out.push(bind_text("user_name", user_name));
            },
            Statement::DeleteUser { user_id } => {
                out.push(bind_text("user_id", user_id));
            },
            Statement::SelectPosts => {},
            Statement::SelectPost { post_id } => {
                out.push(bind_unsigned("post_id", *post_id));
            },
            Statement::InsertPost { user_id, title, language, data, likes, report_count } => {
                out.push(bind_text("user_id", user_id));
                out.push(bind_text("title", title));
                out.push(bind_text("language", language));
                out.push(bind_text("data", data));
                out.push(bind_signed("likes", *likes));
                out.push(bind_unsigned("report_count", *report_count));
            },
            Statement::DeletePost { user_id, post_id } => {
                out.push(bind_text("user_id", user_id));
                out.push(bind_unsigned("post_id", *post_id));
            },
            Statement::UpdateLikes { post_id, .. } => {
                out.push(bind_signed("post_id", *post_id));
            },
            Statement::SelectComments { post_id } => {
                out.push(bind_unsigned("post_id", *post_id as u64));
            },
            Statement::InsertComment { post_id, user_id, data } => {
                out.push(bind_unsigned("post_id", *post_id as u64));
                out.push(bind_text("user_id", user_id));
                out.push(bind_text("data", data));
            },
        }
        assert(out.deep_view() =~= self@.params());
        out
    }
}

/// What the store says back to a statement.
#[derive(Debug, PartialEq, Eq)]
pub enum Answer {
    /// The rows of the user directory that a read found.
    Users(Vec<User>),
    /// The rows of the post table that a read found.
    Posts(Vec<PostRow>),
    /// The rows of the comment table that a read found.
    Comments(Vec<CommentRow>),
    /// A write went through. The number is the identifier that the store gave
    /// to the row it took in, and 0 when it took none in.
    Done(u64),
    /// The store could not carry the statement out, and says why.
    Failed(String),
}

/// The mathematical value of an [`Answer`].
pub enum AnswerView {
    Users(Seq<UserView>),
    Posts(Seq<PostRowView>),
    Comments(Seq<CommentRowView>),
    Done(u64),
    Failed(Seq<char>),
}

impl View for Answer {
    type V = AnswerView;

    open spec fn view(&self) -> AnswerView {
        match self {
            Answer::Users(rows) => AnswerView::Users(rows.deep_view()),
            Answer::Posts(rows) => AnswerView::Posts(rows.deep_view()),
            Answer::Comments(rows) => AnswerView::Comments(rows.deep_view()),
            Answer::Done(id) => AnswerView::Done(*id),
            Answer::Failed(why) => AnswerView::Failed(why@),
        }
    }
}

} // verus!
