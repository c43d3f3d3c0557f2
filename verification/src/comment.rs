//! Comments: short texts that users attach to a post.

use crate::failure::{outcome, Failure, FailureView};
use crate::http::{Body, BodyView, Response, ResponseView, Status};
use crate::store::{Database, DatabaseView, COMMENT_IDS_EXHAUSTED};
use crate::user::User;
use vstd::prelude::*;
use vstd::string::*;

verus! {

/// A comment as readers see it: the stored row together with the display name
/// of its author.
#[derive(Debug, PartialEq, Eq)]
pub struct Comment {
    /// The identifier that the store gave the comment.
    pub comment_id: u32,
    /// The post that the comment belongs to.
    pub post_id: u32,
    /// The identifier of the author.
    pub user_id: String,
    /// The author's display name, copied from the user directory.
    pub user_name: String,
    /// The text.
    pub data: String,
    /// When the store took the comment in.
    pub create_at: String,
}

/// The mathematical value of a [`Comment`].
pub struct CommentView {
    pub comment_id: u32,
    pub post_id: u32,
    pub user_id: Seq<char>,
    pub user_name: Seq<char>,
    pub data: Seq<char>,
    pub create_at: Seq<char>,
}

impl View for Comment {
    type V = CommentView;

    open spec fn view(&self) -> CommentView {
        CommentView {
            comment_id: self.comment_id,
            post_id: self.post_id,
            user_id: self.user_id@,
            user_name: self.user_name@,
            data: self.data@,
            create_at: self.create_at@,
        }
    }
}

impl DeepView for Comment {
    type V = CommentView;

    open spec fn deep_view(&self) -> CommentView {
        self@
    }
}

impl Clone for Comment {
    fn clone(&self) -> (r: Self)
        ensures
            r == *self,
    {
        Comment {
            comment_id: self.comment_id,
            post_id: self.post_id,
            user_id: self.user_id.clone(),
            user_name: self.user_name.clone(),
            data: self.data.clone(),
            create_at: self.create_at.clone(),
        }
    }
}

/// A comment as the store hands it out. The identifier and the time of
/// creation may be missing from a row.
#[derive(Debug, PartialEq, Eq)]
pub struct CommentRow {
    pub comment_id: Option<u32>,
    pub post_id: u32,
    pub user_id: String,
    pub data: String,
    pub create_at: Option<String>,
}

/// The mathematical value of a [`CommentRow`].
pub struct CommentRowView {
    pub comment_id: Option<u32>,
    pub post_id: u32,
    pub user_id: Seq<char>,
    pub data: Seq<char>,
    pub create_at: Option<Seq<char>>,
}

impl View for CommentRow {
    type V = CommentRowView;

    open spec fn view(&self) -> CommentRowView {
        CommentRowView {
            comment_id: self.comment_id,
            post_id: self.post_id,
            user_id: self.user_id@,
            data: self.data@,
            create_at: self.create_at.deep_view(),
        }
    }
}

impl DeepView for CommentRow {
    type V = CommentRowView;

    open spec fn deep_view(&self) -> CommentRowView {
        self@
    }
}

impl Clone for CommentRow {
    fn clone(&self) -> (r: Self)
        ensures
            r == *self,
    {
        let create_at = match &self.create_at {
            Some(t) => Some(t.clone()),
            None => None,
        };
        CommentRow {
            comment_id: self.comment_id,
            post_id: self.post_id,
            user_id: self.user_id.clone(),
            data: self.data.clone(),
            create_at,
        }
    }
}

/// What a client sends to have a comment created.
#[derive(Debug, PartialEq, Eq)]
pub struct CommentRequest {
    pub post_id: u32,
    pub user_id: String,
    pub data: String,
}

/// The mathematical value of a [`CommentRequest`].
pub struct CommentRequestView {
    pub post_id: u32,
    pub user_id: Seq<char>,
    pub data: Seq<char>,
}

impl View for CommentRequest {
    type V = CommentRequestView;

    open spec fn view(&self) -> CommentRequestView {
        CommentRequestView { post_id: self.post_id, user_id: self.user_id@, data: self.data@ }
    }
}

impl CommentView {
    /// The comment made of these columns and the author's display name: a
    /// missing identifier counts as 0, a missing time as the empty text.
    pub open spec fn compose(
        comment_id: Option<u32>,
        post_id: u32,
        user_id: Seq<char>,
        data: Seq<char>,
        create_at: Option<Seq<char>>,
        user_name: Seq<char>,
    ) -> CommentView {
        CommentView {
            comment_id: match comment_id {
                Some(id) => id,
                None => 0,
            },
            post_id,
            user_id,
            user_name,
            data,
            create_at: match create_at {
                Some(at) => at,
                None => Seq::empty(),
            },
        }
    }
}

impl CommentRowView {
    /// The comment that readers see when the author's display name is
    /// `user_name`.
    pub open spec fn with_author(self, user_name: Seq<char>) -> CommentView {
        CommentView::compose(
            self.comment_id,
            self.post_id,
            self.user_id,
            self.data,
            self.create_at,
            user_name,
        )
    }
}

impl DatabaseView {
    /// The stored row `row` as readers see it: with the display name that the
    /// directory holds for its author now. A failure when the directory does
    /// not hold the author.
    pub open spec fn shown_comment(self, row: CommentRowView) -> Result<CommentView, FailureView> {
        if self.users.contains_key(row.user_id) {
            Ok(row.with_author(self.users[row.user_id]))
        } else {
            Err(FailureView::UserNotFound)
        }
    }

    /// Whether the directory holds the author of every row of `rows`.
    pub open spec fn commenters_known(self, rows: Seq<CommentRowView>) -> bool {
        forall|i: int| 0 <= i < rows.len() ==> self.users.contains_key((#[trigger] rows[i]).user_id)
    }

    /// The rows `rows` as readers see them, in the same order. A failure when
    /// the directory does not hold the author of one of them.
    pub open spec fn shown_comments(self, rows: Seq<CommentRowView>) -> Result<
        Seq<CommentView>,
        FailureView,
    > {
        if self.commenters_known(rows) {
            Ok(Seq::new(rows.len(), |i: int| rows[i].with_author(self.users[rows[i].user_id])))
        } else {
            Err(FailureView::UserNotFound)
        }
    }

    /// The comments on post `post_id` as readers see them, newest first.
    pub open spec fn thread(self, post_id: u32) -> Result<Seq<CommentView>, FailureView> {
        self.shown_comments(self.comments_of(post_id))
    }

    /// The store after it took in `comment` as a new row, and the identifier
    /// the row got; or the store unchanged and the reason why it took
    /// nothing in.
    pub open spec fn store_comment(self, comment: CommentView) -> (
        DatabaseView,
        Result<u32, FailureView>,
    ) {
        if self.accepts_comment() {
            let row = self.new_comment(comment.post_id, comment.user_id, comment.data);
            (self.with_comment(row), Ok(row.comment_id->0))
        } else {
            (self, Err(FailureView::Store(COMMENT_IDS_EXHAUSTED@)))
        }
    }

    /// What creating a comment from `request` does: nothing but a failure
    /// when the directory does not hold the author; else a new row.
    pub open spec fn create_comment(self, request: CommentRequestView) -> (
        DatabaseView,
        Result<u32, FailureView>,
    ) {
        if self.users.contains_key(request.user_id) {
            self.store_comment(
                CommentView::compose(
                    None,
                    request.post_id,
                    request.user_id,
                    request.data,
                    None,
                    self.users[request.user_id],
                ),
            )
        } else {
            (self, Err(FailureView::UserNotFound))
        }
    }
}

impl Comment {
    /// A comment made of these columns, given what the directory holds for
    /// its author: a failure when that is nothing. A missing identifier
    /// counts as 0, a missing time as the empty text.
    pub fn compose(
        comment_id: Option<u32>,
        post_id: u32,
        user_id: String,
        data: String,
        create_at: Option<String>,
        author: Option<User>,
    ) -> (r: Result<Comment, Failure>)
        ensures
            outcome(r) == match author {
                Some(user) => Ok(
                    CommentView::compose(
                        comment_id,
                        post_id,
                        user_id@,
                        data@,
                        create_at.deep_view(),
                        user@.user_name,
                    ),
                ),
                None => Err::<CommentView, FailureView>(FailureView::UserNotFound),
            },
    {
        match author {
            Some(user) => Ok(
                Comment {
                    comment_id: match comment_id {
                        Some(id) => id,
                        None => 0,
                    },
                    post_id,
                    user_id,
                    user_name: user.user_name,
                    data,
                    create_at: match create_at {
                        Some(at) => at,
                        None => String::new(),
                    },
                },
            ),
            None => Err(Failure::UserNotFound),
        }
    }

    /// The stored row `row` as readers see it, given what the directory holds
    /// for its author: a failure when that is nothing.
    pub fn from_row(row: &CommentRow, author: Option<User>) -> (r: Result<Comment, Failure>)
        ensures
            outcome(r) == match author {
                Some(user) => Ok(row@.with_author(user@.user_name)),
                None => Err::<CommentView, FailureView>(FailureView::UserNotFound),
            },
    {
        let create_at = match &row.create_at {
            Some(at) => Some(at.clone()),
            None => None,
        };
        Comment::compose(
            row.comment_id,
            row.post_id,
            row.user_id.clone(),
            row.data.clone(),
            create_at,
            author,
        )
    }

    /// Makes a comment of these columns. The author's display name is the
    /// one that the directory of `db` holds now; a failure when the
    /// directory does not hold the author. A missing identifier counts as 0,
    /// a missing time as the empty text.
    pub fn new(
        db: &Database,
        comment_id: Option<u32>,
        post_id: u32,
        user_id: String,
        data: String,
        create_at: Option<String>,
    ) -> (r: Result<Comment, Failure>)
        requires
            db.wf(),
        ensures
            outcome(r) == db@.shown_comment(
                CommentRowView {
                    comment_id,
                    post_id,
                    user_id: user_id@,
                    data: data@,
                    create_at: create_at.deep_view(),
                },
            ),
    {
        let author = db.select_user(&user_id);
        Comment::compose(comment_id, post_id, user_id, data, create_at, author)
    }

    /// Lists the comments on post `post_id`, newest first, each with the
    /// display name of its author. A failure when the directory does not
    /// hold the author of one of them.
    pub fn get(db: &Database, post_id: u32) -> (r: Result<Vec<Comment>, Failure>)
        requires
            db.wf(),
        ensures
            outcome(r) == db@.thread(post_id),
    {
        let rows = db.select_comments(post_id);
        let mut out: Vec<Comment> = Vec::new();
        let mut k: usize = 0;
        while k < rows.len()
            invariant
                db.wf(),
                0 <= k <= rows.len(),
                out.len() == k,
                rows.deep_view() == db@.comments_of(post_id),
                forall|j: int|
                    0 <= j < k ==> db@.shown_comment(rows@[j]@) == Ok::<CommentView, FailureView>(
                        #[trigger] out@[j]@,
                    ),
            decreases rows.len() - k,
        {
            let author = db.select_user(&rows[k].user_id);
            match Comment::from_row(&rows[k], author) {
                Ok(comment) => {
                    out.push(comment);
                },
                Err(why) => {
                    assert(!db@.users.contains_key(rows.deep_view()[k as int].user_id));
                    return Err(why);
                },
            }
            k = k + 1;
        }
        assert forall|i: int| 0 <= i < rows.len() implies db@.users.contains_key(
            (#[trigger] rows.deep_view()[i]).user_id,
        ) by {
            assert(db@.shown_comment(rows@[i]@) == Ok::<CommentView, FailureView>(out@[i]@));
        }
        assert(out.deep_view() =~= db@.shown_comments(rows.deep_view())->Ok_0);
        Ok(out)
    }

    /// Stores the comment in `db` as a new row and returns the identifier
    /// that the row got. The store numbers and stamps the row: the
    /// identifier and the time in `self` play no part, nor does the display
    /// name. A failure, with nothing stored, when the store has no
    /// identifier left.
    pub fn insert_db(self, db: &mut Database) -> (r: Result<u32, Failure>)
        requires
            old(db).wf(),
        ensures
            final(db).wf(),
            (final(db)@, outcome(r)) == old(db)@.store_comment(self@),
    {
        match db.insert_comment(self.post_id, self.user_id, self.data) {
            Ok(comment_id) => Ok(comment_id),
            Err(why) => Err(Failure::Store(why)),
        }
    }
}

impl ResponseView {
    /// The response to a listing of the comments on a post.
    pub open spec fn comments_listed(listed: Result<Seq<CommentView>, FailureView>) -> ResponseView {
        match listed {
            Ok(comments) => ResponseView::json(Status::Success, BodyView::Comments(comments)),
            Err(why) => ResponseView::text(Status::InternalServerError, None, why.message()),
        }
    }
}

impl Response {
    /// The response to a listing of the comments on a post: the comments as
    /// JSON, or a server error with the reason.
    pub fn comments_listed(listed: Result<Vec<Comment>, Failure>) -> (r: Response)
        ensures
            r@ == ResponseView::comments_listed(outcome(listed)),
    {
        match listed {
            Ok(comments) => Response::json(Status::Success, Body::Comments(comments)),
            Err(why) => Response::text(Status::InternalServerError, None, why.message()),
        }
    }
}

/// Serves `GET /api/comments/{post_id}` on `db`: the comments on the post as
/// JSON, newest first.
pub fn get_comment_api(db: &Database, post_id: u32) -> (r: Response)
    requires
        db.wf(),
    ensures
        r@ == ResponseView::comments_listed(db@.thread(post_id)),
{
    Response::comments_listed(Comment::get(db, post_id))
}

/// Serves `POST /api/comments` on `db`: stores a new comment by a known
/// author.
pub fn insert_comment_api(db: &mut Database, request: CommentRequest) -> (r: Response)
    requires
        old(db).wf(),
    ensures
        final(db).wf(),
        final(db)@ == old(db)@.create_comment(request@).0,
        r@ == ResponseView::created(old(db)@.create_comment(request@).1),
{
    match Comment::new(db, None, request.post_id, request.user_id, request.data, None) {
        Ok(comment) => Response::created(comment.insert_db(db)),
        Err(why) => Response::created::<u32>(Err(why)),
    }
}

} // verus!
