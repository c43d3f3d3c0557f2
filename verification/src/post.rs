//! Posts: titled pieces of text in some programming language, each written by
//! one user.

use crate::failure::{outcome, Failure, FailureView};
use crate::http::{Body, BodyView, Response, ResponseView, Status, TEXT};
use crate::store::{Database, DatabaseView, POST_IDS_EXHAUSTED};
use crate::text::{parse_u64, parse_u64_spec};
use crate::user::User;
use vstd::prelude::*;
use vstd::string::*;

verus! {

/// A post as readers see it: the stored row together with the display name of
/// its author.
#[derive(Debug, PartialEq, Eq)]
pub struct Post {
    /// The identifier that the store gave the post; later posts get larger ones.
    pub post_id: u64,
    /// The identifier of the author.
    pub user_id: String,
    /// The title.
    pub title: String,
    /// The author's display name, copied from the user directory.
    pub user_name: String,
    /// The programming language of the body.
    pub language: String,
    /// The body.
    pub data: String,
    /// The like count; nothing keeps it from going below zero.
    pub likes: i64,
    /// How often the post was reported.
    pub report_count: u64,
    /// When the store took the post in.
    pub create_at: String,
}

/// The mathematical value of a [`Post`].
pub struct PostView {
    pub post_id: u64,
    pub user_id: Seq<char>,
    pub title: Seq<char>,
    pub user_name: Seq<char>,
    pub language: Seq<char>,
    pub data: Seq<char>,
    pub likes: i64,
    pub report_count: u64,
    pub create_at: Seq<char>,
}

impl View for Post {
    type V = PostView;

    open spec fn view(&self) -> PostView {
        PostView {
            post_id: self.post_id,
            user_id: self.user_id@,
            title: self.title@,
            user_name: self.user_name@,
            language: self.language@,
            data: self.data@,
            likes: self.likes,
            report_count: self.report_count,
            create_at: self.create_at@,
        }
    }
}

impl DeepView for Post {
    type V = PostView;

    open spec fn deep_view(&self) -> PostView {
        self@
    }
}

impl Clone for Post {
    fn clone(&self) -> (r: Self)
        ensures
            r == *self,
    {
        Post {
            post_id: self.post_id,
            user_id: self.user_id.clone(),
            title: self.title.clone(),
            user_name: self.user_name.clone(),
            language: self.language.clone(),
            data: self.data.clone(),
            likes: self.likes,
            report_count: self.report_count,
            create_at: self.create_at.clone(),
        }
    }
}

/// A post as the store holds it: everything but the author's display name.
#[derive(Debug, PartialEq, Eq)]
pub struct PostRow {
    pub post_id: u64,
    pub user_id: String,
    pub title: String,
    pub language: String,
    pub data: String,
    pub likes: i64,
    pub report_count: u64,
    pub create_at: String,
}

/// The mathematical value of a [`PostRow`].
pub struct PostRowView {
    pub post_id: u64,
    pub user_id: Seq<char>,
    pub title: Seq<char>,
    pub language: Seq<char>,
    pub data: Seq<char>,
    pub likes: i64,
    pub report_count: u64,
    pub create_at: Seq<char>,
}

impl View for PostRow {
    type V = PostRowView;

    open spec fn view(&self) -> PostRowView {
        PostRowView {
            post_id: self.post_id,
            user_id: self.user_id@,
            title: self.title@,
            language: self.language@,
            data: self.data@,
            likes: self.likes,
            report_count: self.report_count,
            create_at: self.create_at@,
        }
    }
}

impl DeepView for PostRow {
    type V = PostRowView;

    open spec fn deep_view(&self) -> PostRowView {
        self@
    }
}

impl Clone for PostRow {
    fn clone(&self) -> (r: Self)
        ensures
            r == *self,
    {
        PostRow {
            post_id: self.post_id,
            user_id: self.user_id.clone(),
            title: self.title.clone(),
            language: self.language.clone(),
            data: self.data.clone(),
            likes: self.likes,
            report_count: self.report_count,
            create_at: self.create_at.clone(),
        }
    }
}

impl PostRowView {
    /// The post that readers see when the author's display name is `user_name`.
    pub open spec fn with_author(self, user_name: Seq<char>) -> PostView {
        PostView {
            post_id: self.post_id,
            user_id: self.user_id,
            title: self.title,
            user_name,
            language: self.language,
            data: self.data,
            likes: self.likes,
            report_count: self.report_count,
            create_at: self.create_at,
        }
    }
}

/// What a client sends to have a post created.
#[derive(Debug, PartialEq, Eq)]
pub struct PostRequest {
    pub user_id: String,
    pub title: String,
    pub language: String,
    pub data: String,
}

/// The mathematical value of a [`PostRequest`].
pub struct PostRequestView {
    pub user_id: Seq<char>,
    pub title: Seq<char>,
    pub language: Seq<char>,
    pub data: Seq<char>,
}

impl View for PostRequest {
    type V = PostRequestView;

    open spec fn view(&self) -> PostRequestView {
        PostRequestView {
            user_id: self.user_id@,
            title: self.title@,
            language: self.language@,
            data: self.data@,
        }
    }
}

/// What a client sends to have a post deleted: the author and the post.
#[derive(Debug, PartialEq, Eq)]
pub struct DeletePostRequest {
    /// The identifier of the author.
    pub user_id: String,
    /// The identifier of the post, as decimal text.
    pub post_id: String,
}

/// The mathematical value of a [`DeletePostRequest`].
pub struct DeletePostRequestView {
    pub user_id: Seq<char>,
    pub post_id: Seq<char>,
}

impl View for DeletePostRequest {
    type V = DeletePostRequestView;

    open spec fn view(&self) -> DeletePostRequestView {
        DeletePostRequestView { user_id: self.user_id@, post_id: self.post_id@ }
    }
}

/// The time that a post shows before the store has taken it in and stamped it.
pub const DRAFT_TIMESTAMP: &'static str = "2022-10-11 21:29:30";

/// What is said when no post has the identifier asked for.
pub const POST_NOT_FOUND: &'static str = "요청한 post_id는 존재하지 않는 포스트 입니다.";

impl PostView {
    /// A post that is not stored yet: no identifier, no likes, no reports,
    /// and the time of a draft.
    pub open spec fn draft(
        user_id: Seq<char>,
        title: Seq<char>,
        language: Seq<char>,
        data: Seq<char>,
        user_name: Seq<char>,
    ) -> PostView {
        PostView {
            post_id: 0,
            user_id,
            title,
            user_name,
            language,
            data,
            likes: 0,
            report_count: 0,
            create_at: DRAFT_TIMESTAMP@,
        }
    }
}

impl DatabaseView {
    /// The stored row `row` as readers see it: with the display name that the
    /// directory holds for its author now. A failure when the directory does
    /// not hold the author.
    pub open spec fn shown_post(self, row: PostRowView) -> Result<PostView, FailureView> {
        if self.users.contains_key(row.user_id) {
            Ok(row.with_author(self.users[row.user_id]))
        } else {
            Err(FailureView::UserNotFound)
        }
    }

    /// Whether the directory holds the author of every row of `rows`.
    pub open spec fn authors_known(self, rows: Seq<PostRowView>) -> bool {
        forall|i: int| 0 <= i < rows.len() ==> self.users.contains_key((#[trigger] rows[i]).user_id)
    }

    /// The rows `rows` as readers see them, in the same order. A failure when
    /// the directory does not hold the author of one of them.
    pub open spec fn shown_posts(self, rows: Seq<PostRowView>) -> Result<
        Seq<PostView>,
        FailureView,
    > {
        if self.authors_known(rows) {
            Ok(Seq::new(rows.len(), |i: int| rows[i].with_author(self.users[rows[i].user_id])))
        } else {
            Err(FailureView::UserNotFound)
        }
    }

    /// The listing of all posts: newest first, bodies cut down, authors named.
    pub open spec fn listing(self) -> Result<Seq<PostView>, FailureView> {
        self.shown_posts(self.summaries())
    }

    /// The post that the text `post_id` asks for, with its whole body: none
    /// when the text is no decimal number or no post has that number.
    pub open spec fn fetch(self, post_id: Seq<char>) -> Result<Option<PostView>, FailureView> {
        match parse_u64_spec(post_id) {
            Some(id) => match self.post(id) {
                Some(row) => match self.shown_post(row) {
                    Ok(post) => Ok(Some(post)),
                    Err(why) => Err(why),
                },
                None => Ok(None),
            },
            None => Ok(None),
        }
    }

    /// The store after it took in `post` as a new row, and the identifier the
    /// row got; or the store unchanged and the reason why it took nothing in.
    pub open spec fn store_post(self, post: PostView) -> (DatabaseView, Result<u64, FailureView>) {
        if self.accepts_post() {
            let row = self.new_post(
                post.user_id,
                post.title,
                post.language,
                post.data,
                post.likes,
                post.report_count,
            );
            (self.with_post(row), Ok(row.post_id))
        } else {
            (self, Err(FailureView::Store(POST_IDS_EXHAUSTED@)))
        }
    }

    /// What creating a post from `request` does: nothing but a failure when
    /// the directory does not hold the author; else a new row without likes
    /// or reports.
    pub open spec fn create_post(self, request: PostRequestView) -> (
        DatabaseView,
        Result<u64, FailureView>,
    ) {
        if self.users.contains_key(request.user_id) {
            self.store_post(
                PostView::draft(
                    request.user_id,
                    request.title,
                    request.language,
                    request.data,
                    self.users[request.user_id],
                ),
            )
        } else {
            (self, Err(FailureView::UserNotFound))
        }
    }

    /// The store after `request` was carried out: without the post that the
    /// request names if its author is the one that the request names, and
    /// unchanged otherwise (also when the identifier is no decimal number).
    pub open spec fn remove_post(self, request: DeletePostRequestView) -> DatabaseView {
        match parse_u64_spec(request.post_id) {
            Some(id) => self.without_post(request.user_id, id),
            None => self,
        }
    }
}

impl Post {
    /// A post that is not stored yet, given what the directory holds for its
    /// author: a failure when that is nothing.
    pub fn draft(
        user_id: String,
        title: String,
        language: String,
        data: String,
        author: Option<User>,
    ) -> (r: Result<Post, Failure>)
        ensures
            outcome(r) == match author {
                Some(user) => Ok(PostView::draft(user_id@, title@, language@, data@, user@.user_name)),
                None => Err::<PostView, FailureView>(FailureView::UserNotFound),
            },
    {
        match author {
            Some(user) => Ok(
                Post {
                    post_id: 0,
                    user_id,
                    title,
                    user_name: user.user_name,
                    language,
                    data,
                    likes: 0,
                    report_count: 0,
                    create_at: String::from_str(DRAFT_TIMESTAMP),
                },
            ),
            None => Err(Failure::UserNotFound),
        }
    }

    /// The stored row `row` as readers see it, given what the directory holds
    /// for its author: a failure when that is nothing.
    pub fn from_row(row: &PostRow, author: Option<User>) -> (r: Result<Post, Failure>)
        ensures
            outcome(r) == match author {
                Some(user) => Ok(row@.with_author(user@.user_name)),
                None => Err::<PostView, FailureView>(FailureView::UserNotFound),
            },
    {
        match author {
            Some(user) => Ok(
                Post {
                    post_id: row.post_id,
                    user_id: row.user_id.clone(),
                    title: row.title.clone(),
                    user_name: user.user_name,
                    language: row.language.clone(),
                    data: row.data.clone(),
                    likes: row.likes,
                    report_count: row.report_count,
                    create_at: row.create_at.clone(),
                },
            ),
            None => Err(Failure::UserNotFound),
        }
    }

    /// Makes a post that is not stored yet. The author's display name is the
    /// one that the directory of `db` holds now; a failure when the
    /// directory does not hold the author.
    pub fn new(db: &Database, user_id: String, title: String, language: String, data: String) -> (r:
        Result<Post, Failure>)
        requires
            db.wf(),
        ensures
            outcome(r) == match db@.user(user_id@) {
                Some(user) => Ok(PostView::draft(user_id@, title@, language@, data@, user.user_name)),
                None => Err::<PostView, FailureView>(FailureView::UserNotFound),
            },
    {
        let author = db.select_user(&user_id);
        Post::draft(user_id, title, language, data, author)
    }

    /// Makes a post from the columns of a stored row. The author's display
    /// name is the one that the directory of `db` holds now; a failure when
    /// the directory does not hold the author.
    pub fn from_db(
        db: &Database,
        post_id: u64,
        user_id: String,
        title: String,
        language: String,
        data: String,
        likes: i64,
        report_count: u64,
        create_at: String,
    ) -> (r: Result<Post, Failure>)
        requires
            db.wf(),
        ensures
            outcome(r) == db@.shown_post(
                PostRowView {
                    post_id,
                    user_id: user_id@,
                    title: title@,
                    language: language@,
                    data: data@,
                    likes,
                    report_count,
                    create_at: create_at@,
                },
            ),
    {
        let author = db.select_user(&user_id);
        let row = PostRow { post_id, user_id, title, language, data, likes, report_count, create_at };
        Post::from_row(&row, author)
    }

    /// Lists all posts of `db`: newest first, each body cut down to its first
    /// characters, each with the display name of its author. A failure when
    /// the directory does not hold the author of some post.
    pub fn get_posts(db: &Database) -> (r: Result<Vec<Post>, Failure>)
        requires
            db.wf(),
        ensures
            outcome(r) == db@.listing(),
    {
        let rows = db.select_posts();
        let mut out: Vec<Post> = Vec::new();
        let mut k: usize = 0;
        while k < rows.len()
            invariant
                db.wf(),
                0 <= k <= rows.len(),
                out.len() == k,
                rows.deep_view() == db@.summaries(),
                forall|j: int|
                    0 <= j < k ==> db@.shown_post(rows@[j]@) == Ok::<PostView, FailureView>(
                        #[trigger] out@[j]@,
                    ),
            decreases rows.len() - k,
        {
            let author = db.select_user(&rows[k].user_id);
            match Post::from_row(&rows[k], author) {
                Ok(post) => {
                    out.push(post);
                },
                Err(why) => {
                    assert(!db@.users.contains_key(rows.deep_view()[k as int].user_id));
                    return Err(why);
                },
            }
            k = k + 1;
        }
        assert forall|i: int| 0 <= i < rows.len() implies db@.users.contains_key(
            (#[trigger] rows.deep_view()[i]).user_id,
        ) by {
            assert(db@.shown_post(rows@[i]@) == Ok::<PostView, FailureView>(out@[i]@));
        }
        assert(out.deep_view() =~= db@.shown_posts(rows.deep_view())->Ok_0);
        Ok(out)
    }

    /// Fetches the post that the decimal text `post_id` names, with its whole
    /// body and the display name of its author. `None` when the text is no
    /// decimal number or no post has that number; a failure when the
    /// directory does not hold the author.
    pub fn get_post(db: &Database, post_id: String) -> (r: Result<Option<Post>, Failure>)
        requires
            db.wf(),
        ensures
            outcome(r) == db@.fetch(post_id@),
    {
        match parse_u64(post_id.as_str()) {
            Some(id) => match db.select_post(id) {
                Some(row) => {
                    let author = db.select_user(&row.user_id);
                    match Post::from_row(&row, author) {
                        Ok(post) => Ok(Some(post)),
                        Err(why) => Err(why),
                    }
                },
                None => Ok(None),
            },
            None => Ok(None),
        }
    }

    /// Stores the post in `db` as a new row and returns the identifier that
    /// the row got. The store numbers and stamps the row: the identifier and
    /// the time in `self` play no part, nor does the display name. A failure,
    /// with nothing stored, when the store has no identifier left.
    pub fn insert_db(self, db: &mut Database) -> (r: Result<u64, Failure>)
        requires
            old(db).wf(),
        ensures
            final(db).wf(),
            (final(db)@, outcome(r)) == old(db)@.store_post(self@),
    {
        match db.insert_post(
            self.user_id,
            self.title,
            self.language,
            self.data,
            self.likes,
            self.report_count,
        ) {
            Ok(post_id) => Ok(post_id),
            Err(why) => Err(Failure::Store(why)),
        }
    }

    /// Deletes the post that `request` names if the author that it names
    /// wrote it. Deleting what is not there changes nothing and is no failure.
    pub fn delete_post(db: &mut Database, request: DeletePostRequest) -> (r: Result<(), Failure>)
        requires
            old(db).wf(),
        ensures
            final(db).wf(),
            r is Ok,
            final(db)@ == old(db)@.remove_post(request@),
    {
        match parse_u64(request.post_id.as_str()) {
            Some(id) => {
                db.delete_post(&request.user_id, id);
            },
            None => {},
        }
        Ok(())
    }
}

impl ResponseView {
    /// The response to a listing of the posts.
    pub open spec fn posts_listed(listed: Result<Seq<PostView>, FailureView>) -> ResponseView {
        match listed {
            Ok(posts) => ResponseView::json(Status::Success, BodyView::Posts(posts)),
            Err(why) => ResponseView::text(Status::InternalServerError, None, why.message()),
        }
    }

    /// The response to a fetch of one post.
    pub open spec fn post_found(found: Result<Option<PostView>, FailureView>) -> ResponseView {
        match found {
            Ok(Some(post)) => ResponseView::json(Status::Success, BodyView::Post(post)),
            Ok(None) => ResponseView::text(Status::NotFound, Some(TEXT@), POST_NOT_FOUND@),
            Err(why) => ResponseView::text(Status::InternalServerError, None, why.message()),
        }
    }

    /// The response to the deletion of a post.
    pub open spec fn post_deleted(deleted: Result<(), FailureView>) -> ResponseView {
        match deleted {
            Ok(_) => ResponseView::bare(Status::Created),
            Err(_) => ResponseView::bare(Status::InternalServerError),
        }
    }
}

impl Response {
    /// The response to a listing of the posts: the posts as JSON, or a server
    /// error with the reason.
    pub fn posts_listed(listed: Result<Vec<Post>, Failure>) -> (r: Response)
        ensures
            r@ == ResponseView::posts_listed(outcome(listed)),
    {
        match listed {
            Ok(posts) => Response::json(Status::Success, Body::Posts(posts)),
            Err(why) => Response::text(Status::InternalServerError, None, why.message()),
        }
    }

    /// The response to a fetch of one post: the post as JSON when there is
    /// one, not found with a fixed text when there is none, and a server
    /// error with the reason when the fetch failed.
    pub fn post_found(found: Result<Option<Post>, Failure>) -> (r: Response)
        ensures
            r@ == ResponseView::post_found(outcome(found)),
    {
        match found {
            Ok(Some(post)) => Response::json(Status::Success, Body::Post(post)),
            Ok(None) => Response::text(
                Status::NotFound,
                Some(TEXT),
                String::from_str(POST_NOT_FOUND),
            ),
            Err(why) => Response::text(Status::InternalServerError, None, why.message()),
        }
    }

    /// The response to the deletion of a post: created when it went through,
    /// a server error when it did not.
    pub fn post_deleted(deleted: Result<(), Failure>) -> (r: Response)
        ensures
            r@ == ResponseView::post_deleted(outcome(deleted)),
    {
        match deleted {
            Ok(_) => Response::bare(Status::Created),
            Err(_) => Response::bare(Status::InternalServerError),
        }
    }
}

/// Serves `GET /api/posts` on `db`: all posts as JSON, newest first, with
/// shortened bodies.
pub fn get_posts_api(db: &Database) -> (r: Response)
    requires
        db.wf(),
    ensures
        r@ == ResponseView::posts_listed(db@.listing()),
{
    Response::posts_listed(Post::get_posts(db))
}

/// Serves `GET /api/posts/{post_id}` on `db`: the post as JSON with its whole
/// body, or not found.
pub fn get_post_api(db: &Database, post_id: String) -> (r: Response)
    requires
        db.wf(),
    ensures
        r@ == ResponseView::post_found(db@.fetch(post_id@)),
{
    Response::post_found(Post::get_post(db, post_id))
}

/// Serves `POST /api/posts` on `db`: stores a new post by a known author.
pub fn insert_post_api(db: &mut Database, request: PostRequest) -> (r: Response)
    requires
        old(db).wf(),
    ensures
        final(db).wf(),
        final(db)@ == old(db)@.create_post(request@).0,
        r@ == ResponseView::created(old(db)@.create_post(request@).1),
{
    match Post::new(db, request.user_id, request.title, request.language, request.data) {
        Ok(post) => Response::created(post.insert_db(db)),
        Err(why) => Response::created::<u64>(Err(why)),
    }
}

/// Serves `DELETE /api/posts` on `db`: deletes the post if its author asks,
/// and reports success whether or not anything was deleted.
pub fn delete_post_api(db: &mut Database, request: DeletePostRequest) -> (r: Response)
    requires
        old(db).wf(),
    ensures
        final(db).wf(),
        final(db)@ == old(db)@.remove_post(request@),
        r@ == ResponseView::bare(Status::Created),
{
    Response::post_deleted(Post::delete_post(db, request))
}

} // verus!
