//! The relational store as this backend uses it: a user directory, a table of
//! posts and a table of comments, held in memory, with the meaning of every
//! statement that the backend issues.

use crate::comment::{CommentRow, CommentRowView};
use crate::likes::LikeMode;
use crate::post::{PostRow, PostRowView};
use crate::statement::{Answer, AnswerView, Statement, StatementView};
use crate::text::{prefix, prefix_spec};
use crate::user::{User, UserView};
use vstd::prelude::*;
use vstd::string::*;

verus! {

/// The store: three tables, the counters that number new rows, and the clock
/// that stamps them.
pub struct Database {
    users: Vec<User>,
    posts: Vec<PostRow>,
    comments: Vec<CommentRow>,
    last_post_id: u64,
    last_comment_id: u32,
    clock: String,
}

/// How many characters of a post's body a listing shows.
pub const SUMMARY_LENGTH: usize = 35;

/// What the store says when it has no post identifier left to give.
pub const POST_IDS_EXHAUSTED: &'static str = "Out of range value for column 'post_id'";

/// What the store says when it has no comment identifier left to give.
pub const COMMENT_IDS_EXHAUSTED: &'static str = "Out of range value for column 'comment_id'";

/// What the store says when a like count would leave the range of its column.
pub const LIKES_OUT_OF_RANGE: &'static str = "Out of range value for column 'likes'";

/// The mathematical value of a [`Database`].
pub struct DatabaseView {
    /// The user directory: display names by user identifier.
    pub users: Map<Seq<char>, Seq<char>>,
    /// The posts, oldest first.
    pub posts: Seq<PostRowView>,
    /// The comments, oldest first.
    pub comments: Seq<CommentRowView>,
    /// The identifier that the store gave last to a post; 0 before the first.
    pub last_post_id: u64,
    /// The identifier that the store gave last to a comment; 0 before the first.
    pub last_comment_id: u32,
    /// The text that the store stamps on rows that it takes in.
    pub clock: Seq<char>,
}

/// Whether some row of `users` carries the identifier `id`.
spec fn holds_user(users: Seq<User>, id: Seq<char>) -> bool {
    exists|i: int| 0 <= i < users.len() && (#[trigger] users[i]).user_id@ == id
}

/// The position of a row of `users` that carries the identifier `id`.
spec fn user_position(users: Seq<User>, id: Seq<char>) -> int {
    choose|i: int| 0 <= i < users.len() && (#[trigger] users[i]).user_id@ == id
}

/// Whether no two rows of `users` carry the same identifier.
spec fn distinct_users(users: Seq<User>) -> bool {
    forall|i: int, j: int|
        0 <= i < j < users.len() ==> (#[trigger] users[i]).user_id@ != (#[trigger] users[j]).user_id@
}

/// The directory that the rows `users` stand for.
spec fn directory(users: Seq<User>) -> Map<Seq<char>, Seq<char>> {
    Map::new(
        |id: Seq<char>| holds_user(users, id),
        |id: Seq<char>| users[user_position(users, id)].user_name@,
    )
}

/// In a table without duplicates, the directory maps the identifier of each
/// row to the name in that row.
proof fn lemma_directory_row(users: Seq<User>, i: int)
    requires
        distinct_users(users),
        0 <= i < users.len(),
    ensures
        directory(users).contains_key(users[i].user_id@),
        directory(users)[users[i].user_id@] == users[i].user_name@,
{
    let id = users[i].user_id@;
    assert(holds_user(users, id));
    let p = user_position(users, id);
    assert(p == i);
}

impl View for Database {
    type V = DatabaseView;

    closed spec fn view(&self) -> DatabaseView {
        DatabaseView {
            users: directory(self.users@),
            posts: self.posts.deep_view(),
            comments: self.comments.deep_view(),
            last_post_id: self.last_post_id,
            last_comment_id: self.last_comment_id,
            clock: self.clock@,
        }
    }
}

impl PostRowView {
    /// The row as a listing shows it: the body cut down to its first
    /// `SUMMARY_LENGTH` characters.
    pub open spec fn summary(self) -> PostRowView {
        PostRowView { data: prefix_spec(self.data, SUMMARY_LENGTH as nat), ..self }
    }

    /// The row with its like count moved one step in the direction of `mode`.
    pub open spec fn liked(self, mode: LikeMode) -> PostRowView {
        PostRowView { likes: (self.likes + mode.delta()) as i64, ..self }
    }

    /// Whether the like count can move one step in the direction of `mode`
    /// without leaving the range of its column.
    pub open spec fn likes_fit(self, mode: LikeMode) -> bool {
        i64::MIN <= self.likes + mode.delta() <= i64::MAX
    }
}

/// The comments on post `post_id` among `rows`, the last of `rows` first.
pub open spec fn comments_on(rows: Seq<CommentRowView>, post_id: u32) -> Seq<CommentRowView>
    decreases rows.len(),
{
    if rows.len() == 0 {
        Seq::empty()
    } else if rows.last().post_id == post_id {
        seq![rows.last()] + comments_on(rows.drop_last(), post_id)
    } else {
        comments_on(rows.drop_last(), post_id)
    }
}

/// Whether the identifiers of `posts` grow from each row to the next and none
/// is above `last`.
pub open spec fn posts_in_order(posts: Seq<PostRowView>, last: u64) -> bool {
    &&& forall|i: int, j: int|
        0 <= i < j < posts.len() ==> (#[trigger] posts[i]).post_id < (#[trigger] posts[j]).post_id
    &&& forall|i: int| 0 <= i < posts.len() ==> (#[trigger] posts[i]).post_id <= last
}

/// Whether every row of `comments` has an identifier, the identifiers grow
/// from each row to the next and none is above `last`.
pub open spec fn comments_in_order(comments: Seq<CommentRowView>, last: u32) -> bool {
    &&& forall|i: int| 0 <= i < comments.len() ==> (#[trigger] comments[i]).comment_id is Some
    &&& forall|i: int, j: int|
        0 <= i < j < comments.len() ==> (#[trigger] comments[i]).comment_id->0 < (
        #[trigger] comments[j]).comment_id->0
    &&& forall|i: int| 0 <= i < comments.len() ==> (#[trigger] comments[i]).comment_id->0 <= last
}

impl DatabaseView {
    /// What holds of the value of every consistent store: identifiers grow
    /// along each table and none is above the last one given.
    pub open spec fn valid(self) -> bool {
        &&& posts_in_order(self.posts, self.last_post_id)
        &&& comments_in_order(self.comments, self.last_comment_id)
    }

    /// Whether a post with the identifier `post_id` is stored.
    pub open spec fn has_post(self, post_id: u64) -> bool {
        exists|i: int| 0 <= i < self.posts.len() && (#[trigger] self.posts[i]).post_id == post_id
    }

    /// The position of the post with the identifier `post_id`.
    pub open spec fn post_position(self, post_id: u64) -> int {
        choose|i: int| 0 <= i < self.posts.len() && (#[trigger] self.posts[i]).post_id == post_id
    }

    /// The post with the identifier `post_id`, if it is stored.
    pub open spec fn post(self, post_id: u64) -> Option<PostRowView> {
        if self.has_post(post_id) {
            Some(self.posts[self.post_position(post_id)])
        } else {
            None
        }
    }

    /// All posts, newest first, each with its body cut down for a listing.
    pub open spec fn summaries(self) -> Seq<PostRowView> {
        Seq::new(self.posts.len(), |i: int| self.posts[self.posts.len() - 1 - i].summary())
    }

    /// Whether the store has an identifier left for one more post.
    pub open spec fn accepts_post(self) -> bool {
        self.last_post_id < u64::MAX
    }

    /// The row that a new post with these columns becomes.
    pub open spec fn new_post(
        self,
        user_id: Seq<char>,
        title: Seq<char>,
        language: Seq<char>,
        data: Seq<char>,
        likes: i64,
        report_count: u64,
    ) -> PostRowView {
        PostRowView {
            post_id: (self.last_post_id + 1) as u64,
            user_id,
            title,
            language,
            data,
            likes,
            report_count,
            create_at: self.clock,
        }
    }

    /// The store after it took in `row` as its newest post.
    pub open spec fn with_post(self, row: PostRowView) -> DatabaseView {
        DatabaseView { posts: self.posts.push(row), last_post_id: row.post_id, ..self }
    }

    /// Whether the post `post_id` is stored and was written by `user_id`.
    pub open spec fn has_post_by(self, user_id: Seq<char>, post_id: u64) -> bool {
        self.has_post(post_id) && self.posts[self.post_position(post_id)].user_id == user_id
    }

    /// The store after the post `post_id` of author `user_id` was deleted:
    /// unchanged when no stored post has both.
    pub open spec fn without_post(self, user_id: Seq<char>, post_id: u64) -> DatabaseView {
        if self.has_post_by(user_id, post_id) {
            DatabaseView { posts: self.posts.remove(self.post_position(post_id)), ..self }
        } else {
            self
        }
    }

    /// Whether the like count of post `post_id` can move one step in the
    /// direction of `mode`; true when no such post is stored.
    pub open spec fn likes_fit(self, post_id: u64, mode: LikeMode) -> bool {
        self.has_post(post_id) ==> self.posts[self.post_position(post_id)].likes_fit(mode)
    }

    /// The store after the like count of post `post_id` moved one step in the
    /// direction of `mode`: unchanged when no such post is stored.
    pub open spec fn with_like(self, post_id: u64, mode: LikeMode) -> DatabaseView {
        if self.has_post(post_id) {
            let i = self.post_position(post_id);
            DatabaseView { posts: self.posts.update(i, self.posts[i].liked(mode)), ..self }
        } else {
            self
        }
    }

    /// The comments on post `post_id`, newest first.
    pub open spec fn comments_of(self, post_id: u32) -> Seq<CommentRowView> {
        comments_on(self.comments, post_id)
    }

    /// Whether the store has an identifier left for one more comment.
    pub open spec fn accepts_comment(self) -> bool {
        self.last_comment_id < u32::MAX
    }

    /// The row that a new comment with these columns becomes.
    pub open spec fn new_comment(
        self,
        post_id: u32,
        user_id: Seq<char>,
        data: Seq<char>,
    ) -> CommentRowView {
        CommentRowView {
            comment_id: Some((self.last_comment_id + 1) as u32),
            post_id,
            user_id,
            data,
            create_at: Some(self.clock),
        }
    }

    /// The store after it took in `row` as its newest comment.
    pub open spec fn with_comment(self, row: CommentRowView) -> DatabaseView {
        DatabaseView {
            comments: self.comments.push(row),
            last_comment_id: row.comment_id->0,
            ..self
        }
    }

    /// The store after its clock was set to `now`.
    pub open spec fn at(self, now: Seq<char>) -> DatabaseView {
        DatabaseView { clock: now, ..self }
    }

    /// The store that holds nothing and has given no identifier yet.
    pub open spec fn empty() -> DatabaseView {
        DatabaseView {
            users: Map::empty(),
            posts: Seq::empty(),
            comments: Seq::empty(),
            last_post_id: 0,
            last_comment_id: 0,
            clock: Seq::empty(),
        }
    }

    /// What the store does with a statement: the store afterwards, and the
    /// answer it gives.
    pub open spec fn perform(self, statement: StatementView) -> (DatabaseView, AnswerView) {
        match statement {
            StatementView::SelectUser { user_id } => (
                self,
                AnswerView::Users(
                    match self.user(user_id) {
                        Some(user) => seq![user],
                        None => seq![],
                    },
                ),
            ),
            StatementView::ReplaceUser { user_id, user_name } => (
                self.with_user(UserView { user_id, user_name }),
                AnswerView::Done(0),
            ),
            StatementView::DeleteUser { user_id } => (
                self.without_user(user_id),
                AnswerView::Done(0),
            ),
            StatementView::SelectPosts => (self, AnswerView::Posts(self.summaries())),
            StatementView::SelectPost { post_id } => (
                self,
                AnswerView::Posts(
                    match self.post(post_id) {
                        Some(row) => seq![row],
                        None => seq![],
                    },
                ),
            ),
            StatementView::InsertPost { user_id, title, language, data, likes, report_count } => {
                if self.accepts_post() {
                    let row = self.new_post(user_id, title, language, data, likes, report_count);
                    (self.with_post(row), AnswerView::Done(row.post_id))
                } else {
                    (self, AnswerView::Failed(POST_IDS_EXHAUSTED@))
                }
            },
            StatementView::DeletePost { user_id, post_id } => (
                self.without_post(user_id, post_id),
                AnswerView::Done(0),
            ),
            StatementView::UpdateLikes { post_id, mode } => {
                if post_id < 0 {
                    (self, AnswerView::Done(0))
                } else if self.likes_fit(post_id as u64, mode) {
                    (self.with_like(post_id as u64, mode), AnswerView::Done(0))
                } else {
                    (self, AnswerView::Failed(LIKES_OUT_OF_RANGE@))
                }
            },
            StatementView::SelectComments { post_id } => (
                self,
                AnswerView::Comments(self.comments_of(post_id)),
            ),
            StatementView::InsertComment { post_id, user_id, data } => {
                if self.accepts_comment() {
                    let row = self.new_comment(post_id, user_id, data);
                    (self.with_comment(row), AnswerView::Done(row.comment_id->0 as u64))
                } else {
                    (self, AnswerView::Failed(COMMENT_IDS_EXHAUSTED@))
                }
            },
        }
    }

    /// The user that the directory holds under `id`, if any.
    pub open spec fn user(self, id: Seq<char>) -> Option<UserView> {
        if self.users.contains_key(id) {
            Some(UserView { user_id: id, user_name: self.users[id] })
        } else {
            None
        }
    }

    /// The store after `user` was written: a new entry, or a new name for the
    /// entry that was there.
    pub open spec fn with_user(self, user: UserView) -> DatabaseView {
        DatabaseView { users: self.users.insert(user.user_id, user.user_name), ..self }
    }

    /// The store after the user `id` was removed.
    pub open spec fn without_user(self, id: Seq<char>) -> DatabaseView {
        DatabaseView { users: self.users.remove(id), ..self }
    }
}

impl Database {
    /// Whether the tables are consistent: every operation needs this of the
    /// store it starts from and keeps it.
    pub closed spec fn wf(&self) -> bool {
        distinct_users(self.users@) && self@.valid()
    }

    /// The value of a consistent store is valid.
    pub proof fn lemma_wf_valid(&self)
        requires
            self.wf(),
        ensures
            self@.valid(),
    {
    }

    /// An empty store whose clock shows the empty text.
    pub fn new() -> (db: Database)
        ensures
            db.wf(),
            db@ == DatabaseView::empty(),
    {
        let db = Database {
            users: Vec::new(),
            posts: Vec::new(),
            comments: Vec::new(),
            last_post_id: 0,
            last_comment_id: 0,
            clock: String::new(),
        };
        assert(db@.users =~= Map::<Seq<char>, Seq<char>>::empty());
        assert(db@.posts =~= Seq::<PostRowView>::empty());
        assert(db@.comments =~= Seq::<CommentRowView>::empty());
        db
    }

    /// Sets the clock: rows taken in from now on are stamped with `now`.
    pub fn set_clock(&mut self, now: String)
        requires
            old(self).wf(),
        ensures
            final(self).wf(),
            final(self)@ == old(self)@.at(now@),
    {
        self.clock = now;
    }

    /// Where the row of user `user_id` stands, if there is one.
    fn user_row(&self, user_id: &String) -> (r: Option<usize>)
        ensures
            match r {
                Some(i) => i < self.users.len() && self.users[i as int].user_id@ == user_id@,
                None => !holds_user(self.users@, user_id@),
            },
    {
        let mut i: usize = 0;
        while i < self.users.len()
            invariant
                0 <= i <= self.users.len(),
                forall|j: int| 0 <= j < i ==> (#[trigger] self.users[j]).user_id@ != user_id@,
            decreases self.users.len() - i,
        {
            if self.users[i].user_id == *user_id {
                return Some(i);
            }
            i = i + 1;
        }
        None
    }

    /// Looks `user_id` up in the directory.
    pub fn select_user(&self, user_id: &String) -> (r: Option<User>)
        requires
            self.wf(),
        ensures
            r.deep_view() == self@.user(user_id@),
    {
        match self.user_row(user_id) {
            Some(i) => {
                proof {
                    lemma_directory_row(self.users@, i as int);
                }
                Some(self.users[i].clone())
            },
            None => None,
        }
    }

    /// Writes `user` into the directory, in place of the entry with the same
    /// identifier if there is one.
    pub fn replace_user(&mut self, user: User)
        requires
            old(self).wf(),
        ensures
            final(self).wf(),
            final(self)@ == old(self)@.with_user(user@),
    {
        let ghost before = self.users@;
        match self.user_row(&user.user_id) {
            Some(i) => {
                self.users[i] = user;
                proof {
                    let after = self.users@;
                    assert(distinct_users(after));
                    assert forall|id: Seq<char>| holds_user(after, id) <==> (id == user.user_id@
                        || holds_user(before, id)) by {
                        if holds_user(after, id) {
                            let p = user_position(after, id);
                            assert(before[p].user_id@ == id);
                        }
                        if holds_user(before, id) {
                            let p = user_position(before, id);
                            assert(after[p].user_id@ == id);
                        }
                        if id == user.user_id@ {
                            assert(after[i as int].user_id@ == id);
                        }
                    }
                    assert forall|id: Seq<char>| holds_user(after, id) implies directory(after)[id]
                        == directory(before).insert(user.user_id@, user.user_name@)[id] by {
                        let p = user_position(after, id);
                        lemma_directory_row(after, p);
                        if p != i {
                            lemma_directory_row(before, p);
                        }
                    }
                    assert(directory(after) =~= directory(before).insert(
                        user.user_id@,
                        user.user_name@,
                    ));
                }
            },
            None => {
                self.users.push(user);
                proof {
                    let after = self.users@;
                    let n = before.len() as int;
                    assert(distinct_users(after)) by {
                        assert forall|a: int, b: int| 0 <= a < b < after.len() implies (
                        #[trigger] after[a]).user_id@ != (#[trigger] after[b]).user_id@ by {
                            if b == n {
                                assert(before[a].user_id@ != user.user_id@);
                            }
                        }
                    }
                    assert forall|id: Seq<char>| holds_user(after, id) <==> (id == user.user_id@
                        || holds_user(before, id)) by {
                        if holds_user(after, id) {
                            let p = user_position(after, id);
                            if p < n {
                                assert(before[p].user_id@ == id);
                            }
                        }
                        if holds_user(before, id) {
                            let p = user_position(before, id);
                            assert(after[p].user_id@ == id);
                        }
                        if id == user.user_id@ {
                            assert(after[n].user_id@ == id);
                        }
                    }
                    assert forall|id: Seq<char>| holds_user(after, id) implies directory(after)[id]
                        == directory(before).insert(user.user_id@, user.user_name@)[id] by {
                        let p = user_position(after, id);
                        lemma_directory_row(after, p);
                        if p < n {
                            lemma_directory_row(before, p);
                        }
                    }
                    assert(directory(after) =~= directory(before).insert(
                        user.user_id@,
                        user.user_name@,
                    ));
                }
            },
        }
    }

    /// Removes the user `user_id` from the directory; nothing changes when
    /// there is no such user.
    pub fn delete_user(&mut self, user_id: &String)
        requires
            old(self).wf(),
        ensures
            final(self).wf(),
            final(self)@ == old(self)@.without_user(user_id@),
    {
        let ghost before = self.users@;
        match self.user_row(user_id) {
            Some(i) => {
                self.users.remove(i);
                proof {
                    let after = self.users@;
                    assert forall|a: int| 0 <= a < after.len() implies #[trigger] after[a]
                        == before[if a < i { a } else { a + 1 }] by {}
                    assert(distinct_users(after)) by {
                        assert forall|a: int, b: int| 0 <= a < b < after.len() implies (
                        #[trigger] after[a]).user_id@ != (#[trigger] after[b]).user_id@ by {
                            let a0 = if a < i { a } else { a + 1 };
                            let b0 = if b < i { b } else { b + 1 };
                            assert(before[a0].user_id@ != before[b0].user_id@);
                        }
                    }
                    assert forall|id: Seq<char>| holds_user(after, id) <==> (id != user_id@
                        && holds_user(before, id)) by {
                        if holds_user(after, id) {
                            let p = user_position(after, id);
                            let p0 = if p < i { p } else { p + 1 };
                            assert(before[p0].user_id@ == id);
                            assert(before[i as int].user_id@ == user_id@);
                        }
                        if id != user_id@ && holds_user(before, id) {
                            let p = user_position(before, id);
                            let q = if p < i { p } else { p - 1 };
                            assert(after[q].user_id@ == id);
                        }
                    }
                    assert forall|id: Seq<char>| holds_user(after, id) implies directory(after)[id]
                        == directory(before).remove(user_id@)[id] by {
                        let p = user_position(after, id);
                        let p0 = if p < i { p } else { p + 1 };
                        lemma_directory_row(after, p);
                        lemma_directory_row(before, p0);
                    }
                    assert(directory(after) =~= directory(before).remove(user_id@));
                }
            },
            None => {
                proof {
                    assert(directory(before) =~= directory(before).remove(user_id@));
                }
            },
        }
    }

    /// Where the row of post `post_id` stands, if there is one.
    fn post_row(&self, post_id: u64) -> (r: Option<usize>)
        requires
            self.wf(),
        ensures
            match r {
                Some(i) => i < self.posts.len() && self@.has_post(post_id) && self@.post_position(
                    post_id,
                ) == i,
                None => !self@.has_post(post_id),
            },
    {
        let mut i: usize = 0;
        while i < self.posts.len()
            invariant
                self.wf(),
                0 <= i <= self.posts.len(),
                forall|j: int| 0 <= j < i ==> (#[trigger] self@.posts[j]).post_id != post_id,
            decreases self.posts.len() - i,
        {
            if self.posts[i].post_id == post_id {
                proof {
                    let here = i as int;
                    assert(self@.posts[here].post_id == post_id);
                    assert(self@.has_post(post_id));
                    let p = self@.post_position(post_id);
                    if p < here {
                        assert(self@.posts[p].post_id < self@.posts[here].post_id);
                    }
                    if here < p {
                        assert(self@.posts[here].post_id < self@.posts[p].post_id);
                    }
                }
                return Some(i);
            }
            i = i + 1;
        }
        None
    }

    /// Reads the post `post_id`, with its whole body.
    pub fn select_post(&self, post_id: u64) -> (r: Option<PostRow>)
        requires
            self.wf(),
        ensures
            r.deep_view() == self@.post(post_id),
    {
        match self.post_row(post_id) {
            Some(i) => Some(self.posts[i].clone()),
            None => None,
        }
    }

    /// Reads all posts for a listing: newest first, each body cut down to its
    /// first `SUMMARY_LENGTH` characters.
    pub fn select_posts(&self) -> (r: Vec<PostRow>)
        requires
            self.wf(),
        ensures
            r.deep_view() == self@.summaries(),
    {
        let n: usize = self.posts.len();
        let mut out: Vec<PostRow> = Vec::new();
        let mut k: usize = 0;
        while k < n
            invariant
                0 <= k <= n,
                n == self.posts.len(),
                out.len() == k,
                forall|j: int| 0 <= j < k ==> (#[trigger] out[j])@ == self@.posts[n - 1 - j].summary(),
            decreases n - k,
        {
            let row = &self.posts[n - 1 - k];
            out.push(
                PostRow {
                    post_id: row.post_id,
                    user_id: row.user_id.clone(),
                    title: row.title.clone(),
                    language: row.language.clone(),
                    data: prefix(&row.data, SUMMARY_LENGTH),
                    likes: row.likes,
                    report_count: row.report_count,
                    create_at: row.create_at.clone(),
                },
            );
            k = k + 1;
        }
        assert(out.deep_view() =~= self@.summaries());
        out
    }

    /// Takes in a new post. It gets the identifier after the last one given
    /// and the time that the clock shows. Fails, and changes nothing, when no
    /// identifier is left.
    pub fn insert_post(
        &mut self,
        user_id: String,
        title: String,
        language: String,
        data: String,
        likes: i64,
        report_count: u64,
    ) -> (r: Result<u64, String>)
        requires
            old(self).wf(),
        ensures
            final(self).wf(),
            old(self)@.accepts_post() ==> r == Ok::<u64, String>(
                (old(self)@.last_post_id + 1) as u64,
            ) && final(self)@ == old(self)@.with_post(
                old(self)@.new_post(user_id@, title@, language@, data@, likes, report_count),
            ),
            !old(self)@.accepts_post() ==> final(self)@ == old(self)@ && (r matches Err(e) && e@
                == POST_IDS_EXHAUSTED@),
    {
        if self.last_post_id == u64::MAX {
            return Err(String::from_str(POST_IDS_EXHAUSTED));
        }
        let ghost before = self@;
        let post_id: u64 = self.last_post_id + 1;
        let row = PostRow {
            post_id,
            user_id,
            title,
            language,
            data,
            likes,
            report_count,
            create_at: self.clock.clone(),
        };
        self.posts.push(row);
        self.last_post_id = post_id;
        assert(self@.posts =~= before.posts.push(row@));
        Ok(post_id)
    }

    /// Deletes the post `post_id` if `user_id` wrote it; nothing changes when
    /// no stored post has both.
    pub fn delete_post(&mut self, user_id: &String, post_id: u64)
        requires
            old(self).wf(),
        ensures
            final(self).wf(),
            final(self)@ == old(self)@.without_post(user_id@, post_id),
    {
        let ghost before = self@;
        match self.post_row(post_id) {
            Some(i) => {
                if self.posts[i].user_id == *user_id {
                    self.posts.remove(i);
                    assert(self@.posts =~= before.posts.remove(i as int));
                }
            },
            None => {},
        }
    }

    /// Moves the like count of post `post_id` one step in the direction of
    /// `mode`. Nothing changes when no such post is stored, and that is no
    /// failure. Fails, and changes nothing, when the count would leave the
    /// range of its column.
    pub fn update_likes(&mut self, post_id: u64, mode: LikeMode) -> (r: Result<(), String>)
        requires
            old(self).wf(),
        ensures
            final(self).wf(),
            old(self)@.likes_fit(post_id, mode) ==> r is Ok && final(self)@ == old(self)@.with_like(
                post_id,
                mode,
            ),
            !old(self)@.likes_fit(post_id, mode) ==> final(self)@ == old(self)@ && (
            r matches Err(e) && e@ == LIKES_OUT_OF_RANGE@),
    {
        let ghost before = self@;
        match self.post_row(post_id) {
            Some(i) => {
                let likes: i64 = self.posts[i].likes;
                let moved: Option<i64> = match mode {
                    LikeMode::Increment => likes.checked_add(1),
                    LikeMode::Decrement => likes.checked_sub(1),
                };
                match moved {
                    Some(likes) => {
                        let mut row = self.posts[i].clone();
                        row.likes = likes;
                        self.posts[i] = row;
                        assert(self@.posts =~= before.posts.update(
                            i as int,
                            before.posts[i as int].liked(mode),
                        ));
                        Ok(())
                    },
                    None => Err(String::from_str(LIKES_OUT_OF_RANGE)),
                }
            },
            None => Ok(()),
        }
    }

    /// Reads the comments on post `post_id`, newest first.
    pub fn select_comments(&self, post_id: u32) -> (r: Vec<CommentRow>)
        requires
            self.wf(),
        ensures
            r.deep_view() == self@.comments_of(post_id),
    {
        let mut out: Vec<CommentRow> = Vec::new();
        let mut k: usize = self.comments.len();
        assert(self@.comments.take(k as int) =~= self@.comments);
        while k > 0
            invariant
                0 <= k <= self.comments.len(),
                self@.comments_of(post_id) == out.deep_view() + comments_on(
                    self@.comments.take(k as int),
                    post_id,
                ),
            decreases k,
        {
            let ghost rows = self@.comments.take(k as int);
            let ghost shown = out.deep_view();
            k = k - 1;
            assert(rows.drop_last() =~= self@.comments.take(k as int));
            assert(rows.last() == self.comments[k as int]@);
            if self.comments[k].post_id == post_id {
                out.push(self.comments[k].clone());
                assert(out.deep_view() =~= shown + seq![rows.last()]);
                assert(shown + (seq![rows.last()] + comments_on(rows.drop_last(), post_id))
                    =~= (shown + seq![rows.last()]) + comments_on(rows.drop_last(), post_id));
            }
        }
        assert(out.deep_view() + Seq::<CommentRowView>::empty() =~= out.deep_view());
        out
    }

    /// Takes in a new comment. It gets the identifier after the last one given
    /// and the time that the clock shows. Fails, and changes nothing, when no
    /// identifier is left.
    pub fn insert_comment(&mut self, post_id: u32, user_id: String, data: String) -> (r: Result<
        u32,
        String,
    >)
        requires
            old(self).wf(),
        ensures
            final(self).wf(),
            old(self)@.accepts_comment() ==> r == Ok::<u32, String>(
                (old(self)@.last_comment_id + 1) as u32,
            ) && final(self)@ == old(self)@.with_comment(
                old(self)@.new_comment(post_id, user_id@, data@),
            ),
            !old(self)@.accepts_comment() ==> final(self)@ == old(self)@ && (r matches Err(e)
                && e@ == COMMENT_IDS_EXHAUSTED@),
    {
        if self.last_comment_id == u32::MAX {
            return Err(String::from_str(COMMENT_IDS_EXHAUSTED));
        }
        let ghost before = self@;
        let comment_id: u32 = self.last_comment_id + 1;
        let row = CommentRow {
            comment_id: Some(comment_id),
            post_id,
            user_id,
            data,
            create_at: Some(self.clock.clone()),
        };
        self.comments.push(row);
        self.last_comment_id = comment_id;
        assert(self@.comments =~= before.comments.push(row@));
        Ok(comment_id)
    }

    /// Carries out a statement and gives the store's answer.
    pub fn perform(&mut self, statement: Statement) -> (answer: Answer)
        requires
            old(self).wf(),
        ensures
            final(self).wf(),
            (final(self)@, answer@) == old(self)@.perform(statement@),
    {
        match statement {
            Statement::SelectUser { user_id } => {
                let mut rows: Vec<User> = Vec::new();
                match self.select_user(&user_id) {
                    Some(user) => {
                        rows.push(user);
                        assert(rows.deep_view() =~= seq![user@]);
                    },
                    None => {
                        assert(rows.deep_view() =~= Seq::<UserView>::empty());
                    },
                }
                Answer::Users(rows)
            },
            Statement::ReplaceUser { user_id, user_name } => {
                self.replace_user(User { user_id, user_name });
                Answer::Done(0)
            },
            Statement::DeleteUser { user_id } => {
                self.delete_user(&user_id);
                Answer::Done(0)
            },
            Statement::SelectPosts => Answer::Posts(self.select_posts()),
            Statement::SelectPost { post_id } => {
                let mut rows: Vec<PostRow> = Vec::new();
                match self.select_post(post_id) {
                    Some(row) => {
                        rows.push(row);
                        assert(rows.deep_view() =~= seq![row@]);
                    },
                    None => {
                        assert(rows.deep_view() =~= Seq::<PostRowView>::empty());
                    },
                }
                Answer::Posts(rows)
            },
            Statement::InsertPost { user_id, title, language, data, likes, report_count } => {
                match self.insert_post(user_id, title, language, data, likes, report_count) {
                    Ok(post_id) => Answer::Done(post_id),
                    Err(why) => Answer::Failed(why),
                }
            },
            Statement::DeletePost { user_id, post_id } => {
                self.delete_post(&user_id, post_id);
                Answer::Done(0)
            },
            Statement::UpdateLikes { post_id, mode } => {
                if post_id < 0 {
                    Answer::Done(0)
                } else {
                    match self.update_likes(post_id as u64, mode) {
                        Ok(()) => Answer::Done(0),
                        Err(why) => Answer::Failed(why),
                    }
                }
            },
            Statement::SelectComments { post_id } => Answer::Comments(self.select_comments(post_id)),
            Statement::InsertComment { post_id, user_id, data } => {
                match self.insert_comment(post_id, user_id, data) {
                    Ok(comment_id) => Answer::Done(comment_id as u64),
                    Err(why) => Answer::Failed(why),
                }
            },
        }
    }
}

} // verus!
