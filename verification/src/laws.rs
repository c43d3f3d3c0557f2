//! What holds of the backend whatever it stores: laws over the values of the
//! store, stated with the functions that the contracts of the operations use.

use crate::comment::{CommentRequestView, CommentRowView, CommentView};
use crate::failure::FailureView;
use crate::likes::{LikeMode, LikeRequest};
use crate::post::{DeletePostRequestView, PostView};
use crate::exchange::RequestView;
use crate::statement::StatementView;
use crate::store::{comments_in_order, comments_on, DatabaseView, SUMMARY_LENGTH};
use crate::text::{parse_u64_spec, prefix_spec};
use crate::user::UserView;
use vstd::prelude::*;

verus! {

/// Writing a user twice under one identifier leaves what the second write
/// alone would have left: one entry, with the second name. A lookup then
/// finds the identifier with the second name.
pub proof fn law_second_write_wins(
    db: DatabaseView,
    user_id: Seq<char>,
    first_name: Seq<char>,
    second_name: Seq<char>,
)
    ensures
        db.with_user(UserView { user_id, user_name: first_name }).with_user(
            UserView { user_id, user_name: second_name },
        ) == db.with_user(UserView { user_id, user_name: second_name }),
        db.with_user(UserView { user_id, user_name: first_name }).with_user(
            UserView { user_id, user_name: second_name },
        ).user(user_id) == Some(UserView { user_id, user_name: second_name }),
        db.with_user(UserView { user_id, user_name: first_name }).with_user(
            UserView { user_id, user_name: second_name },
        ).users.dom() == db.users.dom().insert(user_id),
{
    let once = db.with_user(UserView { user_id, user_name: second_name });
    let twice = db.with_user(UserView { user_id, user_name: first_name }).with_user(
        UserView { user_id, user_name: second_name },
    );
    assert(twice.users =~= once.users);
    assert(twice.users.dom() =~= db.users.dom().insert(user_id));
}

/// Removing a user that the directory does not hold changes nothing.
pub proof fn law_removing_absent_user_changes_nothing(db: DatabaseView, user_id: Seq<char>)
    requires
        !db.users.contains_key(user_id),
    ensures
        db.without_user(user_id) == db,
{
    assert(db.users.remove(user_id) =~= db.users);
}

/// Deleting a post changes nothing when the request names no stored post
/// together with its author: no post of that number, another author, or an
/// identifier that is no decimal number.
pub proof fn law_deleting_absent_post_changes_nothing(
    db: DatabaseView,
    request: DeletePostRequestView,
)
    requires
        forall|id: u64|
            parse_u64_spec(request.post_id) == Some(id) ==> !db.has_post_by(request.user_id, id),
    ensures
        db.remove_post(request) == db,
{
}

/// In a valid store every stored post is found under its own identifier.
pub proof fn lemma_post_at(db: DatabaseView, i: int)
    requires
        db.valid(),
        0 <= i < db.posts.len(),
    ensures
        db.has_post(db.posts[i].post_id),
        db.post_position(db.posts[i].post_id) == i,
        db.post(db.posts[i].post_id) == Some(db.posts[i]),
{
    let id = db.posts[i].post_id;
    assert(db.has_post(id));
    let p = db.post_position(id);
    if p < i {
        assert(db.posts[p].post_id < db.posts[i].post_id);
    }
    if i < p {
        assert(db.posts[i].post_id < db.posts[p].post_id);
    }
}

/// Whatever statement a valid store carries out, it is valid afterwards:
/// identifiers still grow along each table, and none is above the last one
/// given.
pub proof fn law_statements_keep_the_store_valid(db: DatabaseView, statement: StatementView)
    requires
        db.valid(),
    ensures
        db.perform(statement).0.valid(),
{
    let after = db.perform(statement).0;
    match statement {
        StatementView::DeletePost { user_id, post_id } => {
            if db.has_post_by(user_id, post_id) {
                let p = db.post_position(post_id);
                assert forall|i: int, j: int| 0 <= i < j < after.posts.len() implies (
                #[trigger] after.posts[i]).post_id < (#[trigger] after.posts[j]).post_id by {
                    let i0 = if i < p { i } else { i + 1 };
                    let j0 = if j < p { j } else { j + 1 };
                    assert(db.posts[i0].post_id < db.posts[j0].post_id);
                }
                assert forall|i: int| 0 <= i < after.posts.len() implies (
                #[trigger] after.posts[i]).post_id <= after.last_post_id by {
                    let i0 = if i < p { i } else { i + 1 };
                    assert(db.posts[i0].post_id <= db.last_post_id);
                }
            }
        },
        _ => {},
    }
}

/// Whatever request a valid store serves, it is valid afterwards.
pub proof fn law_requests_keep_the_store_valid(db: DatabaseView, request: RequestView)
    requires
        db.valid(),
    ensures
        db.serve(request).0.valid(),
{
    match request {
        RequestView::DeletePost(deletion) => {
            match parse_u64_spec(deletion.post_id) {
                Some(post_id) => {
                    law_statements_keep_the_store_valid(
                        db,
                        StatementView::DeletePost { user_id: deletion.user_id, post_id },
                    );
                },
                None => {},
            }
        },
        _ => {},
    }
}

/// The listing holds every stored post once, newest first: identifiers fall
/// from each entry to the next.
pub proof fn law_listing_newest_first(db: DatabaseView)
    requires
        db.valid(),
        db.listing() is Ok,
    ensures
        db.listing()->Ok_0.len() == db.posts.len(),
        forall|i: int, j: int|
            0 <= i < j < db.listing()->Ok_0.len() ==> (#[trigger] db.listing()->Ok_0[i]).post_id > (
            #[trigger] db.listing()->Ok_0[j]).post_id,
{
    let listed = db.listing()->Ok_0;
    let n = db.posts.len() as int;
    assert forall|i: int, j: int| 0 <= i < j < listed.len() implies (#[trigger] listed[i]).post_id
        > (#[trigger] listed[j]).post_id by {
        assert(db.posts[n - 1 - j].post_id < db.posts[n - 1 - i].post_id);
    }
}

/// Each entry of the listing is the post that a fetch of its identifier
/// returns, but for the body: the fetch returns the whole body, the listing
/// its first `SUMMARY_LENGTH` characters.
pub proof fn law_listing_shortens_what_fetch_returns(db: DatabaseView, i: int, post_id: Seq<char>)
    requires
        db.valid(),
        db.listing() is Ok,
        0 <= i < db.listing()->Ok_0.len(),
        parse_u64_spec(post_id) == Some(db.listing()->Ok_0[i].post_id),
    ensures
        db.fetch(post_id) matches Ok(Some(whole)) && db.post(whole.post_id) matches Some(row)
            && whole.data == row.data && db.listing()->Ok_0[i] == (PostView {
            data: prefix_spec(whole.data, SUMMARY_LENGTH as nat),
            ..whole
        }),
{
    let n = db.posts.len() as int;
    let rows = db.summaries();
    assert(db.users.contains_key(rows[i].user_id));
    lemma_post_at(db, n - 1 - i);
}

/// One like more and then one like fewer on the same post leaves the store as
/// it was, and both steps go through. Left out: a stored post whose count is
/// the largest that its column holds, on which the first step fails.
pub proof fn law_like_round_trip(db: DatabaseView, post_id: i64)
    requires
        db.valid(),
        post_id >= 0 && db.has_post(post_id as u64) ==> db.post(post_id as u64)->0.likes
            < i64::MAX,
    ensures
        db.adjust(LikeRequest { post_id, mode: LikeMode::Increment }).1 is Ok,
        db.adjust(LikeRequest { post_id, mode: LikeMode::Increment }).0.adjust(
            LikeRequest { post_id, mode: LikeMode::Decrement },
        ) == (db, Ok::<(), FailureView>(())),
{
    if post_id >= 0 && db.has_post(post_id as u64) {
        let id = post_id as u64;
        let i = db.post_position(id);
        let up = db.with_like(id, LikeMode::Increment);
        assert(up.posts[i].post_id == id);
        assert(up.valid());
        lemma_post_at(up, i);
        let down = up.with_like(id, LikeMode::Decrement);
        assert(down.posts =~= db.posts);
    }
}

/// Nothing keeps a like count at zero: one like fewer on a post without likes
/// goes through and leaves it with minus one.
pub proof fn law_likes_go_below_zero(db: DatabaseView, post_id: i64)
    requires
        db.valid(),
        post_id >= 0,
        db.has_post(post_id as u64),
        db.post(post_id as u64)->0.likes == 0,
    ensures
        db.adjust(LikeRequest { post_id, mode: LikeMode::Decrement }).1 is Ok,
        db.adjust(LikeRequest { post_id, mode: LikeMode::Decrement }).0.post(post_id as u64)
            matches Some(row) && row.likes == -1,
{
    let id = post_id as u64;
    let i = db.post_position(id);
    let down = db.with_like(id, LikeMode::Decrement);
    assert(down.posts[i].post_id == id);
    assert(down.valid());
    lemma_post_at(down, i);
}

/// A comment by a known author goes in with the next identifier and the time
/// of the store's clock, and leads the comments on its post from then on. As
/// readers see it, it carries the display name that the directory held for
/// the author when it was created. Left out: a store that has no comment
/// identifier left, which takes no comment in.
pub proof fn law_new_comment_comes_first(db: DatabaseView, request: CommentRequestView)
    requires
        db.valid(),
        db.users.contains_key(request.user_id),
        db.accepts_comment(),
    ensures
        db.create_comment(request).1 == Ok::<u32, FailureView>((db.last_comment_id + 1) as u32),
        db.create_comment(request).0.valid(),
        db.create_comment(request).0.comments_of(request.post_id) == seq![
            db.new_comment(request.post_id, request.user_id, request.data),
        ] + db.comments_of(request.post_id),
        db.thread(request.post_id) matches Ok(before) ==> db.create_comment(request).0.thread(
            request.post_id,
        ) == Ok::<Seq<CommentView>, FailureView>(
            seq![
                CommentView {
                    comment_id: (db.last_comment_id + 1) as u32,
                    post_id: request.post_id,
                    user_id: request.user_id,
                    user_name: db.users[request.user_id],
                    data: request.data,
                    create_at: db.clock,
                },
            ] + before,
        ),
{
    let row = db.new_comment(request.post_id, request.user_id, request.data);
    let after = db.create_comment(request).0;
    assert(after.comments.drop_last() =~= db.comments);
    assert(after.comments.last() == row);
    let rows = after.comments_of(request.post_id);
    assert(rows == seq![row] + db.comments_of(request.post_id));
    if db.thread(request.post_id) is Ok {
        let before_rows = db.comments_of(request.post_id);
        assert(db.commenters_known(before_rows));
        assert forall|i: int| 0 <= i < rows.len() implies after.users.contains_key(
            (#[trigger] rows[i]).user_id,
        ) by {
            if i > 0 {
                assert(rows[i] == before_rows[i - 1]);
            }
        }
        assert(after.thread(request.post_id)->Ok_0 =~= seq![row.with_author(db.users[request.user_id])]
            + db.thread(request.post_id)->Ok_0);
    }
}

/// The comments on a post stand newest first: identifiers fall from each
/// entry to the next.
pub proof fn law_comments_newest_first(db: DatabaseView, post_id: u32)
    requires
        db.valid(),
    ensures
        forall|i: int, j: int|
            0 <= i < j < db.comments_of(post_id).len() ==> (#[trigger] db.comments_of(
                post_id,
            )[i]).comment_id->0 > (#[trigger] db.comments_of(post_id)[j]).comment_id->0,
        forall|i: int|
            0 <= i < db.comments_of(post_id).len() ==> (#[trigger] db.comments_of(
                post_id,
            )[i]).post_id == post_id,
{
    lemma_comments_on(db.comments, db.last_comment_id, post_id);
}

/// What `comments_on` picks from rows in order: rows of the post only, each
/// row of the table, and in falling order of identifiers.
proof fn lemma_comments_on(rows: Seq<CommentRowView>, last: u32, post_id: u32)
    requires
        comments_in_order(rows, last),
    ensures
        forall|i: int|
            0 <= i < comments_on(rows, post_id).len() ==> (#[trigger] comments_on(
                rows,
                post_id,
            )[i]).post_id == post_id && rows.contains(comments_on(rows, post_id)[i]),
        forall|i: int, j: int|
            0 <= i < j < comments_on(rows, post_id).len() ==> (#[trigger] comments_on(
                rows,
                post_id,
            )[i]).comment_id->0 > (#[trigger] comments_on(rows, post_id)[j]).comment_id->0,
    decreases rows.len(),
{
    if rows.len() > 0 {
        let rest = rows.drop_last();
        lemma_comments_on(rest, last, post_id);
        let picked = comments_on(rows, post_id);
        let before = comments_on(rest, post_id);
        assert forall|i: int| 0 <= i < before.len() implies rows.contains(#[trigger] before[i])
            && before[i].comment_id->0 < rows.last().comment_id->0 by {
            assert(rest.contains(before[i]));
            let p = choose|p: int| 0 <= p < rest.len() && rest[p] == before[i];
            assert(rows[p] == before[i]);
            assert(rows[p].comment_id->0 < rows[rows.len() - 1].comment_id->0);
        }
        if rows.last().post_id == post_id {
            assert(rows[rows.len() - 1] == rows.last());
            assert forall|i: int| 0 <= i < picked.len() implies (#[trigger] picked[i]).post_id
                == post_id && rows.contains(picked[i]) by {
                if i > 0 {
                    assert(picked[i] == before[i - 1]);
                }
            }
            assert forall|i: int, j: int| 0 <= i < j < picked.len() implies (
            #[trigger] picked[i]).comment_id->0 > (#[trigger] picked[j]).comment_id->0 by {
                assert(picked[j] == before[j - 1]);
                if i > 0 {
                    assert(picked[i] == before[i - 1]);
                }
            }
        }
    }
}

} // verus!
