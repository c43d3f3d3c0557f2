//! Users: an opaque external identifier mapped to a display name.

use crate::failure::{outcome, Failure, FailureView};
use crate::http::{Body, BodyView, Response, ResponseView, Status};
use crate::store::Database;
use vstd::prelude::*;
use vstd::string::*;

verus! {

/// A user of the community.
#[derive(Debug, PartialEq, Eq)]
pub struct User {
    /// The identifier that tells users apart; no two users share one.
    pub user_id: String,
    /// The name shown for the user.
    pub user_name: String,
}

/// The mathematical value of a [`User`].
pub struct UserView {
    pub user_id: Seq<char>,
    pub user_name: Seq<char>,
}

impl View for User {
    type V = UserView;

    open spec fn view(&self) -> UserView {
        UserView { user_id: self.user_id@, user_name: self.user_name@ }
    }
}

impl DeepView for User {
    type V = UserView;

    open spec fn deep_view(&self) -> UserView {
        self@
    }
}

impl Clone for User {
    fn clone(&self) -> (r: Self)
        ensures
            r == *self,
    {
        User { user_id: self.user_id.clone(), user_name: self.user_name.clone() }
    }
}

/// What is said when the directory holds no user under an identifier.
pub const USER_NOT_FOUND: &'static str = "Can not found user with id.";

impl User {
    /// Looks `user_id` up in the directory of `db`. The user comes back when
    /// the directory holds one under exactly that identifier, `None` otherwise.
    pub fn get_user(db: &Database, user_id: String) -> (found: Option<User>)
        requires
            db.wf(),
        ensures
            found.deep_view() == db@.user(user_id@),
    {
        db.select_user(&user_id)
    }

    /// Writes `new_user` into the directory of `db`: a new entry when the
    /// identifier is new, a new name for the entry otherwise. Any name is
    /// taken, the empty one too. On this store the write always goes through.
    pub fn new_user(db: &mut Database, new_user: User) -> (written: Result<(), Failure>)
        requires
            old(db).wf(),
        ensures
            final(db).wf(),
            written is Ok,
            final(db)@ == old(db)@.with_user(new_user@),
    {
        db.replace_user(new_user);
        Ok(())
    }

    /// Removes the user with the identifier of `deleted_user` from the
    /// directory of `db`; the name in `deleted_user` plays no part. Removing a
    /// user that is not there changes nothing and is no failure. Posts and
    /// comments of the user stay.
    pub fn delete_user(db: &mut Database, deleted_user: User) -> (deleted: Result<(), Failure>)
        requires
            old(db).wf(),
        ensures
            final(db).wf(),
            deleted is Ok,
            final(db)@ == old(db)@.without_user(deleted_user@.user_id),
    {
        db.delete_user(&deleted_user.user_id);
        Ok(())
    }
}

impl ResponseView {
    /// The response to a write of a user.
    pub open spec fn user_written(written: Result<(), FailureView>) -> ResponseView {
        match written {
            Ok(_) => ResponseView::bare(Status::Created),
            Err(_) => ResponseView::bare(Status::BadRequest),
        }
    }

    /// The response to a lookup of a user.
    pub open spec fn user_found(found: Result<Option<UserView>, FailureView>) -> ResponseView {
        match found {
            Ok(Some(user)) => ResponseView::json(Status::Success, BodyView::User(user)),
            Ok(None) => ResponseView::text(Status::NotFound, None, USER_NOT_FOUND@),
            Err(why) => ResponseView::text(Status::InternalServerError, None, why.message()),
        }
    }

    /// The response to a removal of a user.
    pub open spec fn user_deleted(deleted: Result<(), FailureView>) -> ResponseView {
        match deleted {
            Ok(_) => ResponseView::bare(Status::Success),
            Err(_) => ResponseView::bare(Status::BadRequest),
        }
    }
}

impl Response {
    /// The response to a write of a user: created when it went through, a bad
    /// request when it did not.
    pub fn user_written(written: Result<(), Failure>) -> (r: Response)
        ensures
            r@ == ResponseView::user_written(outcome(written)),
    {
        match written {
            Ok(_) => Response::bare(Status::Created),
            Err(_) => Response::bare(Status::BadRequest),
        }
    }

    /// The response to a lookup of a user: the user as JSON when there is
    /// one, not found with a fixed text when there is none, and a server
    /// error with the reason when the lookup failed.
    pub fn user_found(found: Result<Option<User>, Failure>) -> (r: Response)
        ensures
            r@ == ResponseView::user_found(outcome(found)),
    {
        match found {
            Ok(Some(user)) => Response::json(Status::Success, Body::User(user)),
            Ok(None) => Response::text(Status::NotFound, None, String::from_str(USER_NOT_FOUND)),
            Err(why) => Response::text(Status::InternalServerError, None, why.message()),
        }
    }

    /// The response to a removal of a user: success when it went through, a
    /// bad request when it did not.
    pub fn user_deleted(deleted: Result<(), Failure>) -> (r: Response)
        ensures
            r@ == ResponseView::user_deleted(outcome(deleted)),
    {
        match deleted {
            Ok(_) => Response::bare(Status::Success),
            Err(_) => Response::bare(Status::BadRequest),
        }
    }
}

/// Serves `POST /api/users` on `db`: writes the user and says that it was
/// created.
pub fn new_user_api(db: &mut Database, new_user: User) -> (r: Response)
    requires
        old(db).wf(),
    ensures
        final(db).wf(),
        final(db)@ == old(db)@.with_user(new_user@),
        r@ == ResponseView::bare(Status::Created),
{
    Response::user_written(User::new_user(db, new_user))
}

/// Serves `GET /api/users/{user_id}` on `db`: the user as JSON, or not found.
pub fn get_user_api(db: &Database, user_id: String) -> (r: Response)
    requires
        db.wf(),
    ensures
        r@ == ResponseView::user_found(Ok(db@.user(user_id@))),
{
    Response::user_found(Ok(User::get_user(db, user_id)))
}

/// Serves `DELETE /api/users` on `db`: removes the user, if there is one, and
/// reports success either way.
pub fn delete_user_api(db: &mut Database, deleted_user: User) -> (r: Response)
    requires
        old(db).wf(),
    ensures
        final(db).wf(),
        final(db)@ == old(db)@.without_user(deleted_user@.user_id),
        r@ == ResponseView::bare(Status::Success),
{
    Response::user_deleted(User::delete_user(db, deleted_user))
}

} // verus!
