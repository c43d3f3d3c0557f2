//! Like counters: a unit step up or down on a post's count.

use crate::failure::{outcome, Failure, FailureView};
use crate::http::{Response, ResponseView, Status, LIKES_TEXT};
use crate::store::{Database, DatabaseView, LIKES_OUT_OF_RANGE};
use vstd::prelude::*;
use vstd::string::*;

verus! {

/// Which way a like count moves.
#[derive(Clone, Copy, Debug, PartialEq, Eq, Structural)]
pub enum LikeMode {
    /// One like more.
    Increment,
    /// One like fewer.
    Decrement,
}

impl LikeMode {
    /// The signed step that the mode stands for.
    pub open spec fn delta(self) -> int {
        match self {
            LikeMode::Increment => 1,
            LikeMode::Decrement => -1,
        }
    }
}

/// A request to move the like count of one post by one.
#[derive(Clone, Copy, Debug, PartialEq, Eq)]
pub struct LikeRequest {
    /// The post whose count moves.
    pub post_id: i64,
    /// Up or down.
    pub mode: LikeMode,
}

/// The mathematical value of a [`LikeRequest`] is the request itself.
impl View for LikeRequest {
    type V = LikeRequest;

    open spec fn view(&self) -> LikeRequest {
        *self
    }
}

/// What is said when a like count was moved.
pub const LIKES_UPDATED: &'static str = "update likes";

impl DatabaseView {
    /// What carrying out `info` does to the store, and whether it goes
    /// through. A request for a post that is not stored goes through and
    /// changes nothing. A request that would take the count out of the range
    /// of its column fails and changes nothing.
    pub open spec fn adjust(self, info: LikeRequest) -> (DatabaseView, Result<(), FailureView>) {
        if info.post_id < 0 {
            (self, Ok(()))
        } else if self.likes_fit(info.post_id as u64, info.mode) {
            (self.with_like(info.post_id as u64, info.mode), Ok(()))
        } else {
            (self, Err(FailureView::Store(LIKES_OUT_OF_RANGE@)))
        }
    }
}

impl LikeRequest {
    /// Moves the like count of the post that `info` names one step up or
    /// down. Nothing keeps the count from going below zero. When no such
    /// post is stored, nothing changes and the call still succeeds. A
    /// failure, with nothing changed, when the count would leave the range
    /// of its column.
    pub fn modify_likes(db: &mut Database, info: LikeRequest) -> (r: Result<(), Failure>)
        requires
            old(db).wf(),
        ensures
            final(db).wf(),
            (final(db)@, outcome(r)) == old(db)@.adjust(info),
    {
        if info.post_id < 0 {
            return Ok(());
        }
        match db.update_likes(info.post_id as u64, info.mode) {
            Ok(()) => Ok(()),
            Err(why) => Err(Failure::Store(why)),
        }
    }
}

impl ResponseView {
    /// The response to a change of a like count.
    pub open spec fn likes_modified(modified: Result<(), FailureView>) -> ResponseView {
        match modified {
            Ok(_) => ResponseView::text(Status::Created, Some(LIKES_TEXT@), LIKES_UPDATED@),
            Err(why) => ResponseView::text(Status::BadRequest, Some(LIKES_TEXT@), why.message()),
        }
    }
}

impl Response {
    /// The response to a change of a like count: created with a fixed text
    /// when it went through, a bad request with the reason when it did not.
    pub fn likes_modified(modified: Result<(), Failure>) -> (r: Response)
        ensures
            r@ == ResponseView::likes_modified(outcome(modified)),
    {
        match modified {
            Ok(_) => Response::text(
                Status::Created,
                Some(LIKES_TEXT),
                String::from_str(LIKES_UPDATED),
            ),
            Err(why) => Response::text(Status::BadRequest, Some(LIKES_TEXT), why.message()),
        }
    }
}

/// Serves `PATCH /api/likes` on `db`: moves the like count of a post by one.
pub fn modify_likes_api(db: &mut Database, info: LikeRequest) -> (r: Response)
    requires
        old(db).wf(),
    ensures
        final(db).wf(),
        final(db)@ == old(db)@.adjust(info).0,
        r@ == ResponseView::likes_modified(old(db)@.adjust(info).1),
{
    Response::likes_modified(LikeRequest::modify_likes(db, info))
}

} // verus!
