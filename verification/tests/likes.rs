use code_mmunity_server::failure::Failure;
use code_mmunity_server::http::{Body, Response};
use code_mmunity_server::likes::{modify_likes_api, LikeMode, LikeRequest, LIKES_UPDATED};
use code_mmunity_server::post::Post;
use code_mmunity_server::store::{Database, LIKES_OUT_OF_RANGE};
use code_mmunity_server::user::User;

fn one_post(likes: i64) -> Database {
    let mut db = Database::new();
    User::new_user(&mut db, User { user_id: "u1".to_string(), user_name: "Alice".to_string() })
        .unwrap();
    db.insert_post(
        "u1".to_string(),
        "T".to_string(),
        "rust".to_string(),
        "hello".to_string(),
        likes,
        0,
    )
    .unwrap();
    db
}

fn likes_of(db: &Database, post_id: u64) -> i64 {
    Post::get_post(db, post_id.to_string()).unwrap().unwrap().likes
}

fn up(post_id: i64) -> LikeRequest {
    LikeRequest { post_id, mode: LikeMode::Increment }
}

fn down(post_id: i64) -> LikeRequest {
    LikeRequest { post_id, mode: LikeMode::Decrement }
}

#[test]
fn increment_adds_one() {
    let mut db = one_post(0);
    assert_eq!(LikeRequest::modify_likes(&mut db, up(1)), Ok(()));
    assert_eq!(likes_of(&db, 1), 1);
    assert_eq!(LikeRequest::modify_likes(&mut db, up(1)), Ok(()));
    assert_eq!(likes_of(&db, 1), 2);
}

#[test]
fn increment_then_decrement_restores_the_count() {
    let mut db = one_post(41);
    LikeRequest::modify_likes(&mut db, up(1)).unwrap();
    assert_eq!(likes_of(&db, 1), 42);
    LikeRequest::modify_likes(&mut db, down(1)).unwrap();
    assert_eq!(likes_of(&db, 1), 41);
}

#[test]
fn likes_go_below_zero() {
    let mut db = one_post(0);
    assert_eq!(LikeRequest::modify_likes(&mut db, down(1)), Ok(()));
    assert_eq!(likes_of(&db, 1), -1);
    assert_eq!(LikeRequest::modify_likes(&mut db, down(1)), Ok(()));
    assert_eq!(likes_of(&db, 1), -2);
}

#[test]
fn likes_of_absent_post_succeed_and_change_nothing() {
    let mut db = one_post(5);
    assert_eq!(LikeRequest::modify_likes(&mut db, up(2)), Ok(()));
    assert_eq!(LikeRequest::modify_likes(&mut db, down(0)), Ok(()));
    assert_eq!(LikeRequest::modify_likes(&mut db, up(-1)), Ok(()));
    assert_eq!(LikeRequest::modify_likes(&mut db, down(i64::MIN)), Ok(()));
    assert_eq!(likes_of(&db, 1), 5);
}

#[test]
fn likes_touch_only_the_post_named() {
    let mut db = one_post(5);
    db.insert_post("u1".to_string(), "b".to_string(), "c".to_string(), "d".to_string(), 7, 0)
        .unwrap();
    LikeRequest::modify_likes(&mut db, up(2)).unwrap();
    assert_eq!(likes_of(&db, 1), 5);
    assert_eq!(likes_of(&db, 2), 8);
}

#[test]
fn likes_fail_at_the_ends_of_the_range() {
    let mut db = one_post(i64::MAX);
    assert_eq!(
        LikeRequest::modify_likes(&mut db, up(1)),
        Err(Failure::Store("Out of range value for column 'likes'".to_string()))
    );
    assert_eq!(LIKES_OUT_OF_RANGE, "Out of range value for column 'likes'");
    assert_eq!(likes_of(&db, 1), i64::MAX);
    assert_eq!(LikeRequest::modify_likes(&mut db, down(1)), Ok(()));
    assert_eq!(likes_of(&db, 1), i64::MAX - 1);
    let mut db = one_post(i64::MIN);
    assert!(LikeRequest::modify_likes(&mut db, down(1)).is_err());
    assert_eq!(likes_of(&db, 1), i64::MIN);
}

#[test]
fn modify_likes_api_answers_created_with_text() {
    let mut db = one_post(0);
    let response = modify_likes_api(&mut db, up(1));
    assert_eq!(response.status.code(), 201);
    assert_eq!(response.content_type, Some("application/text;charset=utf-8;".to_string()));
    assert_eq!(response.body, Body::Text("update likes".to_string()));
    assert_eq!(LIKES_UPDATED, "update likes");
    assert_eq!(likes_of(&db, 1), 1);
}

#[test]
fn modify_likes_api_answers_created_for_absent_post() {
    let mut db = Database::new();
    let response = modify_likes_api(&mut db, down(3));
    assert_eq!(response.status.code(), 201);
}

#[test]
fn modify_likes_api_answers_bad_request_with_the_reason() {
    let mut db = one_post(i64::MAX);
    let response = modify_likes_api(&mut db, up(1));
    assert_eq!(response.status.code(), 400);
    assert_eq!(response.content_type, Some("application/text;charset=utf-8;".to_string()));
    assert_eq!(response.body, Body::Text("Out of range value for column 'likes'".to_string()));
    let response = Response::likes_modified(Err(Failure::Store("gone away".to_string())));
    assert_eq!(response.body, Body::Text("gone away".to_string()));
}
