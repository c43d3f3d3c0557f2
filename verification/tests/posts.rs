use code_mmunity_server::failure::Failure;
use code_mmunity_server::http::{Body, Response, Status};
use code_mmunity_server::post::{
    delete_post_api, get_post_api, get_posts_api, insert_post_api, DeletePostRequest, Post,
    PostRequest, DRAFT_TIMESTAMP, POST_NOT_FOUND,
};
use code_mmunity_server::store::{Database, SUMMARY_LENGTH};
use code_mmunity_server::user::User;

fn directory(users: &[(&str, &str)]) -> Database {
    let mut db = Database::new();
    for (id, name) in users {
        User::new_user(&mut db, User { user_id: id.to_string(), user_name: name.to_string() })
            .unwrap();
    }
    db
}

fn post_request(user_id: &str, title: &str, language: &str, data: &str) -> PostRequest {
    PostRequest {
        user_id: user_id.to_string(),
        title: title.to_string(),
        language: language.to_string(),
        data: data.to_string(),
    }
}

fn create(db: &mut Database, user_id: &str, title: &str, data: &str) -> u64 {
    let post = Post::new(db, user_id.to_string(), title.to_string(), "rust".to_string(), data.to_string())
        .unwrap();
    post.insert_db(db).unwrap()
}

fn deletion(user_id: &str, post_id: &str) -> DeletePostRequest {
    DeletePostRequest { user_id: user_id.to_string(), post_id: post_id.to_string() }
}

#[test]
fn new_post_is_a_draft_with_the_authors_name() {
    let db = directory(&[("u1", "Alice")]);
    let post = Post::new(&db, "u1".to_string(), "T".to_string(), "rust".to_string(), "hello".to_string());
    assert_eq!(
        post,
        Ok(Post {
            post_id: 0,
            user_id: "u1".to_string(),
            title: "T".to_string(),
            user_name: "Alice".to_string(),
            language: "rust".to_string(),
            data: "hello".to_string(),
            likes: 0,
            report_count: 0,
            create_at: "2022-10-11 21:29:30".to_string(),
        })
    );
    assert_eq!(DRAFT_TIMESTAMP, "2022-10-11 21:29:30");
}

#[test]
fn new_post_by_unknown_user_fails() {
    let db = directory(&[("u1", "Alice")]);
    let post = Post::new(&db, "u2".to_string(), "T".to_string(), "rust".to_string(), "hello".to_string());
    assert_eq!(post, Err(Failure::UserNotFound));
}

#[test]
fn draft_takes_the_name_from_the_author_given() {
    let author = User { user_id: "anything".to_string(), user_name: "Alice".to_string() };
    let post = Post::draft("u1".to_string(), "T".to_string(), "go".to_string(), "x".to_string(), Some(author))
        .unwrap();
    assert_eq!(post.user_name, "Alice");
    assert_eq!(post.user_id, "u1");
    let none = Post::draft("u1".to_string(), "T".to_string(), "go".to_string(), "x".to_string(), None);
    assert_eq!(none, Err(Failure::UserNotFound));
}

#[test]
fn from_db_keeps_the_columns_and_adds_the_name() {
    let db = directory(&[("u1", "Alice")]);
    let post = Post::from_db(
        &db,
        7,
        "u1".to_string(),
        "T".to_string(),
        "rust".to_string(),
        "body".to_string(),
        -3,
        2,
        "2024-01-01 00:00:00".to_string(),
    );
    assert_eq!(
        post,
        Ok(Post {
            post_id: 7,
            user_id: "u1".to_string(),
            title: "T".to_string(),
            user_name: "Alice".to_string(),
            language: "rust".to_string(),
            data: "body".to_string(),
            likes: -3,
            report_count: 2,
            create_at: "2024-01-01 00:00:00".to_string(),
        })
    );
}

#[test]
fn from_db_for_unknown_user_fails() {
    let db = Database::new();
    let post = Post::from_db(
        &db,
        7,
        "u1".to_string(),
        "T".to_string(),
        "rust".to_string(),
        "body".to_string(),
        0,
        0,
        "".to_string(),
    );
    assert_eq!(post, Err(Failure::UserNotFound));
}

#[test]
fn end_to_end_create_then_fetch() {
    let mut db = Database::new();
    User::new_user(&mut db, User { user_id: "u1".to_string(), user_name: "Alice".to_string() })
        .unwrap();
    db.set_clock("2024-05-06 07:08:09".to_string());
    let post = Post::new(&db, "u1".to_string(), "T".to_string(), "rust".to_string(), "hello".to_string())
        .unwrap();
    let post_id = post.insert_db(&mut db).unwrap();
    assert_eq!(post_id, 1);
    let fetched = Post::get_post(&db, post_id.to_string()).unwrap().unwrap();
    assert_eq!(
        fetched,
        Post {
            post_id: 1,
            user_id: "u1".to_string(),
            title: "T".to_string(),
            user_name: "Alice".to_string(),
            language: "rust".to_string(),
            data: "hello".to_string(),
            likes: 0,
            report_count: 0,
            create_at: "2024-05-06 07:08:09".to_string(),
        }
    );
}

#[test]
fn identifiers_grow_and_are_not_given_again() {
    let mut db = directory(&[("u1", "Alice")]);
    assert_eq!(create(&mut db, "u1", "a", "x"), 1);
    assert_eq!(create(&mut db, "u1", "b", "x"), 2);
    Post::delete_post(&mut db, deletion("u1", "2")).unwrap();
    assert_eq!(create(&mut db, "u1", "c", "x"), 3);
}

#[test]
fn listing_is_newest_first() {
    let mut db = directory(&[("u1", "Alice"), ("u2", "Bob")]);
    create(&mut db, "u1", "first", "a");
    create(&mut db, "u2", "second", "b");
    create(&mut db, "u1", "third", "c");
    let listed = Post::get_posts(&db).unwrap();
    let ids: Vec<u64> = listed.iter().map(|p| p.post_id).collect();
    assert_eq!(ids, vec![3, 2, 1]);
    let names: Vec<&str> = listed.iter().map(|p| p.user_name.as_str()).collect();
    assert_eq!(names, vec!["Alice", "Bob", "Alice"]);
    let titles: Vec<&str> = listed.iter().map(|p| p.title.as_str()).collect();
    assert_eq!(titles, vec!["third", "second", "first"]);
}

#[test]
fn listing_of_no_posts_is_empty() {
    let db = Database::new();
    assert_eq!(Post::get_posts(&db), Ok(vec![]));
}

#[test]
fn listing_cuts_bodies_and_fetch_does_not() {
    let mut db = directory(&[("u1", "Alice")]);
    let long = "0123456789012345678901234567890123456789";
    assert_eq!(long.len(), 40);
    let id = create(&mut db, "u1", "long", long);
    let listed = Post::get_posts(&db).unwrap();
    assert_eq!(SUMMARY_LENGTH, 35);
    assert_eq!(listed[0].data, "01234567890123456789012345678901234");
    assert_eq!(listed[0].data.chars().count(), 35);
    let fetched = Post::get_post(&db, id.to_string()).unwrap().unwrap();
    assert_eq!(fetched.data, long);
    assert_eq!(fetched.title, listed[0].title);
    assert_eq!(fetched.post_id, listed[0].post_id);
}

#[test]
fn listing_keeps_bodies_of_35_characters_whole() {
    let mut db = directory(&[("u1", "Alice")]);
    let exact = "01234567890123456789012345678901234";
    assert_eq!(exact.len(), 35);
    create(&mut db, "u1", "exact", exact);
    create(&mut db, "u1", "short", "hi");
    create(&mut db, "u1", "empty", "");
    let listed = Post::get_posts(&db).unwrap();
    assert_eq!(listed[2].data, exact);
    assert_eq!(listed[1].data, "hi");
    assert_eq!(listed[0].data, "");
}

#[test]
fn listing_cuts_by_characters_not_bytes() {
    let mut db = directory(&[("u1", "Alice")]);
    let body: String = "가".repeat(36);
    create(&mut db, "u1", "korean", &body);
    let listed = Post::get_posts(&db).unwrap();
    assert_eq!(listed[0].data, "가".repeat(35));
}

#[test]
fn listing_fails_when_an_author_is_gone() {
    let mut db = directory(&[("u1", "Alice"), ("u2", "Bob")]);
    create(&mut db, "u1", "a", "x");
    create(&mut db, "u2", "b", "x");
    User::delete_user(&mut db, User { user_id: "u1".to_string(), user_name: "".to_string() })
        .unwrap();
    assert_eq!(Post::get_posts(&db), Err(Failure::UserNotFound));
    assert_eq!(Post::get_post(&db, "1".to_string()), Err(Failure::UserNotFound));
    assert_eq!(Post::get_post(&db, "2".to_string()).unwrap().unwrap().user_name, "Bob");
}

#[test]
fn listing_shows_the_name_the_directory_holds_now() {
    let mut db = directory(&[("u1", "Alice")]);
    create(&mut db, "u1", "a", "x");
    User::new_user(&mut db, User { user_id: "u1".to_string(), user_name: "Alicia".to_string() })
        .unwrap();
    assert_eq!(Post::get_posts(&db).unwrap()[0].user_name, "Alicia");
}

#[test]
fn fetch_of_absent_or_malformed_identifier_finds_nothing() {
    let mut db = directory(&[("u1", "Alice")]);
    create(&mut db, "u1", "a", "x");
    assert_eq!(Post::get_post(&db, "2".to_string()), Ok(None));
    assert_eq!(Post::get_post(&db, "0".to_string()), Ok(None));
    assert_eq!(Post::get_post(&db, "".to_string()), Ok(None));
    assert_eq!(Post::get_post(&db, "abc".to_string()), Ok(None));
    assert_eq!(Post::get_post(&db, "1 or 1=1".to_string()), Ok(None));
    assert_eq!(Post::get_post(&db, "-1".to_string()), Ok(None));
    assert_eq!(Post::get_post(&db, "99999999999999999999999".to_string()), Ok(None));
    assert_eq!(Post::get_post(&db, "001".to_string()).unwrap().unwrap().post_id, 1);
}

#[test]
fn insert_ignores_identifier_time_and_name_of_the_draft() {
    let mut db = directory(&[("u1", "Alice")]);
    db.set_clock("now".to_string());
    let post = Post {
        post_id: 55,
        user_id: "u1".to_string(),
        title: "T".to_string(),
        user_name: "Mallory".to_string(),
        language: "c".to_string(),
        data: "d".to_string(),
        likes: 4,
        report_count: 9,
        create_at: "then".to_string(),
    };
    assert_eq!(post.insert_db(&mut db), Ok(1));
    let fetched = Post::get_post(&db, "1".to_string()).unwrap().unwrap();
    assert_eq!(fetched.post_id, 1);
    assert_eq!(fetched.user_name, "Alice");
    assert_eq!(fetched.create_at, "now");
    assert_eq!(fetched.likes, 4);
    assert_eq!(fetched.report_count, 9);
}

#[test]
fn deleting_a_post_needs_its_author() {
    let mut db = directory(&[("u1", "Alice"), ("u2", "Bob")]);
    create(&mut db, "u1", "a", "x");
    assert_eq!(Post::delete_post(&mut db, deletion("u2", "1")), Ok(()));
    assert!(Post::get_post(&db, "1".to_string()).unwrap().is_some());
    assert_eq!(Post::delete_post(&mut db, deletion("u1", "1")), Ok(()));
    assert_eq!(Post::get_post(&db, "1".to_string()), Ok(None));
}

#[test]
fn deleting_absent_post_succeeds_and_changes_nothing() {
    let mut db = directory(&[("u1", "Alice")]);
    create(&mut db, "u1", "a", "x");
    create(&mut db, "u1", "b", "y");
    assert_eq!(Post::delete_post(&mut db, deletion("u1", "7")), Ok(()));
    assert_eq!(Post::delete_post(&mut db, deletion("u1", "abc")), Ok(()));
    assert_eq!(Post::delete_post(&mut db, deletion("u1", "")), Ok(()));
    assert_eq!(Post::delete_post(&mut db, deletion("u1", "1abc")), Ok(()));
    assert_eq!(Post::get_posts(&db).unwrap().len(), 2);
}

#[test]
fn deleting_keeps_the_order_of_the_rest() {
    let mut db = directory(&[("u1", "Alice")]);
    create(&mut db, "u1", "a", "x");
    create(&mut db, "u1", "b", "y");
    create(&mut db, "u1", "c", "z");
    Post::delete_post(&mut db, deletion("u1", "2")).unwrap();
    let ids: Vec<u64> = Post::get_posts(&db).unwrap().iter().map(|p| p.post_id).collect();
    assert_eq!(ids, vec![3, 1]);
}

#[test]
fn get_posts_api_answers_json() {
    let mut db = directory(&[("u1", "Alice")]);
    create(&mut db, "u1", "a", "x");
    let response = get_posts_api(&db);
    assert_eq!(response.status.code(), 200);
    assert_eq!(response.content_type, Some("application/json;charset=utf-8".to_string()));
    match response.body {
        Body::Posts(posts) => assert_eq!(posts.len(), 1),
        other => panic!("{:?}", other),
    }
}

#[test]
fn get_post_api_answers_not_found_with_text() {
    let db = Database::new();
    let response = get_post_api(&db, "1".to_string());
    assert_eq!(response.status.code(), 404);
    assert_eq!(response.content_type, Some("application/text;charset=utf-8".to_string()));
    assert_eq!(response.body, Body::Text("요청한 post_id는 존재하지 않는 포스트 입니다.".to_string()));
    assert_eq!(POST_NOT_FOUND, "요청한 post_id는 존재하지 않는 포스트 입니다.");
}

#[test]
fn get_post_api_answers_the_post() {
    let mut db = directory(&[("u1", "Alice")]);
    create(&mut db, "u1", "a", "x");
    let response = get_post_api(&db, "1".to_string());
    assert_eq!(response.status, Status::Success);
    match response.body {
        Body::Post(post) => assert_eq!(post.title, "a"),
        other => panic!("{:?}", other),
    }
}

#[test]
fn insert_post_api_answers_created() {
    let mut db = directory(&[("u1", "Alice")]);
    let response = insert_post_api(&mut db, post_request("u1", "T", "rust", "hello"));
    assert_eq!(response, Response { status: Status::Created, content_type: None, body: Body::Empty });
    let stored = Post::get_post(&db, "1".to_string()).unwrap().unwrap();
    assert_eq!(stored.likes, 0);
    assert_eq!(stored.report_count, 0);
    assert_eq!(stored.data, "hello");
}

#[test]
fn insert_post_api_for_unknown_user_is_a_bad_request() {
    let mut db = Database::new();
    let response = insert_post_api(&mut db, post_request("u1", "T", "rust", "hello"));
    assert_eq!(response.status.code(), 400);
    assert_eq!(response.body, Body::Text("Unknown User".to_string()));
    assert_eq!(Post::get_posts(&db), Ok(vec![]));
}

#[test]
fn delete_post_api_answers_created_whatever_matched() {
    let mut db = directory(&[("u1", "Alice")]);
    create(&mut db, "u1", "a", "x");
    let response = delete_post_api(&mut db, deletion("u1", "9"));
    assert_eq!(response, Response { status: Status::Created, content_type: None, body: Body::Empty });
    let response = delete_post_api(&mut db, deletion("u1", "1"));
    assert_eq!(response.status.code(), 201);
    assert_eq!(Post::get_posts(&db), Ok(vec![]));
}

#[test]
fn post_responses_for_store_failures() {
    let response = Response::created::<u64>(Err(Failure::Store("down".to_string())));
    assert_eq!(response, Response { status: Status::InternalServerError, content_type: None, body: Body::Empty });
    let response = Response::post_deleted(Err(Failure::Store("down".to_string())));
    assert_eq!(response.status.code(), 500);
    let response = Response::posts_listed(Err(Failure::UserNotFound));
    assert_eq!(response.status.code(), 500);
    assert_eq!(response.body, Body::Text("Unknown User".to_string()));
    let response = Response::post_found(Err(Failure::Store("down".to_string())));
    assert_eq!(response.status.code(), 500);
    assert_eq!(response.body, Body::Text("down".to_string()));
}
