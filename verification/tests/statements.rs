use code_mmunity_server::comment::CommentRow;
use code_mmunity_server::http::{routes, Handler, Method};
use code_mmunity_server::likes::LikeMode;
use code_mmunity_server::post::PostRow;
use code_mmunity_server::statement::{Answer, Param, Statement, Value};
use code_mmunity_server::store::{Database, SUMMARY_LENGTH};
use code_mmunity_server::user::User;

fn text(name: &str, value: &str) -> Param {
    Param { name: name.to_string(), value: Value::Text(value.to_string()) }
}

fn unsigned(name: &str, value: u64) -> Param {
    Param { name: name.to_string(), value: Value::Unsigned(value) }
}

fn signed(name: &str, value: i64) -> Param {
    Param { name: name.to_string(), value: Value::Signed(value) }
}

fn placeholders(sql: &str) -> Vec<String> {
    let mut found: Vec<String> = Vec::new();
    let mut rest = sql;
    while let Some(at) = rest.find(':') {
        let tail = &rest[at + 1..];
        let end = tail.find(|c: char| !(c.is_ascii_alphanumeric() || c == '_')).unwrap_or(tail.len());
        let name = tail[..end].to_string();
        if !found.contains(&name) {
            found.push(name);
        }
        rest = &tail[end..];
    }
    found
}

fn all_statements() -> Vec<Statement> {
    vec![
        Statement::SelectUser { user_id: "u".to_string() },
        Statement::ReplaceUser { user_id: "u".to_string(), user_name: "n".to_string() },
        Statement::DeleteUser { user_id: "u".to_string() },
        Statement::SelectPosts,
        Statement::SelectPost { post_id: 1 },
        Statement::InsertPost {
            user_id: "u".to_string(),
            title: "t".to_string(),
            language: "l".to_string(),
            data: "d".to_string(),
            likes: 0,
            report_count: 0,
        },
        Statement::DeletePost { user_id: "u".to_string(), post_id: 1 },
        Statement::UpdateLikes { post_id: 1, mode: LikeMode::Increment },
        Statement::UpdateLikes { post_id: 1, mode: LikeMode::Decrement },
        Statement::SelectComments { post_id: 1 },
        Statement::InsertComment { post_id: 1, user_id: "u".to_string(), data: "d".to_string() },
    ]
}

#[test]
fn every_placeholder_is_bound_once_in_order() {
    for statement in all_statements() {
        let names: Vec<String> = statement.params().into_iter().map(|p| p.name).collect();
        assert_eq!(names, placeholders(&statement.sql()), "{:?}", statement);
    }
}

#[test]
fn values_never_enter_the_text() {
    let hostile = "x' or '1'='1";
    let a = Statement::SelectUser { user_id: hostile.to_string() };
    let b = Statement::SelectUser { user_id: "u1".to_string() };
    assert_eq!(a.sql(), b.sql());
    assert_eq!(a.params(), vec![text("user_id", hostile)]);
}

#[test]
fn user_statements() {
    let s = Statement::SelectUser { user_id: "u1".to_string() };
    assert_eq!(s.sql(), "select * from user where user_id = :user_id");
    assert_eq!(s.params(), vec![text("user_id", "u1")]);
    let s = Statement::ReplaceUser { user_id: "u1".to_string(), user_name: "Alice".to_string() };
    assert_eq!(s.sql(), "replace into user set user_id = :user_id, user_name = :user_name");
    assert_eq!(s.params(), vec![text("user_id", "u1"), text("user_name", "Alice")]);
    let s = Statement::DeleteUser { user_id: "u1".to_string() };
    assert_eq!(s.sql(), "delete from user where user_id = :user_id");
    assert_eq!(s.params(), vec![text("user_id", "u1")]);
}

#[test]
fn post_statements() {
    let s = Statement::SelectPosts;
    assert_eq!(
        s.sql(),
        "select post_id, user_id, title, language, substr(data, 1, 35), likes, report_count, create_at from post order by post_id desc"
    );
    assert_eq!(s.params(), vec![]);
    let s = Statement::SelectPost { post_id: 12 };
    assert_eq!(s.sql(), "select * from post where post_id = :post_id");
    assert_eq!(s.params(), vec![unsigned("post_id", 12)]);
    let s = Statement::InsertPost {
        user_id: "u1".to_string(),
        title: "T".to_string(),
        language: "rust".to_string(),
        data: "hello".to_string(),
        likes: -2,
        report_count: 3,
    };
    assert_eq!(
        s.sql(),
        "insert into post(user_id, title, language, data, likes, report_count) values(:user_id, :title, :language, :data, :likes, :report_count)"
    );
    assert_eq!(
        s.params(),
        vec![
            text("user_id", "u1"),
            text("title", "T"),
            text("language", "rust"),
            text("data", "hello"),
            signed("likes", -2),
            unsigned("report_count", 3),
        ]
    );
    let s = Statement::DeletePost { user_id: "u1".to_string(), post_id: 12 };
    assert_eq!(s.sql(), "delete from post where user_id = :user_id and post_id = :post_id");
    assert_eq!(s.params(), vec![text("user_id", "u1"), unsigned("post_id", 12)]);
}

#[test]
fn listing_statement_cuts_bodies_at_the_summary_length() {
    let sql = Statement::SelectPosts.sql();
    assert!(sql.contains(&format!("substr(data, 1, {})", SUMMARY_LENGTH)));
}

#[test]
fn like_statements() {
    let s = Statement::UpdateLikes { post_id: 5, mode: LikeMode::Increment };
    assert_eq!(s.sql(), "update post set likes = likes + 1 where post_id = :post_id");
    assert_eq!(s.params(), vec![signed("post_id", 5)]);
    let s = Statement::UpdateLikes { post_id: -5, mode: LikeMode::Decrement };
    assert_eq!(s.sql(), "update post set likes = likes - 1 where post_id = :post_id");
    assert_eq!(s.params(), vec![signed("post_id", -5)]);
}

#[test]
fn comment_statements() {
    let s = Statement::SelectComments { post_id: 8 };
    assert_eq!(s.sql(), "select * from comment where post_id = :post_id order by comment_id desc");
    assert_eq!(s.params(), vec![unsigned("post_id", 8)]);
    let s = Statement::InsertComment { post_id: 8, user_id: "u1".to_string(), data: "d".to_string() };
    assert_eq!(s.sql(), "insert into comment(post_id, user_id, data) values(:post_id, :user_id, :data)");
    assert_eq!(s.params(), vec![unsigned("post_id", 8), text("user_id", "u1"), text("data", "d")]);
}

#[test]
fn store_answers_user_statements() {
    let mut db = Database::new();
    let answer = db.perform(Statement::ReplaceUser {
        user_id: "u1".to_string(),
        user_name: "Alice".to_string(),
    });
    assert_eq!(answer, Answer::Done(0));
    let answer = db.perform(Statement::SelectUser { user_id: "u1".to_string() });
    assert_eq!(
        answer,
        Answer::Users(vec![User { user_id: "u1".to_string(), user_name: "Alice".to_string() }])
    );
    assert_eq!(db.perform(Statement::DeleteUser { user_id: "u1".to_string() }), Answer::Done(0));
    assert_eq!(db.perform(Statement::SelectUser { user_id: "u1".to_string() }), Answer::Users(vec![]));
}

#[test]
fn store_answers_post_statements() {
    let mut db = Database::new();
    db.set_clock("t".to_string());
    let insert = || Statement::InsertPost {
        user_id: "u1".to_string(),
        title: "T".to_string(),
        language: "rust".to_string(),
        data: "0123456789012345678901234567890123456789".to_string(),
        likes: 0,
        report_count: 0,
    };
    assert_eq!(db.perform(insert()), Answer::Done(1));
    assert_eq!(db.perform(insert()), Answer::Done(2));
    let row = |post_id: u64, data: &str, likes: i64| PostRow {
        post_id,
        user_id: "u1".to_string(),
        title: "T".to_string(),
        language: "rust".to_string(),
        data: data.to_string(),
        likes,
        report_count: 0,
        create_at: "t".to_string(),
    };
    let cut = "01234567890123456789012345678901234";
    let whole = "0123456789012345678901234567890123456789";
    assert_eq!(db.perform(Statement::SelectPosts), Answer::Posts(vec![row(2, cut, 0), row(1, cut, 0)]));
    assert_eq!(db.perform(Statement::SelectPost { post_id: 2 }), Answer::Posts(vec![row(2, whole, 0)]));
    assert_eq!(db.perform(Statement::SelectPost { post_id: 3 }), Answer::Posts(vec![]));
    assert_eq!(
        db.perform(Statement::UpdateLikes { post_id: 2, mode: LikeMode::Decrement }),
        Answer::Done(0)
    );
    assert_eq!(db.perform(Statement::SelectPost { post_id: 2 }), Answer::Posts(vec![row(2, whole, -1)]));
    assert_eq!(
        db.perform(Statement::DeletePost { user_id: "u2".to_string(), post_id: 2 }),
        Answer::Done(0)
    );
    assert_eq!(db.perform(Statement::SelectPost { post_id: 2 }), Answer::Posts(vec![row(2, whole, -1)]));
    assert_eq!(
        db.perform(Statement::DeletePost { user_id: "u1".to_string(), post_id: 2 }),
        Answer::Done(0)
    );
    assert_eq!(db.perform(Statement::SelectPost { post_id: 2 }), Answer::Posts(vec![]));
}

#[test]
fn store_answers_like_overflow_with_failure() {
    let mut db = Database::new();
    db.insert_post("u".to_string(), "t".to_string(), "l".to_string(), "d".to_string(), i64::MAX, 0)
        .unwrap();
    assert_eq!(
        db.perform(Statement::UpdateLikes { post_id: 1, mode: LikeMode::Increment }),
        Answer::Failed("Out of range value for column 'likes'".to_string())
    );
}

#[test]
fn store_answers_comment_statements() {
    let mut db = Database::new();
    db.set_clock("t".to_string());
    let insert = |post_id: u32, data: &str| Statement::InsertComment {
        post_id,
        user_id: "u1".to_string(),
        data: data.to_string(),
    };
    assert_eq!(db.perform(insert(1, "a")), Answer::Done(1));
    assert_eq!(db.perform(insert(2, "b")), Answer::Done(2));
    assert_eq!(db.perform(insert(1, "c")), Answer::Done(3));
    let row = |comment_id: u32, post_id: u32, data: &str| CommentRow {
        comment_id: Some(comment_id),
        post_id,
        user_id: "u1".to_string(),
        data: data.to_string(),
        create_at: Some("t".to_string()),
    };
    assert_eq!(
        db.perform(Statement::SelectComments { post_id: 1 }),
        Answer::Comments(vec![row(3, 1, "c"), row(1, 1, "a")])
    );
    assert_eq!(db.perform(Statement::SelectComments { post_id: 9 }), Answer::Comments(vec![]));
}

#[test]
fn route_table_holds_every_route() {
    let table: Vec<(Method, String, Handler)> =
        routes().into_iter().map(|r| (r.method, r.path, r.handler)).collect();
    assert_eq!(
        table,
        vec![
            (Method::Post, "/api/users".to_string(), Handler::NewUser),
            (Method::Get, "/api/users/{user_id}".to_string(), Handler::GetUser),
            (Method::Delete, "/api/users".to_string(), Handler::DeleteUser),
            (Method::Get, "/api/posts".to_string(), Handler::GetPosts),
            (Method::Get, "/api/posts/{post_id}".to_string(), Handler::GetPost),
            (Method::Post, "/api/posts".to_string(), Handler::InsertPost),
            (Method::Delete, "/api/posts".to_string(), Handler::DeletePost),
            (Method::Get, "/api/comments/{post_id}".to_string(), Handler::GetComments),
            (Method::Post, "/api/comments".to_string(), Handler::InsertComment),
            (Method::Patch, "/api/likes".to_string(), Handler::ModifyLikes),
        ]
    );
}
