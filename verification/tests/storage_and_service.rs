use miniblog::post::Post;
use miniblog::row::{DecodeError, SqlValue};
use miniblog::service::{create_post, list_posts, ServiceError};
use miniblog::storage::{
    collect_posts, insert_parameters, StorageError, AUTHOR_ID, INSERT_POST_SQL, SELECT_POSTS_SQL,
};

fn text(value: &str) -> SqlValue {
    SqlValue::Text(value.as_bytes().to_vec())
}

fn row(id: i64, title: &str, body: &str, created: &str) -> Vec<SqlValue> {
    vec![SqlValue::Integer(id), text(title), text(body), text(created)]
}

fn post(id: u32, title: &str, body: &str, created: &str) -> Post {
    Post::new(
        id,
        String::from(title),
        String::from(body),
        String::from(created),
    )
}

#[test]
fn author_is_the_single_one() {
    assert_eq!(AUTHOR_ID, 1);
}

#[test]
fn statements_name_the_table_and_its_columns() {
    assert_eq!(
        INSERT_POST_SQL,
        "INSERT INTO posts (user_id, title, post_body, created_time) VALUES (?1, ?2, ?3, datetime('now'))"
    );
    assert_eq!(
        SELECT_POSTS_SQL,
        "SELECT id, title, post_body, created_time FROM posts ORDER BY id DESC"
    );
}

#[test]
fn insert_binds_author_title_and_body() {
    assert_eq!(
        insert_parameters("Hello", "World"),
        vec![SqlValue::Integer(1), text("Hello"), text("World")]
    );
}

#[test]
fn insert_binds_empty_texts_as_they_are() {
    assert_eq!(
        insert_parameters("", ""),
        vec![
            SqlValue::Integer(1),
            SqlValue::Text(vec![]),
            SqlValue::Text(vec![])
        ]
    );
}

#[test]
fn insert_binds_texts_in_utf8() {
    assert_eq!(
        insert_parameters("é", "←"),
        vec![
            SqlValue::Integer(1),
            SqlValue::Text(vec![0xc3, 0xa9]),
            SqlValue::Text(vec![0xe2, 0x86, 0x90]),
        ]
    );
}

#[test]
fn no_rows_give_no_posts() {
    assert_eq!(collect_posts(&vec![]), Ok(vec![]));
}

#[test]
fn rows_give_posts_in_their_order() {
    let rows = vec![
        row(9, "c", "3", "t3"),
        row(4, "b", "2", "t2"),
        row(2, "a", "1", "t1"),
    ];
    assert_eq!(
        collect_posts(&rows),
        Ok(vec![
            post(9, "c", "3", "t3"),
            post(4, "b", "2", "t2"),
            post(2, "a", "1", "t1"),
        ])
    );
}

#[test]
fn rows_are_not_reordered() {
    let rows = vec![row(1, "a", "1", "t1"), row(2, "b", "2", "t2")];
    let posts = collect_posts(&rows).unwrap();
    assert_eq!(posts[0].id(), 1);
    assert_eq!(posts[1].id(), 2);
}

#[test]
fn first_bad_row_ends_the_listing() {
    let rows = vec![
        row(3, "c", "3", "t3"),
        vec![SqlValue::Integer(2), SqlValue::Null, text("x"), text("y")],
        vec![SqlValue::Real],
    ];
    assert_eq!(
        collect_posts(&rows),
        Err(StorageError::Decode(DecodeError::UnexpectedType(1)))
    );
    let rows = vec![vec![], row(3, "c", "3", "t3")];
    assert_eq!(
        collect_posts(&rows),
        Err(StorageError::Decode(DecodeError::MissingColumn(0)))
    );
    let rows = vec![row(3, "c", "3", "t3"), row(-3, "c", "3", "t3")];
    assert_eq!(
        collect_posts(&rows),
        Err(StorageError::Decode(DecodeError::IntegerOutOfRange(0, -3)))
    );
    let rows = vec![vec![
        SqlValue::Integer(1),
        text("a"),
        text("b"),
        SqlValue::Text(vec![0xfe]),
    ]];
    assert_eq!(
        collect_posts(&rows),
        Err(StorageError::Decode(DecodeError::InvalidText(3)))
    );
}

#[test]
fn creation_succeeds_when_the_insert_did() {
    assert_eq!(create_post(Ok(())), Ok(()));
}

#[test]
fn creation_reports_every_storage_failure_alike() {
    for failure in [
        StorageError::Unavailable,
        StorageError::StatementFailed,
        StorageError::Decode(DecodeError::MissingColumn(0)),
    ] {
        assert_eq!(create_post(Err(failure)), Err(ServiceError::PersistenceFailed));
    }
}

#[test]
fn listing_gives_the_posts_of_the_rows() {
    let rows = vec![row(2, "Second", "b", "t2"), row(1, "First", "a", "t1")];
    assert_eq!(
        list_posts(Ok(rows)),
        Ok(vec![post(2, "Second", "b", "t2"), post(1, "First", "a", "t1")])
    );
    assert_eq!(list_posts(Ok(vec![])), Ok(vec![]));
}

#[test]
fn listing_reports_every_storage_failure_alike() {
    for failure in [
        StorageError::Unavailable,
        StorageError::StatementFailed,
        StorageError::Decode(DecodeError::UnexpectedType(2)),
    ] {
        assert_eq!(list_posts(Err(failure)), Err(ServiceError::PersistenceFailed));
    }
}

#[test]
fn listing_reports_a_row_that_is_no_post() {
    let rows = vec![row(2, "Second", "b", "t2"), vec![SqlValue::Null]];
    assert_eq!(list_posts(Ok(rows)), Err(ServiceError::PersistenceFailed));
    let rows = vec![row(4294967296, "Second", "b", "t2")];
    assert_eq!(list_posts(Ok(rows)), Err(ServiceError::PersistenceFailed));
}

#[test]
fn listing_the_same_rows_twice_gives_the_same_posts() {
    let rows = vec![row(2, "Second", "b", "t2"), row(1, "First", "a", "t1")];
    let again = vec![row(2, "Second", "b", "t2"), row(1, "First", "a", "t1")];
    assert_eq!(list_posts(Ok(rows)), list_posts(Ok(again)));
}
