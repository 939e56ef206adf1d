//! What the storage accessor decides: the two statements it runs, the values
//! it binds, and what it makes of the rows that come back. Running a
//! statement is left to the caller.

use crate::post::{Post, PostView};
use crate::row::{decode_post, decoded_post, DecodeError, SqlValue, SqlValueView};
use vstd::prelude::*;
use vstd::string::StrSliceExecFns;
use vstd::utf8::encode_utf8;

verus! {

/// The author that every post is stored under.
pub const AUTHOR_ID: i64 = 1;

/// Inserts one post. The three parameters are those of
/// [`insert_parameters`]; the identifier and the creation time are left to
/// the storage engine.
pub const INSERT_POST_SQL: &'static str =
    "INSERT INTO posts (user_id, title, post_body, created_time) VALUES (?1, ?2, ?3, datetime('now'))";

/// Selects every post, newest first, with the columns in the order that
/// [`decode_post`] reads them.
pub const SELECT_POSTS_SQL: &'static str =
    "SELECT id, title, post_body, created_time FROM posts ORDER BY id DESC";

/// Why a storage operation failed.
#[derive(Clone, Copy, Debug, PartialEq, Eq, Structural)]
pub enum StorageError {
    /// The database file could not be opened.
    Unavailable,
    /// The storage engine refused the statement or failed while running it.
    StatementFailed,
    /// A row of the result holds no post.
    Decode(DecodeError),
}

/// The values bound by the insert statement for a post with this title and
/// body.
pub open spec fn insert_parameter_values(title: Seq<char>, body: Seq<char>) -> Seq<SqlValueView> {
    seq![
        SqlValueView::Integer(AUTHOR_ID),
        SqlValueView::Text(encode_utf8(title)),
        SqlValueView::Text(encode_utf8(body)),
    ]
}

/// Whether row `index` is the first of `rows` that holds no post.
pub open spec fn first_failure_at(rows: Seq<Seq<SqlValueView>>, index: int) -> bool {
    &&& 0 <= index < rows.len()
    &&& decoded_post(rows[index]) is Err
    &&& forall|earlier: int| 0 <= earlier < index ==> decoded_post(#[trigger] rows[earlier]) is Ok
}

/// The posts that `rows` hold, in the order of the rows, or the reason why
/// the first row that holds none does not.
pub open spec fn decoded_rows(rows: Seq<Seq<SqlValueView>>) -> Result<Seq<PostView>, DecodeError> {
    if exists|index: int| first_failure_at(rows, index) {
        let index = choose|index: int| first_failure_at(rows, index);
        Err(decoded_post(rows[index])->Err_0)
    } else {
        Ok(Seq::new(rows.len(), |index: int| decoded_post(rows[index])->Ok_0))
    }
}

/// The outcome of listing, once the select statement has handed out `rows`.
pub open spec fn listing_of_rows(rows: Seq<Seq<SqlValueView>>) -> Result<
    Seq<PostView>,
    StorageError,
> {
    match decoded_rows(rows) {
        Ok(posts) => Ok(posts),
        Err(error) => Err(StorageError::Decode(error)),
    }
}

/// The view of a listing: the views of its posts, or the error as it is.
pub open spec fn listing_view(result: Result<Vec<Post>, StorageError>) -> Result<
    Seq<PostView>,
    StorageError,
> {
    match result {
        Ok(posts) => Ok(posts.deep_view()),
        Err(error) => Err(error),
    }
}

/// Only one row can be the first that holds no post.
pub proof fn lemma_first_failure_unique(rows: Seq<Seq<SqlValueView>>, one: int, other: int)
    requires
        first_failure_at(rows, one),
        first_failure_at(rows, other),
    ensures
        one == other,
{
    if one < other {
        assert(decoded_post(rows[one]) is Ok);
    } else if other < one {
        assert(decoded_post(rows[other]) is Ok);
    }
}

/// The values to bind when inserting a post: the author, then the title and
/// the body as text.
pub fn insert_parameters(title: &str, body: &str) -> (parameters: Vec<SqlValue>)
    ensures
        parameters.deep_view() == insert_parameter_values(title@, body@),
{
    let mut parameters: Vec<SqlValue> = Vec::new();
    parameters.push(SqlValue::Integer(AUTHOR_ID));
    parameters.push(SqlValue::Text(title.as_bytes_vec()));
    parameters.push(SqlValue::Text(body.as_bytes_vec()));
    assert(parameters.deep_view() =~= insert_parameter_values(title@, body@));
    parameters
}

/// Turns the rows of the select statement into posts, in the same order.
/// The first row that holds no post ends the listing with its error.
pub fn collect_posts(rows: &Vec<Vec<SqlValue>>) -> (result: Result<Vec<Post>, StorageError>)
    ensures
        listing_view(result) == listing_of_rows(rows.deep_view()),
{
    let ghost row_views = rows.deep_view();
    let mut posts: Vec<Post> = Vec::new();
    let mut index: usize = 0;
    while index < rows.len()
        invariant
            index <= rows.len(),
            posts.len() == index,
            row_views == rows.deep_view(),
            forall|earlier: int|
                0 <= earlier < index ==> decoded_post(#[trigger] row_views[earlier]) == Ok::<
                    PostView,
                    DecodeError,
                >(posts@[earlier]@),
        decreases rows.len() - index,
    {
        assert(row_views[index as int] == rows@[index as int].deep_view());
        match decode_post(&rows[index]) {
            Ok(post) => {
                posts.push(post);
            },
            Err(error) => {
                proof {
                    assert(first_failure_at(row_views, index as int));
                    let chosen = choose|at: int| first_failure_at(row_views, at);
                    lemma_first_failure_unique(row_views, index as int, chosen);
                }
                return Err(StorageError::Decode(error));
            },
        }
        index += 1;
    }
    proof {
        assert forall|at: int| !first_failure_at(row_views, at) by {
            if 0 <= at < row_views.len() {
                assert(decoded_post(row_views[at]) is Ok);
            }
        }
        assert(posts.deep_view() =~= Seq::new(
            row_views.len(),
            |at: int| decoded_post(row_views[at])->Ok_0,
        ));
    }
    Ok(posts)
}

} // verus!
