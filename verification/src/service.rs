//! The post service: the two operations the interface calls, with every
//! storage failure reported as one kind of error.
//!
//! Each operation is handed what the storage accessor brought back and
//! decides what the caller is told.

use crate::post::{Post, PostView};
use crate::row::{SqlValue, SqlValueView};
use crate::storage::{collect_posts, decoded_rows, StorageError};
use vstd::prelude::*;

verus! {

/// Why a service operation failed.
#[derive(Clone, Copy, Debug, PartialEq, Eq, Structural)]
pub enum ServiceError {
    /// The storage accessor reported a failure, of whatever kind.
    PersistenceFailed,
}

/// What the caller of `create_post` is told: success exactly when the insert
/// succeeded.
pub open spec fn creation_result(inserted: Result<(), StorageError>) -> Result<(), ServiceError> {
    match inserted {
        Ok(_) => Ok(()),
        Err(_) => Err(ServiceError::PersistenceFailed),
    }
}

/// What the caller of `list_posts` is told: the posts of the fetched rows,
/// in their order, exactly when the rows were fetched and each of them holds
/// a post.
pub open spec fn listing_result(fetched: Result<Seq<Seq<SqlValueView>>, StorageError>) -> Result<
    Seq<PostView>,
    ServiceError,
> {
    match fetched {
        Ok(rows) => match decoded_rows(rows) {
            Ok(posts) => Ok(posts),
            Err(_) => Err(ServiceError::PersistenceFailed),
        },
        Err(_) => Err(ServiceError::PersistenceFailed),
    }
}

/// The view of what the select statement brought back.
pub open spec fn fetched_view(fetched: Result<Vec<Vec<SqlValue>>, StorageError>) -> Result<
    Seq<Seq<SqlValueView>>,
    StorageError,
> {
    match fetched {
        Ok(rows) => Ok(rows.deep_view()),
        Err(error) => Err(error),
    }
}

/// The view of what `list_posts` returns.
pub open spec fn posts_view(result: Result<Vec<Post>, ServiceError>) -> Result<
    Seq<PostView>,
    ServiceError,
> {
    match result {
        Ok(posts) => Ok(posts.deep_view()),
        Err(error) => Err(error),
    }
}

/// Ends the creation of a post: `inserted` is what running the insert
/// statement gave.
pub fn create_post(inserted: Result<(), StorageError>) -> (result: Result<(), ServiceError>)
    ensures
        result == creation_result(inserted),
{
    match inserted {
        Ok(_) => Ok(()),
        Err(_) => Err(ServiceError::PersistenceFailed),
    }
}

/// Ends the listing of the posts: `fetched` is what running the select
/// statement gave.
pub fn list_posts(fetched: Result<Vec<Vec<SqlValue>>, StorageError>) -> (result: Result<
    Vec<Post>,
    ServiceError,
>)
    ensures
        posts_view(result) == listing_result(fetched_view(fetched)),
{
    match fetched {
        Ok(rows) => match collect_posts(&rows) {
            Ok(posts) => Ok(posts),
            Err(_) => Err(ServiceError::PersistenceFailed),
        },
        Err(_) => Err(ServiceError::PersistenceFailed),
    }
}

} // verus!
