//! The `posts` table as this library takes the storage engine to keep it,
//! and what follows for the service from that.
//!
//! The table is a model: nothing here runs the storage engine, and nothing
//! checks the engine against the model. It states what the two statements of
//! [`crate::storage`] are taken to do to a table that only they write to.
//! The laws below are proved of the verified decoding of the rows that the
//! model hands out.

use crate::post::PostView;
use crate::row::{decoded_post, DecodeError, SqlValueView};
use crate::service::{creation_result, listing_result, ServiceError};
use crate::storage::{decoded_rows, first_failure_at, StorageError, AUTHOR_ID};
use vstd::prelude::*;
use vstd::utf8::encode_utf8;

verus! {

/// One row of the table.
pub struct StoredPost {
    pub id: i64,
    pub user_id: i64,
    pub title: Seq<char>,
    pub post_body: Seq<char>,
    pub created_time: Seq<char>,
}

/// A table is the sequence of its rows in the order they were inserted.
/// It is well formed when the identifiers start at 1 or above and grow
/// strictly from each row to the next.
pub open spec fn well_formed(table: Seq<StoredPost>) -> bool {
    &&& forall|at: int| 0 <= at < table.len() ==> 1 <= (#[trigger] table[at]).id
    &&& forall|one: int, other: int|
        0 <= one < other < table.len() ==> (#[trigger] table[one]).id < (#[trigger] table[other]).id
}

/// Whether every identifier of the table is a `u32`.
pub open spec fn identifiers_fit(table: Seq<StoredPost>) -> bool {
    forall|at: int| 0 <= at < table.len() ==> (#[trigger] table[at]).id <= u32::MAX
}

/// What a successful insert of `title` and `body` does: `after` is `before`
/// with one more row at its end. The row holds the two texts under the one
/// author; its identifier is above every earlier one, and its creation time
/// is whatever the engine wrote.
pub open spec fn inserted(
    before: Seq<StoredPost>,
    title: Seq<char>,
    body: Seq<char>,
    after: Seq<StoredPost>,
) -> bool {
    &&& after.len() == before.len() + 1
    &&& after.drop_last() == before
    &&& after.last().user_id == AUTHOR_ID
    &&& after.last().title == title
    &&& after.last().post_body == body
    &&& after.last().id >= 1
    &&& forall|at: int| 0 <= at < before.len() ==> (#[trigger] before[at]).id < after.last().id
}

/// What an insert that ended with `outcome` does to the table: a failed
/// insert leaves it as it was.
pub open spec fn insert_effect(
    before: Seq<StoredPost>,
    title: Seq<char>,
    body: Seq<char>,
    outcome: Result<(), StorageError>,
    after: Seq<StoredPost>,
) -> bool {
    if outcome is Ok {
        inserted(before, title, body, after)
    } else {
        after == before
    }
}

/// Whether `after` can come from `before` by inserts alone: it begins with
/// the rows of `before`, unchanged.
pub open spec fn extends(before: Seq<StoredPost>, after: Seq<StoredPost>) -> bool {
    &&& before.len() <= after.len()
    &&& after.subrange(0, before.len() as int) == before
}

/// The row that the select statement hands out for a stored post.
pub open spec fn selected_row(stored: StoredPost) -> Seq<SqlValueView> {
    seq![
        SqlValueView::Integer(stored.id),
        SqlValueView::Text(encode_utf8(stored.title)),
        SqlValueView::Text(encode_utf8(stored.post_body)),
        SqlValueView::Text(encode_utf8(stored.created_time)),
    ]
}

/// The rows that the select statement hands out: one for each row of the
/// table, the one inserted last first.
pub open spec fn selected_rows(table: Seq<StoredPost>) -> Seq<Seq<SqlValueView>> {
    Seq::new(table.len(), |at: int| selected_row(table[table.len() - 1 - at]))
}

/// The post that a stored row with a `u32` identifier holds.
pub open spec fn post_of(stored: StoredPost) -> PostView {
    PostView {
        id: stored.id as u32,
        title: stored.title,
        post_body: stored.post_body,
        created_time: stored.created_time,
    }
}

/// The posts of the table, the one inserted last first.
pub open spec fn newest_first(table: Seq<StoredPost>) -> Seq<PostView> {
    Seq::new(table.len(), |at: int| post_of(table[table.len() - 1 - at]))
}

/// What `list_posts` returns when the select statement ran on `table`.
pub open spec fn listing(table: Seq<StoredPost>) -> Result<Seq<PostView>, ServiceError> {
    listing_result(Ok(selected_rows(table)))
}

/// A selected row decodes to its post when the identifier is a `u32`, and
/// fails on the identifier otherwise.
pub proof fn lemma_selected_row_decodes(stored: StoredPost)
    ensures
        0 <= stored.id <= u32::MAX ==> decoded_post(selected_row(stored)) == Ok::<
            PostView,
            DecodeError,
        >(post_of(stored)),
        !(0 <= stored.id <= u32::MAX) ==> decoded_post(selected_row(stored)) is Err,
{
    broadcast use vstd::utf8::encode_utf8_valid_utf8, vstd::utf8::encode_utf8_decode_utf8;

    let row = selected_row(stored);
    assert(row[0] == SqlValueView::Integer(stored.id));
    assert(row[1] == SqlValueView::Text(encode_utf8(stored.title)));
    assert(row[2] == SqlValueView::Text(encode_utf8(stored.post_body)));
    assert(row[3] == SqlValueView::Text(encode_utf8(stored.created_time)));
}

/// Listing a well-formed table succeeds exactly when every identifier is a
/// `u32`, and then gives the posts of the table, newest first.
pub proof fn lemma_listing_of_table(table: Seq<StoredPost>)
    requires
        well_formed(table),
    ensures
        identifiers_fit(table) ==> listing(table) == Ok::<Seq<PostView>, ServiceError>(
            newest_first(table),
        ),
        !identifiers_fit(table) ==> listing(table) == Err::<Seq<PostView>, ServiceError>(
            ServiceError::PersistenceFailed,
        ),
{
    let rows = selected_rows(table);
    if identifiers_fit(table) {
        assert forall|at: int| 0 <= at < rows.len() implies decoded_post(#[trigger] rows[at])
            == Ok::<PostView, DecodeError>(newest_first(table)[at]) by {
            let stored = table[table.len() - 1 - at];
            assert(1 <= stored.id <= u32::MAX);
            lemma_selected_row_decodes(stored);
        }
        assert forall|at: int| !first_failure_at(rows, at) by {
            if 0 <= at < rows.len() {
                assert(decoded_post(rows[at]) is Ok);
            }
        }
        assert(Seq::new(rows.len(), |at: int| decoded_post(rows[at])->Ok_0) =~= newest_first(
            table,
        ));
    } else {
        let unfit = choose|at: int| 0 <= at < table.len() && !((#[trigger] table[at]).id <= u32::MAX);
        let at = table.len() - 1 - unfit;
        lemma_selected_row_decodes(table[unfit]);
        assert(decoded_post(rows[at]) is Err);
        lemma_some_row_fails(rows, at);
    }
}

/// Where some row holds no post, some row is the first that holds none.
pub proof fn lemma_some_row_fails(rows: Seq<Seq<SqlValueView>>, at: int)
    requires
        0 <= at < rows.len(),
        decoded_post(rows[at]) is Err,
    ensures
        exists|first: int| first_failure_at(rows, first),
        decoded_rows(rows) is Err,
    decreases at,
{
    if forall|earlier: int| 0 <= earlier < at ==> decoded_post(#[trigger] rows[earlier]) is Ok {
        assert(first_failure_at(rows, at));
    } else {
        let earlier = choose|earlier: int|
            0 <= earlier < at && !(decoded_post(#[trigger] rows[earlier]) is Ok);
        lemma_some_row_fails(rows, earlier);
    }
}

/// An insert that succeeded keeps the table well formed, and the table
/// after it extends the table before it.
pub proof fn lemma_insert_extends(
    before: Seq<StoredPost>,
    title: Seq<char>,
    body: Seq<char>,
    after: Seq<StoredPost>,
)
    requires
        well_formed(before),
        inserted(before, title, body, after),
    ensures
        well_formed(after),
        extends(before, after),
{
    assert forall|at: int| 0 <= at < before.len() implies after[at] == before[at] by {
        assert(after.drop_last()[at] == after[at]);
    }
    assert(after.subrange(0, before.len() as int) =~= before);
    assert forall|at: int| 0 <= at < after.len() implies 1 <= (#[trigger] after[at]).id by {
        if at < before.len() {
            assert(after[at] == before[at]);
        }
    }
    assert forall|one: int, other: int| 0 <= one < other < after.len() implies (
    #[trigger] after[one]).id < (#[trigger] after[other]).id by {
        assert(after[one] == before[one]);
        if other < before.len() {
            assert(after[other] == before[other]);
        }
    }
}

/// Tables that grow by inserts alone stay in that relation over any number
/// of inserts.
pub proof fn lemma_extends_is_transitive(
    first: Seq<StoredPost>,
    second: Seq<StoredPost>,
    third: Seq<StoredPost>,
)
    requires
        extends(first, second),
        extends(second, third),
    ensures
        extends(first, third),
{
    assert forall|at: int| 0 <= at < first.len() implies third[at] == first[at] by {
        assert(second.subrange(0, first.len() as int)[at] == second[at]);
        assert(third.subrange(0, second.len() as int)[at] == third[at]);
    }
    assert(third.subrange(0, first.len() as int) =~= first);
}

/// Round trip: after a post was created, the listing succeeds and begins
/// with a post of that title and body. This holds as long as the identifier
/// that the new row was given is a `u32`.
pub proof fn law_created_post_is_listed_first(
    before: Seq<StoredPost>,
    title: Seq<char>,
    body: Seq<char>,
    after: Seq<StoredPost>,
)
    requires
        well_formed(before),
        inserted(before, title, body, after),
        after.last().id <= u32::MAX,
    ensures
        listing(after) is Ok,
        listing(after)->Ok_0.len() > 0,
        listing(after)->Ok_0[0].title == title,
        listing(after)->Ok_0[0].post_body == body,
{
    lemma_insert_extends(before, title, body, after);
    assert forall|at: int| 0 <= at < after.len() implies (#[trigger] after[at]).id
        <= u32::MAX by {
        if at < after.len() - 1 {
            assert(after[at].id < after[after.len() - 1].id);
        }
    }
    lemma_listing_of_table(after);
    assert(newest_first(after)[0] == post_of(after[after.len() - 1]));
}

/// Append-only: whatever inserts lead from one table to a later one, a
/// listing of the later table that succeeds is at least as long as the
/// listing of the earlier one, which succeeds too, and ends with the posts
/// of the earlier listing, each unchanged.
pub proof fn law_listing_only_grows(before: Seq<StoredPost>, after: Seq<StoredPost>)
    requires
        well_formed(before),
        well_formed(after),
        extends(before, after),
        listing(after) is Ok,
    ensures
        listing(before) is Ok,
        listing(before)->Ok_0.len() <= listing(after)->Ok_0.len(),
        forall|at: int|
            0 <= at < listing(before)->Ok_0.len() ==> listing(after)->Ok_0[at + (
            listing(after)->Ok_0.len() - listing(before)->Ok_0.len())] == #[trigger] listing(
                before,
            )->Ok_0[at],
{
    lemma_listing_of_table(after);
    assert(identifiers_fit(after));
    assert forall|at: int| 0 <= at < before.len() implies (#[trigger] before[at]).id
        <= u32::MAX by {
        assert(after.subrange(0, before.len() as int)[at] == after[at]);
        assert(after[at].id <= u32::MAX);
    }
    lemma_listing_of_table(before);
    let grown = after.len() - before.len();
    assert forall|at: int| 0 <= at < newest_first(before).len() implies newest_first(after)[at
        + grown] == #[trigger] newest_first(before)[at] by {
        let source = before.len() - 1 - at;
        assert(after.subrange(0, before.len() as int)[source] == after[source]);
    }
}

/// Append-only, for one creation: the listing has one post more, and the
/// posts that were listed before follow the new one, each unchanged.
pub proof fn law_creation_adds_one_post(
    before: Seq<StoredPost>,
    title: Seq<char>,
    body: Seq<char>,
    after: Seq<StoredPost>,
)
    requires
        well_formed(before),
        inserted(before, title, body, after),
        listing(after) is Ok,
    ensures
        listing(before) is Ok,
        listing(after)->Ok_0.len() == listing(before)->Ok_0.len() + 1,
        forall|at: int|
            0 <= at < listing(before)->Ok_0.len() ==> listing(after)->Ok_0[at + 1]
                == #[trigger] listing(before)->Ok_0[at],
{
    lemma_insert_extends(before, title, body, after);
    law_listing_only_grows(before, after);
    lemma_listing_of_table(after);
    lemma_listing_of_table(before);
}

/// Ordering: in a listing that succeeds, each post has a larger identifier
/// than every post after it.
pub proof fn law_listing_is_newest_first(table: Seq<StoredPost>)
    requires
        well_formed(table),
        listing(table) is Ok,
    ensures
        forall|one: int, other: int|
            0 <= one < other < listing(table)->Ok_0.len() ==> (#[trigger] listing(
                table,
            )->Ok_0[one]).id > (#[trigger] listing(table)->Ok_0[other]).id,
{
    lemma_listing_of_table(table);
    assert(identifiers_fit(table));
    let posts = newest_first(table);
    assert forall|one: int, other: int| 0 <= one < other < posts.len() implies (
    #[trigger] posts[one]).id > (#[trigger] posts[other]).id by {
        let newer = table.len() - 1 - one;
        let older = table.len() - 1 - other;
        assert(table[older].id < table[newer].id);
        assert(1 <= table[older].id);
        assert(table[newer].id <= u32::MAX);
    }
}

/// Idempotence of listing: two listings with no creation between them, of
/// one table, are the same.
pub proof fn law_listing_is_repeatable(
    table: Seq<StoredPost>,
    first: Result<Seq<PostView>, ServiceError>,
    second: Result<Seq<PostView>, ServiceError>,
)
    requires
        first == listing(table),
        second == listing(table),
    ensures
        first == second,
{
}

/// A creation that failed is reported as a failure of persistence and adds
/// nothing to any later listing.
pub proof fn law_failed_creation_changes_nothing(
    before: Seq<StoredPost>,
    title: Seq<char>,
    body: Seq<char>,
    outcome: Result<(), StorageError>,
    after: Seq<StoredPost>,
)
    requires
        outcome is Err,
        insert_effect(before, title, body, outcome, after),
    ensures
        creation_result(outcome) == Err::<(), ServiceError>(ServiceError::PersistenceFailed),
        listing(after) == listing(before),
{
}

} // verus!
