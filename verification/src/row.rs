//! Rows of the `posts` table, as the storage engine hands them out, and the
//! mapping between such a row and a [`Post`].

use crate::post::{Post, PostView};
use vstd::prelude::*;
use vstd::string::StrSliceExecFns;
use vstd::utf8::{decode_utf8, encode_utf8, valid_utf8};

verus! {

/// Position of the identifier in a row of posts.
pub const ID_COLUMN: usize = 0;

/// Position of the title in a row of posts.
pub const TITLE_COLUMN: usize = 1;

/// Position of the body in a row of posts.
pub const BODY_COLUMN: usize = 2;

/// Position of the creation time in a row of posts.
pub const CREATED_TIME_COLUMN: usize = 3;

/// One column value of a row. An integer keeps its number and a text its
/// bytes, not yet checked to be UTF-8. A real or a blob keeps only its
/// storage class: no column of a post holds one, so such a value is rejected
/// whatever it contains.
#[derive(Debug, PartialEq)]
pub enum SqlValue {
    Null,
    Integer(i64),
    Real,
    Text(Vec<u8>),
    Blob,
}

/// The mathematical content of a [`SqlValue`].
pub enum SqlValueView {
    Null,
    Integer(i64),
    Real,
    Text(Seq<u8>),
    Blob,
}

impl View for SqlValue {
    type V = SqlValueView;

    open spec fn view(&self) -> SqlValueView {
        match self {
            SqlValue::Null => SqlValueView::Null,
            SqlValue::Integer(number) => SqlValueView::Integer(*number),
            SqlValue::Real => SqlValueView::Real,
            SqlValue::Text(bytes) => SqlValueView::Text(bytes@),
            SqlValue::Blob => SqlValueView::Blob,
        }
    }
}

impl DeepView for SqlValue {
    type V = SqlValueView;

    open spec fn deep_view(&self) -> SqlValueView {
        self@
    }
}

/// Why a row is not a post. The first field is the position of the column at
/// fault.
#[derive(Clone, Copy, Debug, PartialEq, Eq, Structural)]
pub enum DecodeError {
    /// The row ends before this column.
    MissingColumn(usize),
    /// The column holds a value of another storage class than the field
    /// needs.
    UnexpectedType(usize),
    /// The column holds this integer, which is no `u32`.
    IntegerOutOfRange(usize, i64),
    /// The column holds text that is not UTF-8.
    InvalidText(usize),
}

/// What reading column `index` of `row` as a `u32` gives.
pub open spec fn integer_column(row: Seq<SqlValueView>, index: int) -> Result<u32, DecodeError>
    recommends
        0 <= index <= usize::MAX,
{
    if index >= row.len() {
        Err(DecodeError::MissingColumn(index as usize))
    } else {
        match row[index] {
            SqlValueView::Integer(number) => if 0 <= number <= u32::MAX {
                Ok(number as u32)
            } else {
                Err(DecodeError::IntegerOutOfRange(index as usize, number))
            },
            _ => Err(DecodeError::UnexpectedType(index as usize)),
        }
    }
}

/// What reading column `index` of `row` as a string gives.
pub open spec fn text_column(row: Seq<SqlValueView>, index: int) -> Result<Seq<char>, DecodeError>
    recommends
        0 <= index <= usize::MAX,
{
    if index >= row.len() {
        Err(DecodeError::MissingColumn(index as usize))
    } else {
        match row[index] {
            SqlValueView::Text(bytes) => if valid_utf8(bytes) {
                Ok(decode_utf8(bytes))
            } else {
                Err(DecodeError::InvalidText(index as usize))
            },
            _ => Err(DecodeError::UnexpectedType(index as usize)),
        }
    }
}

/// The post that `row` holds: its first four columns are read in order, as
/// an integer and three texts, and the first column that cannot be read
/// decides the error. Columns beyond the fourth are not looked at.
pub open spec fn decoded_post(row: Seq<SqlValueView>) -> Result<PostView, DecodeError> {
    let id = integer_column(row, ID_COLUMN as int);
    let title = text_column(row, TITLE_COLUMN as int);
    let post_body = text_column(row, BODY_COLUMN as int);
    let created_time = text_column(row, CREATED_TIME_COLUMN as int);
    if id is Err {
        Err(id->Err_0)
    } else if title is Err {
        Err(title->Err_0)
    } else if post_body is Err {
        Err(post_body->Err_0)
    } else if created_time is Err {
        Err(created_time->Err_0)
    } else {
        Ok(
            PostView {
                id: id->Ok_0,
                title: title->Ok_0,
                post_body: post_body->Ok_0,
                created_time: created_time->Ok_0,
            },
        )
    }
}

/// The row that holds `post`: its identifier as an integer, then its three
/// texts in UTF-8.
pub open spec fn encoded_post(post: PostView) -> Seq<SqlValueView> {
    seq![
        SqlValueView::Integer(post.id as i64),
        SqlValueView::Text(encode_utf8(post.title)),
        SqlValueView::Text(encode_utf8(post.post_body)),
        SqlValueView::Text(encode_utf8(post.created_time)),
    ]
}

/// The view of a decoding result: the post's view, or the error as it is.
pub open spec fn decoding_view(result: Result<Post, DecodeError>) -> Result<PostView, DecodeError> {
    match result {
        Ok(post) => Ok(post@),
        Err(error) => Err(error),
    }
}

/// Converts an integer of the storage engine to `u32` with rusqlite's
/// `FromSql::column_result` for `u32`. That function takes the integer out
/// of the value and converts it with `try_into`, so that it succeeds, with
/// the same number, exactly on the integers from 0 to `u32::MAX`.
#[verifier::external_body]
fn integer_as_u32(number: i64) -> (converted: Option<u32>)
    ensures
        converted == (if 0 <= number <= u32::MAX {
            Some(number as u32)
        } else {
            None::<u32>
        }),
{
    <u32 as rusqlite::types::FromSql>::column_result(rusqlite::types::ValueRef::Integer(number)).ok()
}

/// Converts a text of the storage engine to a string with rusqlite's
/// `FromSql::column_result` for `String`. That function checks the bytes with
/// `std::str::from_utf8` and copies them into a string, so that it succeeds
/// exactly on well-formed UTF-8, with the characters that the bytes encode.
#[verifier::external_body]
fn text_as_string(bytes: &Vec<u8>) -> (converted: Option<String>)
    ensures
        match converted {
            Some(text) => valid_utf8(bytes@) && text@ == decode_utf8(bytes@),
            None => !valid_utf8(bytes@),
        },
{
    <String as rusqlite::types::FromSql>::column_result(rusqlite::types::ValueRef::Text(bytes)).ok()
}

/// Reads column `index` of `row` as a `u32`.
pub fn read_integer(row: &Vec<SqlValue>, index: usize) -> (value: Result<u32, DecodeError>)
    ensures
        value == integer_column(row.deep_view(), index as int),
{
    if index >= row.len() {
        return Err(DecodeError::MissingColumn(index));
    }
    match &row[index] {
        SqlValue::Integer(number) => match integer_as_u32(*number) {
            Some(converted) => Ok(converted),
            None => Err(DecodeError::IntegerOutOfRange(index, *number)),
        },
        _ => Err(DecodeError::UnexpectedType(index)),
    }
}

/// Reads column `index` of `row` as a string.
pub fn read_text(row: &Vec<SqlValue>, index: usize) -> (value: Result<String, DecodeError>)
    ensures
        match value {
            Ok(text) => text_column(row.deep_view(), index as int) == Ok::<Seq<char>, DecodeError>(
                text@,
            ),
            Err(error) => text_column(row.deep_view(), index as int) == Err::<
                Seq<char>,
                DecodeError,
            >(error),
        },
{
    if index >= row.len() {
        return Err(DecodeError::MissingColumn(index));
    }
    match &row[index] {
        SqlValue::Text(bytes) => match text_as_string(bytes) {
            Some(text) => Ok(text),
            None => Err(DecodeError::InvalidText(index)),
        },
        _ => Err(DecodeError::UnexpectedType(index)),
    }
}

/// Maps a row to the post it holds.
pub fn decode_post(row: &Vec<SqlValue>) -> (result: Result<Post, DecodeError>)
    ensures
        decoding_view(result) == decoded_post(row.deep_view()),
{
    let id = match read_integer(row, ID_COLUMN) {
        Ok(id) => id,
        Err(error) => return Err(error),
    };
    let title = match read_text(row, TITLE_COLUMN) {
        Ok(title) => title,
        Err(error) => return Err(error),
    };
    let post_body = match read_text(row, BODY_COLUMN) {
        Ok(post_body) => post_body,
        Err(error) => return Err(error),
    };
    let created_time = match read_text(row, CREATED_TIME_COLUMN) {
        Ok(created_time) => created_time,
        Err(error) => return Err(error),
    };
    Ok(Post::new(id, title, post_body, created_time))
}

/// Maps a post to the row that holds it.
pub fn encode_post(post: &Post) -> (row: Vec<SqlValue>)
    ensures
        row.deep_view() == encoded_post(post@),
{
    let mut row: Vec<SqlValue> = Vec::new();
    row.push(SqlValue::Integer(post.id() as i64));
    row.push(SqlValue::Text(post.title().as_bytes_vec()));
    row.push(SqlValue::Text(post.post_body().as_bytes_vec()));
    row.push(SqlValue::Text(post.created_time().as_bytes_vec()));
    assert(row.deep_view() =~= encoded_post(post@));
    row
}

/// A post that is written to a row and read back is the same post.
pub proof fn law_encoded_post_decodes_to_itself(post: PostView)
    ensures
        decoded_post(encoded_post(post)) == Ok::<PostView, DecodeError>(post),
{
    broadcast use vstd::utf8::encode_utf8_valid_utf8, vstd::utf8::encode_utf8_decode_utf8;

    let row = encoded_post(post);
    assert(row[0] == SqlValueView::Integer(post.id as i64));
    assert(row[1] == SqlValueView::Text(encode_utf8(post.title)));
    assert(row[2] == SqlValueView::Text(encode_utf8(post.post_body)));
    assert(row[3] == SqlValueView::Text(encode_utf8(post.created_time)));
}

} // verus!
