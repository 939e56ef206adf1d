use miniblog::post::Post;
use miniblog::row::{
    decode_post, encode_post, read_integer, read_text, DecodeError, SqlValue, BODY_COLUMN,
    CREATED_TIME_COLUMN, ID_COLUMN, TITLE_COLUMN,
};

fn text(value: &str) -> SqlValue {
    SqlValue::Text(value.as_bytes().to_vec())
}

fn hello_row() -> Vec<SqlValue> {
    vec![
        SqlValue::Integer(1),
        text("Hello"),
        text("World"),
        text("2024-05-01 10:20:30"),
    ]
}

#[test]
fn columns_are_in_select_order() {
    assert_eq!(ID_COLUMN, 0);
    assert_eq!(TITLE_COLUMN, 1);
    assert_eq!(BODY_COLUMN, 2);
    assert_eq!(CREATED_TIME_COLUMN, 3);
}

#[test]
fn decodes_a_row_of_four_columns() {
    let post = decode_post(&hello_row()).unwrap();
    assert_eq!(post.id(), 1);
    assert_eq!(post.title(), "Hello");
    assert_eq!(post.post_body(), "World");
    assert_eq!(post.created_time(), "2024-05-01 10:20:30");
}

#[test]
fn decoded_post_equals_built_post() {
    let expected = Post::new(
        1,
        String::from("Hello"),
        String::from("World"),
        String::from("2024-05-01 10:20:30"),
    );
    assert_eq!(decode_post(&hello_row()), Ok(expected));
}

#[test]
fn columns_after_the_fourth_are_ignored() {
    let mut row = hello_row();
    row.push(SqlValue::Null);
    row.push(SqlValue::Blob);
    assert_eq!(decode_post(&row), decode_post(&hello_row()));
    assert!(decode_post(&row).is_ok());
}

#[test]
fn empty_texts_are_accepted() {
    let row = vec![SqlValue::Integer(5), text(""), text(""), text("")];
    let post = decode_post(&row).unwrap();
    assert_eq!(post.id(), 5);
    assert_eq!(post.title(), "");
    assert_eq!(post.post_body(), "");
    assert_eq!(post.created_time(), "");
}

#[test]
fn empty_row_misses_its_first_column() {
    assert_eq!(decode_post(&vec![]), Err(DecodeError::MissingColumn(0)));
}

#[test]
fn short_row_misses_the_column_after_its_end() {
    let mut row = hello_row();
    row.pop();
    assert_eq!(decode_post(&row), Err(DecodeError::MissingColumn(3)));
    row.pop();
    assert_eq!(decode_post(&row), Err(DecodeError::MissingColumn(2)));
    row.pop();
    assert_eq!(decode_post(&row), Err(DecodeError::MissingColumn(1)));
}

#[test]
fn identifier_must_be_an_integer() {
    for wrong in [SqlValue::Null, SqlValue::Real, text("1"), SqlValue::Blob] {
        let mut row = hello_row();
        row[0] = wrong;
        assert_eq!(decode_post(&row), Err(DecodeError::UnexpectedType(0)));
    }
}

#[test]
fn texts_must_be_text() {
    for column in 1..4 {
        for wrong in [SqlValue::Null, SqlValue::Integer(3), SqlValue::Real, SqlValue::Blob] {
            let mut row = hello_row();
            row[column] = wrong;
            assert_eq!(decode_post(&row), Err(DecodeError::UnexpectedType(column)));
        }
    }
}

#[test]
fn identifier_range_is_that_of_u32() {
    let mut row = hello_row();
    row[0] = SqlValue::Integer(0);
    assert_eq!(decode_post(&row).unwrap().id(), 0);
    row[0] = SqlValue::Integer(4294967295);
    assert_eq!(decode_post(&row).unwrap().id(), 4294967295);
    row[0] = SqlValue::Integer(4294967296);
    assert_eq!(
        decode_post(&row),
        Err(DecodeError::IntegerOutOfRange(0, 4294967296))
    );
    row[0] = SqlValue::Integer(-1);
    assert_eq!(decode_post(&row), Err(DecodeError::IntegerOutOfRange(0, -1)));
    row[0] = SqlValue::Integer(i64::MAX);
    assert_eq!(
        decode_post(&row),
        Err(DecodeError::IntegerOutOfRange(0, i64::MAX))
    );
    row[0] = SqlValue::Integer(i64::MIN);
    assert_eq!(
        decode_post(&row),
        Err(DecodeError::IntegerOutOfRange(0, i64::MIN))
    );
}

#[test]
fn text_must_be_utf8() {
    let mut row = hello_row();
    row[2] = SqlValue::Text(vec![0x66, 0x6f, 0xff]);
    assert_eq!(decode_post(&row), Err(DecodeError::InvalidText(2)));
    row[2] = SqlValue::Text(vec![0xc3]);
    assert_eq!(decode_post(&row), Err(DecodeError::InvalidText(2)));
    row[2] = SqlValue::Text(vec![0xed, 0xa0, 0x80]);
    assert_eq!(decode_post(&row), Err(DecodeError::InvalidText(2)));
}

#[test]
fn text_beyond_ascii_is_decoded() {
    let mut row = hello_row();
    row[1] = SqlValue::Text(vec![0x63, 0x61, 0x66, 0xc3, 0xa9]);
    row[2] = text("日本語 ← ok 🙂");
    let post = decode_post(&row).unwrap();
    assert_eq!(post.title(), "café");
    assert_eq!(post.post_body(), "日本語 ← ok 🙂");
}

#[test]
fn first_column_at_fault_decides_the_error() {
    let row = vec![SqlValue::Null, SqlValue::Integer(1)];
    assert_eq!(decode_post(&row), Err(DecodeError::UnexpectedType(0)));
    let row = vec![SqlValue::Integer(1), SqlValue::Null];
    assert_eq!(decode_post(&row), Err(DecodeError::UnexpectedType(1)));
    let row = vec![
        SqlValue::Integer(-5),
        SqlValue::Text(vec![0xff]),
        SqlValue::Null,
    ];
    assert_eq!(decode_post(&row), Err(DecodeError::IntegerOutOfRange(0, -5)));
    let row = vec![
        SqlValue::Integer(5),
        SqlValue::Text(vec![0xff]),
        SqlValue::Null,
    ];
    assert_eq!(decode_post(&row), Err(DecodeError::InvalidText(1)));
}

#[test]
fn read_integer_reads_any_column() {
    let row = vec![text("a"), SqlValue::Integer(42), SqlValue::Integer(-42)];
    assert_eq!(read_integer(&row, 1), Ok(42));
    assert_eq!(read_integer(&row, 0), Err(DecodeError::UnexpectedType(0)));
    assert_eq!(
        read_integer(&row, 2),
        Err(DecodeError::IntegerOutOfRange(2, -42))
    );
    assert_eq!(read_integer(&row, 3), Err(DecodeError::MissingColumn(3)));
    assert_eq!(
        read_integer(&row, usize::MAX),
        Err(DecodeError::MissingColumn(usize::MAX))
    );
}

#[test]
fn read_text_reads_any_column() {
    let row = vec![text("a"), SqlValue::Integer(42), SqlValue::Text(vec![0x80])];
    assert_eq!(read_text(&row, 0), Ok(String::from("a")));
    assert_eq!(read_text(&row, 1), Err(DecodeError::UnexpectedType(1)));
    assert_eq!(read_text(&row, 2), Err(DecodeError::InvalidText(2)));
    assert_eq!(read_text(&row, 3), Err(DecodeError::MissingColumn(3)));
}

#[test]
fn encodes_a_post_as_its_row() {
    let post = Post::new(
        1,
        String::from("Hello"),
        String::from("World"),
        String::from("2024-05-01 10:20:30"),
    );
    assert_eq!(encode_post(&post), hello_row());
}

#[test]
fn encoding_writes_utf8() {
    let post = Post::new(7, String::from("café"), String::new(), String::from("t"));
    assert_eq!(
        encode_post(&post),
        vec![
            SqlValue::Integer(7),
            SqlValue::Text(vec![0x63, 0x61, 0x66, 0xc3, 0xa9]),
            SqlValue::Text(vec![]),
            SqlValue::Text(vec![0x74]),
        ]
    );
}

#[test]
fn encoded_post_decodes_to_itself() {
    for id in [0u32, 1, 77, u32::MAX] {
        let post = Post::new(
            id,
            String::from("A title — with a dash"),
            String::from("line one\nline two"),
            String::from("2031-12-31 23:59:59"),
        );
        assert_eq!(decode_post(&encode_post(&post)), Ok(post.clone()));
    }
}

#[test]
fn cloned_post_is_equal() {
    let post = Post::new(3, String::from("t"), String::from("b"), String::from("c"));
    let copy = post.clone();
    assert_eq!(copy, post);
    assert_eq!(copy.id(), 3);
    assert_eq!(copy.title(), "t");
    assert_eq!(copy.post_body(), "b");
    assert_eq!(copy.created_time(), "c");
}
