use lib::cursor::{Cursor, RowByRowCursor};
use lib::error::{Error, QueryResult};
use lib::result::PgResult;
use lib::row::{PgRow, Row};
use lib::value::{Oid, PgMetadataLookupNonMut, PgTypeMetadata};

/// The type catalog of the test database: one custom type, `mood`.
struct Catalog;

impl PgMetadataLookupNonMut for Catalog {
    fn lookup_type(&self, name: &str, schema: Option<&str>) -> PgTypeMetadata {
        if name == "mood" && schema.is_none() {
            PgTypeMetadata::Found { oid: Oid::new(16385).unwrap(), array_oid: Oid::new(16384).unwrap() }
        } else {
            PgTypeMetadata::not_found(name, schema)
        }
    }
}

const INT4_OID: u32 = 23;
const TEXT_OID: u32 = 25;

fn columns() -> (Vec<Option<String>>, Vec<Oid>) {
    (
        vec![Some(String::from("id")), Some(String::from("name"))],
        vec![Oid::new(INT4_OID).unwrap(), Oid::new(TEXT_OID).unwrap()],
    )
}

fn user_row(id: i32, name: &str) -> Vec<Option<Vec<u8>>> {
    vec![Some(id.to_be_bytes().to_vec()), Some(name.as_bytes().to_vec())]
}

/// The result of `SELECT id, name FROM users` on the users Sean and Tess.
fn users_result() -> PgResult {
    let (names, types) = columns();
    PgResult::from_parts(names, types, vec![user_row(1, "Sean"), user_row(2, "Tess")]).unwrap()
}

/// The same rows as the database sends them one at a time: one result per
/// row, and an empty result at the end.
fn users_results_row_by_row() -> Vec<PgResult> {
    let mut results = Vec::new();
    for (id, name) in [(1, "Sean"), (2, "Tess")] {
        let (names, types) = columns();
        results.push(PgResult::from_parts(names, types, vec![user_row(id, name)]).unwrap());
    }
    let (names, types) = columns();
    results.push(PgResult::from_parts(names, types, vec![]).unwrap());
    results
}

/// Hands out the rows of a row-by-row cursor, fetching each next result
/// from `results` as the cursor asks for it.
struct RowByRowLoader {
    cursor: RowByRowCursor<'static, Catalog>,
    pending: std::vec::IntoIter<PgResult>,
}

impl RowByRowLoader {
    fn new(results: Vec<PgResult>) -> Self {
        let mut pending = results.into_iter();
        let cursor = RowByRowCursor::new(&Catalog, pending.next().unwrap());
        RowByRowLoader { cursor, pending }
    }

    fn next(&mut self) -> Option<QueryResult<PgRow<'static, Catalog>>> {
        let fetched = if self.cursor.needs_next_result() {
            Some(Ok(self.pending.next()))
        } else {
            None
        };
        self.cursor.next(fetched)
    }
}

fn decode_user(row: &PgRow<Catalog>) -> (i32, String) {
    let id_field = row.get(0usize).unwrap();
    let name_field = row.get(1usize).unwrap();
    let id = id_field.value().unwrap();
    let name = name_field.value().unwrap();
    (
        i32::from_be_bytes(id.as_bytes().try_into().unwrap()),
        String::from_utf8(name.as_bytes().to_vec()).unwrap(),
    )
}

fn decode_name(row: &PgRow<Catalog>) -> String {
    let name_field = row.get("name").unwrap();
    let name = name_field.value().unwrap();
    String::from_utf8(name.as_bytes().to_vec()).unwrap()
}

fn check_rows_one_by_one(mut next: impl FnMut() -> Option<QueryResult<PgRow<'static, Catalog>>>) {
    let expected = vec![(1, String::from("Sean")), (2, String::from("Tess"))];

    let first_row = next().unwrap().unwrap();
    let first_fields = (first_row.get(0usize).unwrap(), first_row.get(1usize).unwrap());
    let first_values = (first_fields.0.value(), first_fields.1.value());

    let second_row = next().unwrap().unwrap();
    let second_fields = (second_row.get(0usize).unwrap(), second_row.get(1usize).unwrap());
    let second_values = (second_fields.0.value(), second_fields.1.value());

    assert!(next().is_none());

    let as_i32 = |bytes: &[u8]| i32::from_be_bytes(bytes.try_into().unwrap());
    let as_string = |bytes: &[u8]| String::from_utf8(bytes.to_vec()).unwrap();

    assert_eq!(as_i32(first_values.0.unwrap().as_bytes()), expected[0].0);
    assert_eq!(as_string(first_values.1.unwrap().as_bytes()), expected[0].1);
    assert_eq!(as_i32(second_values.0.unwrap().as_bytes()), expected[1].0);
    assert_eq!(as_string(second_values.1.unwrap().as_bytes()), expected[1].1);

    let first_fields = (first_row.get(0usize).unwrap(), first_row.get(1usize).unwrap());
    let first_values = (first_fields.0.value(), first_fields.1.value());
    assert_eq!(as_i32(first_values.0.unwrap().as_bytes()), expected[0].0);
    assert_eq!(as_string(first_values.1.unwrap().as_bytes()), expected[0].1);
}

#[test]
fn fun_with_row_iters() {
    let expected = vec![(1, String::from("Sean")), (2, String::from("Tess"))];

    let mut row_iter = Cursor::new(&Catalog, users_result());
    for expected in &expected {
        let row = row_iter.next().unwrap().unwrap();
        assert_eq!(&decode_user(&row), expected);
    }

    {
        let mut cursor = Cursor::new(&Catalog, users_result());
        let mut collected_rows = Vec::new();
        while let Some(row) = cursor.next() {
            collected_rows.push(row);
        }
        assert_eq!(collected_rows.len(), expected.len());
        for (row, expected) in collected_rows.iter().zip(&expected) {
            let deserialized = row.as_ref().map(decode_user).unwrap();
            assert_eq!(&deserialized, expected);
        }
    }

    let mut row_iter = Cursor::new(&Catalog, users_result());
    check_rows_one_by_one(move || row_iter.next());
}

#[test]
fn loading_modes_return_the_same_result() {
    let mut cursor = Cursor::new(&Catalog, users_result());
    let mut users_by_default_mode = Vec::new();
    while let Some(row) = cursor.next() {
        users_by_default_mode.push(decode_name(&row.unwrap()));
    }

    let mut loader = RowByRowLoader::new(users_results_row_by_row());
    let mut users_row_by_row = Vec::new();
    while let Some(row) = loader.next() {
        users_row_by_row.push(decode_name(&row.unwrap()));
    }

    assert_eq!(users_by_default_mode, users_row_by_row);
    assert_eq!(users_by_default_mode, vec!["Sean", "Tess"]);
}

#[test]
fn fun_with_row_iters_row_by_row() {
    let expected = vec![(1, String::from("Sean")), (2, String::from("Tess"))];

    let mut row_iter = RowByRowLoader::new(users_results_row_by_row());
    for expected in &expected {
        let row = row_iter.next().unwrap().unwrap();
        assert_eq!(&decode_user(&row), expected);
    }

    {
        let mut loader = RowByRowLoader::new(users_results_row_by_row());
        let mut collected_rows = Vec::new();
        while let Some(row) = loader.next() {
            collected_rows.push(row);
        }
        assert_eq!(collected_rows.len(), expected.len());
        for (row, expected) in collected_rows.iter().zip(&expected) {
            let deserialized = row.as_ref().map(decode_user).unwrap();
            assert_eq!(&deserialized, expected);
        }
    }

    let mut row_iter = RowByRowLoader::new(users_results_row_by_row());
    check_rows_one_by_one(move || row_iter.next());
}

#[test]
fn cursor_len_and_size_hint_count_down() {
    let mut cursor = Cursor::new(&Catalog, users_result());
    assert_eq!(cursor.len(), 2);
    assert_eq!(cursor.size_hint(), (2, Some(2)));
    cursor.next().unwrap().unwrap();
    assert_eq!(cursor.len(), 1);
    assert_eq!(cursor.size_hint(), (1, Some(1)));
    cursor.next().unwrap().unwrap();
    assert_eq!(cursor.len(), 0);
    assert!(cursor.next().is_none());
    assert!(cursor.next().is_none());
    assert_eq!(cursor.count(), 0);
    assert_eq!(Cursor::new(&Catalog, users_result()).count(), 2);
}

#[test]
fn cursor_nth_skips_rows() {
    let mut cursor = Cursor::new(&Catalog, users_result());
    let row = cursor.nth(1).unwrap().unwrap();
    assert_eq!(decode_user(&row), (2, String::from("Tess")));
    assert!(cursor.next().is_none());

    let mut cursor = Cursor::new(&Catalog, users_result());
    let row = cursor.nth(0).unwrap().unwrap();
    assert_eq!(decode_user(&row), (1, String::from("Sean")));
    assert_eq!(cursor.len(), 1);

    let mut cursor = Cursor::new(&Catalog, users_result());
    assert!(cursor.nth(2).is_none());
    assert_eq!(cursor.len(), 0);

    let mut cursor = Cursor::new(&Catalog, users_result());
    assert!(cursor.nth(usize::MAX).is_none());
    assert_eq!(cursor.len(), 0);
}

#[test]
fn cursor_over_empty_result_has_no_rows() {
    let (names, types) = columns();
    let mut cursor = Cursor::new(&Catalog, PgResult::from_parts(names, types, vec![]).unwrap());
    assert_eq!(cursor.len(), 0);
    assert!(cursor.next().is_none());
}

#[test]
fn row_by_row_passes_on_errors() {
    let mut results = users_results_row_by_row().into_iter();
    let mut cursor = RowByRowCursor::new(&Catalog, results.next().unwrap());
    assert!(!cursor.needs_next_result());
    let row = cursor.next(None).unwrap().unwrap();
    assert_eq!(decode_user(&row), (1, String::from("Sean")));
    assert!(cursor.needs_next_result());

    let failure = Error::DatabaseError(String::from("connection lost"));
    match cursor.next(Some(Err(failure.clone()))) {
        Some(Err(e)) => assert_eq!(e, failure),
        _ => panic!("the error is handed on"),
    }
    assert!(cursor.needs_next_result());

    let row = cursor.next(Some(Ok(results.next()))).unwrap().unwrap();
    assert_eq!(decode_user(&row), (2, String::from("Tess")));
    assert!(cursor.next(Some(Ok(None))).is_none());
}

#[test]
fn row_by_row_stops_at_empty_result() {
    let mut results = users_results_row_by_row().into_iter();
    let mut cursor = RowByRowCursor::new(&Catalog, results.next().unwrap());
    cursor.next(None).unwrap().unwrap();
    cursor.next(Some(Ok(results.next()))).unwrap().unwrap();
    assert!(cursor.next(Some(Ok(results.next()))).is_none());
}

#[test]
fn row_by_row_with_empty_first_result_has_no_rows() {
    let (names, types) = columns();
    let mut cursor = RowByRowCursor::new(&Catalog, PgResult::from_parts(names, types, vec![]).unwrap());
    assert!(cursor.next(None).is_none());
    assert!(!cursor.needs_next_result());
    assert!(cursor.next(None).is_none());
}

#[test]
fn draining_goes_on_only_while_results_come() {
    assert!(RowByRowCursor::<Catalog>::keep_draining(&Ok(Some(users_result()))));
    assert!(!RowByRowCursor::<Catalog>::keep_draining(&Ok(None)));
    assert!(!RowByRowCursor::<Catalog>::keep_draining(&Err(Error::DatabaseError(String::from("gone")))));
}

#[test]
fn row_field_count_is_column_count() {
    let mut cursor = Cursor::new(&Catalog, users_result());
    let row = cursor.next().unwrap().unwrap();
    assert_eq!(row.field_count(), 2);
}
