use credential_check::store::{open_db, Record, Store};

fn record(username: &str, password_hash: &str) -> Record {
    Record { username: username.to_string(), password_hash: password_hash.to_string() }
}

fn row(fields: &[&str]) -> Option<Vec<String>> {
    Some(fields.iter().map(|f| f.to_string()).collect())
}

#[test]
fn open_db_reads_rows_in_file_order() {
    let store = open_db(b"alice,h1\nbob,h2\ncarol,h3\n");
    assert_eq!(
        store.records,
        vec![record("alice", "h1"), record("bob", "h2"), record("carol", "h3")]
    );
}

#[test]
fn open_db_treats_first_row_as_data() {
    let store = open_db(b"username,password_hash\n");
    assert_eq!(store.records, vec![record("username", "password_hash")]);
}

#[test]
fn open_db_keeps_commas_inside_quotes() {
    let store = open_db(b"admin,\"$argon2id$v=19$m=19456,t=2,p=1$c2FsdA$aGFzaA\"\n");
    assert_eq!(store.records, vec![record("admin", "$argon2id$v=19$m=19456,t=2,p=1$c2FsdA$aGFzaA")]);
}

#[test]
fn open_db_of_empty_file_is_empty() {
    assert_eq!(open_db(b""), Store { records: vec![] });
    assert_eq!(open_db(b"\n\n"), Store { records: vec![] });
}

#[test]
fn open_db_accepts_missing_final_newline() {
    let store = open_db(b"alice,h1\nbob,h2");
    assert_eq!(store.records, vec![record("alice", "h1"), record("bob", "h2")]);
}

#[test]
fn open_db_judges_each_row_by_itself() {
    let store = open_db(b"alice,h1\nbob\ncarol,h3,extra\ndave,h4\n");
    assert_eq!(store.records, vec![record("alice", "h1"), record("dave", "h4")]);
}

#[test]
fn open_db_skips_short_first_row_only() {
    let store = open_db(b"x\nadmin,h\n");
    assert_eq!(store.records, vec![record("admin", "h")]);
    let store = open_db(b"admin\nadmin,h\nguest,g\n");
    assert_eq!(store.records, vec![record("admin", "h"), record("guest", "g")]);
}

#[test]
fn open_db_skips_first_row_that_is_not_utf8() {
    let store = open_db(b"\xff\xfe,h0\nadmin,h\n");
    assert_eq!(store.records, vec![record("admin", "h")]);
}

#[test]
fn open_db_skips_wide_first_row_only() {
    let store = open_db(b"alice,h1,note\nbob,h2\ncarol\n");
    assert_eq!(store.records, vec![record("bob", "h2")]);
}

#[test]
fn open_db_skips_rows_that_are_not_utf8() {
    let store = open_db(b"alice,h1\n\xff\xfe,h2\ncarol,h3\n");
    assert_eq!(store.records, vec![record("alice", "h1"), record("carol", "h3")]);
}

#[test]
fn open_db_finds_no_record_in_rows_of_three_fields() {
    let store = open_db(b"alice,h1,note\nbob,h2,note\n");
    assert_eq!(store.records, vec![]);
}

#[test]
fn open_db_takes_unquoted_comma_as_field_end() {
    let store = open_db(b"guest,$argon2id$v=19$m=19456,t=2,p=1$c2FsdA$aGFzaA\nbob,h2\n");
    assert_eq!(store.records, vec![record("bob", "h2")]);
}

#[test]
fn open_db_keeps_empty_fields() {
    let store = open_db(b"alice,\n,h2\n");
    assert_eq!(store.records, vec![record("alice", ""), record("", "h2")]);
}

#[test]
fn open_db_finds_no_record_in_single_column_file() {
    let store = open_db(b"alice\nbob\n");
    assert_eq!(store.records, vec![]);
}

#[test]
fn open_db_keeps_spaces_and_case() {
    let store = open_db(b" Alice ,h1\n");
    assert_eq!(store.records, vec![record(" Alice ", "h1")]);
}

#[test]
fn from_rows_skips_malformed_rows() {
    let rows = vec![
        row(&["alice", "h1"]),
        None,
        row(&["bob"]),
        row(&[]),
        row(&["carol", "h3", "extra"]),
        row(&["dave", "h4"]),
    ];
    let store = Store::from_rows(&rows);
    assert_eq!(store.records, vec![record("alice", "h1"), record("dave", "h4")]);
}

#[test]
fn from_rows_of_nothing_is_empty() {
    assert_eq!(Store::from_rows(&vec![]).records, vec![]);
}

#[test]
fn record_from_row_takes_row_of_two_fields() {
    assert_eq!(Record::from_row(&row(&["alice", "h1"])), Some(record("alice", "h1")));
    assert_eq!(Record::from_row(&row(&["", ""])), Some(record("", "")));
}

#[test]
fn record_from_row_rejects_wide_rows() {
    assert_eq!(Record::from_row(&row(&["alice", "h1", "x"])), None);
    assert_eq!(Record::from_row(&row(&["alice", "h1", ""])), None);
    assert_eq!(Record::from_row(&row(&["a", "b", "c", "d"])), None);
}

#[test]
fn record_from_row_rejects_short_and_failed_rows() {
    assert_eq!(Record::from_row(&row(&["alice"])), None);
    assert_eq!(Record::from_row(&row(&[])), None);
    assert_eq!(Record::from_row(&None), None);
}
