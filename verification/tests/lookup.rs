use credential_check::lookup::{get_password_hash, is_valid_username};
use credential_check::store::{Record, Store};

const DB: &str = "admin,\"$argon2id$v=19$m=19456,t=2,p=1$difPUw5AhyFN/URJZ0IY8g$VDC5PPK0Lx8IeI6LttXQ90zL3BuH/AAQV1ndGEovpPY\"\n\
guest,\"$argon2id$v=19$m=19456,t=2,p=1$c2FsdHNhbHRzYWx0c2FsdA$YMrttK+SjoEZP0O62W2nULtt+pwE19lnxUhmm6MhZSI\"\n";

fn store(pairs: &[(&str, &str)]) -> Store {
    Store {
        records: pairs
            .iter()
            .map(|(u, h)| Record { username: u.to_string(), password_hash: h.to_string() })
            .collect(),
    }
}

#[test]
fn test_is_valid_username() {
    let db = DB.as_bytes();
    assert!(is_valid_username("admin", db));
    assert!(!is_valid_username("random_user", db));
}

#[test]
fn test_get_password_hash() {
    let db = DB.as_bytes();
    assert_eq!(get_password_hash("admin", db).unwrap(), "$argon2id$v=19$m=19456,t=2,p=1$difPUw5AhyFN/URJZ0IY8g$VDC5PPK0Lx8IeI6LttXQ90zL3BuH/AAQV1ndGEovpPY");
    assert!(get_password_hash("random_user", db).is_none());
}

#[test]
fn username_exists_iff_some_record_has_it() {
    let s = store(&[("alice", "h1"), ("bob", "h2"), ("carol", "h3")]);
    assert!(s.username_exists("alice"));
    assert!(s.username_exists("bob"));
    assert!(s.username_exists("carol"));
    assert!(!s.username_exists("dave"));
    assert!(!s.username_exists(""));
}

#[test]
fn username_exists_is_exact() {
    let s = store(&[("alice", "h1")]);
    assert!(!s.username_exists("Alice"));
    assert!(!s.username_exists("alice "));
    assert!(!s.username_exists(" alice"));
    assert!(!s.username_exists("alic"));
    assert!(!s.username_exists("alicee"));
}

#[test]
fn username_exists_does_not_look_at_hashes() {
    let s = store(&[("alice", "bob")]);
    assert!(!s.username_exists("bob"));
}

#[test]
fn username_exists_in_empty_store_is_false() {
    assert!(!store(&[]).username_exists("alice"));
}

#[test]
fn hash_for_returns_second_field() {
    let s = store(&[("alice", "h1"), ("bob", "h2")]);
    assert_eq!(s.hash_for("alice"), Some("h1".to_string()));
    assert_eq!(s.hash_for("bob"), Some("h2".to_string()));
}

#[test]
fn hash_for_unknown_name_is_none() {
    let s = store(&[("alice", "h1"), ("bob", "h2")]);
    assert_eq!(s.hash_for("carol"), None);
    assert_eq!(s.hash_for("h1"), None);
    assert_eq!(store(&[]).hash_for("alice"), None);
}

#[test]
fn hash_for_duplicate_name_takes_first() {
    let s = store(&[("bob", "h0"), ("alice", "first"), ("alice", "second")]);
    assert_eq!(s.hash_for("alice"), Some("first".to_string()));
}

#[test]
fn hash_for_keeps_empty_hash() {
    let s = store(&[("alice", "")]);
    assert_eq!(s.hash_for("alice"), Some(String::new()));
}

#[test]
fn hash_is_kept_exactly_for_listed_names() {
    let s = store(&[("alice", "h1"), ("bob", "h2"), ("alice", "h3")]);
    for name in ["alice", "bob", "carol", "", "Alice"] {
        assert_eq!(s.username_exists(name), s.hash_for(name).is_some());
    }
}

#[test]
fn lookups_in_file_skip_malformed_rows() {
    let db = b"alice,h1\nbob\n\xff,h9\ncarol,h3\n";
    assert!(is_valid_username("alice", db));
    assert!(!is_valid_username("bob", db));
    assert!(is_valid_username("carol", db));
    assert_eq!(get_password_hash("carol", db), Some("h3".to_string()));
    assert_eq!(get_password_hash("bob", db), None);
}

#[test]
fn lookups_in_file_take_first_of_duplicates() {
    let db = b"alice,first\nalice,second\n";
    assert_eq!(get_password_hash("alice", db), Some("first".to_string()));
}

#[test]
fn single_column_file_lists_nobody() {
    let db = b"alice\nbob\n";
    assert!(!is_valid_username("alice", db));
    assert_eq!(get_password_hash("alice", db), None);
}

#[test]
fn repeated_lookups_agree() {
    let db = DB.as_bytes();
    for name in ["admin", "guest", "random_user"] {
        assert_eq!(is_valid_username(name, db), is_valid_username(name, db));
        assert_eq!(get_password_hash(name, db), get_password_hash(name, db));
    }
}

#[test]
fn malformed_first_row_hides_no_later_row() {
    assert!(is_valid_username("admin", b"x\nadmin,h\n"));
    assert!(!is_valid_username("x", b"x\nadmin,h\n"));
    assert_eq!(get_password_hash("admin", b"admin\nadmin,h\n"), Some("h".to_string()));
    assert_eq!(get_password_hash("admin", b"\xff,h0\nadmin,h\n"), Some("h".to_string()));
}

#[test]
fn only_rows_of_two_fields_are_looked_up() {
    let db = b"alice,h1\nbob,h2,note\ncarol\ndave,h4\n";
    assert!(!is_valid_username("bob", db));
    assert_eq!(get_password_hash("bob", db), None);
    assert!(!is_valid_username("carol", db));
    assert_eq!(get_password_hash("dave", db), Some("h4".to_string()));
}

#[test]
fn wide_row_does_not_shadow_later_record() {
    let db = b"bob,old,note\nbob,h2\n";
    assert_eq!(get_password_hash("bob", db), Some("h2".to_string()));
}
