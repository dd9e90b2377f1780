//! Looking a username up in the store.

use crate::store::{open_db, store_of, Entry, Store};
use vstd::prelude::*;

verus! {

/// Whether some record of the store carries exactly this username.
pub open spec fn has_user(store: Seq<Entry>, name: Seq<char>) -> bool {
    exists|i: int| 0 <= i < store.len() && (#[trigger] store[i]).0 == name
}

/// Whether the record at `i` is the first of the store with this username.
pub open spec fn is_first_match(store: Seq<Entry>, name: Seq<char>, i: int) -> bool {
    &&& 0 <= i < store.len()
    &&& store[i].0 == name
    &&& forall|j: int| 0 <= j < i ==> (#[trigger] store[j]).0 != name
}

/// The hash that the store keeps for a username: that of the first record
/// with the name, if there is one.
pub open spec fn stored_hash(store: Seq<Entry>, name: Seq<char>) -> Option<Seq<char>>
    decreases store.len(),
{
    if store.len() == 0 {
        None
    } else if store[0].0 == name {
        Some(store[0].1)
    } else {
        stored_hash(store.drop_first(), name)
    }
}

/// A hash is kept for exactly the names that the store lists.
pub proof fn lemma_listed_iff_hash_kept(store: Seq<Entry>, name: Seq<char>)
    ensures
        has_user(store, name) <==> stored_hash(store, name) is Some,
    decreases store.len(),
{
    if store.len() > 0 {
        if store[0].0 == name {
            assert(has_user(store, name));
        } else {
            let rest = store.drop_first();
            lemma_listed_iff_hash_kept(rest, name);
            if has_user(rest, name) {
                let i = choose|i: int| 0 <= i < rest.len() && (#[trigger] rest[i]).0 == name;
                assert(store[i + 1] == rest[i]);
            }
            if has_user(store, name) {
                let i = choose|i: int| 0 <= i < store.len() && (#[trigger] store[i]).0 == name;
                assert(rest[i - 1] == store[i]);
            }
        }
    }
}

/// What is kept for a name can be read off the records: a hash is kept
/// where some record is the first with the name, and it is that record's
/// second field; none is kept where no record carries the name.
pub proof fn lemma_stored_is_first_match(store: Seq<Entry>, name: Seq<char>)
    ensures
        match stored_hash(store, name) {
            Some(hash) => exists|i: int|
                #[trigger] is_first_match(store, name, i) && hash == store[i].1,
            None => forall|i: int| 0 <= i < store.len() ==> (#[trigger] store[i]).0 != name,
        },
    decreases store.len(),
{
    if store.len() > 0 {
        if store[0].0 == name {
            assert(is_first_match(store, name, 0));
        } else {
            let rest = store.drop_first();
            lemma_stored_is_first_match(rest, name);
            match stored_hash(rest, name) {
                Some(hash) => {
                    let i = choose|i: int|
                        #[trigger] is_first_match(rest, name, i) && hash == rest[i].1;
                    assert(rest[i] == store[i + 1]);
                    assert forall|j: int| 0 <= j < i + 1 implies (#[trigger] store[j]).0
                        != name by {
                        if j > 0 {
                            assert(store[j] == rest[j - 1]);
                        }
                    }
                    assert(is_first_match(store, name, i + 1));
                },
                None => {
                    assert forall|i: int| 0 <= i < store.len() implies (#[trigger] store[i]).0
                        != name by {
                        if i > 0 {
                            assert(store[i] == rest[i - 1]);
                        }
                    }
                },
            }
        }
    }
}

/// The other way round: where the record at `i` is the first with the name,
/// its second field is the hash kept for the name.
pub proof fn lemma_first_match_is_stored(store: Seq<Entry>, name: Seq<char>, i: int)
    requires
        is_first_match(store, name, i),
    ensures
        stored_hash(store, name) == Some(store[i].1),
    decreases store.len(),
{
    if i > 0 {
        assert(store[0].0 != name);
        let rest = store.drop_first();
        assert(rest[i - 1] == store[i]);
        assert forall|j: int| 0 <= j < i - 1 implies (#[trigger] rest[j]).0 != name by {
            assert(rest[j] == store[j + 1]);
        }
        lemma_first_match_is_stored(rest, name, i - 1);
    }
}

impl Store {
    /// Whether a record with exactly this username exists. The comparison is
    /// by characters: case matters, and nothing is trimmed.
    pub fn username_exists(&self, username: &str) -> (found: bool)
        ensures
            found <==> exists|i: int|
                0 <= i < self@.len() && (#[trigger] self@[i]).0 == username@,
    {
        let name = username.to_owned();
        let mut i: usize = 0;
        while i < self.records.len()
            invariant
                i <= self.records.len(),
                name@ == username@,
                forall|j: int| 0 <= j < i ==> (#[trigger] self@[j]).0 != username@,
            decreases self.records.len() - i,
        {
            if self.records[i].username == name {
                assert(self@[i as int].0 == username@);
                return true;
            }
            i += 1;
        }
        false
    }

    /// The hash of the first record with exactly this username, or `None`
    /// where no record carries the name.
    pub fn hash_for(&self, username: &str) -> (hash: Option<String>)
        ensures
            match hash {
                Some(h) => exists|i: int| is_first_match(self@, username@, i) && h@ == self@[i].1,
                None => forall|i: int| 0 <= i < self@.len() ==> (#[trigger] self@[i]).0 != username@,
            },
            hash.deep_view() == stored_hash(self@, username@),
    {
        let name = username.to_owned();
        let mut i: usize = 0;
        while i < self.records.len()
            invariant
                i <= self.records.len(),
                name@ == username@,
                forall|j: int| 0 <= j < i ==> (#[trigger] self@[j]).0 != username@,
            decreases self.records.len() - i,
        {
            if self.records[i].username == name {
                let h = self.records[i].password_hash.clone();
                proof {
                    assert(is_first_match(self@, username@, i as int));
                    assert(h@ == self@[i as int].1);
                    lemma_first_match_is_stored(self@, username@, i as int);
                }
                return Some(h);
            }
            i += 1;
        }
        proof {
            lemma_listed_iff_hash_kept(self@, username@);
        }
        None
    }
}

/// Whether the store in `db` lists the username.
pub fn is_valid_username(username: &str, db: &[u8]) -> (found: bool)
    ensures
        found == has_user(store_of(db@), username@),
{
    let store = open_db(db);
    store.username_exists(username)
}

/// The hash that the store in `db` keeps for the username.
pub fn get_password_hash(username: &str, db: &[u8]) -> (hash: Option<String>)
    ensures
        match hash {
            Some(h) => exists|i: int|
                is_first_match(store_of(db@), username@, i) && h@ == store_of(db@)[i].1,
            None => forall|i: int|
                0 <= i < store_of(db@).len() ==> (#[trigger] store_of(db@)[i]).0 != username@,
        },
        hash.deep_view() == stored_hash(store_of(db@), username@),
{
    let store = open_db(db);
    store.hash_for(username)
}

/// Lookups repeat: the same name looked up in the same bytes gives the same
/// answers, both on whether the name is listed and on the hash kept for it.
pub proof fn lemma_lookup_repeats(
    first_db: Seq<u8>,
    first_name: Seq<char>,
    second_db: Seq<u8>,
    second_name: Seq<char>,
)
    requires
        first_db =~= second_db,
        first_name =~= second_name,
    ensures
        has_user(store_of(first_db), first_name) == has_user(store_of(second_db), second_name),
        stored_hash(store_of(first_db), first_name) == stored_hash(
            store_of(second_db),
            second_name,
        ),
{
}

} // verus!
