//! Checking a password against the encoded hash that the store keeps.
//!
//! The hashing itself is the `argon2` crate's work. This module decides when
//! to ask it and what its answer means.

use crate::lookup::stored_hash;
use crate::store::{open_db, store_of, Entry, Store};
use vstd::prelude::*;

verus! {

/// A parameter of an encoded hash as a plain value: its name, and the number
/// that its value is a decimal of, if it is one.
pub type Param = (Seq<char>, Option<u32>);

/// The largest degree of parallelism that Argon2 admits.
pub const MAX_PARALLELISM: u32 = 16_777_215;

/// What `argon2::password_hash::PasswordHash::new` makes of the text: `None`
/// where it rejects the text, else the parameters of the parsed hash as
/// `params.iter()` hands them out, each with its name and with what
/// `Value::decimal` reads in its value.
pub uninterp spec fn phc_params(hash: Seq<char>) -> Option<Seq<Param>>;

/// Whether `Argon2::default().verify_password` accepts the password for the
/// hash that the text encodes. It says nothing of a text that is not
/// well formed, nor of one that declares a parallelism out of range.
pub uninterp spec fn argon2_matches(password: Seq<char>, hash: Seq<char>) -> bool;

/// Whether the text is an encoded password hash.
pub open spec fn phc_well_formed(hash: Seq<char>) -> bool {
    phc_params(hash) is Some
}

/// The parallelism that the parameters declare: the number in the last
/// parameter named `p`. A name that comes twice counts as written last.
pub open spec fn declared_parallelism(params: Seq<Param>) -> Option<u32>
    decreases params.len(),
{
    if params.len() == 0 {
        None
    } else if params.last().0 == "p"@ {
        params.last().1
    } else {
        declared_parallelism(params.drop_last())
    }
}

/// Whether the parameters declare no parallelism above the largest that the
/// algorithm admits.
pub open spec fn parallelism_in_range(params: Seq<Param>) -> bool {
    match declared_parallelism(params) {
        Some(p) => p <= MAX_PARALLELISM,
        None => true,
    }
}

/// Whether a password is right for an encoded hash: the text is a
/// well-formed hash, the parallelism it declares is in range, and the
/// password's digest under the algorithm and the parameters that the text
/// declares is the one it carries.
pub open spec fn verifies(password: Seq<char>, hash: Seq<char>) -> bool {
    match phc_params(hash) {
        Some(params) => parallelism_in_range(params) && argon2_matches(password, hash),
        None => false,
    }
}

/// Whether a password is right for a username of the store: a hash is kept
/// for the name, and the password is right for it.
pub open spec fn password_accepted(store: Seq<Entry>, name: Seq<char>, password: Seq<char>) -> bool {
    match stored_hash(store, name) {
        Some(hash) => verifies(password, hash),
        None => false,
    }
}

/// What the hashing crate made of a password and an encoded hash.
#[derive(Debug, Clone, Copy, PartialEq, Eq, Structural)]
pub enum HashCheck {
    /// The text is not an encoded password hash.
    Malformed,
    /// The text is an encoded hash, and the password was not accepted for it.
    Rejected,
    /// The password is the one that was hashed.
    Accepted,
}

impl HashCheck {
    /// Whether the check lets the password pass. Only `Accepted` does: a
    /// malformed hash fails closed.
    pub fn grants(self) -> (ok: bool)
        ensures
            ok == (self is Accepted),
    {
        match self {
            HashCheck::Accepted => true,
            HashCheck::Rejected => false,
            HashCheck::Malformed => false,
        }
    }
}

/// Calls `PasswordHash::new` on the text and walks the `params.iter()` of
/// the parsed hash. Each parameter becomes one entry of the result: its name
/// by `Ident::as_str`, and its value by `Value::decimal`, `None` where that
/// fails. An error of `PasswordHash::new` gives `None`. The contract only
/// names the result.
#[verifier::external_body]
fn read_params(hash: &str) -> (params: Option<Vec<(String, Option<u32>)>>)
    ensures
        params.deep_view() == phc_params(hash@),
{
    match argon2::password_hash::PasswordHash::new(hash) {
        Ok(parsed) => {
            let mut params = Vec::new();
            for (name, value) in parsed.params.iter() {
                params.push((name.as_str().to_owned(), value.decimal().ok()));
            }
            Some(params)
        },
        Err(_) => None,
    }
}

/// Calls `PasswordHash::new` on the text and, where that gives a parsed
/// hash, `Argon2::default().verify_password` with the password's bytes. An
/// error of the first call is reported as `Malformed`, an error of the second
/// as `Rejected`, its success as `Accepted`. The contract only names the
/// answer; the hashing is not specified here. A declared parallelism above
/// `MAX_PARALLELISM` is left out: the crate multiplies it by eight before it
/// tests its range, which can overflow. The work done is as large as the
/// cost parameters in the text ask for.
#[verifier::external_body]
fn argon2_check(password: &str, hash: &str) -> (check: HashCheck)
    requires
        phc_params(hash@) matches Some(params) ==> parallelism_in_range(params),
    ensures
        check == (if !phc_well_formed(hash@) {
            HashCheck::Malformed
        } else if argon2_matches(password@, hash@) {
            HashCheck::Accepted
        } else {
            HashCheck::Rejected
        }),
{
    match argon2::password_hash::PasswordHash::new(hash) {
        Err(_) => HashCheck::Malformed,
        Ok(parsed) => match argon2::PasswordVerifier::verify_password(
            &argon2::Argon2::default(),
            password.as_bytes(),
            &parsed,
        ) {
            Ok(()) => HashCheck::Accepted,
            Err(_) => HashCheck::Rejected,
        },
    }
}

/// Whether the parameters of an encoded hash declare a parallelism that the
/// algorithm admits. A hash that declares none is taken at the default.
pub fn parallelism_allowed(params: &Vec<(String, Option<u32>)>) -> (ok: bool)
    ensures
        ok == parallelism_in_range(params.deep_view()),
{
    let ghost model = params.deep_view();
    let key = "p".to_owned();
    let mut i: usize = params.len();
    assert(model.take(i as int) =~= model);
    while i > 0
        invariant
            i <= params.len(),
            model == params.deep_view(),
            key@ == "p"@,
            declared_parallelism(model) == declared_parallelism(model.take(i as int)),
        decreases i,
    {
        i -= 1;
        proof {
            let upto = model.take(i + 1);
            assert(upto.last() == model[i as int]);
            assert(upto.drop_last() =~= model.take(i as int));
            assert(model[i as int] == params@[i as int].deep_view());
        }
        if params[i].0 == key {
            return match params[i].1 {
                Some(p) => p <= MAX_PARALLELISM,
                None => true,
            };
        }
    }
    true
}

/// Whether the password is right for the encoded hash. Fails closed: a text
/// that is no well-formed hash matches no password, and neither does one
/// that declares a parallelism out of range; the hashing crate is not asked
/// about either.
pub fn verify(password: &str, hash: &str) -> (ok: bool)
    ensures
        ok == verifies(password@, hash@),
{
    match read_params(hash) {
        Some(params) => if parallelism_allowed(&params) {
            argon2_check(password, hash).grants()
        } else {
            false
        },
        None => false,
    }
}

impl Store {
    /// Whether the password is right for the username. The hashing crate is
    /// asked only where the store keeps a hash for the name.
    pub fn password_matches(&self, username: &str, password: &str) -> (ok: bool)
        ensures
            ok == password_accepted(self@, username@, password@),
    {
        match self.hash_for(username) {
            Some(hash) => verify(password, hash.as_str()),
            None => false,
        }
    }
}

/// Whether the password is right for the username in the store in `db`.
pub fn is_valid_password(username: &str, password: &str, db: &[u8]) -> (ok: bool)
    ensures
        ok == password_accepted(store_of(db@), username@, password@),
{
    let store = open_db(db);
    store.password_matches(username, password)
}

} // verus!
