//! Checks a username and a password against a flat-file user database.
//!
//! The store is a comma-separated text of `username,password_hash` rows. A
//! name is looked up by a linear scan, and a password is checked against the
//! encoded hash that the store keeps for the name. Reading the file and
//! talking to the terminal are left to the caller: every function here works
//! on the bytes and lines that the caller hands in.

pub mod lookup;
pub mod password;
pub mod session;
pub mod store;
