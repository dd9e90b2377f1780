//! The credential store: rows of a comma-separated text, and the records
//! that are read out of them.

use vstd::prelude::*;

verus! {

/// A record as a plain value: the username and the encoded password hash.
pub type Entry = (Seq<char>, Seq<char>);

/// A parsed row as a plain value: its fields, or `None` for a row that the
/// reader rejected.
pub type Row = Option<Seq<Seq<char>>>;

/// One credential record.
#[derive(Debug, Clone, PartialEq, Eq)]
pub struct Record {
    pub username: String,
    pub password_hash: String,
}

impl View for Record {
    type V = Entry;

    open spec fn view(&self) -> Entry {
        (self.username@, self.password_hash@)
    }
}

/// The records of a store, in the order of the file.
#[derive(Debug, Clone, PartialEq, Eq)]
pub struct Store {
    pub records: Vec<Record>,
}

impl View for Store {
    type V = Seq<Entry>;

    open spec fn view(&self) -> Seq<Entry> {
        self.records@.map_values(|r: Record| r@)
    }
}

/// The rows that `csv::Reader::records` yields for `data`, read without a
/// header row and with rows of any width allowed, so that each row is judged
/// by itself: for each row in turn its fields, or `None` where the reader
/// reported an error for that row.
pub uninterp spec fn csv_rows(data: Seq<u8>) -> Seq<Row>;

/// The record that a row stands for: its two fields. A rejected row and a
/// row with fewer or more than two fields stand for none.
pub open spec fn record_of(row: Row) -> Option<Entry> {
    match row {
        Some(fields) => if fields.len() == 2 {
            Some((fields[0], fields[1]))
        } else {
            None
        },
        None => None,
    }
}

/// The records that a sequence of rows stands for: the rows of exactly two
/// fields, in their order. Every other row is skipped by itself.
pub open spec fn records_of(rows: Seq<Row>) -> Seq<Entry> {
    rows.filter_map(|row: Row| record_of(row))
}

/// The store that a file's bytes hold.
pub open spec fn store_of(data: Seq<u8>) -> Seq<Entry> {
    records_of(csv_rows(data))
}

/// Builds a reader with `csv::ReaderBuilder` (`has_headers(false)`,
/// `flexible(true)`, `from_reader(data)`) and walks `records()` to its end.
/// Each item becomes one entry of the result: the fields of a record as
/// owned strings, or `None` for an item that is an error. The contract only
/// names that sequence; nothing is claimed about how the bytes are split into
/// rows and fields.
#[verifier::external_body]
fn read_rows(data: &[u8]) -> (rows: Vec<Option<Vec<String>>>)
    ensures
        rows.deep_view() == csv_rows(data@),
{
    let mut reader =
        csv::ReaderBuilder::new().has_headers(false).flexible(true).from_reader(data);
    let mut rows = Vec::new();
    for item in reader.records() {
        rows.push(match item {
            Ok(record) => Some(record.iter().map(String::from).collect()),
            Err(_) => None,
        });
    }
    rows
}

impl Record {
    /// Reads a record out of one parsed row: a row of exactly two fields is a
    /// record, any other is none.
    pub fn from_row(row: &Option<Vec<String>>) -> (r: Option<Record>)
        ensures
            match r {
                Some(record) => record_of(row.deep_view()) == Some(record@),
                None => record_of(row.deep_view()) is None,
            },
    {
        match row {
            Some(fields) => {
                if fields.len() == 2 {
                    assert(fields.deep_view()[0] == fields@[0]@);
                    assert(fields.deep_view()[1] == fields@[1]@);
                    Some(Record { username: fields[0].clone(), password_hash: fields[1].clone() })
                } else {
                    None
                }
            },
            None => None,
        }
    }
}

impl Store {
    /// Collects the records of parsed rows, skipping the malformed ones.
    pub fn from_rows(rows: &Vec<Option<Vec<String>>>) -> (store: Store)
        ensures
            store@ == records_of(rows.deep_view()),
    {
        let ghost model = rows.deep_view();
        let mut records: Vec<Record> = Vec::new();
        let mut i: usize = 0;
        assert(model.take(0).filter_map(|row: Row| record_of(row)) =~= Seq::<Entry>::empty());
        while i < rows.len()
            invariant
                i <= rows.len(),
                model == rows.deep_view(),
                records@.map_values(|r: Record| r@) == records_of(model.take(i as int)),
            decreases rows.len() - i,
        {
            proof {
                model.lemma_filter_map_take_succ(|row: Row| record_of(row), i as int);
            }
            match Record::from_row(&rows[i]) {
                Some(record) => {
                    let ghost before = records@;
                    records.push(record);
                    assert(records@.map_values(|r: Record| r@) =~= before.map_values(
                        |r: Record| r@,
                    ).push(record@));
                },
                None => {},
            }
            i += 1;
        }
        assert(model.take(rows.len() as int) =~= model);
        Store { records }
    }
}

/// Reads the store out of the bytes of its file.
pub fn open_db(data: &[u8]) -> (store: Store)
    ensures
        store@ == store_of(data@),
{
    let rows = read_rows(data);
    Store::from_rows(&rows)
}

} // verus!
