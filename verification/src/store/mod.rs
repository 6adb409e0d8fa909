//! The local store of counts that could not be uploaded yet.

use crate::models::count::CountEntry;
use std::path::PathBuf;
use vstd::prelude::*;

verus! {

/// std's `PathBuf`, carried through as an opaque value.
#[verifier::external_type_specification]
#[verifier::external_body]
pub struct ExPathBuf(PathBuf);

/// A stored count and the file that holds it.
pub struct Record {
    pub path: PathBuf,
    pub entry: CountEntry,
}

/// Every entry of the listing was read and decoded.
pub open spec fn all_read(records: Seq<Option<Record>>) -> bool {
    forall|i: int| 0 <= i < records.len() ==> (#[trigger] records[i]) is Some
}

/// The records a complete listing holds, in listing order.
pub open spec fn listed_records(records: Seq<Option<Record>>) -> Seq<Record> {
    records.map_values(|r: Option<Record>| r->Some_0)
}

/// The store's records, given the outcome of reading it: `listing` is
/// `None` where the store directory could not be listed, and holds `None`
/// for each file that could not be read or decoded. Any failure yields an
/// empty store; otherwise every record, in listing order.
pub fn read_store(listing: Option<Vec<Option<Record>>>) -> (store: Vec<Record>)
    ensures
        match listing {
            Some(records) => if all_read(records@) {
                store@ == listed_records(records@)
            } else {
                store@.len() == 0
            },
            None => store@.len() == 0,
        },
{
    let ghost given = listing;
    let records = match listing {
        Some(records) => records,
        None => return Vec::new(),
    };
    let ghost listed = records@;
    let mut store: Vec<Record> = Vec::new();
    for item in it: records
        invariant
            it.seq() == listed,
            given == listing,
            given matches Some(r) && r@ == listed,
            store@.len() == it.index(),
            forall|j: int| 0 <= j < it.index() ==> listed[j] is Some,
            forall|j: int| 0 <= j < it.index() ==> #[trigger] store@[j] == listed[j]->Some_0,
    {
        match item {
            Some(record) => store.push(record),
            None => {
                assert(listed[it.index() as int] is None);
                return Vec::new();
            },
        }
    }
    assert(store@ =~= listed_records(listed));
    store
}

/// The file to delete once a stored record has been uploaded again: the
/// record's own file when the upload succeeded, none otherwise.
pub fn after_retry(record: Record, uploaded: bool) -> (r: Option<PathBuf>)
    ensures
        uploaded ==> r == Some(record.path),
        !uploaded ==> r is None,
{
    if uploaded {
        Some(record.path)
    } else {
        None
    }
}

} // verus!
