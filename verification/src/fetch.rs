//! The check on what a batched fetch returned.
//!
//! A fetch asks for the bodies of a set of UIDs in one round trip. The
//! answer is usable only if it pairs every one of those UIDs with a body.

use crate::error::CycleError;
use crate::message::{UnseenRecord, UnseenRecordView};
use vstd::prelude::*;

verus! {

/// Whether `record` delivers the body of the message `uid`.
pub open spec fn pairs(record: UnseenRecordView, uid: u32) -> bool {
    record.uid == Some(uid) && record.body is Some
}

/// Whether some record among `records` delivers the body of `uid`.
pub open spec fn delivered(records: Seq<UnseenRecordView>, uid: u32) -> bool {
    exists|j: int| 0 <= j < records.len() && pairs(#[trigger] records[j], uid)
}

/// Whether `records` deliver a body for every one of `uids`.
pub open spec fn complete(uids: Seq<u32>, records: Seq<UnseenRecordView>) -> bool {
    forall|i: int| 0 <= i < uids.len() ==> delivered(records, #[trigger] uids[i])
}

/// What the fetcher makes of an answer: the records as they came, when they
/// are complete for `uids`, and a fetch failure otherwise.
pub open spec fn unseen_records_spec(uids: Seq<u32>, records: Seq<UnseenRecordView>) -> Result<
    Seq<UnseenRecordView>,
    CycleError,
> {
    if complete(uids, records) {
        Ok(records)
    } else {
        Err(CycleError::Fetch)
    }
}

/// The view of a checked answer.
pub open spec fn records_view(checked: Result<Vec<UnseenRecord>, CycleError>) -> Result<
    Seq<UnseenRecordView>,
    CycleError,
> {
    match checked {
        Ok(records) => Ok(records.deep_view()),
        Err(error) => Err(error),
    }
}

/// Whether `record` delivers the body of the message `uid`.
fn record_pairs(record: &UnseenRecord, uid: u32) -> (found: bool)
    ensures
        found == pairs(record@, uid),
{
    match (&record.uid, &record.body) {
        (Some(own), Some(_)) => *own == uid,
        _ => false,
    }
}

/// Whether some record among `records` delivers the body of `uid`.
fn is_delivered(records: &Vec<UnseenRecord>, uid: u32) -> (found: bool)
    ensures
        found == delivered(records.deep_view(), uid),
{
    let mut j: usize = 0;
    while j < records.len()
        invariant
            j <= records.len(),
            forall|k: int| 0 <= k < j ==> !pairs(#[trigger] records.deep_view()[k], uid),
        decreases records.len() - j,
    {
        if record_pairs(&records[j], uid) {
            assert(pairs(records.deep_view()[j as int], uid));
            return true;
        }
        j = j + 1;
    }
    false
}

/// Checks the answer to a fetch of `uids`.
///
/// The records are handed on unchanged, in the order the server sent them,
/// if every one of `uids` has a record among them that carries this UID and
/// a body. If any UID was left without a body, the fetch has failed.
pub fn unseen_records(uids: &Vec<u32>, records: Vec<UnseenRecord>) -> (checked: Result<
    Vec<UnseenRecord>,
    CycleError,
>)
    ensures
        records_view(checked) == unseen_records_spec(uids@, records.deep_view()),
{
    let mut i: usize = 0;
    while i < uids.len()
        invariant
            i <= uids.len(),
            forall|k: int| 0 <= k < i ==> delivered(records.deep_view(), #[trigger] uids@[k]),
        decreases uids.len() - i,
    {
        if !is_delivered(&records, uids[i]) {
            return Err(CycleError::Fetch);
        }
        i = i + 1;
    }
    Ok(records)
}

} // verus!
