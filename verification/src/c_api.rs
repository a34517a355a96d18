//! The state behind the C interface: the last error message, and the
//! records that its JSON output lists.
use vstd::prelude::*;

use crate::record::{Record, RecordView};

verus! {

/// The last error message of the C interface, kept until it is read.
#[derive(Debug)]
pub struct LastError {
    message: Option<String>,
}

impl LastError {
    /// The message kept, if any.
    pub closed spec fn kept(&self) -> Option<Seq<char>> {
        match self.message {
            Some(m) => Some(m@),
            None => None,
        }
    }

    /// A slot with no message.
    pub fn new() -> (r: LastError)
        ensures
            r.kept() is None,
    {
        LastError { message: None }
    }
}

/// The message kept after setting `error`: `error`, whatever was kept before.
pub open spec fn kept_after_set(kept: Option<Seq<char>>, error: Seq<char>) -> Option<Seq<char>> {
    Some(error)
}

/// What a read gives: the message kept, or the empty string.
pub open spec fn read_message(kept: Option<Seq<char>>) -> Seq<char> {
    match kept {
        Some(m) => m,
        None => Seq::empty(),
    }
}

/// Keeps `error` as the last error message, replacing any earlier one.
pub fn set_last_error(slot: &mut LastError, error: String)
    ensures
        final(slot).kept() == kept_after_set(old(slot).kept(), error@),
{
    slot.message = Some(error);
}

/// Takes the last error message (see `read_message`), leaving none.
pub fn get_last_error(slot: &mut LastError) -> (r: String)
    ensures
        final(slot).kept() is None,
        r@ == read_message(old(slot).kept()),
{
    let taken = slot.message.take();
    match taken {
        Some(m) => m,
        None => String::new(),
    }
}

/// A message set is read back once: the read that follows a set gives the
/// message, and the read after that gives the empty string.
pub proof fn lemma_last_error_read_once(kept: Option<Seq<char>>, error: Seq<char>)
    ensures
        read_message(kept_after_set(kept, error)) == error,
        read_message(None) == Seq::<char>::empty(),
{
}

/// Whether the JSON output of the C interface lists a record: key storage,
/// unknown and invalid records and images are left out.
pub open spec fn is_listed(r: RecordView) -> bool {
    !(r is KeyStorage || r is Unknown || r is Invalid || r is JPEG)
}

/// The records that the JSON output lists, in order (see `is_listed`).
pub fn listed_records(records: &Vec<Record>) -> (r: Vec<&Record>)
    ensures
        r@.map_values(|x: &Record| x@) == records@.map_values(|x: Record| x@).filter(
            |v: RecordView| is_listed(v),
        ),
{
    let mut out: Vec<&Record> = Vec::new();
    let mut i: usize = 0;
    while i < records.len()
        invariant
            i <= records@.len(),
            out@.map_values(|x: &Record| x@) == records@.subrange(0, i as int).map_values(
                |x: Record| x@,
            ).filter(|v: RecordView| is_listed(v)),
        decreases records.len() - i,
    {
        let r = &records[i];
        let keep = match r {
            Record::KeyStorage(_) | Record::Unknown(_, _) | Record::Invalid(_) | Record::JPEG(_) => false,
            _ => true,
        };
        let ghost before = out@;
        if keep {
            out.push(r);
        }
        proof {
            let s = records@.subrange(0, i + 1).map_values(|x: Record| x@);
            let t = records@.subrange(0, i as int).map_values(|x: Record| x@);
            assert(s.drop_last() =~= t);
            assert(s.last() == records@[i as int]@);
            assert(s.filter(|v: RecordView| is_listed(v)) == if is_listed(s.last()) {
                t.filter(|v: RecordView| is_listed(v)).push(s.last())
            } else {
                t.filter(|v: RecordView| is_listed(v))
            }) by {
                t.lemma_filter_push(s.last(), |v: RecordView| is_listed(v));
                assert(t.push(s.last()) =~= s);
            }
            if keep {
                assert(out@.map_values(|x: &Record| x@) =~= before.map_values(|x: &Record| x@).push(
                    records@[i as int]@,
                ));
            }
        }
        i = i + 1;
    }
    assert(records@.subrange(0, i as int) =~= records@);
    out
}

} // verus!
