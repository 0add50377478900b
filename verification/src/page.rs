//! The read projection: serve one snapshot by ordinal position with paging
//! metadata. An out-of-range index is a deliberate soft miss — the index and
//! the length are still reported, the payload is absent — never an error.

use vstd::prelude::*;
use crate::history::History;
use crate::snapshot::Snapshot;

verus! {

/// The response envelope: the resolved ordinal, the history's length at read
/// time, and the snapshot at that ordinal when it exists. Built fresh on
/// every read, never persisted.
pub struct PageResult {
    pub current: usize,
    pub length: usize,
    pub data: Option<Snapshot>,
}

/// The ordinal a read resolves to: the given index as it stands, or, when
/// omitted, the latest entry — position zero on an empty history.
pub open spec fn resolved_index(index: Option<usize>, len: int) -> int {
    match index {
        Some(i) => i as int,
        None => if len > 0 {
            len - 1
        } else {
            0
        },
    }
}

/// Serve one snapshot by ordinal position, defaulting to the latest.
pub fn read(history: &History, index: Option<usize>) -> (r: PageResult)
    ensures
        r.length == history@.len(),
        r.current == resolved_index(index, history@.len() as int),
        r.current < history@.len() ==> (r.data matches Some(s) && s == history@[r.current as int]),
        r.current >= history@.len() ==> r.data is None,
{
    let len = history.len();
    let current = match index {
        Some(i) => i,
        None => if len > 0 {
            len - 1
        } else {
            0
        },
    };
    let data = history.get_cloned(current);
    PageResult { current, length: len, data }
}

} // verus!
