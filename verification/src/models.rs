//! Rules of the stored records.
use vstd::prelude::*;

verus! {

/// Whether a session record being saved gets a fresh id: only when it is
/// inserted with no id set, or with the nil id (all zero bits).
pub fn needs_new_session_id(insert: bool, id: Option<u128>) -> (r: bool)
    ensures
        r == (insert && match id {
            None => true,
            Some(v) => v == 0,
        }),
{
    insert && match id {
        None => true,
        Some(v) => v == 0,
    }
}

} // verus!
