use vstd::prelude::*;

use crate::bytes::bytes_eq;
use crate::error::BlogError;
use crate::record::BlogEntryState;

verus! {

/// Verifies that `caller` is the identity recorded as the record's owner.
/// Run only once the record is known to exist: authorization is a property
/// of an existing record, never a substitute for an existence check.
pub fn authorize(record: &BlogEntryState, caller: &Vec<u8>) -> (r: Result<(), BlogError>)
    ensures
        r is Ok <==> record@.owner == caller@,
        r is Err ==> r == Err::<(), BlogError>(BlogError::Unauthorized),
{
    if bytes_eq(&record.owner, caller) {
        Ok(())
    } else {
        Err(BlogError::Unauthorized)
    }
}

} // verus!
