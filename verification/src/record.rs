use vstd::prelude::*;

use crate::{valid_content, valid_title};

verus! {

/// The number of bytes an identity (owner, payer, module) occupies.
pub const IDENTITY_BYTES: usize = 32;

/// The bytes a record slot reserves: an 8-byte tag, the owner identity, a
/// length-prefixed title of up to 50 bytes, a length-prefixed content of up
/// to 1000 bytes, and the two 8-byte timestamps.
pub const RECORD_SLOT_BYTES: usize = 8 + 32 + (4 + 50) + (4 + 1000) + 8 + 8;

/// The mathematical value of a stored record.
#[verifier::ext_equal]
pub ghost struct RecordModel {
    pub owner: Seq<u8>,
    pub title: Seq<u8>,
    pub content: Seq<u8>,
    pub created_at: int,
    pub updated_at: int,
}

impl RecordModel {
    /// Every observable record satisfies this: a 32-byte owner identity and
    /// both fields within their length bounds.
    pub open spec fn wf(self) -> bool {
        &&& self.owner.len() == IDENTITY_BYTES
        &&& valid_title(self.title)
        &&& valid_content(self.content)
    }
}

/// One blog entry: the owner identity fixed at creation, a bounded title that
/// takes part in the record's address, bounded content, and audit timestamps.
pub struct BlogEntryState {
    /// Identity permitted to mutate or delete this record; set once.
    pub owner: Vec<u8>,
    /// 1 to 50 bytes; part of the derived address, so effectively immutable.
    pub title: Vec<u8>,
    /// 1 to 1000 bytes; mutable by the owner only.
    pub content: Vec<u8>,
    /// Set once, at creation.
    pub created_at: i64,
    /// Set at creation and refreshed on every successful update.
    pub updated_at: i64,
}

impl View for BlogEntryState {
    type V = RecordModel;

    open spec fn view(&self) -> RecordModel {
        RecordModel {
            owner: self.owner@,
            title: self.title@,
            content: self.content@,
            created_at: self.created_at as int,
            updated_at: self.updated_at as int,
        }
    }
}

} // verus!
