//! A record-management core: blog entries addressed deterministically from a
//! `(title, owner)` pair, with field validation, single-owner authorization,
//! and a create / update / delete lifecycle over an address-keyed store.

use vstd::prelude::*;

pub mod address;
pub mod auth;
pub mod bytes;
pub mod error;
pub mod laws;
pub mod lifecycle;
pub mod record;
pub mod store;

pub use crate::address::{derive_spec, derived_addr, pda_of, DerivedAddress, ADDRESS_BYTES,
    MAX_SEED_BYTES};
pub use crate::error::BlogError;
pub use crate::record::{BlogEntryState, RecordModel, IDENTITY_BYTES, RECORD_SLOT_BYTES};
pub use crate::store::{grown, load_spec, store_inv, RecordStore, SlotModel};

verus! {

/// A title is acceptable when it holds between 1 and 50 bytes.
pub open spec fn valid_title(t: Seq<u8>) -> bool {
    1 <= t.len() <= 50
}

/// Content is acceptable when it holds between 1 and 1000 bytes.
pub open spec fn valid_content(c: Seq<u8>) -> bool {
    1 <= c.len() <= 1000
}

/// Checks the title length bound: between 1 and 50 bytes.
pub fn validate_title(title: &Vec<u8>) -> (r: Result<(), BlogError>)
    ensures
        r is Ok <==> valid_title(title@),
        r is Err ==> r == Err::<(), BlogError>(BlogError::InvalidTitle),
{
    if title.len() >= 1 && title.len() <= 50 {
        Ok(())
    } else {
        Err(BlogError::InvalidTitle)
    }
}

/// Checks the content length bound: between 1 and 1000 bytes.
pub fn validate_content(content: &Vec<u8>) -> (r: Result<(), BlogError>)
    ensures
        r is Ok <==> valid_content(content@),
        r is Err ==> r == Err::<(), BlogError>(BlogError::InvalidContent),
{
    if content.len() >= 1 && content.len() <= 1000 {
        Ok(())
    } else {
        Err(BlogError::InvalidContent)
    }
}

} // verus!
