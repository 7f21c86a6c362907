//! Minted clip index — tracks which ClipCash clip IDs have been minted as NFTs.
//!
//! Provides an existence check and enforces that the same clip ID cannot be
//! minted twice.  Entries are `ClipMinted(clip_id)`.

use vstd::prelude::*;

use crate::errors::Error;
use crate::ledger::{Ledger, LedgerView};

verus! {

/// The outcome of registering `clip_id`: refused when it is already there.
pub open spec fn add_clip_result(s: LedgerView, clip_id: u32) -> Result<(), Error> {
    if s.minted_clips.contains_key(clip_id) {
        Err(Error::ClipAlreadyMinted)
    } else {
        Ok(())
    }
}

/// The ledger after registering `clip_id`.
pub open spec fn after_add_clip(s: LedgerView, clip_id: u32) -> LedgerView {
    LedgerView { minted_clips: s.minted_clips.insert(clip_id, true), ..s }
}

/// Register `clip_id` in the minted-clip index.
///
/// Returns `Err(ClipAlreadyMinted)` if `clip_id` is already present,
/// leaving the ledger as it was.
pub fn add_clip(store: &mut Ledger, clip_id: u32) -> (r: Result<(), Error>)
    ensures
        r == add_clip_result(old(store)@, clip_id),
        r is Err ==> final(store)@ == old(store)@,
        r is Ok ==> final(store)@ == after_add_clip(old(store)@, clip_id),
{
    if store.minted_clips.contains(&clip_id) {
        return Err(Error::ClipAlreadyMinted);
    }
    store.minted_clips.set(clip_id, true);
    Ok(())
}

/// Return `true` if `clip_id` has been added to the minted-clip index.
pub fn clip_exists(store: &Ledger, clip_id: u32) -> (r: bool)
    ensures
        r == store@.minted_clips.contains_key(clip_id),
{
    store.minted_clips.contains(&clip_id)
}

/// A clip, once registered, exists, and registering it again is refused;
/// other clips are unaffected.
pub proof fn law_clip_registered_once(s: LedgerView, clip_id: u32, other: u32)
    ensures
        after_add_clip(s, clip_id).minted_clips.contains_key(clip_id),
        add_clip_result(after_add_clip(s, clip_id), clip_id) == Err::<(), Error>(
            Error::ClipAlreadyMinted,
        ),
        other != clip_id ==> add_clip_result(after_add_clip(s, clip_id), other) == add_clip_result(
            s,
            other,
        ),
{
}

} // verus!
