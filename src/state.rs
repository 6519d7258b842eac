use vstd::prelude::*;
use crate::errors::ErrorCode;
use crate::slot::{StorageSlot, zero_fill, zeroed};

verus! {

/// A stake entry as stored: its slot, and the length of the prefix that the
/// current schema's fields occupy. Bytes from `used_len` to the end of the
/// slot are reserved and must read as zero.
pub struct StakeEntry {
    pub account: StorageSlot,
    pub used_len: usize,
}

/// The entry's bytes once its reserved tail is zeroed, or `None` where the
/// used prefix is longer than the slot.
pub open spec fn filled_tail(data: Seq<u8>, used_len: nat) -> Option<Seq<u8>> {
    if used_len <= data.len() {
        Some(zeroed(data, used_len as int, data.len() as int))
    } else {
        None
    }
}

/// Zeroes every byte of the entry's slot from its used prefix to the end.
pub fn stake_entry_fill_zeros(stake_entry: &mut StakeEntry) -> (r: Result<(), ErrorCode>)
    ensures
        final(stake_entry).used_len == old(stake_entry).used_len,
        final(stake_entry).account.lamports == old(stake_entry).account.lamports,
        match filled_tail(old(stake_entry).account.data@, old(stake_entry).used_len as nat) {
            Some(filled) => r is Ok && final(stake_entry).account.data@ == filled,
            None => r == Err::<(), ErrorCode>(ErrorCode::RangeOutOfBounds)
                && final(stake_entry).account.data@ == old(stake_entry).account.data@,
        },
{
    let len = stake_entry.account.data.len();
    zero_fill(&mut stake_entry.account, stake_entry.used_len, len)
}

} // verus!
