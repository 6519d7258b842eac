use vstd::prelude::*;
use crate::errors::ErrorCode;
use crate::gate::{Availability, OperationKind, availability_of};
use crate::slot::StorageSlot;
use crate::state::{StakeEntry, filled_tail, stake_entry_fill_zeros};

verus! {

/// The records that a zero-fill works on.
pub struct StakeEntryFillZeros {
    pub stake_entry: StakeEntry,
}

/// The zero-fill behind a gate: a closed gate rejects before anything is
/// touched; an open one zeroes the entry's reserved tail.
pub fn fill_zeros(gate: Availability, ctx: &mut StakeEntryFillZeros) -> (r: Result<
    (),
    ErrorCode,
>)
    ensures
        final(ctx).stake_entry.used_len == old(ctx).stake_entry.used_len,
        final(ctx).stake_entry.account.lamports == old(ctx).stake_entry.account.lamports,
        gate == Availability::Closed ==> r == Err::<(), ErrorCode>(
            ErrorCode::InstructionNotSupported,
        ) && final(ctx).stake_entry.account.data@ == old(ctx).stake_entry.account.data@,
        gate == Availability::Open ==> match filled_tail(
            old(ctx).stake_entry.account.data@,
            old(ctx).stake_entry.used_len as nat,
        ) {
            Some(filled) => r is Ok && final(ctx).stake_entry.account.data@ == filled,
            None => r == Err::<(), ErrorCode>(ErrorCode::RangeOutOfBounds)
                && final(ctx).stake_entry.account.data@ == old(ctx).stake_entry.account.data@,
        },
{
    if gate.is_closed() {
        return Err(ErrorCode::InstructionNotSupported);
    }
    stake_entry_fill_zeros(&mut ctx.stake_entry)
}

/// The deployed zero-fill instruction. Its gate is closed, so every
/// invocation is rejected with `InstructionNotSupported` and the entry's
/// bytes and balance stay as they were.
pub fn handler(ctx: &mut StakeEntryFillZeros) -> (r: Result<(), ErrorCode>)
    ensures
        r == Err::<(), ErrorCode>(ErrorCode::InstructionNotSupported),
        final(ctx).stake_entry.account.data@ == old(ctx).stake_entry.account.data@,
        final(ctx).stake_entry.account.lamports == old(ctx).stake_entry.account.lamports,
        final(ctx).stake_entry.used_len == old(ctx).stake_entry.used_len,
{
    fill_zeros(availability_of(OperationKind::FillZeros), ctx)
}

} // verus!
