use vstd::prelude::*;
use crate::errors::ErrorCode;
use crate::gate::{Availability, OperationKind, availability_of};
use crate::slot::{
    FundingSource,
    MAX_CAPACITY,
    RentSchedule,
    change_capacity,
    minimum_balance_of,
    reallocated,
};
use crate::state::StakeEntry;

verus! {

/// The records that a resize works on: the entry whose slot changes, the
/// payer that funds it, and the rent schedule in force.
pub struct StakeEntryResize {
    pub stake_entry: StakeEntry,
    pub payer: FundingSource,
    pub rent: RentSchedule,
}

/// The resize behind a gate: a closed gate rejects before anything is
/// touched; an open one changes the entry's capacity to `target_size` and
/// rebalances its funding against the payer.
pub fn resize(gate: Availability, ctx: &mut StakeEntryResize, target_size: usize) -> (r: Result<
    (),
    ErrorCode,
>)
    requires
        gate == Availability::Open ==> old(ctx).stake_entry.account.lamports + old(
            ctx,
        ).payer.lamports <= u64::MAX,
    ensures
        final(ctx).rent == old(ctx).rent,
        final(ctx).stake_entry.used_len == old(ctx).stake_entry.used_len,
        r is Err ==> {
            &&& final(ctx).stake_entry.account.data@ == old(ctx).stake_entry.account.data@
            &&& final(ctx).stake_entry.account.lamports == old(ctx).stake_entry.account.lamports
            &&& final(ctx).payer.lamports == old(ctx).payer.lamports
        },
        gate == Availability::Closed ==> r == Err::<(), ErrorCode>(
            ErrorCode::InstructionNotSupported,
        ),
        gate == Availability::Open && target_size > MAX_CAPACITY ==> r == Err::<(), ErrorCode>(
            ErrorCode::InvalidCapacity,
        ),
        gate == Availability::Open && target_size <= MAX_CAPACITY && minimum_balance_of(
            old(ctx).rent,
            target_size as nat,
        ) > old(ctx).stake_entry.account.lamports + old(ctx).payer.lamports ==> r == Err::<
            (),
            ErrorCode,
        >(ErrorCode::InsufficientFunding),
        gate == Availability::Open && target_size <= MAX_CAPACITY && minimum_balance_of(
            old(ctx).rent,
            target_size as nat,
        ) <= old(ctx).stake_entry.account.lamports + old(ctx).payer.lamports ==> r is Ok,
        r is Ok ==> {
            &&& reallocated(
                old(ctx).stake_entry.account.data@,
                final(ctx).stake_entry.account.data@,
                target_size as nat,
            )
            &&& final(ctx).stake_entry.account.lamports == minimum_balance_of(
                old(ctx).rent,
                target_size as nat,
            )
            &&& final(ctx).payer.lamports == old(ctx).stake_entry.account.lamports + old(
                ctx,
            ).payer.lamports - minimum_balance_of(old(ctx).rent, target_size as nat)
        },
        r is Ok && old(ctx).stake_entry.account.lamports < minimum_balance_of(
            old(ctx).rent,
            target_size as nat,
        ) ==> final(ctx).payer.lamports == old(ctx).payer.lamports - (minimum_balance_of(
            old(ctx).rent,
            target_size as nat,
        ) - old(ctx).stake_entry.account.lamports),
{
    if gate.is_closed() {
        return Err(ErrorCode::InstructionNotSupported);
    }
    let rent = ctx.rent;
    change_capacity(&mut ctx.stake_entry.account, target_size, &mut ctx.payer, &rent)
}

/// The deployed resize instruction. Its gate is closed, so every invocation
/// is rejected with `InstructionNotSupported`, whatever `target_size` is, and
/// the entry's bytes and balance and the payer's balance stay as they were.
pub fn handler(ctx: &mut StakeEntryResize, target_size: usize) -> (r: Result<(), ErrorCode>)
    ensures
        r == Err::<(), ErrorCode>(ErrorCode::InstructionNotSupported),
        final(ctx).stake_entry.account.data@ == old(ctx).stake_entry.account.data@,
        final(ctx).stake_entry.account.lamports == old(ctx).stake_entry.account.lamports,
        final(ctx).stake_entry.used_len == old(ctx).stake_entry.used_len,
        final(ctx).payer.lamports == old(ctx).payer.lamports,
        final(ctx).rent == old(ctx).rent,
{
    resize(availability_of(OperationKind::Resize), ctx, target_size)
}

} // verus!
