use vstd::prelude::*;
use crate::errors::ErrorCode;

verus! {

/// Bytes the host charges for every slot on top of its data.
pub const ACCOUNT_STORAGE_OVERHEAD: u64 = 128;

/// The largest data capacity the host permits for one slot (10 MiB).
pub const MAX_CAPACITY: usize = 10485760;

/// An externally owned byte buffer together with the balance that funds it.
/// Its capacity is the length of `data`.
pub struct StorageSlot {
    pub data: Vec<u8>,
    pub lamports: u64,
}

/// A party that supplies a slot's shortfall and takes back its excess.
pub struct FundingSource {
    pub lamports: u64,
}

/// How much balance a slot must hold for its capacity, in whole units:
/// `(overhead + capacity) * lamports_per_byte_year * exemption_years`.
#[derive(Debug, Clone, Copy, PartialEq, Eq, Structural)]
pub struct RentSchedule {
    pub lamports_per_byte_year: u64,
    pub exemption_years: u64,
}

pub open spec fn minimum_balance_of(rent: RentSchedule, capacity: nat) -> int {
    (ACCOUNT_STORAGE_OVERHEAD + capacity) * rent.lamports_per_byte_year * rent.exemption_years
}

proof fn lemma_product_grows(a: int, b: int, c: int)
    requires
        a >= 1,
        b >= 1,
        c >= 1,
    ensures
        a * b <= a * b * c,
{
    assert(a * b <= a * b * c) by (nonlinear_arith)
        requires a >= 1, b >= 1, c >= 1;
}

impl RentSchedule {
    /// The minimum balance for `capacity` bytes, or `None` where it does not
    /// fit in a `u64`.
    pub fn minimum_balance(&self, capacity: usize) -> (r: Option<u64>)
        requires
            capacity <= MAX_CAPACITY,
        ensures
            minimum_balance_of(*self, capacity as nat) <= u64::MAX ==> r == Some(
                minimum_balance_of(*self, capacity as nat) as u64,
            ),
            minimum_balance_of(*self, capacity as nat) > u64::MAX ==> r is None,
    {
        let bytes: u64 = ACCOUNT_STORAGE_OVERHEAD + capacity as u64;
        let per_year = self.lamports_per_byte_year;
        let years = self.exemption_years;
        if per_year == 0 || years == 0 {
            assert(minimum_balance_of(*self, capacity as nat) == 0) by (nonlinear_arith)
                requires
                    per_year == 0 || years == 0,
                    minimum_balance_of(*self, capacity as nat) == bytes * per_year * years,
            ;
            return Some(0);
        }
        proof {
            lemma_product_grows(bytes as int, per_year as int, years as int);
        }
        match bytes.checked_mul(per_year) {
            None => None,
            Some(yearly) => yearly.checked_mul(years),
        }
    }
}

/// How a slot's balance must move to match a new minimum.
#[derive(Debug, Clone, Copy, PartialEq, Eq, Structural)]
pub enum FundingDelta {
    /// The balance already equals the minimum.
    Balanced,
    /// The slot is short by this much; the funding source supplies it.
    Draw(u64),
    /// The slot holds this much over the minimum; it goes back to the source.
    Refund(u64),
}

pub fn compute_funding_delta(current: u64, required: u64) -> (d: FundingDelta)
    ensures
        current < required ==> d == FundingDelta::Draw((required - current) as u64),
        current > required ==> d == FundingDelta::Refund((current - required) as u64),
        current == required ==> d == FundingDelta::Balanced,
{
    if current < required {
        FundingDelta::Draw(required - current)
    } else if current > required {
        FundingDelta::Refund(current - required)
    } else {
        FundingDelta::Balanced
    }
}

/// What a capacity change keeps: the new capacity and the length of the
/// prefix whose bytes survive it.
#[derive(Debug, Clone, Copy, PartialEq, Eq, Structural)]
pub struct CapacityPlan {
    pub new_capacity: usize,
    pub preserved: usize,
}

pub fn compute_new_capacity_plan(old_capacity: usize, new_capacity: usize) -> (r: Result<
    CapacityPlan,
    ErrorCode,
>)
    ensures
        new_capacity > MAX_CAPACITY ==> r == Err::<CapacityPlan, ErrorCode>(
            ErrorCode::InvalidCapacity,
        ),
        new_capacity <= MAX_CAPACITY ==> r == Ok::<CapacityPlan, ErrorCode>(
            (CapacityPlan {
                new_capacity,
                preserved: if old_capacity < new_capacity {
                    old_capacity
                } else {
                    new_capacity
                },
            }),
        ),
{
    if new_capacity > MAX_CAPACITY {
        return Err(ErrorCode::InvalidCapacity);
    }
    let preserved = if old_capacity < new_capacity {
        old_capacity
    } else {
        new_capacity
    };
    Ok(CapacityPlan { new_capacity, preserved })
}

/// `new` has exactly `capacity` bytes and keeps every byte of `old` below
/// both lengths. Bytes past the old length are left open.
pub open spec fn reallocated(old: Seq<u8>, new: Seq<u8>, capacity: nat) -> bool {
    &&& new.len() == capacity
    &&& forall|i: int| 0 <= i < old.len() && i < capacity ==> #[trigger] new[i] == old[i]
}

/// `data` with the bytes at `[from, to)` set to zero.
pub open spec fn zeroed(data: Seq<u8>, from: int, to: int) -> Seq<u8> {
    Seq::new(data.len(), |i: int| if from <= i < to { 0u8 } else { data[i] })
}

/// Changes the slot's capacity to `new_capacity` and rebalances its funding
/// against `payer` so that it holds exactly the minimum for that capacity.
/// Newly exposed bytes are not zeroed here: that is the caller's part.
pub fn change_capacity(
    slot: &mut StorageSlot,
    new_capacity: usize,
    payer: &mut FundingSource,
    rent: &RentSchedule,
) -> (r: Result<(), ErrorCode>)
    requires
        old(slot).lamports + old(payer).lamports <= u64::MAX,
    ensures
        new_capacity > MAX_CAPACITY ==> r == Err::<(), ErrorCode>(ErrorCode::InvalidCapacity),
        new_capacity <= MAX_CAPACITY && minimum_balance_of(*rent, new_capacity as nat) > old(
            slot,
        ).lamports + old(payer).lamports ==> r == Err::<(), ErrorCode>(
            ErrorCode::InsufficientFunding,
        ),
        new_capacity <= MAX_CAPACITY && minimum_balance_of(*rent, new_capacity as nat) <= old(
            slot,
        ).lamports + old(payer).lamports ==> r is Ok,
        r is Err ==> final(slot).data@ == old(slot).data@ && final(slot).lamports == old(
            slot,
        ).lamports && final(payer).lamports == old(payer).lamports,
        r is Ok ==> {
            &&& reallocated(old(slot).data@, final(slot).data@, new_capacity as nat)
            &&& final(slot).lamports == minimum_balance_of(*rent, new_capacity as nat)
            &&& final(payer).lamports == old(slot).lamports + old(payer).lamports
                - minimum_balance_of(*rent, new_capacity as nat)
        },
        r is Ok && old(slot).lamports < minimum_balance_of(*rent, new_capacity as nat)
            ==> final(payer).lamports == old(payer).lamports - (minimum_balance_of(
            *rent,
            new_capacity as nat,
        ) - old(slot).lamports),
{
    let plan = match compute_new_capacity_plan(slot.data.len(), new_capacity) {
        Ok(plan) => plan,
        Err(e) => return Err(e),
    };
    let required = match rent.minimum_balance(plan.new_capacity) {
        Some(required) => required,
        None => return Err(ErrorCode::InsufficientFunding),
    };
    match compute_funding_delta(slot.lamports, required) {
        FundingDelta::Draw(shortfall) => {
            if payer.lamports < shortfall {
                return Err(ErrorCode::InsufficientFunding);
            }
            payer.lamports = payer.lamports - shortfall;
            slot.lamports = slot.lamports + shortfall;
        },
        FundingDelta::Refund(excess) => {
            slot.lamports = slot.lamports - excess;
            payer.lamports = payer.lamports + excess;
        },
        FundingDelta::Balanced => {},
    }
    slot.data.resize(plan.new_capacity, 0u8);
    Ok(())
}

/// Sets the slot's bytes at `[from, to)` to zero.
pub fn zero_fill(slot: &mut StorageSlot, from: usize, to: usize) -> (r: Result<(), ErrorCode>)
    ensures
        to > old(slot).data@.len() || from > to ==> r == Err::<(), ErrorCode>(
            ErrorCode::RangeOutOfBounds,
        ),
        to <= old(slot).data@.len() && from <= to ==> r is Ok,
        r is Err ==> final(slot).data@ == old(slot).data@,
        r is Ok ==> final(slot).data@ == zeroed(old(slot).data@, from as int, to as int),
        final(slot).lamports == old(slot).lamports,
{
    if to > slot.data.len() || from > to {
        return Err(ErrorCode::RangeOutOfBounds);
    }
    let mut i: usize = from;
    while i < to
        invariant
            from <= i <= to,
            to <= old(slot).data@.len(),
            slot.lamports == old(slot).lamports,
            slot.data@ == zeroed(old(slot).data@, from as int, i as int),
        decreases to - i,
    {
        slot.data[i] = 0u8;
        i = i + 1;
        assert(slot.data@ =~= zeroed(old(slot).data@, from as int, i as int));
    }
    assert(slot.data@ =~= zeroed(old(slot).data@, from as int, to as int));
    Ok(())
}

} // verus!
