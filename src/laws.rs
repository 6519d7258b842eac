use vstd::prelude::*;
use crate::slot::reallocated;
use crate::state::filled_tail;

verus! {

/// The bytes an entry holds after one zero-fill of its tail: the filled
/// bytes where the fill succeeds, the same bytes where it is rejected.
pub open spec fn bytes_after_fill(data: Seq<u8>, used_len: nat) -> Seq<u8> {
    match filled_tail(data, used_len) {
        Some(filled) => filled,
        None => data,
    }
}

/// Growing a slot keeps every byte it had; a zero-fill afterwards leaves the
/// used prefix as it was and every byte from the used length to the new end
/// at zero.
pub proof fn lemma_grow_then_fill_zeros(
    before: Seq<u8>,
    grown: Seq<u8>,
    new_capacity: nat,
    used_len: nat,
)
    requires
        before.len() <= new_capacity,
        reallocated(before, grown, new_capacity),
        used_len <= new_capacity,
    ensures
        grown.subrange(0, before.len() as int) == before,
        filled_tail(grown, used_len) is Some,
        filled_tail(grown, used_len)->0.len() == new_capacity,
        forall|i: int|
            0 <= i < used_len && i < before.len() ==> #[trigger] filled_tail(
                grown,
                used_len,
            )->0[i] == before[i],
        forall|i: int|
            used_len <= i < new_capacity ==> #[trigger] filled_tail(grown, used_len)->0[i] == 0,
{
    assert(grown.subrange(0, before.len() as int) =~= before);
}

/// Shrinking a slot forgets the truncated bytes for good: after a shrink to
/// `small`, a grow to `big` and a zero-fill of the tail from a used length
/// within `small`, the entry's bytes depend on the original's used prefix
/// alone, and everything past it is zero.
pub proof fn lemma_shrink_grow_forgets(
    original: Seq<u8>,
    shrunk: Seq<u8>,
    regrown: Seq<u8>,
    small: nat,
    big: nat,
    used_len: nat,
)
    requires
        small <= original.len(),
        reallocated(original, shrunk, small),
        small <= big,
        reallocated(shrunk, regrown, big),
        used_len <= small,
    ensures
        filled_tail(regrown, used_len) == Some(
            Seq::new(big, |i: int| if i < used_len { original[i] } else { 0u8 }),
        ),
{
    assert(filled_tail(regrown, used_len)->0 =~= Seq::new(
        big,
        |i: int| if i < used_len { original[i] } else { 0u8 },
    ));
}

/// Zero-filling an entry's tail twice leaves the same bytes as doing it
/// once, whether or not the fill is accepted.
pub proof fn lemma_fill_zeros_idempotent(data: Seq<u8>, used_len: nat)
    ensures
        bytes_after_fill(bytes_after_fill(data, used_len), used_len) == bytes_after_fill(
            data,
            used_len,
        ),
        filled_tail(bytes_after_fill(data, used_len), used_len) is Some <==> filled_tail(
            data,
            used_len,
        ) is Some,
{
    if filled_tail(data, used_len) is Some {
        assert(bytes_after_fill(bytes_after_fill(data, used_len), used_len) =~= bytes_after_fill(
            data,
            used_len,
        ));
    }
}

} // verus!
