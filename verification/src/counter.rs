use vstd::prelude::*;
use vstd::arithmetic::power2::pow2;
use vstd::arithmetic::power2::lemma2_to64;
use vstd::arithmetic::power2::lemma2_to64_rest;
use vstd::arithmetic::power2::lemma_pow2_strictly_increases;
use vstd::arithmetic::div_mod::lemma_small_mod;
use vstd::arithmetic::div_mod::lemma_mod_add_multiples_vanish;
use vstd::arithmetic::power2::lemma_pow2_pos;
use vstd::bits::lemma_u64_shl_is_mul;
use vstd::bits::lemma_u64_pow2_no_overflow;

verus! {

/// The widest counter a device may report.
pub const MAX_WIDTH_BITS: u32 = 64;

/// A counter width is valid when it has at least one bit and fits the
/// 64-bit accumulator domain.
pub open spec fn valid_width(width_bits: u32) -> bool {
    1 <= width_bits <= 64
}

/// The number of distinct values of a counter of the given width; the
/// counter wraps to zero when it reaches this.
pub open spec fn counter_modulus(width_bits: u32) -> nat {
    pow2(width_bits as nat)
}

/// Whether `value` is a possible reading of a counter of the given width.
pub open spec fn fits_width(value: u64, width_bits: u32) -> bool {
    (value as nat) < counter_modulus(width_bits)
}

/// The energy consumed between two readings of one counter, assuming the
/// counter wrapped at most once in between.
pub open spec fn wrapped_delta(current: u64, snapshot: u64, width_bits: u32) -> nat {
    if current >= snapshot {
        (current - snapshot) as nat
    } else {
        (counter_modulus(width_bits) - snapshot + current) as nat
    }
}

/// The modulus of a 64-bit counter is one past the largest `u64`.
pub proof fn lemma_modulus_of_full_width()
    ensures
        counter_modulus(64) == u64::MAX as nat + 1,
{
    lemma2_to64();
    lemma2_to64_rest();
}

/// A delta between two readings that fit the width fits the width too, so
/// it always fits a `u64`.
pub proof fn lemma_wrapped_delta_bounded(current: u64, snapshot: u64, width_bits: u32)
    requires
        valid_width(width_bits),
        fits_width(current, width_bits),
        fits_width(snapshot, width_bits),
    ensures
        wrapped_delta(current, snapshot, width_bits) < counter_modulus(width_bits),
        wrapped_delta(current, snapshot, width_bits) <= u64::MAX,
{
    lemma_modulus_of_full_width();
    if width_bits < 64 {
        lemma_pow2_strictly_increases(width_bits as nat, 64);
    }
}

/// The delta is the distance from the snapshot to the current reading on
/// the counter's circle: stepping the snapshot forward by the delta,
/// wrapping at the modulus, arrives at the current reading.
pub proof fn lemma_delta_leads_to_current(current: u64, snapshot: u64, width_bits: u32)
    requires
        valid_width(width_bits),
        fits_width(current, width_bits),
        fits_width(snapshot, width_bits),
    ensures
        (snapshot + wrapped_delta(current, snapshot, width_bits)) % (counter_modulus(width_bits) as int)
            == current,
{
    let m = counter_modulus(width_bits);
    lemma_pow2_pos(width_bits as nat);
    lemma_small_mod(current as nat, m);
    if current < snapshot {
        assert(snapshot + wrapped_delta(current, snapshot, width_bits) == m + current);
        lemma_mod_add_multiples_vanish(current as int, m as int);
    }
}

/// Validity of a counter width, as executable code.
pub fn is_valid_width(width_bits: u32) -> (ok: bool)
    ensures
        ok == valid_width(width_bits),
{
    1 <= width_bits && width_bits <= MAX_WIDTH_BITS
}

/// The largest value a counter of the given width can hold.
pub fn max_value_for_width(width_bits: u32) -> (max: u64)
    requires
        valid_width(width_bits),
    ensures
        max as nat == counter_modulus(width_bits) - 1,
{
    if width_bits == 64 {
        proof {
            lemma_modulus_of_full_width();
        }
        u64::MAX
    } else {
        proof {
            lemma_u64_pow2_no_overflow(width_bits as nat);
            lemma_u64_shl_is_mul(1u64, width_bits as u64);
        }
        (1u64 << width_bits) - 1
    }
}

/// Whether a reading fits a counter of the given width.
pub fn reading_fits(value: u64, width_bits: u32) -> (ok: bool)
    requires
        valid_width(width_bits),
    ensures
        ok == fits_width(value, width_bits),
{
    let max: u64 = max_value_for_width(width_bits);
    value <= max
}

/// Subtracts a snapshot from a later reading of the same counter,
/// correcting for one wraparound when the later reading is the smaller.
pub fn wrap_corrected_subtract(current: u64, snapshot: u64, width_bits: u32) -> (delta: u64)
    requires
        valid_width(width_bits),
        fits_width(current, width_bits),
        fits_width(snapshot, width_bits),
    ensures
        delta as nat == wrapped_delta(current, snapshot, width_bits),
        current >= snapshot ==> delta == current - snapshot,
        current < snapshot ==> delta as int == counter_modulus(width_bits) - snapshot + current,
        fits_width(delta, width_bits),
{
    if current >= snapshot {
        current - snapshot
    } else {
        let max: u64 = max_value_for_width(width_bits);
        (max - snapshot) + current + 1
    }
}

} // verus!
