use vstd::prelude::*;

verus! {

/// The bit that carries the sign of a single-precision value: set for a value
/// below zero, for negative zero, and for a NaN with its sign set.
pub const SIGN_BIT: u32 = 0x8000_0000;

/// The bits of positive zero.
pub const POSITIVE_ZERO: u32 = 0;

/// The bits of negative infinity: the greatest bit pattern that is not a NaN.
pub const NEGATIVE_INFINITY: u32 = 0xFF80_0000;

/// Whether the value with these bits compares below zero: its sign is set and
/// it is neither negative zero nor a NaN.
pub open spec fn is_below_zero(bits: u32) -> bool {
    SIGN_BIT < bits <= NEGATIVE_INFINITY
}

/// The bits of the value with the other sign: the sign bit turned over, the
/// exponent and the fraction kept. This holds of zeros, infinities and NaNs
/// as of every other value.
pub open spec fn negated(bits: u32) -> u32 {
    if bits >= SIGN_BIT {
        (bits - SIGN_BIT) as u32
    } else {
        (bits + SIGN_BIT) as u32
    }
}

/// Whether the value with these bits compares below zero.
pub fn is_negative(bits: u32) -> (r: bool)
    ensures
        r == is_below_zero(bits),
{
    SIGN_BIT < bits && bits <= NEGATIVE_INFINITY
}

/// The bits of the value with the other sign.
pub fn negate(bits: u32) -> (r: u32)
    ensures
        r == negated(bits),
{
    let r = bits ^ SIGN_BIT;
    assert(r == if bits >= 0x8000_0000u32 {
        (bits - 0x8000_0000u32) as u32
    } else {
        (bits + 0x8000_0000u32) as u32
    }) by (bit_vector)
        requires
            r == bits ^ 0x8000_0000u32,
    ;
    r
}

/// `value` where `side` is not below zero, and `value` with the other sign
/// where it is. This is how an angle found as an arc cosine, which has no
/// sign, gets the sign of the side that it turns to.
pub fn mirrored_if_negative(value: u32, side: u32) -> (r: u32)
    ensures
        r == if is_below_zero(side) {
            negated(value)
        } else {
            value
        },
{
    if is_negative(side) {
        negate(value)
    } else {
        value
    }
}

/// Turning the sign over twice gives the value back.
pub proof fn negated_twice(bits: u32)
    ensures
        negated(negated(bits)) == bits,
{
}

} // verus!
