//! Order keys: integers that compare as the real values they stand for.
//!
//! A binary64 bit pattern holds a sign bit and a 63-bit magnitude; among
//! values of one sign, a larger magnitude pattern is a larger absolute value.
//! The key is the magnitude with the value's sign, so that two values compare
//! as their keys do, both zeros share the key 0, and NaN has no key.
use vstd::prelude::*;

verus! {

/// The sign bit of a binary64 pattern.
pub const SIGN_BIT: u64 = 0x8000_0000_0000_0000;

/// The pattern of positive infinity; a larger magnitude is a NaN.
pub const INFINITY_BITS: u64 = 0x7ff0_0000_0000_0000;

/// The magnitude part of a pattern.
pub open spec fn magnitude(bits: u64) -> int {
    (bits % 0x8000_0000_0000_0000) as int
}

/// The pattern has its sign bit set.
pub open spec fn is_negative_pattern(bits: u64) -> bool {
    bits >= 0x8000_0000_0000_0000
}

/// The key of a pattern, or `None` for a NaN.
pub open spec fn key_of(bits: u64) -> Option<i64> {
    if magnitude(bits) > INFINITY_BITS {
        None
    } else if is_negative_pattern(bits) {
        Some((-magnitude(bits)) as i64)
    } else {
        Some(magnitude(bits) as i64)
    }
}

/// The order key of a binary64 value given by its bit pattern.
pub fn order_key(bits: u64) -> (r: Option<i64>)
    ensures
        r == key_of(bits),
{
    let mag: u64 = bits % SIGN_BIT;
    if mag > INFINITY_BITS {
        None
    } else if bits >= SIGN_BIT {
        Some(-(mag as i64))
    } else {
        Some(mag as i64)
    }
}

} // verus!
