//! Ordering of IEEE-754 doubles given by their 64-bit patterns.

use vstd::prelude::*;

verus! {

/// Whether the pattern has its sign bit set.
pub open spec fn sign_set(bits: u64) -> bool {
    bits >= 0x8000_0000_0000_0000
}

/// The pattern without its sign bit: exponent and mantissa.
pub open spec fn magnitude(bits: u64) -> int {
    (bits as int) % 0x8000_0000_0000_0000
}

/// Whether the pattern is a NaN: all exponent bits set and a non-zero mantissa.
pub open spec fn is_nan_bits(bits: u64) -> bool {
    magnitude(bits) > 0x7ff0_0000_0000_0000
}

/// The `<` of two doubles: never true with a NaN, false between the two zeros,
/// and otherwise the order of the signed magnitudes.
pub open spec fn double_less(a: u64, b: u64) -> bool {
    if is_nan_bits(a) || is_nan_bits(b) {
        false
    } else if magnitude(a) == 0 && magnitude(b) == 0 {
        false
    } else if !sign_set(a) && !sign_set(b) {
        magnitude(a) < magnitude(b)
    } else if sign_set(a) && sign_set(b) {
        magnitude(a) > magnitude(b)
    } else {
        sign_set(a)
    }
}

/// Computes `a < b` for the doubles whose bit patterns are `a` and `b`.
pub fn double_less_than(a: u64, b: u64) -> (lt: bool)
    ensures
        lt == double_less(a, b),
{
    let sign: u64 = 0x8000_0000_0000_0000;
    let ma: u64 = if a >= sign { a - sign } else { a };
    let mb: u64 = if b >= sign { b - sign } else { b };
    assert(ma == magnitude(a));
    assert(mb == magnitude(b));
    let nan_floor: u64 = 0x7ff0_0000_0000_0000;
    if ma > nan_floor || mb > nan_floor {
        false
    } else if ma == 0 && mb == 0 {
        false
    } else if a < sign && b < sign {
        ma < mb
    } else if a >= sign && b >= sign {
        ma > mb
    } else {
        a >= sign
    }
}


/// `<` on doubles is a strict order: no double is below itself, and it is
/// transitive.
pub proof fn law_double_less_is_strict_order(a: u64, b: u64, c: u64)
    ensures
        !double_less(a, a),
        double_less(a, b) && double_less(b, c) ==> double_less(a, c),
        double_less(a, b) ==> !double_less(b, a),
{
}


/// On the number line: between non-negative doubles, `<` is the order of
/// their bit patterns; between negative doubles, the reverse order; and every
/// negative non-zero double is below every non-negative one. A NaN is below
/// nothing and nothing is below it.
pub proof fn law_double_less_is_the_number_line(a: u64, b: u64)
    ensures
        is_nan_bits(a) || is_nan_bits(b) ==> !double_less(a, b),
        !is_nan_bits(a) && !is_nan_bits(b) && a < 0x8000_0000_0000_0000 && b < 0x8000_0000_0000_0000
            ==> (double_less(a, b) <==> a < b),
        !is_nan_bits(a) && !is_nan_bits(b) && a >= 0x8000_0000_0000_0000 && b >= 0x8000_0000_0000_0000
            ==> (double_less(a, b) <==> a > b),
        !is_nan_bits(a) && !is_nan_bits(b) && a > 0x8000_0000_0000_0000 && b < 0x8000_0000_0000_0000
            ==> double_less(a, b),
{
}

} // verus!
