use vstd::prelude::*;

verus! {

/// A loss is handed to the library as an order key: `Some(k)` for a number,
/// where a smaller key is a smaller loss, and `None` for a loss that is not a
/// number, which compares as neither smaller nor larger than any other.
pub open spec fn improves(a: Option<u32>, b: Option<u32>) -> bool {
    match (a, b) {
        (Some(x), Some(y)) => x < y,
        _ => false,
    }
}

/// `a` is the same loss as `b` or a smaller one.
pub open spec fn not_worse(a: Option<u32>, b: Option<u32>) -> bool {
    a == b || improves(a, b)
}

/// Whether loss `a` is strictly smaller than loss `b`.
pub fn is_improvement(a: Option<u32>, b: Option<u32>) -> (r: bool)
    ensures
        r == improves(a, b),
{
    match (a, b) {
        (Some(x), Some(y)) => x < y,
        _ => false,
    }
}

/// Whether the IEEE-754 single-precision number with these bits is not a
/// number: all exponent bits set and a nonzero fraction.
pub open spec fn is_nan_bits(bits: u32) -> bool {
    (bits & 0x7f80_0000) == 0x7f80_0000 && (bits & 0x007f_ffff) != 0
}

/// The bits of a single-precision number read as a sign and a magnitude.
/// Numbers that are not `NaN` order as these values do (both zeros are 0).
pub open spec fn signed_magnitude(bits: u32) -> int {
    if bits & 0x8000_0000 != 0 {
        -((bits & 0x7fff_ffff) as int)
    } else {
        (bits & 0x7fff_ffff) as int
    }
}

/// The order key of the number with these bits, where it is not `NaN`.
pub open spec fn key_of(bits: u32) -> u32 {
    let magnitude = bits & 0x7fff_ffff;
    if bits & 0x8000_0000 != 0 && magnitude != 0 {
        (0x7fff_ffff - magnitude) as u32
    } else {
        (0x8000_0000 + magnitude) as u32
    }
}

/// The order key of the loss whose single-precision bits are `bits`: `None`
/// for `NaN`, else a key that orders as the number does.
pub fn loss_key(bits: u32) -> (r: Option<u32>)
    ensures
        r is None <==> is_nan_bits(bits),
        r matches Some(k) ==> k == key_of(bits),
{
    let magnitude = bits & 0x7fff_ffff;
    assert(magnitude <= 0x7fff_ffff) by (bit_vector)
        requires magnitude == bits & 0x7fff_ffff;
    if (bits & 0x7f80_0000) == 0x7f80_0000 && (bits & 0x007f_ffff) != 0 {
        None
    } else if bits & 0x8000_0000 != 0 && magnitude != 0 {
        Some(0x7fff_ffff - magnitude)
    } else {
        Some(0x8000_0000 + magnitude)
    }
}

/// Keys order numbers as their values do: of two numbers that are not `NaN`,
/// one has the smaller key exactly when it is the smaller number, and they
/// have the same key exactly when they are equal.
pub proof fn lemma_key_order(a: u32, b: u32)
    ensures
        key_of(a) < key_of(b) <==> signed_magnitude(a) < signed_magnitude(b),
        key_of(a) == key_of(b) <==> signed_magnitude(a) == signed_magnitude(b),
{
    let (ma, mb) = (a & 0x7fff_ffff, b & 0x7fff_ffff);
    assert(ma <= 0x7fff_ffff) by (bit_vector)
        requires ma == a & 0x7fff_ffff;
    assert(mb <= 0x7fff_ffff) by (bit_vector)
        requires mb == b & 0x7fff_ffff;
}

/// Being no worse is transitive.
pub proof fn lemma_not_worse_transitive(a: Option<u32>, b: Option<u32>, c: Option<u32>)
    requires
        not_worse(a, b),
        not_worse(b, c),
    ensures
        not_worse(a, c),
{
}

} // verus!
