//! The machine's byte order: found once by one conversion of std, then applied by the
//! library itself to every value that it writes or reads in that order.

use vstd::prelude::*;

verus! {

/// The two bytes of `x`, the least significant first when `little`.
pub open spec fn u16_bytes(x: u16, little: bool) -> Seq<u8> {
    let lo = (x % 256) as u8;
    let hi = (x / 256) as u8;
    if little {
        seq![lo, hi]
    } else {
        seq![hi, lo]
    }
}

/// `u16::to_ne_bytes`: the two bytes of `x` in the machine's byte order, which is
/// little- or big-endian.
#[verifier::external_body]
fn u16_to_ne_bytes(x: u16) -> (r: [u8; 2])
    ensures
        r@ == u16_bytes(x, true) || r@ == u16_bytes(x, false),
{
    x.to_ne_bytes()
}

/// Whether the machine stores an integer least significant byte first, as the two bytes
/// of 1 in its order show. Which it is depends on the machine, so nothing is promised of
/// the result; the functions that use it state what holds for either order.
pub fn machine_is_little_endian() -> bool {
    let b: [u8; 2] = u16_to_ne_bytes(1);
    b[0] == 1
}

/// The two bytes of `x` in the order `little` names.
pub fn u16_to_bytes(x: u16, little: bool) -> (r: [u8; 2])
    ensures
        r@ == u16_bytes(x, little),
{
    let lo: u8 = (x % 256) as u8;
    let hi: u8 = (x / 256) as u8;
    let r: [u8; 2] = if little {
        [lo, hi]
    } else {
        [hi, lo]
    };
    assert(r@ =~= u16_bytes(x, little));
    r
}

} // verus!
