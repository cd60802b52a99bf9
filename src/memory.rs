//! Total memory shown in gibibytes with two decimal digits.
use vstd::prelude::*;
use crate::text::{decimal, digit_char, digit_str, push_decimal};

verus! {

/// Bytes in one gibibyte, 2^30.
pub const GIB: u64 = 1073741824;

/// `bytes / 2^30` in hundredths, rounded to the nearest hundredth, a tie
/// going to the even neighbour.
pub open spec fn centi_gib(bytes: nat) -> nat {
    let q = bytes * 100 / (GIB as nat);
    let r = bytes * 100 % (GIB as nat);
    if 2 * r > GIB || (2 * r == GIB && q % 2 == 1) {
        q + 1
    } else {
        q
    }
}

/// The shown amount of memory: whole gibibytes in decimal, a point, and
/// exactly two digits of hundredths (17179869184 bytes read "16.00").
pub open spec fn gib_text(bytes: nat) -> Seq<char> {
    let c = centi_gib(bytes);
    decimal(c / 100) + seq!['.', digit_char((c % 100) / 10), digit_char(c % 10)]
}

/// Renders a total memory size, given in bytes, as gibibytes with two decimals.
pub fn format_gib(bytes: u64) -> (r: String)
    ensures
        r@ == gib_text(bytes as nat),
{
    let scaled: u128 = bytes as u128 * 100;
    let q: u128 = scaled / (GIB as u128);
    let rem: u128 = scaled % (GIB as u128);
    assert(q <= scaled);
    let centi: u64 = if 2 * rem > GIB as u128 || (2 * rem == GIB as u128 && q % 2 == 1) {
        (q + 1) as u64
    } else {
        q as u64
    };
    assert(centi as nat == centi_gib(bytes as nat));
    let mut out = String::new();
    push_decimal(&mut out, centi / 100);
    proof { reveal_strlit("."); }
    out.append(".");
    out.append(digit_str((centi % 100) / 10));
    out.append(digit_str(centi % 10));
    assert(centi % 100 % 10 == centi % 10);
    assert(out@ =~= gib_text(bytes as nat));
    out
}

} // verus!
