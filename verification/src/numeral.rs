//! Decimal numerals, as they appear in the texts shown to the user and in
//! the header of an image file.

use vstd::prelude::*;

verus! {

/// The character that stands for the digit `d`.
pub open spec fn digit(d: nat) -> char
    recommends
        d < 10,
{
    (('0' as u8) + d) as char
}

/// The decimal numeral of `n`: its digits, most significant first, with no
/// leading zero, and `0` for zero.
pub open spec fn decimal(n: nat) -> Seq<char>
    decreases n,
{
    if n < 10 {
        seq![digit(n)]
    } else {
        decimal(n / 10).push(digit(n % 10))
    }
}

/// Appends the decimal numeral of `n` to `out`.
///
/// The digits come from `ufmt`'s `uDisplay::fmt` for `usize`, writing into
/// the string through a `ufmt::Formatter`. The contract is taken on trust:
/// that implementation emits `n % 10` as the last digit and repeats on
/// `n / 10` until nothing is left, and a `String` takes every write.
#[verifier::external_body]
pub(crate) fn push_decimal(out: &mut String, n: usize)
    ensures
        final(out)@ == old(out)@ + decimal(n as nat),
{
    let _ = ufmt::uDisplay::fmt(&n, &mut ufmt::Formatter::new(out));
}

/// The bytes of the decimal numeral of `n` in ASCII.
pub open spec fn decimal_bytes(n: nat) -> Seq<u8> {
    Seq::new(decimal(n).len(), |k: int| decimal(n)[k] as u8)
}

/// A numeral has as many digits as its number needs and no more: one for a
/// number below ten, and one more than the numeral of a tenth of it
/// otherwise. Its last digit is the remainder by ten.
pub proof fn lemma_decimal_digits(n: nat)
    ensures
        decimal(n).len() >= 1,
        n < 10 ==> decimal(n).len() == 1,
        n >= 10 ==> decimal(n).len() == decimal(n / 10).len() + 1,
        decimal(n).last() == digit(n % 10),
        decimal(n).len() > 1 ==> decimal(n)[0] != '0',
    decreases n,
{
    if n >= 10 {
        lemma_decimal_digits(n / 10);
    }
}

} // verus!
