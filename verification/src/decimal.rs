//! Decimal numerals, needed to name a monitor range in a diagnostic
//! message with the numbers spelled out exactly.

use vstd::prelude::*;

verus! {

/// The character of one decimal digit.
pub open spec fn digit_char(d: int) -> char
    recommends
        0 <= d <= 9,
{
    ((0x30 + d) as u8) as char
}

/// The decimal numeral of `n`: most significant digit first, no sign, no
/// leading zero, a single `'0'` for zero.
pub open spec fn decimal_of(n: int) -> Seq<char>
    recommends
        n >= 0,
    decreases n,
{
    if n <= 9 {
        seq![digit_char(n)]
    } else {
        decimal_of(n / 10).push(digit_char(n % 10))
    }
}

/// Appends the decimal numeral of `n` to `out`.
pub fn push_decimal(out: &mut String, n: usize)
    ensures
        final(out)@ == old(out)@ + decimal_of(n as int),
    decreases n,
{
    let ghost entry = out@;
    if n > 9 {
        push_decimal(out, n / 10);
    }
    let d = (n % 10) as u8;
    crate::wide::push_char(out, (0x30 + d) as char);
    proof {
        if n > 9 {
            assert((entry + decimal_of(n as int / 10)).push(digit_char(n as int % 10)) =~= entry
                + decimal_of(n as int));
        } else {
            assert(entry.push(digit_char(n as int)) =~= entry + decimal_of(n as int));
        }
    }
}

/// The decimal numeral of `n` as a string.
pub fn decimal_string(n: usize) -> (s: String)
    ensures
        s@ == decimal_of(n as int),
{
    let mut s = String::new();
    push_decimal(&mut s, n);
    proof {
        assert(Seq::<char>::empty() + decimal_of(n as int) =~= decimal_of(n as int));
    }
    s
}

} // verus!
