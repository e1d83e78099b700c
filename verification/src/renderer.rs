//! Number formatting for the progress screen.
use vstd::prelude::*;
use crate::text::{decimal, digit, digit_char, push_char, push_decimal};

verus! {

/// The three decimal digits of `n` (`n < 1000`), with leading zeros.
pub open spec fn three_digits(n: nat) -> Seq<char> {
    seq![digit_char(n / 100), digit_char((n / 10) % 10), digit_char(n % 10)]
}

/// Decimal representation of `n` with a comma between groups of three digits.
pub open spec fn grouped_decimal(n: nat) -> Seq<char>
    decreases n,
{
    if n < 1000 {
        decimal(n)
    } else {
        grouped_decimal(n / 1000) + seq![','] + three_digits(n % 1000)
    }
}

/// Appends `n` with thousands separators.
fn push_grouped(s: &mut String, n: u128)
    ensures
        final(s)@ == old(s)@ + grouped_decimal(n as nat),
    decreases n,
{
    if n < 1000 {
        push_decimal(s, n);
    } else {
        push_grouped(s, n / 1000);
        let rest = n % 1000;
        push_char(s, ',');
        push_char(s, digit((rest / 100) as usize));
        push_char(s, digit(((rest / 10) % 10) as usize));
        push_char(s, digit((rest % 10) as usize));
        assert(s@ =~= old(s)@ + grouped_decimal(n as nat));
    }
}

/// Format a number with thousands separators ("1,234,567").
pub fn format_number(n: usize) -> (r: String)
    ensures
        r@ == grouped_decimal(n as nat),
{
    let mut s = String::new();
    push_grouped(&mut s, n as u128);
    assert(s@ =~= grouped_decimal(n as nat));
    s
}

} // verus!
