//! Numbers written out in decimal.

use vstd::prelude::*;

verus! {

/// The decimal digit for a value below ten.
pub open spec fn digit_char(d: int) -> char {
    if d == 0 {
        '0'
    } else if d == 1 {
        '1'
    } else if d == 2 {
        '2'
    } else if d == 3 {
        '3'
    } else if d == 4 {
        '4'
    } else if d == 5 {
        '5'
    } else if d == 6 {
        '6'
    } else if d == 7 {
        '7'
    } else if d == 8 {
        '8'
    } else {
        '9'
    }
}

/// The number in decimal, without leading zeros.
pub open spec fn decimal(n: nat) -> Seq<char>
    decreases n,
{
    if n < 10 {
        seq![digit_char(n as int)]
    } else {
        decimal(n / 10).push(digit_char((n % 10) as int))
    }
}

/// The text with zeros before it, as many as it lacks to `width` characters.
pub open spec fn zero_padded(text: Seq<char>, width: nat) -> Seq<char> {
    if text.len() >= width {
        text
    } else {
        Seq::new((width - text.len()) as nat, |i: int| '0') + text
    }
}

/// A number in decimal has at least one digit.
pub proof fn lemma_decimal_not_empty(n: nat)
    ensures
        decimal(n).len() >= 1,
    decreases n,
{
    if n >= 10 {
        lemma_decimal_not_empty(n / 10);
    }
}

/// The digit for a value below ten.
pub fn digit(d: u64) -> (c: char)
    requires
        d < 10,
    ensures
        c == digit_char(d as int),
{
    if d == 0 {
        '0'
    } else if d == 1 {
        '1'
    } else if d == 2 {
        '2'
    } else if d == 3 {
        '3'
    } else if d == 4 {
        '4'
    } else if d == 5 {
        '5'
    } else if d == 6 {
        '6'
    } else if d == 7 {
        '7'
    } else if d == 8 {
        '8'
    } else {
        '9'
    }
}

/// Appends `n` in decimal to `out`.
pub fn push_decimal(out: &mut String, n: u64)
    ensures
        final(out)@ == old(out)@ + decimal(n as nat),
    decreases n,
{
    if n >= 10 {
        push_decimal(out, n / 10);
    }
    out.push(digit(n % 10));
    proof {
        if n >= 10 {
            assert(old(out)@ + decimal(n as nat) =~= (old(out)@ + decimal((n / 10) as nat)).push(
                digit_char((n % 10) as int),
            ));
        } else {
            assert(old(out)@ + decimal(n as nat) =~= old(out)@.push(digit_char(n as int)));
        }
    }
}

/// Appends `n` in decimal to `out`, with zeros before it where it has fewer
/// than three digits.
pub fn push_padded(out: &mut String, n: u64)
    ensures
        final(out)@ == old(out)@ + zero_padded(decimal(n as nat), 3),
{
    proof {
        assert(decimal(n as nat).len() == if n < 10 {
            1nat
        } else if n < 100 {
            2nat
        } else {
            decimal(n as nat).len()
        }) by {
            reveal_with_fuel(decimal, 3);
        }
        if n >= 100 {
            lemma_decimal_not_empty((n / 100) as nat);
            assert(decimal(n as nat).len() >= 3) by {
                reveal_with_fuel(decimal, 3);
            }
        }
    }
    let ghost before = out@;
    if n < 100 {
        out.push('0');
    }
    if n < 10 {
        out.push('0');
    }
    proof {
        let zeros = zero_padded(decimal(n as nat), 3).subrange(
            0,
            zero_padded(decimal(n as nat), 3).len() - decimal(n as nat).len(),
        );
        assert(out@ =~= before + zeros);
        assert(before + zeros + decimal(n as nat) =~= before + zero_padded(decimal(n as nat), 3));
    }
    push_decimal(out, n);
}

} // verus!
