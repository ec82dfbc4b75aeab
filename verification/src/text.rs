//! Building generated source text: decimal numbers, indentation and literal pieces.

use vstd::prelude::*;

verus! {

/// The text of one decimal digit.
pub open spec fn digit_text(d: nat) -> Seq<char> {
    if d == 0 {
        "0"@
    } else if d == 1 {
        "1"@
    } else if d == 2 {
        "2"@
    } else if d == 3 {
        "3"@
    } else if d == 4 {
        "4"@
    } else if d == 5 {
        "5"@
    } else if d == 6 {
        "6"@
    } else if d == 7 {
        "7"@
    } else if d == 8 {
        "8"@
    } else {
        "9"@
    }
}

/// The decimal text of a natural number, without leading zeros.
pub open spec fn dec(n: nat) -> Seq<char>
    decreases n,
{
    if n < 10 {
        digit_text(n)
    } else {
        dec(n / 10) + digit_text(n % 10)
    }
}

/// The decimal text of an integer, with a leading `-` when it is negative.
pub open spec fn dec_int(i: int) -> Seq<char> {
    if i < 0 {
        "-"@ + dec((-i) as nat)
    } else {
        dec(i as nat)
    }
}

/// `n` copies of two spaces.
pub open spec fn indent(n: nat) -> Seq<char>
    decreases n,
{
    if n == 0 {
        Seq::empty()
    } else {
        indent((n - 1) as nat) + "  "@
    }
}

fn digit_str(d: usize) -> (s: &'static str)
    requires
        d < 10,
    ensures
        s@ == digit_text(d as nat),
{
    if d == 0 {
        "0"
    } else if d == 1 {
        "1"
    } else if d == 2 {
        "2"
    } else if d == 3 {
        "3"
    } else if d == 4 {
        "4"
    } else if d == 5 {
        "5"
    } else if d == 6 {
        "6"
    } else if d == 7 {
        "7"
    } else if d == 8 {
        "8"
    } else {
        "9"
    }
}

/// Appends the decimal text of `n`.
pub fn push_dec(out: &mut String, n: u64)
    ensures
        final(out)@ == old(out)@ + dec(n as nat),
    decreases n,
{
    if n >= 10 {
        push_dec(out, n / 10);
    }
    out.append(digit_str((n % 10) as usize));
    proof {
        assert(old(out)@ + dec(n as nat) =~= out@);
    }
}

/// Appends the decimal text of `i`, with a `-` sign when negative.
pub fn push_dec_i32(out: &mut String, i: i32)
    ensures
        final(out)@ == old(out)@ + dec_int(i as int),
{
    if i < 0 {
        out.append("-");
        let m: u64 = (0 - (i as i64)) as u64;
        push_dec(out, m);
        proof {
            assert(old(out)@ + dec_int(i as int) =~= out@);
        }
    } else {
        push_dec(out, i as u64);
    }
}

/// Appends `n` copies of two spaces.
pub fn push_indent(out: &mut String, n: usize)
    ensures
        final(out)@ == old(out)@ + indent(n as nat),
{
    let mut k: usize = 0;
    while k < n
        invariant
            k <= n,
            out@ == old(out)@ + indent(k as nat),
        decreases n - k,
    {
        out.append("  ");
        k = k + 1;
        proof {
            assert(out@ =~= old(out)@ + indent(k as nat));
        }
    }
}

} // verus!
