//! Rendering of unsigned integers as text: decimal and fixed-width
//! lower-case hexadecimal.

use vstd::prelude::*;

verus! {

/// The character of digit `d` (0 to 15) in lower-case hexadecimal.
pub open spec fn digit_char(d: int) -> char {
    if d < 10 {
        (d + 48) as char
    } else {
        (d - 10 + 97) as char
    }
}

/// The decimal digits of `n`, most significant first, without leading zeros.
pub open spec fn decimal_digits(n: nat) -> Seq<char>
    decreases n,
{
    if n < 10 {
        seq![digit_char(n as int)]
    } else {
        decimal_digits(n / 10) + seq![digit_char((n % 10) as int)]
    }
}

/// The nibble of `v` that stands at position `i` (0 = most significant) of
/// its 16-digit hexadecimal form.
pub open spec fn nibble(v: u64, i: int) -> u64 {
    (v >> (((15 - i) * 4) as u64)) & 0xf
}

/// The 16 lower-case hexadecimal digits of `v`, zero-padded.
pub open spec fn hex16_digits(v: u64) -> Seq<char> {
    Seq::new(16, |i: int| digit_char(nibble(v, i) as int))
}

/// The one-character text of digit `d`.
pub(crate) fn digit_text(d: u64) -> (r: &'static str)
    requires
        d < 16,
    ensures
        r@ == seq![digit_char(d as int)],
{
    proof {
        reveal_strlit("0");
        reveal_strlit("1");
        reveal_strlit("2");
        reveal_strlit("3");
        reveal_strlit("4");
        reveal_strlit("5");
        reveal_strlit("6");
        reveal_strlit("7");
        reveal_strlit("8");
        reveal_strlit("9");
        reveal_strlit("a");
        reveal_strlit("b");
        reveal_strlit("c");
        reveal_strlit("d");
        reveal_strlit("e");
        reveal_strlit("f");
    }
    let r = match d {
        0 => "0",
        1 => "1",
        2 => "2",
        3 => "3",
        4 => "4",
        5 => "5",
        6 => "6",
        7 => "7",
        8 => "8",
        9 => "9",
        10 => "a",
        11 => "b",
        12 => "c",
        13 => "d",
        14 => "e",
        _ => "f",
    };
    assert(r@ =~= seq![digit_char(d as int)]);
    r
}

/// The decimal text of `n`.
pub(crate) fn decimal(n: u64) -> (r: String)
    ensures
        r@ == decimal_digits(n as nat),
    decreases n,
{
    if n < 10 {
        String::from_str(digit_text(n))
    } else {
        let mut s = decimal(n / 10);
        s.append(digit_text(n % 10));
        s
    }
}

/// The 16-digit lower-case hexadecimal text of `v`.
pub(crate) fn hex16(v: u64) -> (r: String)
    ensures
        r@ == hex16_digits(v),
{
    let mut s = String::new();
    let mut i: u64 = 0;
    while i < 16
        invariant
            i <= 16,
            s@ =~= hex16_digits(v).take(i as int),
        decreases 16 - i,
    {
        let shift: u64 = (15 - i) * 4;
        let d: u64 = (v >> shift) & 0xf;
        assert(d < 16) by (bit_vector)
            requires
                d == (v >> shift) & 0xf,
        ;
        s.append(digit_text(d));
        assert(s@ =~= hex16_digits(v).take(i as int + 1));
        i = i + 1;
    }
    assert(hex16_digits(v).take(16) =~= hex16_digits(v));
    s
}

} // verus!
