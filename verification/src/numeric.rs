//! Canonical decimal rendering of integers: the text every integer-width
//! encoder puts on the wire. No locale formatting, no grouping separators,
//! a sign prefix only for negative values, no leading zeros.

use vstd::prelude::*;

verus! {

/// The character for one decimal digit.
pub open spec fn spec_digit(d: int) -> char {
    if d == 0 {
        '0'
    } else if d == 1 {
        '1'
    } else if d == 2 {
        '2'
    } else if d == 3 {
        '3'
    } else if d == 4 {
        '4'
    } else if d == 5 {
        '5'
    } else if d == 6 {
        '6'
    } else if d == 7 {
        '7'
    } else if d == 8 {
        '8'
    } else {
        '9'
    }
}

/// Decimal digits of a non-negative number, most significant first,
/// without leading zeros (zero itself is the single digit `0`).
pub open spec fn spec_udec(n: nat) -> Seq<char>
    decreases n,
{
    if n < 10 {
        seq![spec_digit(n as int)]
    } else {
        spec_udec(n / 10) + seq![spec_digit((n % 10) as int)]
    }
}

/// Canonical decimal text of an integer: the digits of its magnitude,
/// prefixed with `-` exactly when it is negative.
pub open spec fn spec_decimal(v: int) -> Seq<char> {
    if v < 0 {
        seq!['-'] + spec_udec((-v) as nat)
    } else {
        spec_udec(v as nat)
    }
}

/// Decimal digits of a number in a fixed width, zero-padded on the left
/// (digits above the width are dropped; valid callers stay below it).
pub open spec fn spec_pad(n: nat, w: nat) -> Seq<char>
    decreases w,
{
    if w == 0 {
        Seq::empty()
    } else {
        spec_pad(n / 10, (w - 1) as nat) + seq![spec_digit((n % 10) as int)]
    }
}

/// The one-character string for a decimal digit.
pub(crate) fn digit_str(d: u8) -> (r: &'static str)
    requires
        d < 10,
    ensures
        r@ == seq![spec_digit(d as int)],
{
    match d {
        0 => {
            proof {
                reveal_strlit("0");
                assert("0"@ =~= seq![spec_digit(0)]);
            }
            "0"
        },
        1 => {
            proof {
                reveal_strlit("1");
                assert("1"@ =~= seq![spec_digit(1)]);
            }
            "1"
        },
        2 => {
            proof {
                reveal_strlit("2");
                assert("2"@ =~= seq![spec_digit(2)]);
            }
            "2"
        },
        3 => {
            proof {
                reveal_strlit("3");
                assert("3"@ =~= seq![spec_digit(3)]);
            }
            "3"
        },
        4 => {
            proof {
                reveal_strlit("4");
                assert("4"@ =~= seq![spec_digit(4)]);
            }
            "4"
        },
        5 => {
            proof {
                reveal_strlit("5");
                assert("5"@ =~= seq![spec_digit(5)]);
            }
            "5"
        },
        6 => {
            proof {
                reveal_strlit("6");
                assert("6"@ =~= seq![spec_digit(6)]);
            }
            "6"
        },
        7 => {
            proof {
                reveal_strlit("7");
                assert("7"@ =~= seq![spec_digit(7)]);
            }
            "7"
        },
        8 => {
            proof {
                reveal_strlit("8");
                assert("8"@ =~= seq![spec_digit(8)]);
            }
            "8"
        },
        _ => {
            proof {
                reveal_strlit("9");
                assert("9"@ =~= seq![spec_digit(9)]);
            }
            "9"
        },
    }
}

/// Decimal text of an unsigned number.
pub fn u64_decimal(n: u64) -> (s: String)
    ensures
        s@ == spec_udec(n as nat),
    decreases n,
{
    if n < 10 {
        let d = digit_str(n as u8);
        String::from_str(d)
    } else {
        assert(n / 10 < n);
        let mut s = u64_decimal(n / 10);
        s.append(digit_str((n % 10) as u8));
        s
    }
}

/// Canonical decimal text of a signed number.
pub fn i64_decimal(n: i64) -> (s: String)
    ensures
        s@ == spec_decimal(n as int),
{
    if n >= 0 {
        u64_decimal(n as u64)
    } else {
        let wide: i128 = -(n as i128);
        let mag: u64 = wide as u64;
        assert(mag as int == -(n as int));
        let mut s = String::from_str("-");
        let t = u64_decimal(mag);
        s.append(t.as_str());
        proof {
            reveal_strlit("-");
            assert(s@ =~= seq!['-'] + spec_udec((-(n as int)) as nat));
        }
        s
    }
}

/// Padded text is exactly as wide as asked.
pub proof fn lemma_pad_len(n: nat, w: nat)
    ensures
        spec_pad(n, w).len() == w,
    decreases w,
{
    if w > 0 {
        lemma_pad_len(n / 10, (w - 1) as nat);
    }
}

/// Zero-padded decimal text of a number, `w` digits wide.
pub fn padded_decimal(n: u64, w: u64) -> (s: String)
    ensures
        s@ == spec_pad(n as nat, w as nat),
    decreases w,
{
    if w == 0 {
        String::new()
    } else {
        let mut s = padded_decimal(n / 10, w - 1);
        s.append(digit_str((n % 10) as u8));
        s
    }
}

/// The number one decimal digit character denotes.
pub open spec fn spec_digit_value(c: char) -> int {
    if c == '0' {
        0
    } else if c == '1' {
        1
    } else if c == '2' {
        2
    } else if c == '3' {
        3
    } else if c == '4' {
        4
    } else if c == '5' {
        5
    } else if c == '6' {
        6
    } else if c == '7' {
        7
    } else if c == '8' {
        8
    } else {
        9
    }
}

/// The number a digit string denotes, most significant digit first.
pub open spec fn spec_digits_value(s: Seq<char>) -> int
    decreases s.len(),
{
    if s.len() == 0 {
        0
    } else {
        spec_digits_value(s.drop_last()) * 10 + spec_digit_value(s.last())
    }
}

/// Law: decimal rendering round-trips — reading the digits of the canonical
/// text back as a number gives the number that was rendered.
pub proof fn lemma_udec_round_trip(n: nat)
    ensures
        spec_digits_value(spec_udec(n)) == n,
    decreases n,
{
    if n < 10 {
        assert(spec_udec(n).drop_last() =~= Seq::<char>::empty());
        assert(spec_digits_value(Seq::<char>::empty()) == 0);
    } else {
        lemma_udec_round_trip(n / 10);
        assert(spec_udec(n).drop_last() =~= spec_udec(n / 10));
    }
}

/// Law: signed decimal rendering round-trips — the digits after the optional
/// sign denote the number's magnitude.
pub proof fn lemma_decimal_round_trip(v: int)
    ensures
        v >= 0 ==> spec_digits_value(spec_decimal(v)) == v,
        v < 0 ==> spec_decimal(v)[0] == '-' && spec_digits_value(spec_decimal(v).skip(1)) == -v,
{
    if v >= 0 {
        lemma_udec_round_trip(v as nat);
    } else {
        lemma_udec_round_trip((-v) as nat);
        assert(spec_decimal(v).skip(1) =~= spec_udec((-v) as nat));
    }
}

/// The digits of a positive number never start with `0`, so canonical
/// decimal text carries no leading zeros.
proof fn lemma_udec_form(n: nat)
    ensures
        spec_udec(n).len() >= 1,
        n > 0 ==> spec_udec(n)[0] != '0',
        spec_udec(n)[0] != '-',
    decreases n,
{
    if n >= 10 {
        lemma_udec_form(n / 10);
    }
}

/// Canonical shape of integer text: it is never empty, starts with `-`
/// exactly when the number is negative, and has no leading zero except
/// for the single digit `0` itself.
pub proof fn lemma_decimal_canonical(v: int)
    ensures
        spec_decimal(v).len() >= 1,
        (spec_decimal(v)[0] == '-') <==> v < 0,
        v > 0 ==> spec_decimal(v)[0] != '0',
        v == 0 ==> spec_decimal(v) == seq!['0'],
        v < 0 ==> spec_decimal(v)[1] != '0',
{
    if v < 0 {
        lemma_udec_form((-v) as nat);
        assert(spec_decimal(v)[0] == '-');
        assert(spec_decimal(v)[1] == spec_udec((-v) as nat)[0]);
    } else {
        lemma_udec_form(v as nat);
        if v == 0 {
            assert(spec_decimal(0) =~= seq!['0']);
        }
    }
}

} // verus!
