//! Decimal parsing and rendering for header values and error messages.

use vstd::prelude::*;

verus! {

/// The character for a single decimal digit.
pub open spec fn digit_char(d: nat) -> char {
    if d == 0 {
        '0'
    } else if d == 1 {
        '1'
    } else if d == 2 {
        '2'
    } else if d == 3 {
        '3'
    } else if d == 4 {
        '4'
    } else if d == 5 {
        '5'
    } else if d == 6 {
        '6'
    } else if d == 7 {
        '7'
    } else if d == 8 {
        '8'
    } else {
        '9'
    }
}

/// The decimal rendering of a natural number, most significant digit first.
pub open spec fn dec_digits(n: nat) -> Seq<char>
    decreases n,
{
    if n < 10 {
        seq![digit_char(n)]
    } else {
        dec_digits(n / 10) + seq![digit_char(n % 10)]
    }
}

/// True if the character is a decimal digit.
pub open spec fn is_digit(c: char) -> bool {
    '0' <= c <= '9'
}

/// The numeric value of a digit character.
pub open spec fn digit_value(c: char) -> nat {
    (c as nat - '0' as nat) as nat
}

/// True if the string is one or more decimal digits.
pub open spec fn all_digits(s: Seq<char>) -> bool {
    forall|i: int| 0 <= i < s.len() ==> is_digit(#[trigger] s[i])
}

/// The value of a digit string, read left to right.
pub open spec fn dec_value(s: Seq<char>) -> nat
    decreases s.len(),
{
    if s.len() == 0 {
        0
    } else {
        dec_value(s.drop_last()) * 10 + digit_value(s.last())
    }
}

/// Extending a digit string can only grow its value.
proof fn lemma_dec_value_prefix_le(s: Seq<char>, i: int)
    requires
        0 <= i <= s.len(),
    ensures
        dec_value(s.subrange(0, i)) <= dec_value(s),
    decreases s.len() - i,
{
    if i < s.len() {
        let t = s.subrange(0, s.len() - 1);
        if i == s.len() - 1 {
            assert(t =~= s.drop_last());
            assert(dec_value(s) == dec_value(t) * 10 + digit_value(s.last()));
        } else {
            assert(t.subrange(0, i) =~= s.subrange(0, i));
            lemma_dec_value_prefix_le(t, i);
            assert(t =~= s.drop_last());
            assert(dec_value(s) == dec_value(t) * 10 + digit_value(s.last()));
        }
    } else {
        assert(s.subrange(0, i) =~= s);
    }
}

/// Parses a string of decimal digits as a `u64`.
///
/// Returns the value exactly when the string is one or more digits and the
/// value fits in a `u64`; a sign, spaces or any other character reject the
/// whole string.
pub fn parse_u64_digits(s: &str) -> (r: Option<u64>)
    ensures
        match r {
            Some(v) => all_digits(s@) && s@.len() > 0 && v as nat == dec_value(s@),
            None => s@.len() == 0 || !all_digits(s@) || dec_value(s@) > u64::MAX,
        },
{
    let len = s.unicode_len();
    if len == 0 {
        return None;
    }
    let mut acc: u64 = 0;
    let mut i: usize = 0;
    while i < len
        invariant
            0 < len == s@.len(),
            0 <= i <= len,
            all_digits(s@.subrange(0, i as int)),
            acc as nat == dec_value(s@.subrange(0, i as int)),
        decreases len - i,
    {
        let c = s.get_char(i);
        if !('0' <= c && c <= '9') {
            return None;
        }
        let d: u64 = (c as u32 as u64) - 48;
        proof {
            assert(s@.subrange(0, i + 1).drop_last() =~= s@.subrange(0, i as int));
            assert(s@.subrange(0, i + 1).last() == c);
        }
        if acc > (u64::MAX - d) / 10 {
            proof {
                assert(dec_value(s@.subrange(0, i + 1)) == acc * 10 + d);
                lemma_dec_value_prefix_le(s@, i + 1);
            }
            return None;
        }
        acc = acc * 10 + d;
        i = i + 1;
    }
    proof {
        assert(s@.subrange(0, len as int) =~= s@);
    }
    Some(acc)
}

/// Renders a `u64` in decimal.
pub fn u64_to_string(n: u64) -> (r: String)
    ensures
        r@ == dec_digits(n as nat),
    decreases n,
{
    if n < 10 {
        digit_str(n).to_owned()
    } else {
        let mut prefix = u64_to_string(n / 10);
        prefix.append(digit_str(n % 10));
        prefix
    }
}

/// The one-character string for a single decimal digit.
fn digit_str(d: u64) -> (r: &'static str)
    requires
        d < 10,
    ensures
        r@ =~= seq![digit_char(d as nat)],
{
    proof {
        reveal_strlit("0");
        reveal_strlit("1");
        reveal_strlit("2");
        reveal_strlit("3");
        reveal_strlit("4");
        reveal_strlit("5");
        reveal_strlit("6");
        reveal_strlit("7");
        reveal_strlit("8");
        reveal_strlit("9");
    }
    if d == 0 {
        "0"
    } else if d == 1 {
        "1"
    } else if d == 2 {
        "2"
    } else if d == 3 {
        "3"
    } else if d == 4 {
        "4"
    } else if d == 5 {
        "5"
    } else if d == 6 {
        "6"
    } else if d == 7 {
        "7"
    } else if d == 8 {
        "8"
    } else {
        "9"
    }
}

} // verus!
