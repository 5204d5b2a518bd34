//! Decimal text: reading an unsigned byte out of attribute text, and writing
//! a byte back as decimal text. sysfs attributes carry numbers as plain
//! decimal strings, so both directions are part of the device model.

use vstd::prelude::*;

verus! {

/// Whether `c` is a decimal digit.
pub open spec fn is_dec_digit(c: char) -> bool {
    '0' <= c && c <= '9'
}

/// Numeric value of a decimal digit.
pub open spec fn digit_val(c: char) -> nat {
    (c as nat - '0' as nat) as nat
}

/// Whether every character of `s` is a decimal digit.
pub open spec fn all_dec_digits(s: Seq<char>) -> bool {
    forall|i: int| 0 <= i < s.len() ==> is_dec_digit(#[trigger] s[i])
}

/// Value of a sequence of decimal digits, most significant first.
pub open spec fn dec_val(s: Seq<char>) -> nat
    decreases s.len(),
{
    if s.len() == 0 {
        0
    } else {
        dec_val(s.drop_last()) * 10 + digit_val(s.last())
    }
}

/// What reading an unsigned byte out of text yields: an optional leading `+`,
/// then at least one decimal digit, and a value of at most 255; anything else
/// is no value.
pub open spec fn spec_parse_u8(s: Seq<char>) -> Option<u8> {
    let body = if s.len() >= 1 && s[0] == '+' {
        s.subrange(1, s.len() as int)
    } else {
        s
    };
    if body.len() >= 1 && all_dec_digits(body) && dec_val(body) <= 255 {
        Some(dec_val(body) as u8)
    } else {
        None
    }
}

/// The value of a digit sequence is at least the value of any of its
/// prefixes, so a prefix that is already too large condemns the whole.
proof fn lemma_dec_val_prefix(s: Seq<char>, i: int)
    requires
        0 <= i <= s.len(),
    ensures
        dec_val(s) >= dec_val(s.subrange(0, i)),
    decreases s.len() - i,
{
    if i == s.len() {
        assert(s.subrange(0, i) =~= s);
    } else {
        lemma_dec_val_prefix(s, i + 1);
        assert(s.subrange(0, i + 1).drop_last() =~= s.subrange(0, i));
        assert(dec_val(s.subrange(0, i + 1)) == dec_val(s.subrange(0, i)) * 10 + digit_val(
            s.subrange(0, i + 1).last(),
        ));
    }
}

/// Reads an unsigned byte from attribute text, exactly as `spec_parse_u8`
/// says: an optional `+` sign, one or more decimal digits, value at most 255.
pub fn parse_u8(s: &str) -> (r: Option<u8>)
    ensures
        r == spec_parse_u8(s@),
{
    let len = s.unicode_len();
    if len == 0 {
        return None;
    }
    let start: usize = if s.get_char(0) == '+' {
        1
    } else {
        0
    };
    let ghost body = s@.subrange(start as int, len as int);
    proof {
        if start == 0 {
            assert(body =~= s@);
        }
    }
    if start == len {
        return None;
    }
    let mut val: u32 = 0;
    let mut i = start;
    proof {
        assert(s@.subrange(start as int, start as int) =~= Seq::<char>::empty());
    }
    while i < len
        invariant
            start <= i <= len,
            start == 0 || start == 1,
            len == s@.len(),
            start == 1 ==> s@[0] == '+',
            start == 0 ==> s@[0] != '+' && body == s@,
            body == s@.subrange(start as int, len as int),
            val == dec_val(s@.subrange(start as int, i as int)),
            val <= 255,
            all_dec_digits(s@.subrange(start as int, i as int)),
        decreases len - i,
    {
        let c = s.get_char(i);
        if !('0' <= c && c <= '9') {
            assert(!is_dec_digit(body[i - start]));
            return None;
        }
        let d = (c as u32) - ('0' as u32);
        val = val * 10 + d;
        assert(s@.subrange(start as int, i + 1).drop_last() =~= s@.subrange(
            start as int,
            i as int,
        ));
        if val > 255 {
            proof {
                lemma_dec_val_prefix(body, i + 1 - start);
                assert(body.subrange(0, i + 1 - start) =~= s@.subrange(start as int, i + 1));
            }
            return None;
        }
        i += 1;
    }
    proof {
        assert(s@.subrange(start as int, len as int) =~= body);
    }
    Some(val as u8)
}

/// The exact one-character text of a decimal digit.
pub open spec fn digit_str(d: nat) -> Seq<char> {
    if d == 0 {
        "0"@
    } else if d == 1 {
        "1"@
    } else if d == 2 {
        "2"@
    } else if d == 3 {
        "3"@
    } else if d == 4 {
        "4"@
    } else if d == 5 {
        "5"@
    } else if d == 6 {
        "6"@
    } else if d == 7 {
        "7"@
    } else if d == 8 {
        "8"@
    } else {
        "9"@
    }
}

/// Decimal rendering of a number: no sign, no leading zero except for the
/// number zero itself.
pub open spec fn dec_of(n: nat) -> Seq<char>
    decreases n,
{
    if n < 10 {
        digit_str(n)
    } else {
        dec_of(n / 10) + digit_str(n % 10)
    }
}

fn digit_to_str(d: u8) -> (r: &'static str)
    requires
        d < 10,
    ensures
        r@ == digit_str(d as nat),
{
    if d == 0 {
        "0"
    } else if d == 1 {
        "1"
    } else if d == 2 {
        "2"
    } else if d == 3 {
        "3"
    } else if d == 4 {
        "4"
    } else if d == 5 {
        "5"
    } else if d == 6 {
        "6"
    } else if d == 7 {
        "7"
    } else if d == 8 {
        "8"
    } else {
        "9"
    }
}

proof fn lemma_digit_str_value(d: nat)
    requires
        d < 10,
    ensures
        digit_str(d).len() == 1,
        is_dec_digit(digit_str(d)[0]),
        digit_val(digit_str(d)[0]) == d,
{
    reveal_strlit("0");
    reveal_strlit("1");
    reveal_strlit("2");
    reveal_strlit("3");
    reveal_strlit("4");
    reveal_strlit("5");
    reveal_strlit("6");
    reveal_strlit("7");
    reveal_strlit("8");
    reveal_strlit("9");
}

/// The decimal rendering of a number is never empty, holds digits alone, and
/// reads back as the number it came from.
proof fn lemma_dec_of_value(n: nat)
    ensures
        dec_of(n).len() >= 1,
        all_dec_digits(dec_of(n)),
        dec_val(dec_of(n)) == n,
    decreases n,
{
    if n < 10 {
        lemma_digit_str_value(n);
        assert(dec_of(n).drop_last() =~= Seq::<char>::empty());
        assert(dec_val(Seq::<char>::empty()) == 0);
        assert(dec_of(n).last() == dec_of(n)[0]);
    } else {
        lemma_dec_of_value(n / 10);
        lemma_digit_str_value(n % 10);
        let prefix = dec_of(n / 10);
        let digit = digit_str(n % 10);
        let s = dec_of(n);
        assert(s.drop_last() =~= prefix);
        assert(s.last() == digit[0]);
        assert(dec_val(s) == n);
        assert forall|i: int| 0 <= i < s.len() implies is_dec_digit(#[trigger] s[i]) by {
            if i < prefix.len() {
                assert(s[i] == prefix[i]);
            } else {
                assert(s[i] == digit[0]);
            }
        }
    }
}

/// A byte written as decimal text reads back as the very same byte: the
/// renderings that the commands write to attribute files are exactly what
/// the attribute reader yields again.
pub proof fn lemma_decimal_round_trip(n: u8)
    ensures
        spec_parse_u8(dec_of(n as nat)) == Some(n),
{
    lemma_dec_of_value(n as nat);
    let s = dec_of(n as nat);
    assert(is_dec_digit(s[0]));
    assert(s[0] != '+');
}

/// Renders a byte as the decimal text `dec_of` describes.
pub fn u8_to_string(n: u8) -> (r: String)
    ensures
        r@ == dec_of(n as nat),
    decreases n,
{
    if n < 10 {
        String::from_str(digit_to_str(n))
    } else {
        let mut s = u8_to_string(n / 10);
        s.append(digit_to_str(n % 10));
        s
    }
}

} // verus!
