//! Decimal numerals: the spec-level decimal form of a number, its exec
//! rendering (used for indices, addresses and synthesized labels), and the
//! exec parsing of operand tokens into `u16` values.

use vstd::prelude::*;
use vstd::string::StrSliceExecFns;
use vstd::string::StringExecFns;

verus! {

/// The character for one decimal digit value.
pub open spec fn digit_char(d: nat) -> char {
    if d == 0 {
        '0'
    } else if d == 1 {
        '1'
    } else if d == 2 {
        '2'
    } else if d == 3 {
        '3'
    } else if d == 4 {
        '4'
    } else if d == 5 {
        '5'
    } else if d == 6 {
        '6'
    } else if d == 7 {
        '7'
    } else if d == 8 {
        '8'
    } else {
        '9'
    }
}

/// The decimal numeral of `n`, most significant digit first, no sign and no
/// leading zeros (the numeral of 0 is "0").
pub open spec fn spec_dec(n: nat) -> Seq<char>
    decreases n,
{
    if n < 10 {
        seq![digit_char(n)]
    } else {
        spec_dec(n / 10) + seq![digit_char(n % 10)]
    }
}

/// Whether `c` is an ASCII decimal digit.
pub open spec fn is_digit(c: char) -> bool {
    48 <= c as int && c as int <= 57
}

/// The numeric value of a digit character.
pub open spec fn digit_val(c: char) -> int {
    c as int - 48
}

/// Whether every character of `s` is a decimal digit.
pub open spec fn all_digits(s: Seq<char>) -> bool {
    forall|i: int| 0 <= i < s.len() ==> is_digit(#[trigger] s[i])
}

/// The numeric value of a digit string, read most significant digit first.
pub open spec fn dec_val(s: Seq<char>) -> int
    decreases s.len(),
{
    if s.len() == 0 {
        0
    } else {
        dec_val(s.drop_last()) * 10 + digit_val(s.last())
    }
}

/// A numeric token with one optional leading `+` removed.
pub open spec fn stripped(s: Seq<char>) -> Seq<char> {
    if s.len() > 0 && s[0] == '+' {
        s.drop_first()
    } else {
        s
    }
}

/// What parsing a numeric operand token yields: strip one optional leading
/// `+`, then require at least one character, digits only, value at most
/// `u16::MAX`.
pub open spec fn spec_parse_u16(s: Seq<char>) -> Option<u16> {
    if stripped(s).len() > 0 && all_digits(stripped(s)) && 0 <= dec_val(stripped(s)) <= 0xffff {
        Some(dec_val(stripped(s)) as u16)
    } else {
        None
    }
}

/// A digit string has a non-negative value.
pub proof fn lemma_dec_val_nonneg(s: Seq<char>)
    requires
        all_digits(s),
    ensures
        dec_val(s) >= 0,
    decreases s.len(),
{
    if s.len() > 0 {
        assert(all_digits(s.drop_last()));
        lemma_dec_val_nonneg(s.drop_last());
    }
}

/// Reading a decimal numeral back gives the number it was made from.
pub proof fn lemma_dec_val_of_dec(n: nat)
    ensures
        dec_val(spec_dec(n)) == n,
    decreases n,
{
    if n < 10 {
        assert(spec_dec(n) == seq![digit_char(n)]);
        assert(spec_dec(n).drop_last() =~= Seq::<char>::empty());
        assert(dec_val(Seq::<char>::empty()) == 0);
        assert(spec_dec(n).last() == digit_char(n));
        assert(dec_val(spec_dec(n)) == digit_val(digit_char(n)));
    } else {
        lemma_dec_val_of_dec(n / 10);
        assert(spec_dec(n).drop_last() =~= spec_dec(n / 10));
        assert(spec_dec(n).last() == digit_char(n % 10));
        assert(digit_val(digit_char(n % 10)) == n % 10);
        assert(dec_val(spec_dec(n)) == (n / 10) * 10 + n % 10);
    }
}

/// Distinct numbers have distinct decimal numerals.
pub proof fn lemma_dec_injective(a: nat, b: nat)
    requires
        spec_dec(a) == spec_dec(b),
    ensures
        a == b,
{
    lemma_dec_val_of_dec(a);
    lemma_dec_val_of_dec(b);
}

/// The one-character string for one decimal digit value.
pub fn digit_str(d: u8) -> (r: &'static str)
    requires
        d < 10,
    ensures
        r@ =~= seq![digit_char(d as nat)],
{
    if d == 0 {
        proof {
            reveal_strlit("0");
        }
        "0"
    } else if d == 1 {
        proof {
            reveal_strlit("1");
        }
        "1"
    } else if d == 2 {
        proof {
            reveal_strlit("2");
        }
        "2"
    } else if d == 3 {
        proof {
            reveal_strlit("3");
        }
        "3"
    } else if d == 4 {
        proof {
            reveal_strlit("4");
        }
        "4"
    } else if d == 5 {
        proof {
            reveal_strlit("5");
        }
        "5"
    } else if d == 6 {
        proof {
            reveal_strlit("6");
        }
        "6"
    } else if d == 7 {
        proof {
            reveal_strlit("7");
        }
        "7"
    } else if d == 8 {
        proof {
            reveal_strlit("8");
        }
        "8"
    } else {
        proof {
            reveal_strlit("9");
        }
        "9"
    }
}

/// Renders `n` as its decimal numeral.
pub fn dec_string(n: u128) -> (s: String)
    ensures
        s@ == spec_dec(n as nat),
    decreases n,
{
    if n < 10 {
        let s = digit_str(n as u8).to_owned();
        s
    } else {
        let mut s = dec_string(n / 10);
        s.append(digit_str((n % 10) as u8));
        s
    }
}

/// Parses a numeric operand token: an optional leading `+`, then decimal
/// digits, rejecting values above `u16::MAX` — the format the standard
/// library's integer parser accepts for unsigned values.
pub fn parse_u16(t: &str) -> (r: Option<u16>)
    ensures
        r == spec_parse_u16(t@),
{
    let len = t.unicode_len();
    let start: usize = if len > 0 && t.get_char(0) == '+' {
        1
    } else {
        0
    };
    if start >= len {
        return None;
    }
    proof {
        assert(stripped(t@) =~= t@.subrange(start as int, len as int));
    }
    let mut val: u32 = 0;
    let mut i: usize = start;
    while i < len
        invariant
            start <= i <= len,
            len == t@.len(),
            stripped(t@) =~= t@.subrange(start as int, len as int),
            all_digits(t@.subrange(start as int, i as int)),
            val <= 0x10000,
            val <= 0xffff ==> val == dec_val(t@.subrange(start as int, i as int)),
            val == 0x10000 ==> dec_val(t@.subrange(start as int, i as int)) > 0xffff,
        decreases len - i,
    {
        let c = t.get_char(i);
        let u = c as u32;
        if u < 48 || u > 57 {
            proof {
                assert(!is_digit(t@[i as int]));
                assert(stripped(t@)[i - start] == t@[i as int]);
                assert(!all_digits(stripped(t@)));
            }
            return None;
        }
        let dig = u - 48;
        let w = val * 10 + dig;
        proof {
            let pre = t@.subrange(start as int, i as int);
            let post = t@.subrange(start as int, i as int + 1);
            assert(post.drop_last() =~= pre);
            assert(post.last() == t@[i as int]);
            assert(digit_val(t@[i as int]) == dig);
            lemma_dec_val_nonneg(pre);
        }
        val = if w > 0xffff {
            0x10000
        } else {
            w
        };
        i += 1;
    }
    proof {
        assert(t@.subrange(start as int, len as int) =~= stripped(t@));
    }
    if val <= 0xffff {
        Some(val as u16)
    } else {
        None
    }
}

} // verus!
