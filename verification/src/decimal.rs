use vstd::prelude::*;

verus! {

/// The ASCII code of the digit `0`.
pub const ASCII_ZERO: u8 = 0x30;

/// The ASCII code of the digit `9`.
pub const ASCII_NINE: u8 = 0x39;

/// The ASCII code of the sign `+`.
pub const ASCII_PLUS: u8 = 0x2b;

/// Whether `b` is one of the ASCII digits `0` to `9`.
pub open spec fn is_digit(b: u8) -> bool {
    ASCII_ZERO <= b <= ASCII_NINE
}

/// Whether every byte of `s` is an ASCII digit.
pub open spec fn all_digits(s: Seq<u8>) -> bool {
    forall|i: int| 0 <= i < s.len() ==> is_digit(#[trigger] s[i])
}

/// The number that a run of ASCII digits denotes in base ten, most
/// significant digit first; 0 for the empty run.
pub open spec fn digits_value(s: Seq<u8>) -> nat
    decreases s.len(),
{
    if s.len() == 0 {
        0
    } else {
        digits_value(s.drop_last()) * 10 + (s.last() - ASCII_ZERO) as nat
    }
}

/// What a decimal text denotes as a `u64`: an optional `+`, then one or more
/// ASCII digits and nothing else, with a value that fits. Any other text
/// denotes nothing.
pub open spec fn decimal_value(text: Seq<u8>) -> Option<u64> {
    let digits = if text.len() > 0 && text[0] == ASCII_PLUS {
        text.skip(1)
    } else {
        text
    };
    if digits.len() > 0 && all_digits(digits) && digits_value(digits) <= u64::MAX {
        Some(digits_value(digits) as u64)
    } else {
        None
    }
}

/// The character of the digit `d`, for `d` below ten.
pub open spec fn digit_char(d: nat) -> char {
    ((ASCII_ZERO + d) as u8) as char
}

/// The digits of `n` in base ten, most significant first, without leading
/// zeros; `0` is the single digit `0`.
pub open spec fn decimal_digits(n: nat) -> Seq<char>
    decreases n,
{
    if n < 10 {
        seq![digit_char(n)]
    } else {
        decimal_digits(n / 10).push(digit_char(n % 10))
    }
}

/// A run of digits denotes at least what any of its prefixes denotes.
proof fn lemma_prefix_value_le(s: Seq<u8>, k: int)
    requires
        0 <= k <= s.len(),
        all_digits(s),
    ensures
        digits_value(s.take(k)) <= digits_value(s),
    decreases s.len(),
{
    if k == s.len() {
        assert(s.take(k) =~= s);
    } else {
        let front = s.drop_last();
        assert(front.take(k) =~= s.take(k));
        assert(all_digits(front)) by {
            assert forall|i: int| 0 <= i < front.len() implies is_digit(#[trigger] front[i]) by {
                assert(is_digit(s[i]));
            }
        }
        lemma_prefix_value_le(front, k);
        assert(is_digit(s[s.len() - 1]));
    }
}

/// Reads a decimal `u64` from `text`.
pub fn parse_u64(text: &[u8]) -> (r: Option<u64>)
    ensures
        r == decimal_value(text@),
{
    let n: usize = text.len();
    let first: usize = if n > 0 && text[0] == ASCII_PLUS {
        1
    } else {
        0
    };
    let ghost digits = if text@.len() > 0 && text@[0] == ASCII_PLUS {
        text@.skip(1)
    } else {
        text@
    };
    assert(digits =~= text@.skip(first as int));
    if first == n {
        return None;
    }
    let mut value: u64 = 0;
    let mut i: usize = first;
    while i < n
        invariant
            first <= i <= n,
            n == text@.len(),
            digits == text@.skip(first as int),
            digits == if text@.len() > 0 && text@[0] == ASCII_PLUS {
                text@.skip(1)
            } else {
                text@
            },
            all_digits(digits.take(i - first)),
            value == digits_value(digits.take(i - first)),
        decreases n - i,
    {
        let b: u8 = text[i];
        let ghost seen = digits.take(i - first);
        let ghost next = digits.take(i + 1 - first);
        proof {
            assert(digits[i - first] == b);
            assert(next.drop_last() =~= seen);
            assert(next.last() == b);
        }
        if b < ASCII_ZERO || b > ASCII_NINE {
            assert(!is_digit(digits[i - first]));
            return None;
        }
        assert(all_digits(next)) by {
            assert forall|k: int| 0 <= k < next.len() implies is_digit(#[trigger] next[k]) by {
                if k < seen.len() {
                    assert(is_digit(seen[k]));
                }
            }
        }
        let d: u64 = (b - ASCII_ZERO) as u64;
        if value > (u64::MAX - d) / 10 {
            proof {
                assert(digits_value(next) > u64::MAX);
                if all_digits(digits) {
                    lemma_prefix_value_le(digits, i + 1 - first);
                }
            }
            return None;
        }
        value = value * 10 + d;
        i += 1;
    }
    assert(digits.take(n - first) =~= digits);
    Some(value)
}

/// `String::push` appends the given character to the end of the string and
/// leaves what was there before in place.
pub assume_specification[ String::push ](s: &mut String, c: char)
    ensures
        final(s)@ == old(s)@.push(c),
;

/// Appends the decimal digits of `n` to `out`.
pub fn push_decimal(out: &mut String, n: u64)
    ensures
        final(out)@ == old(out)@ + decimal_digits(n as nat),
    decreases n,
{
    if n >= 10 {
        push_decimal(out, n / 10);
    }
    let d: u8 = (n % 10) as u8;
    out.push((ASCII_ZERO + d) as char);
    proof {
        let before = old(out)@;
        if n >= 10 {
            assert(before + decimal_digits(n as nat) =~= (before + decimal_digits(
                (n / 10) as nat,
            )).push(digit_char((n % 10) as nat)));
        } else {
            assert(before + decimal_digits(n as nat) =~= before.push(digit_char(n as nat)));
        }
    }
}

} // verus!
