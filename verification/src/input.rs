//! Interpretation of one line of player input: ASCII whitespace trimming
//! and decimal parsing of unsigned guesses.

use vstd::prelude::*;

verus! {

/// The ASCII bytes that count as whitespace when a line is trimmed.
pub open spec fn is_ascii_whitespace(c: u8) -> bool {
    c == 32 || (9 <= c && c <= 13)
}

/// `s` without its leading whitespace bytes.
pub open spec fn trim_front(s: Seq<u8>) -> Seq<u8>
    decreases s.len(),
{
    if s.len() > 0 && is_ascii_whitespace(s[0]) {
        trim_front(s.drop_first())
    } else {
        s
    }
}

/// `s` without its trailing whitespace bytes.
pub open spec fn trim_back(s: Seq<u8>) -> Seq<u8>
    decreases s.len(),
{
    if s.len() > 0 && is_ascii_whitespace(s.last()) {
        trim_back(s.drop_last())
    } else {
        s
    }
}

/// `s` without leading and trailing whitespace bytes.
pub open spec fn trimmed(s: Seq<u8>) -> Seq<u8> {
    trim_back(trim_front(s))
}

/// Whether `c` is an ASCII decimal digit.
pub open spec fn is_digit(c: u8) -> bool {
    48 <= c && c <= 57
}

/// The numeric value of a digit byte.
pub open spec fn digit_value(c: u8) -> nat {
    (c - 48) as nat
}

/// Whether every byte of `s` is a decimal digit.
pub open spec fn all_digits(s: Seq<u8>) -> bool {
    forall|i: int| 0 <= i < s.len() ==> is_digit(s[i])
}

/// The value of a sequence of digit bytes read as a decimal number.
pub open spec fn decimal_value(s: Seq<u8>) -> nat
    decreases s.len(),
{
    if s.len() == 0 {
        0
    } else {
        decimal_value(s.drop_last()) * 10 + digit_value(s.last())
    }
}

/// The digit part of a numeral: everything after an optional leading `+`.
pub open spec fn digits_of(s: Seq<u8>) -> Seq<u8> {
    if s.len() > 0 && s[0] == 43 {
        s.drop_first()
    } else {
        s
    }
}

/// Whether `s` is a numeral that an unsigned 32-bit parse accepts:
/// an optional `+` sign, then at least one digit, with a value that fits.
pub open spec fn is_u32_numeral(s: Seq<u8>) -> bool {
    let d = digits_of(s);
    d.len() > 0 && all_digits(d) && decimal_value(d) <= u32::MAX
}

/// The value of a numeral accepted by `is_u32_numeral`.
pub open spec fn numeral_value(s: Seq<u8>) -> nat {
    decimal_value(digits_of(s))
}

/// Whether `c` is one of the whitespace bytes that trimming removes.
pub fn is_whitespace_byte(c: u8) -> (r: bool)
    ensures
        r == is_ascii_whitespace(c),
{
    c == 32 || (9 <= c && c <= 13)
}

/// Remove leading and trailing ASCII whitespace from a line of input.
pub fn trim(s: &[u8]) -> (t: Vec<u8>)
    ensures
        t@ == trimmed(s@),
{
    let n: usize = s.len();
    proof {
        assert(s@.skip(0) =~= s@);
    }
    let mut i: usize = 0;
    while i < n && is_whitespace_byte(s[i])
        invariant
            n == s@.len(),
            i <= n,
            trim_front(s@) == trim_front(s@.skip(i as int)),
        decreases n - i,
    {
        proof {
            assert(s@.skip(i as int)[0] == s@[i as int]);
            assert(s@.skip(i as int).drop_first() =~= s@.skip(i as int + 1));
        }
        i = i + 1;
    }
    proof {
        if i < n {
            assert(s@.skip(i as int)[0] == s@[i as int]);
        }
        assert(trim_front(s@) =~= s@.subrange(i as int, n as int));
    }
    let mut j: usize = n;
    while j > i && is_whitespace_byte(s[j - 1])
        invariant
            n == s@.len(),
            i <= j <= n,
            trim_front(s@) == s@.subrange(i as int, n as int),
            trim_back(s@.subrange(i as int, n as int)) == trim_back(
                s@.subrange(i as int, j as int),
            ),
        decreases j,
    {
        proof {
            assert(s@.subrange(i as int, j as int).last() == s@[j - 1]);
            assert(s@.subrange(i as int, j as int).drop_last() =~= s@.subrange(
                i as int,
                j as int - 1,
            ));
        }
        j = j - 1;
    }
    proof {
        if j > i {
            assert(s@.subrange(i as int, j as int).last() == s@[j - 1]);
        }
        assert(trim_back(s@.subrange(i as int, j as int)) == s@.subrange(i as int, j as int));
    }
    let mut t: Vec<u8> = Vec::new();
    let mut k: usize = i;
    while k < j
        invariant
            n == s@.len(),
            i <= k <= j <= n,
            t@ == s@.subrange(i as int, k as int),
        decreases j - k,
    {
        t.push(s[k]);
        proof {
            assert(s@.subrange(i as int, k as int + 1) =~= s@.subrange(i as int, k as int).push(
                s@[k as int],
            ));
        }
        k = k + 1;
    }
    t
}

/// Parse a line, already trimmed, as an unsigned 32-bit decimal numeral:
/// an optional `+` sign, then digits. Leading zeros are accepted; any
/// other byte, an empty digit part, or a value over `u32::MAX` is refused.
pub fn parse_u32(s: &[u8]) -> (r: Option<u32>)
    ensures
        (match r {
            Some(v) => is_u32_numeral(s@) && v as nat == numeral_value(s@),
            None => !is_u32_numeral(s@),
        }),
{
    let n: usize = s.len();
    let start: usize = if n > 0 && s[0] == 43 {
        1
    } else {
        0
    };
    proof {
        assert(digits_of(s@) =~= s@.subrange(start as int, n as int));
    }
    if start == n {
        return None;
    }
    let mut acc: u32 = 0;
    let mut overflow: bool = false;
    let mut k: usize = start;
    while k < n
        invariant
            n == s@.len(),
            start <= k <= n,
            digits_of(s@) == s@.subrange(start as int, n as int),
            all_digits(s@.subrange(start as int, k as int)),
            !overflow ==> acc as nat == decimal_value(s@.subrange(start as int, k as int)),
            overflow ==> decimal_value(s@.subrange(start as int, k as int)) > u32::MAX,
        decreases n - k,
    {
        let c: u8 = s[k];
        if c < 48 || c > 57 {
            proof {
                assert(digits_of(s@)[k - start] == s@[k as int]);
            }
            return None;
        }
        let d: u8 = c - 48;
        proof {
            assert(s@.subrange(start as int, k as int + 1).drop_last() =~= s@.subrange(
                start as int,
                k as int,
            ));
            assert(s@.subrange(start as int, k as int + 1).last() == s@[k as int]);
            assert(forall|m: int|
                0 <= m < k as int + 1 - start ==> #[trigger] s@.subrange(
                    start as int,
                    k as int + 1,
                )[m] == s@[start + m]);
        }
        if !overflow {
            let wide: u64 = (acc as u64) * 10 + (d as u64);
            if wide > 0xffff_ffffu64 {
                overflow = true;
            } else {
                acc = wide as u32;
            }
        }
        k = k + 1;
    }
    proof {
        assert(s@.subrange(start as int, n as int).len() > 0);
    }
    if overflow {
        None
    } else {
        Some(acc)
    }
}

} // verus!
