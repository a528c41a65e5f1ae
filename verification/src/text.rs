use vstd::prelude::*;
use vstd::string::*;

verus! {

/// Character-for-character equality of two string slices.
pub fn str_eq(a: &str, b: &str) -> (r: bool)
    ensures
        r == (a@ == b@),
{
    let alen = a.unicode_len();
    let blen = b.unicode_len();
    if alen != blen {
        return false;
    }
    let mut i: usize = 0;
    while i < alen
        invariant
            alen == a@.len(),
            blen == b@.len(),
            alen == blen,
            i <= alen,
            forall|j: int| 0 <= j < i ==> a@[j] == b@[j],
        decreases alen - i,
    {
        if a.get_char(i) != b.get_char(i) {
            return false;
        }
        i += 1;
    }
    proof {
        assert(a@ =~= b@);
    }
    true
}

/// A decimal digit.
pub open spec fn is_digit_char(c: char) -> bool {
    '0' <= c && c <= '9'
}

/// Numeric value of a decimal digit.
pub open spec fn digit_val(c: char) -> int {
    c as u32 - 48
}

/// Every character of the sequence is a decimal digit.
pub open spec fn all_digits(s: Seq<char>) -> bool {
    forall|i: int| 0 <= i < s.len() ==> is_digit_char(s[i])
}

/// The number a digit sequence denotes, most significant digit first.
pub open spec fn str_to_int(s: Seq<char>) -> int
    decreases s.len(),
{
    if s.len() == 0 {
        0
    } else {
        str_to_int(s.subrange(0, s.len() - 1)) * 10 + digit_val(s[s.len() - 1])
    }
}

/// A digit string denotes a number at least zero.
pub proof fn lemma_str_to_int_nonneg(s: Seq<char>)
    requires
        all_digits(s),
    ensures
        str_to_int(s) >= 0,
    decreases s.len(),
{
    if s.len() > 0 {
        let prefix = s.subrange(0, s.len() - 1);
        assert forall|i: int| 0 <= i < prefix.len() implies is_digit_char(prefix[i]) by {
            assert(prefix[i] == s[i]);
        }
        lemma_str_to_int_nonneg(prefix);
    }
}

/// Reading more digits never makes the number smaller.
pub proof fn lemma_str_to_int_prefix(s: Seq<char>, k: int)
    requires
        all_digits(s),
        0 <= k <= s.len(),
    ensures
        str_to_int(s) >= str_to_int(s.subrange(0, k)),
    decreases s.len() - k,
{
    if k < s.len() {
        let longer = s.subrange(0, k + 1);
        let shorter = s.subrange(0, k);
        assert(longer.subrange(0, k) =~= shorter);
        assert forall|i: int| 0 <= i < shorter.len() implies is_digit_char(shorter[i]) by {
            assert(shorter[i] == s[i]);
        }
        lemma_str_to_int_nonneg(shorter);
        assert(str_to_int(longer) == str_to_int(shorter) * 10 + digit_val(longer[k]));
        assert(digit_val(longer[k]) >= 0);
        assert(str_to_int(longer) >= str_to_int(shorter));
        lemma_str_to_int_prefix(s, k + 1);
    } else {
        assert(s.subrange(0, k) =~= s);
    }
}

/// Parse of a run of decimal digits as a 32-bit signed integer; fails on
/// an empty text, a non-digit character, or a value above the kind's
/// largest.
pub fn parse_i32_digits(text: &str) -> (r: Result<i32, String>)
    ensures
        match r {
            Ok(v) => text@.len() > 0 && all_digits(text@) && v as int == str_to_int(text@),
            Err(_) => text@.len() == 0 || !all_digits(text@) || str_to_int(text@) > i32::MAX,
        },
{
    let n = text.unicode_len();
    if n == 0 {
        return Err(String::from_str("empty number literal"));
    }
    let mut acc: u64 = 0;
    let mut i: usize = 0;
    while i < n
        invariant
            n == text@.len(),
            0 < n,
            i <= n,
            acc as int == str_to_int(text@.subrange(0, i as int)),
            acc <= i32::MAX as u64,
            forall|j: int| 0 <= j < i ==> is_digit_char(text@[j]),
        decreases n - i,
    {
        let c = text.get_char(i);
        let u = c as u32;
        if u < 48 || u > 57 {
            proof {
                assert(!is_digit_char(text@[i as int]));
            }
            return Err(String::from_str("unexpected character in a number literal"));
        }
        let ghost prefix = text@.subrange(0, i as int);
        let ghost longer = text@.subrange(0, i as int + 1);
        acc = acc * 10 + ((u - 48) as u64);
        proof {
            assert(longer.subrange(0, i as int) =~= prefix);
            assert(longer[i as int] == text@[i as int]);
            assert(str_to_int(longer) == str_to_int(prefix) * 10 + digit_val(text@[i as int]));
            assert(acc as int == str_to_int(longer));
        }
        i += 1;
        if acc > 2147483647 {
            proof {
                if all_digits(text@) {
                    lemma_str_to_int_prefix(text@, i as int);
                }
            }
            return Err(String::from_str("number literal does not fit in an i32"));
        }
    }
    proof {
        assert(text@.subrange(0, n as int) =~= text@);
    }
    Ok(acc as i32)
}


/// Whether the character occurs anywhere in the sequence.
pub open spec fn has_char(s: Seq<char>, c: char) -> bool {
    exists|i: int| 0 <= i < s.len() && s[i] == c
}

/// Whether the character occurs anywhere in the string.
pub fn str_contains_char(a: &str, c: char) -> (r: bool)
    ensures
        r == has_char(a@, c),
{
    let n = a.unicode_len();
    let mut i: usize = 0;
    while i < n
        invariant
            n == a@.len(),
            i <= n,
            forall|j: int| 0 <= j < i ==> a@[j] != c,
        decreases n - i,
    {
        if a.get_char(i) == c {
            return true;
        }
        i += 1;
    }
    false
}

} // verus!
