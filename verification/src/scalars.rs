//! Scalar codecs: conversions between wire text and internal values for
//! leaf types, independent of the XML/JSON choice.
//!
//! Unsigned integers are decimal digit strings; booleans are exactly the
//! literals `"true"` and `"false"`; URN serial numbers and SPDX text pass
//! through opaquely and need no codec.

use vstd::prelude::*;

verus! {

/// String equality at the character level.
pub fn str_eq(a: &str, b: &str) -> (r: bool)
    ensures
        r == (a@ == b@),
{
    let x: String = a.to_owned();
    let y: String = b.to_owned();
    x == y
}

/// Equality of two strings given as `String`.
pub fn string_eq(a: &String, b: &str) -> (r: bool)
    ensures
        r == (a@ == b@),
{
    str_eq(a.as_str(), b)
}

/// Whether `c` is a decimal digit.
pub open spec fn is_dec_digit(c: char) -> bool {
    '0' <= c && c <= '9'
}

/// The value of a decimal digit.
pub open spec fn digit_val(c: char) -> int {
    c as int - '0' as int
}

/// The value of a digit string, most significant digit first.
pub open spec fn dec_val(s: Seq<char>) -> int
    decreases s.len(),
{
    if s.len() == 0 {
        0
    } else {
        dec_val(s.drop_last()) * 10 + digit_val(s.last())
    }
}

/// Whether `s` is a decimal digit string (nonempty, digits only).
pub open spec fn all_dec_digits(s: Seq<char>) -> bool {
    s.len() > 0 && forall|k: int| 0 <= k < s.len() ==> is_dec_digit(#[trigger] s[k])
}

/// What parsing unsigned-integer wire text yields: the value of a digit
/// string that fits in `u32`, nothing for any other text.
pub open spec fn parse_u32_spec(s: Seq<char>) -> Option<u32> {
    if all_dec_digits(s) && dec_val(s) <= u32::MAX {
        Some(dec_val(s) as u32)
    } else {
        None
    }
}

proof fn lemma_dec_val_nonneg(s: Seq<char>)
    requires
        forall|k: int| 0 <= k < s.len() ==> is_dec_digit(#[trigger] s[k]),
    ensures
        dec_val(s) >= 0,
    decreases s.len(),
{
    if s.len() > 0 {
        lemma_dec_val_nonneg(s.drop_last());
    }
}

proof fn lemma_dec_val_prefix_grows(s: Seq<char>, i: int)
    requires
        0 <= i < s.len(),
        forall|k: int| 0 <= k < s.len() ==> is_dec_digit(#[trigger] s[k]),
    ensures
        dec_val(s.subrange(0, i)) <= dec_val(s.subrange(0, i + 1)),
    decreases s.len() - i,
{
    let p = s.subrange(0, i);
    let q = s.subrange(0, i + 1);
    assert(q.drop_last() =~= p);
    lemma_dec_val_nonneg(p);
}

proof fn lemma_dec_val_monotone(s: Seq<char>, i: int)
    requires
        0 <= i <= s.len(),
        forall|k: int| 0 <= k < s.len() ==> is_dec_digit(#[trigger] s[k]),
    ensures
        dec_val(s.subrange(0, i)) <= dec_val(s),
    decreases s.len() - i,
{
    if i == s.len() {
        assert(s.subrange(0, i) =~= s);
    } else {
        lemma_dec_val_prefix_grows(s, i);
        lemma_dec_val_monotone(s, i + 1);
    }
}

/// Parses unsigned-integer wire text: exactly the digit strings whose value
/// fits are accepted.
pub fn parse_u32(s: &str) -> (r: Option<u32>)
    ensures
        r == parse_u32_spec(s@),
{
    let n = s.unicode_len();
    if n == 0 {
        return None;
    }
    let mut acc: u64 = 0;
    let mut i: usize = 0;
    while i < n
        invariant
            0 <= i <= n,
            n == s@.len(),
            forall|k: int| 0 <= k < i ==> is_dec_digit(#[trigger] s@[k]),
            acc == dec_val(s@.subrange(0, i as int)),
            acc <= u32::MAX,
        decreases n - i,
    {
        let c = s.get_char(i);
        let v = c as u32;
        if v < 48 || v > 57 {
            return None;
        }
        let d: u64 = (v - 48) as u64;
        proof {
            assert(s@.subrange(0, i + 1).drop_last() =~= s@.subrange(0, i as int));
        }
        acc = acc * 10 + d;
        i = i + 1;
        if acc > 0xffff_ffff {
            proof {
                if all_dec_digits(s@) {
                    lemma_dec_val_monotone(s@, i as int);
                }
            }
            return None;
        }
    }
    proof {
        assert(s@.subrange(0, n as int) =~= s@);
    }
    Some(acc as u32)
}

/// The character of a decimal digit value.
pub open spec fn digit_char(d: int) -> char {
    if d == 0 {
        '0'
    } else if d == 1 {
        '1'
    } else if d == 2 {
        '2'
    } else if d == 3 {
        '3'
    } else if d == 4 {
        '4'
    } else if d == 5 {
        '5'
    } else if d == 6 {
        '6'
    } else if d == 7 {
        '7'
    } else if d == 8 {
        '8'
    } else {
        '9'
    }
}

/// The decimal rendering of an unsigned integer, no sign, no leading zeros.
pub open spec fn u32_dec_str(n: int) -> Seq<char>
    decreases n,
{
    if n < 10 {
        seq![digit_char(n)]
    } else {
        u32_dec_str(n / 10).push(digit_char(n % 10))
    }
}

fn digit_str(d: u32) -> (r: &'static str)
    requires
        d < 10,
    ensures
        r@ =~= seq![digit_char(d as int)],
{
    let r: &'static str = match d {
        0 => "0",
        1 => "1",
        2 => "2",
        3 => "3",
        4 => "4",
        5 => "5",
        6 => "6",
        7 => "7",
        8 => "8",
        _ => "9",
    };
    proof {
        reveal_strlit("0");
        reveal_strlit("1");
        reveal_strlit("2");
        reveal_strlit("3");
        reveal_strlit("4");
        reveal_strlit("5");
        reveal_strlit("6");
        reveal_strlit("7");
        reveal_strlit("8");
        reveal_strlit("9");
    }
    r
}

/// Renders an unsigned integer as decimal wire text.
pub fn u32_to_string(n: u32) -> (r: String)
    ensures
        r@ == u32_dec_str(n as int),
    decreases n,
{
    if n < 10 {
        digit_str(n).to_owned()
    } else {
        let mut s = u32_to_string(n / 10);
        s.append(digit_str(n % 10));
        proof {
            assert(s@ =~= u32_dec_str(n as int / 10).push(digit_char(n as int % 10)));
        }
        s
    }
}

/// The decimal rendering of an unsigned integer parses back to the same
/// integer: the scalar codec inverts itself.
pub proof fn lemma_u32_text_round_trip(n: u32)
    ensures
        parse_u32_spec(u32_dec_str(n as int)) == Some(n),
{
    lemma_u32_dec_str_digits(n as int);
    lemma_u32_dec_str_value(n as int);
}

proof fn lemma_u32_dec_str_digits(n: int)
    requires
        0 <= n,
    ensures
        all_dec_digits(u32_dec_str(n)),
    decreases n,
{
    if n < 10 {
        lemma_digit_char_val(n);
    } else {
        lemma_u32_dec_str_digits(n / 10);
        lemma_digit_char_val(n % 10);
        let s = u32_dec_str(n / 10);
        let whole = s.push(digit_char(n % 10));
        assert forall|k: int| 0 <= k < whole.len() implies is_dec_digit(#[trigger] whole[k]) by {
            if k < s.len() {
                assert(whole[k] == s[k]);
            }
        }
    }
}

proof fn lemma_digit_char_val(d: int)
    requires
        0 <= d < 10,
    ensures
        digit_val(digit_char(d)) == d,
        is_dec_digit(digit_char(d)),
{
}

proof fn lemma_u32_dec_str_value(n: int)
    requires
        0 <= n,
    ensures
        dec_val(u32_dec_str(n)) == n,
    decreases n,
{
    if n < 10 {
        lemma_digit_char_val(n);
        let s = u32_dec_str(n);
        assert(s == seq![digit_char(n)]);
        assert(s.drop_last() =~= Seq::<char>::empty());
        assert(dec_val(s.drop_last()) == 0);
        assert(s.last() == digit_char(n));
        assert(dec_val(s) == dec_val(s.drop_last()) * 10 + digit_val(s.last()));
    } else {
        lemma_u32_dec_str_value(n / 10);
        lemma_digit_char_val(n % 10);
        let s = u32_dec_str(n / 10);
        let whole = s.push(digit_char(n % 10));
        assert(u32_dec_str(n) == whole);
        assert(whole.drop_last() =~= s);
        assert(whole.last() == digit_char(n % 10));
        assert(dec_val(whole) == dec_val(whole.drop_last()) * 10 + digit_val(whole.last()));
        assert(dec_val(whole.drop_last()) == n / 10);
        assert(n / 10 * 10 + n % 10 == n);
    }
}

/// What parsing boolean wire text yields: only the exact literals `"true"`
/// and `"false"` are accepted.
pub open spec fn parse_bool_spec(s: Seq<char>) -> Option<bool> {
    if s == "true"@ {
        Some(true)
    } else if s == "false"@ {
        Some(false)
    } else {
        None
    }
}

/// Parses boolean wire text by literal matching.
pub fn parse_bool(s: &str) -> (r: Option<bool>)
    ensures
        r == parse_bool_spec(s@),
{
    if str_eq(s, "true") {
        Some(true)
    } else if str_eq(s, "false") {
        Some(false)
    } else {
        None
    }
}

/// The wire text of a boolean.
pub open spec fn bool_text(b: bool) -> Seq<char> {
    if b {
        "true"@
    } else {
        "false"@
    }
}

/// Renders a boolean as wire text.
pub fn bool_to_str(b: bool) -> (r: &'static str)
    ensures
        r@ == bool_text(b),
{
    if b {
        "true"
    } else {
        "false"
    }
}

} // verus!
