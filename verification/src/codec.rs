//! Verified rendering and parsing of decimal numbers and of lowercase
//! hexadecimal, the two encodings the session token is framed with.

use vstd::prelude::*;
use vstd::arithmetic::div_mod::lemma_fundamental_div_mod;
use crate::strutil::push_char;

verus! {

pub open spec fn is_digit_char(c: char) -> bool {
    '0' <= c && c <= '9'
}

pub open spec fn digit_char(d: int) -> char
    recommends
        0 <= d <= 9,
{
    ((48 + d) as u8) as char
}

pub open spec fn digit_val(c: char) -> int {
    c as int - 48
}

pub open spec fn is_digit_seq(s: Seq<char>) -> bool {
    forall|i: int| 0 <= i < s.len() ==> is_digit_char(#[trigger] s[i])
}

/// The number a digit string denotes, most significant digit first.
pub open spec fn dec_value(s: Seq<char>) -> int
    recommends
        is_digit_seq(s),
    decreases s.len(),
{
    if s.len() == 0 {
        0
    } else {
        dec_value(s.drop_last()) * 10 + digit_val(s.last())
    }
}

/// The decimal digits of `n`, most significant first, no leading zeros
/// except for `n == 0` itself.
pub open spec fn str_of_u64(n: u64) -> Seq<char>
    decreases n,
{
    if n < 10 {
        seq![digit_char(n as int)]
    } else {
        str_of_u64((n / 10) as u64).push(digit_char((n % 10) as int))
    }
}

pub proof fn lemma_digit_char_val(d: int)
    requires
        0 <= d <= 9,
    ensures
        is_digit_char(digit_char(d)),
        digit_val(digit_char(d)) == d,
{
    assert(digit_char(d) as int == 48 + d);
}

pub proof fn lemma_dec_value_nonneg(s: Seq<char>)
    requires
        is_digit_seq(s),
    ensures
        dec_value(s) >= 0,
    decreases s.len(),
{
    if s.len() > 0 {
        assert(is_digit_seq(s.drop_last()));
        lemma_dec_value_nonneg(s.drop_last());
    }
}

/// Rendering then reading a number gives the number back, and the
/// rendering is a nonempty digit string.
pub proof fn lemma_str_of_u64_value(n: u64)
    ensures
        is_digit_seq(str_of_u64(n)),
        str_of_u64(n).len() >= 1,
        dec_value(str_of_u64(n)) == n,
    decreases n,
{
    if n < 10 {
        let s = str_of_u64(n);
        assert(s.last() == digit_char(n as int));
        assert(s.drop_last() =~= Seq::<char>::empty());
        lemma_digit_char_val(n as int);
        assert(dec_value(s.drop_last()) == 0);
        assert(dec_value(s) == 0 * 10 + digit_val(s.last()));
        assert(dec_value(s) == n);
    } else {
        lemma_str_of_u64_value((n / 10) as u64);
        let prev = str_of_u64((n / 10) as u64);
        let s = str_of_u64(n);
        assert(s.drop_last() =~= prev);
        assert(s.last() == digit_char((n % 10) as int));
        lemma_digit_char_val((n % 10) as int);
        assert(dec_value(s) == dec_value(prev) * 10 + digit_val(s.last()));
        assert(dec_value(s) == (n / 10) * 10 + (n % 10));
        lemma_fundamental_div_mod(n as int, 10);
        assert(dec_value(s) == n);
    }
}

/// Growing a digit prefix never shrinks its value.
pub proof fn lemma_dec_value_prefix_le(s: Seq<char>, i: int, j: int)
    requires
        is_digit_seq(s),
        0 <= i <= j <= s.len(),
    ensures
        dec_value(s.subrange(0, i)) <= dec_value(s.subrange(0, j)),
    decreases j - i,
{
    if i < j {
        lemma_dec_value_prefix_le(s, i, j - 1);
        let p = s.subrange(0, j - 1);
        let q = s.subrange(0, j);
        assert(q.drop_last() =~= p);
        assert(is_digit_seq(p));
        lemma_dec_value_nonneg(p);
        assert(is_digit_char(q.last()));
    }
}

/// Turns a number into its decimal digits.
pub fn u64_to_string(n: u64) -> (s: String)
    ensures
        s@ == str_of_u64(n),
    decreases n,
{
    if n < 10 {
        let mut s = String::new();
        push_char(&mut s, (48 + n as u8) as char);
        proof {
            assert(s@ =~= str_of_u64(n));
        }
        s
    } else {
        let mut s = u64_to_string(n / 10);
        push_char(&mut s, (48 + (n % 10) as u8) as char);
        s
    }
}

/// Reads a decimal digit string; accepts exactly the nonempty digit
/// strings whose value fits in a `u64`.
pub fn parse_u64(s: &str) -> (r: Option<u64>)
    ensures
        r is Some <==> (s@.len() >= 1 && is_digit_seq(s@) && dec_value(s@) <= u64::MAX),
        r matches Some(v) ==> v == dec_value(s@),
{
    let n = s.unicode_len();
    if n == 0 {
        return None;
    }
    let mut acc: u64 = 0;
    let mut i: usize = 0;
    while i < n
        invariant
            0 <= i <= n,
            n == s@.len(),
            is_digit_seq(s@.subrange(0, i as int)),
            acc == dec_value(s@.subrange(0, i as int)),
        decreases n - i,
    {
        let c = s.get_char(i);
        let cv = c as u32;
        if cv < 48 || cv > 57 {
            assert(!is_digit_char(s@[i as int]));
            assert(!is_digit_seq(s@));
            return None;
        }
        let d = (cv - 48) as u64;
        proof {
            assert(s@.subrange(0, i + 1 as int).drop_last() =~= s@.subrange(0, i as int));
            assert(s@.subrange(0, i + 1 as int).last() == s@[i as int]);
        }
        if acc > (u64::MAX - d) / 10 {
            proof {
                lemma_fundamental_div_mod((u64::MAX - d) as int, 10);
                assert(acc * 10 + d > u64::MAX);
                if is_digit_seq(s@) {
                    assert(s@.subrange(0, n as int) =~= s@);
                    lemma_dec_value_prefix_le(s@, i + 1, n as int);
                    assert(dec_value(s@) >= dec_value(s@.subrange(0, i + 1)));
                    assert(dec_value(s@.subrange(0, i + 1)) == acc * 10 + d);
                }
            }
            return None;
        }
        proof {
            lemma_fundamental_div_mod((u64::MAX - d) as int, 10);
            assert(acc * 10 + d <= u64::MAX);
        }
        acc = acc * 10 + d;
        i += 1;
    }
    proof {
        assert(s@.subrange(0, n as int) =~= s@);
    }
    Some(acc)
}

pub open spec fn hex_digit_char(d: int) -> char
    recommends
        0 <= d < 16,
{
    if d < 10 {
        digit_char(d)
    } else {
        ((97 + (d - 10)) as u8) as char
    }
}

pub open spec fn is_hex_char(c: char) -> bool {
    is_digit_char(c) || ('a' <= c && c <= 'f')
}

/// Lowercase hexadecimal of a byte string, two characters per byte.
pub open spec fn hex_of_bytes(bytes: Seq<u8>) -> Seq<char>
    decreases bytes.len(),
{
    if bytes.len() == 0 {
        Seq::empty()
    } else {
        hex_of_bytes(bytes.drop_last()) + seq![
            hex_digit_char(bytes.last() as int / 16),
            hex_digit_char(bytes.last() as int % 16),
        ]
    }
}

/// Every character of a hexadecimal rendering is a lowercase hex digit.
pub proof fn lemma_hex_of_bytes_chars(bytes: Seq<u8>)
    ensures
        forall|i: int|
            0 <= i < hex_of_bytes(bytes).len() ==> is_hex_char(#[trigger] hex_of_bytes(bytes)[i]),
    decreases bytes.len(),
{
    if bytes.len() > 0 {
        lemma_hex_of_bytes_chars(bytes.drop_last());
        lemma_hex_digit_char_is_hex(bytes.last() as int / 16);
        lemma_hex_digit_char_is_hex(bytes.last() as int % 16);
        let prev = hex_of_bytes(bytes.drop_last());
        let s = hex_of_bytes(bytes);
        assert forall|i: int| 0 <= i < s.len() implies is_hex_char(#[trigger] s[i]) by {
            if i < prev.len() {
                assert(s[i] == prev[i]);
            } else if i == prev.len() {
                assert(s[i] == hex_digit_char(bytes.last() as int / 16));
            } else {
                assert(s[i] == hex_digit_char(bytes.last() as int % 16));
            }
        }
    }
}

pub proof fn lemma_hex_digit_char_is_hex(d: int)
    requires
        0 <= d < 16,
    ensures
        is_hex_char(hex_digit_char(d)),
{
    if d < 10 {
        lemma_digit_char_val(d);
    } else {
        assert(hex_digit_char(d) as int == 97 + (d - 10));
    }
}

fn hex_char_of(d: u8) -> (c: char)
    requires
        d < 16,
    ensures
        c == hex_digit_char(d as int),
{
    if d < 10 {
        (48 + d) as char
    } else {
        (97 + (d - 10)) as char
    }
}

/// Renders a byte string as lowercase hexadecimal.
pub fn bytes_to_hex(bytes: &Vec<u8>) -> (s: String)
    ensures
        s@ == hex_of_bytes(bytes@),
{
    let mut s = String::new();
    let mut i: usize = 0;
    proof {
        assert(s@ =~= hex_of_bytes(bytes@.subrange(0, 0)));
    }
    while i < bytes.len()
        invariant
            0 <= i <= bytes@.len(),
            s@ == hex_of_bytes(bytes@.subrange(0, i as int)),
        decreases bytes@.len() - i,
    {
        let b = bytes[i];
        push_char(&mut s, hex_char_of(b / 16));
        push_char(&mut s, hex_char_of(b % 16));
        proof {
            let p = bytes@.subrange(0, i as int);
            let q = bytes@.subrange(0, i + 1 as int);
            assert(q.drop_last() =~= p);
            assert(q.last() == bytes@[i as int]);
            assert(s@ =~= hex_of_bytes(q));
        }
        i += 1;
    }
    proof {
        assert(bytes@.subrange(0, bytes@.len() as int) =~= bytes@);
    }
    s
}

} // verus!
