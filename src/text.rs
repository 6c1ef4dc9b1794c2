//! Building text: decimal numbers and single characters.

use vstd::prelude::*;
use vstd::string::StringSliceAdditionalSpecFns;
use vstd::utf8::{encode_utf8, encode_utf8_decode_utf8};

verus! {

/// The decimal digit for a value below ten.
pub open spec fn digit_char(d: nat) -> char {
    (d + 48) as char
}

/// Decimal notation of a number, without sign or leading zeros.
pub open spec fn decimal(n: nat) -> Seq<char>
    decreases n,
{
    if n < 10 {
        seq![digit_char(n)]
    } else {
        decimal(n / 10).push(digit_char(n % 10))
    }
}

/// Relies on `String::push`: appends one character.
#[verifier::external_body]
pub(crate) fn push_char(s: &mut String, c: char)
    ensures
        final(s)@ == old(s)@.push(c),
{
    s.push(c);
}

/// Appends the decimal notation of `n` to `s`.
pub fn push_decimal(s: &mut String, n: u64)
    ensures
        final(s)@ == old(s)@ + decimal(n as nat),
    decreases n,
{
    if n >= 10 {
        push_decimal(s, n / 10);
    }
    let d = (n % 10) as u8;
    let c = (d + 48) as char;
    push_char(s, c);
    assert(s@ == old(s)@ + decimal(n as nat));
}

/// Decimal notation of `n`.
pub fn decimal_string(n: u64) -> (r: String)
    ensures
        r@ == decimal(n as nat),
{
    let mut s = String::new();
    push_decimal(&mut s, n);
    assert(s@ =~= decimal(n as nat));
    s
}

/// Whether two strings hold the same characters.
pub fn same_text(a: &str, b: &str) -> (r: bool)
    ensures
        r == (a@ == b@),
{
    let x = a.as_bytes();
    let y = b.as_bytes();
    assert(x@ == encode_utf8(a@) && y@ == encode_utf8(b@));
    proof {
        encode_utf8_decode_utf8(a@);
        encode_utf8_decode_utf8(b@);
    }
    if x.len() != y.len() {
        return false;
    }
    let mut i: usize = 0;
    while i < x.len()
        invariant
            x@ == encode_utf8(a@),
            y@ == encode_utf8(b@),
            x@.len() == y@.len(),
            i <= x@.len(),
            x@.subrange(0, i as int) == y@.subrange(0, i as int),
        decreases x@.len() - i,
    {
        if x[i] != y[i] {
            assert(x@ != y@);
            return false;
        }
        assert(x@.subrange(0, i + 1) =~= x@.subrange(0, i as int).push(x@[i as int]));
        assert(y@.subrange(0, i + 1) =~= y@.subrange(0, i as int).push(y@[i as int]));
        i = i + 1;
    }
    assert(x@ =~= x@.subrange(0, i as int));
    assert(y@ =~= y@.subrange(0, i as int));
    true
}

/// A decimal digit.
pub open spec fn is_digit(c: char) -> bool {
    '0' <= c <= '9'
}

/// Value of a string of decimal digits; the empty string counts as 0.
pub open spec fn digits_value(d: Seq<char>) -> nat
    decreases d.len(),
{
    if d.len() == 0 {
        0
    } else {
        digits_value(d.drop_last()) * 10 + (d.last() as u32 - 48) as nat
    }
}

/// The digits of an unsigned number: what follows an optional leading '+'.
pub open spec fn unsigned_digits(s: Seq<char>) -> Seq<char> {
    if s.len() > 0 && s[0] == '+' {
        s.drop_first()
    } else {
        s
    }
}

/// An unsigned number as text: an optional '+', then one or more decimal
/// digits whose value is at most 65535.
pub open spec fn parse_u16_spec(s: Seq<char>) -> Option<u16> {
    let d = unsigned_digits(s);
    if d.len() > 0 && (forall|i: int| 0 <= i < d.len() ==> is_digit(#[trigger] d[i]))
        && digits_value(d) <= 65535 {
        Some(digits_value(d) as u16)
    } else {
        None
    }
}

/// The value of a prefix of a digit string is at most that of the whole.
proof fn lemma_digits_value_prefix(d: Seq<char>, k: int)
    requires
        0 <= k <= d.len(),
        forall|i: int| 0 <= i < d.len() ==> is_digit(#[trigger] d[i]),
    ensures
        digits_value(d.subrange(0, k)) <= digits_value(d),
    decreases d.len(),
{
    if k < d.len() {
        let p = d.drop_last();
        assert(forall|i: int| 0 <= i < p.len() ==> #[trigger] p[i] == d[i]);
        lemma_digits_value_prefix(p, k);
        assert(p.subrange(0, k) =~= d.subrange(0, k));
    } else {
        assert(d.subrange(0, k) =~= d);
    }
}

/// Reads an unsigned 16-bit number written in decimal.
pub fn parse_u16(s: &str) -> (r: Option<u16>)
    ensures
        r == parse_u16_spec(s@),
{
    let ghost c = s@;
    let ghost d = unsigned_digits(c);
    if !s.is_ascii() {
        proof {
            if parse_u16_spec(c) is Some {
                assert forall|i: int| 0 <= i < c.len() implies '\0' <= #[trigger] c[i] <= '\u{7f}' by {
                    if !(c.len() > 0 && c[0] == '+') {
                        assert(is_digit(d[i]));
                    } else if i > 0 {
                        assert(is_digit(d[i - 1]));
                    }
                }
            }
        }
        return None;
    }
    let bytes = s.as_bytes();
    proof {
        vstd::string::is_ascii_spec_bytes(s);
    }
    assert(bytes@.len() == c.len());
    assert forall|i: int| 0 <= i < c.len() implies (#[trigger] bytes@[i]) as int == c[i] as int by {
        assert('\0' <= c[i] <= '\u{7f}');
        assert(bytes@[i] == c[i] as u8);
    }
    let n = bytes.len();
    let start: usize = if n > 0 && bytes[0] == 43 {
        1
    } else {
        0
    };
    assert(d =~= c.subrange(start as int, n as int));
    if start == n {
        return None;
    }
    let mut value: u32 = 0;
    let mut i: usize = start;
    while i < n
        invariant
            start <= i <= n,
            n == c.len(),
            c == s@,
            d == unsigned_digits(c),
            d == c.subrange(start as int, n as int),
            forall|k: int| 0 <= k < c.len() ==> (#[trigger] bytes@[k]) as int == c[k] as int,
            bytes@.len() == n,
            forall|k: int| start <= k < i ==> is_digit(#[trigger] c[k]),
            value as nat == digits_value(c.subrange(start as int, i as int)),
            value <= 65535,
        decreases n - i,
    {
        let b = bytes[i];
        if b < 48 || b > 57 {
            assert(!is_digit(d[i - start]));
            return None;
        }
        assert(bytes@[i as int] as int == c[i as int] as int);
        assert(is_digit(c[i as int]));
        assert(c.subrange(start as int, i + 1).drop_last() =~= c.subrange(start as int, i as int));
        value = value * 10 + (b - 48) as u32;
        i = i + 1;
        if value > 65535 {
            proof {
                if forall|k: int| 0 <= k < d.len() ==> is_digit(#[trigger] d[k]) {
                    assert(d.subrange(0, i - start) =~= c.subrange(start as int, i as int));
                    lemma_digits_value_prefix(d, i - start);
                }
            }
            return None;
        }
    }
    assert(c.subrange(start as int, n as int) == d);
    Some(value as u16)
}

} // verus!
