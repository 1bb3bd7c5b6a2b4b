//! Text formatting: decimal and hexadecimal numbers, and defensive decoding
//! of fixed-width, possibly unterminated name buffers.

use vstd::prelude::*;

verus! {

/// The character that stands for digit `d` (`0`-`9`, then `a`-`f`).
pub open spec fn digit_char(d: nat) -> char {
    if d < 10 {
        ((d + 48) as u8) as char
    } else {
        ((d - 10 + 97) as u8) as char
    }
}

/// The digits of `n` written in `base`, most significant first, without
/// leading zeros (zero itself is one digit).
pub open spec fn radix_digits(n: nat, base: nat) -> Seq<char>
    recommends
        2 <= base <= 16,
    decreases n
    via radix_digits_decreases
{
    if base < 2 || n < base {
        seq![digit_char(n % 16)]
    } else {
        radix_digits(n / base, base).push(digit_char(n % base))
    }
}

#[via_fn]
proof fn radix_digits_decreases(n: nat, base: nat) {
    if !(base < 2 || n < base) {
        assert(n / base < n) by (nonlinear_arith)
            requires
                base >= 2,
                n >= base,
        ;
    }
}

/// Decimal text of a number.
pub open spec fn decimal_text(n: nat) -> Seq<char> {
    radix_digits(n, 10)
}

/// Hexadecimal text of a number with the `0x` prefix and lower-case digits.
pub open spec fn hex_text(n: nat) -> Seq<char> {
    seq!['0', 'x'] + radix_digits(n, 16)
}

fn digit_of(d: u64) -> (c: char)
    requires
        d < 16,
    ensures
        c == digit_char(d as nat),
{
    if d < 10 {
        ((d + 48) as u8) as char
    } else {
        ((d - 10 + 97) as u8) as char
    }
}

/// The digits of `n` in `base`, as characters.
pub fn radix_chars(n: u64, base: u64) -> (r: Vec<char>)
    requires
        2 <= base <= 16,
    ensures
        r@ == radix_digits(n as nat, base as nat),
{
    let mut m: u64 = n;
    let mut low: Vec<char> = Vec::new();
    while m >= base
        invariant
            2 <= base <= 16,
            radix_digits(n as nat, base as nat) == radix_digits(m as nat, base as nat) + low@,
        decreases m,
    {
        let c = digit_of(m % base);
        let ghost before = low@;
        low.insert(0, c);
        proof {
            assert(low@ =~= seq![c] + before);
            assert(radix_digits(m as nat, base as nat) == radix_digits((m / base) as nat, base as nat).push(c));
            assert(radix_digits(m as nat, base as nat) + before =~= radix_digits((m / base) as nat, base as nat) + low@);
        }
        m = m / base;
    }
    let c = digit_of(m);
    proof {
        assert(m % 16 == m);
    }
    let mut r: Vec<char> = Vec::new();
    r.push(c);
    let mut i: usize = 0;
    while i < low.len()
        invariant
            i <= low@.len(),
            r@ == seq![c] + low@.subrange(0, i as int),
        decreases low@.len() - i,
    {
        r.push(low[i]);
        proof {
            assert(low@.subrange(0, i + 1) =~= low@.subrange(0, i as int).push(low@[i as int]));
        }
        i = i + 1;
    }
    proof {
        assert(low@.subrange(0, low@.len() as int) =~= low@);
    }
    r
}

/// Relies on `String::from_iter` over `char`: the string holds the given
/// characters in order.
#[verifier::external_body]
fn string_from_chars(v: Vec<char>) -> (r: String)
    ensures
        r@ == v@,
{
    String::from_iter(v)
}

/// Decimal text of `n`, as `n.to_string()` writes it.
pub fn decimal_string(n: u64) -> (r: String)
    ensures
        r@ == decimal_text(n as nat),
{
    string_from_chars(radix_chars(n, 10))
}

/// Hexadecimal text of `n`, as `format!("{:#x}", n)` writes it.
pub fn hex_string(n: u64) -> (r: String)
    ensures
        r@ == hex_text(n as nat),
{
    let mut v: Vec<char> = Vec::new();
    v.push('0');
    v.push('x');
    let mut digits = radix_chars(n, 16);
    v.append(&mut digits);
    proof {
        assert(v@ =~= seq!['0', 'x'] + radix_digits(n as nat, 16));
    }
    string_from_chars(v)
}

/// The marker shown for a value that is absent or cannot be decoded.
pub open spec fn not_available() -> Seq<char> {
    "N/A"@
}

/// `"N/A"` as a string.
pub fn not_available_string() -> (r: String)
    ensures
        r@ == not_available(),
{
    String::from_str("N/A")
}

/// The name of a debug-type reference: `"N/A"` for the sentinel zero,
/// the decimal number otherwise.
pub open spec fn reference_text(v: nat) -> Seq<char> {
    if v == 0 {
        not_available()
    } else {
        decimal_text(v)
    }
}

/// Renders a debug-type reference id, where zero means "not present".
pub fn reference_string(v: u32) -> (r: String)
    ensures
        r@ == reference_text(v as nat),
{
    if v == 0 {
        not_available_string()
    } else {
        decimal_string(v as u64)
    }
}

/// What UTF-8 decoding makes of a byte sequence: the characters, or
/// `None` where the bytes are not valid UTF-8.
pub uninterp spec fn utf8_decoded(b: Seq<u8>) -> Option<Seq<char>>;

/// Relies on `std::str::from_utf8`: `Ok` with the decoded text exactly when
/// the bytes are valid UTF-8; the outcome depends on the bytes alone.
#[verifier::external_body]
fn decode_utf8(b: &[u8]) -> (r: Option<String>)
    ensures
        r matches Some(s) ==> utf8_decoded(b@) == Some(s@),
        r is None ==> utf8_decoded(b@) is None,
{
    match std::str::from_utf8(b) {
        Ok(s) => Some(s.to_string()),
        Err(_) => None,
    }
}

/// Index of the first zero byte at or after `i`, or the length where none is.
pub open spec fn terminator_from(b: Seq<u8>, i: nat) -> nat
    decreases b.len() - i,
{
    if i >= b.len() {
        b.len()
    } else if b[i as int] == 0 {
        i
    } else {
        terminator_from(b, i + 1)
    }
}

/// The bytes of a name buffer before its first zero byte (all of them if
/// there is none).
pub open spec fn terminated(b: Seq<u8>) -> Seq<u8> {
    b.take(terminator_from(b, 0) as int)
}

/// The text of a decoded name, or `"N/A"` where decoding failed.
pub open spec fn decoded_or_fallback(d: Option<Seq<char>>) -> Seq<char> {
    match d {
        Some(s) => s,
        None => not_available(),
    }
}

/// The displayed name of a raw name buffer: the UTF-8 text before the first
/// zero byte, or `"N/A"` where that is empty or not valid UTF-8.
pub open spec fn name_text(b: Seq<u8>) -> Seq<char> {
    if terminated(b).len() == 0 {
        not_available()
    } else {
        decoded_or_fallback(utf8_decoded(terminated(b)))
    }
}

/// The bytes of `name` before its first zero byte.
pub fn terminated_bytes(name: &[u8]) -> (r: Vec<u8>)
    ensures
        r@ == terminated(name@),
{
    let mut out: Vec<u8> = Vec::new();
    let mut i: usize = 0;
    while i < name.len() && name[i] != 0
        invariant
            i <= name@.len(),
            terminator_from(name@, 0) == terminator_from(name@, i as nat),
            out@ == name@.take(i as int),
        decreases name@.len() - i,
    {
        out.push(name[i]);
        proof {
            assert(name@.take(i + 1) =~= name@.take(i as int).push(name@[i as int]));
        }
        i = i + 1;
    }
    out
}

/// Turns the outcome of UTF-8 decoding into displayed text, with `"N/A"`
/// for a failed decoding.
pub fn name_or_fallback(decoded: Option<String>) -> (r: String)
    ensures
        r@ == decoded_or_fallback(
            match decoded {
                Some(s) => Some(s@),
                None => None,
            },
        ),
{
    match decoded {
        Some(s) => s,
        None => not_available_string(),
    }
}

/// Decodes a raw, possibly unterminated name buffer; never fails.
pub fn decode_name(name: &[u8]) -> (r: String)
    ensures
        r@ == name_text(name@),
{
    let bytes = terminated_bytes(name);
    if bytes.len() == 0 {
        not_available_string()
    } else {
        name_or_fallback(decode_utf8(bytes.as_slice()))
    }
}

} // verus!
