//! Text formatting of numbers, as the programs put them on screen.
//!
//! Each function appends to a `String` and states exactly which
//! characters it appends, in terms of the digit sequences defined here.
use vstd::prelude::*;
use vstd::string::StringExecFns;

verus! {

/// The character that stands for a digit `d` (`0..=15`), upper-case for
/// the hexadecimal ones.
pub open spec fn digit_char(d: nat) -> char {
    if d < 10 {
        (48 + d) as char
    } else {
        (55 + d) as char
    }
}

/// The value of a digit character, as `digit_char` writes it.
pub open spec fn char_digit(c: char) -> int {
    if 48 <= c as int && c as int <= 57 {
        c as int - 48
    } else {
        c as int - 55
    }
}

/// Upper-case hexadecimal digits of `n`, most significant first, no
/// leading zeros (`0` is the single digit `"0"`).
pub open spec fn hex_digits(n: nat) -> Seq<char>
    decreases n,
{
    if n < 16 {
        seq![digit_char(n)]
    } else {
        hex_digits(n / 16).push(digit_char(n % 16))
    }
}

/// Decimal digits of `n`, most significant first, no leading zeros.
pub open spec fn dec_digits(n: nat) -> Seq<char>
    decreases n,
{
    if n < 10 {
        seq![digit_char(n)]
    } else {
        dec_digits(n / 10).push(digit_char(n % 10))
    }
}

/// A decimal integer with a leading `-` when negative.
pub open spec fn signed_digits(n: int) -> Seq<char> {
    if n < 0 {
        seq!['-'].add(dec_digits((-n) as nat))
    } else {
        dec_digits(n as nat)
    }
}

/// The number that a sequence of digits in base `base` stands for.
pub open spec fn digits_value(s: Seq<char>, base: int) -> int
    decreases s.len(),
{
    if s.len() == 0 {
        0
    } else {
        digits_value(s.drop_last(), base) * base + char_digit(s.last())
    }
}

/// `count` copies of `c`.
pub open spec fn fill(c: char, count: int) -> Seq<char> {
    Seq::new(if count > 0 { count as nat } else { 0 }, |i: int| c)
}

/// `s` right-aligned in a field of `width` characters, as `{:>width}` does.
pub open spec fn pad_left(s: Seq<char>, width: int) -> Seq<char> {
    fill(' ', width - s.len()) + s
}

/// `s` left-aligned in a field of `width` characters, as `{:<width}` does.
pub open spec fn pad_right(s: Seq<char>, width: int) -> Seq<char> {
    s + fill(' ', width - s.len())
}

/// Hexadecimal digits of `n` zero-padded to `width`, as `{:0width$X}` does.
pub open spec fn hex_zero_padded(n: nat, width: int) -> Seq<char> {
    fill('0', width - hex_digits(n).len()) + hex_digits(n)
}

/// `0x` followed by the digits, the whole zero-padded to `width`, as
/// `{:#0width$X}` does.
pub open spec fn hex_prefixed(n: nat, width: int) -> Seq<char> {
    seq!['0', 'x'] + hex_zero_padded(n, width - 2)
}

/// `String::push`: appends one character at the end.
#[verifier::external_body]
pub(crate) fn push_char(s: &mut String, c: char)
    ensures
        final(s)@ == old(s)@.push(c),
{
    s.push(c)
}

/// The character of a digit.
pub fn digit_to_char(d: u8) -> (c: char)
    requires
        d < 16,
    ensures
        c == digit_char(d as nat),
{
    if d < 10 {
        (48 + d) as char
    } else {
        (55 + d) as char
    }
}

/// Appends the upper-case hexadecimal digits of `n`.
pub fn push_hex(out: &mut String, n: u64)
    ensures
        final(out)@ == old(out)@ + hex_digits(n as nat),
    decreases n,
{
    if n >= 16 {
        push_hex(out, n / 16);
    }
    let d = (n % 16) as u8;
    push_char(out, digit_to_char(d));
    proof {
        if n >= 16 {
            assert(hex_digits(n as nat) == hex_digits((n / 16) as nat).push(digit_char((n % 16) as nat)));
        }
    }
    assert(final(out)@ =~= old(out)@ + hex_digits(n as nat));
}

/// Appends the decimal digits of `n`.
pub fn push_dec(out: &mut String, n: u64)
    ensures
        final(out)@ == old(out)@ + dec_digits(n as nat),
    decreases n,
{
    if n >= 10 {
        push_dec(out, n / 10);
    }
    let d = (n % 10) as u8;
    push_char(out, digit_to_char(d));
    assert(final(out)@ =~= old(out)@ + dec_digits(n as nat));
}

/// Digits of `hex_digits` are never more than sixteen for a `u64`.
pub proof fn lemma_hex_len(n: nat)
    ensures
        1 <= hex_digits(n).len(),
        n < 16 <==> hex_digits(n).len() == 1,
    decreases n,
{
    if n >= 16 {
        lemma_hex_len(n / 16);
    }
}

/// The number of hexadecimal digits of `n`.
pub fn hex_len(n: u64) -> (r: usize)
    ensures
        r == hex_digits(n as nat).len(),
        1 <= r <= 16,
    decreases n,
{
    if n < 16 {
        1
    } else {
        let r = hex_len(n / 16);
        proof { lemma_hex_len_bound(n as nat); }
        r + 1
    }
}

spec fn pow_of(base: nat, k: nat) -> nat
    decreases k,
{
    if k == 0 { 1 } else { base * pow_of(base, (k - 1) as nat) }
}

/// A number below `base^k` has at most `k` digits in that base.
proof fn lemma_digits_len_bound(n: nat, k: nat, base: nat)
    requires
        base == 16 || base == 10,
        k >= 1,
        n < pow_of(base, k),
    ensures
        base == 16 ==> hex_digits(n).len() <= k,
        base == 10 ==> dec_digits(n).len() <= k,
    decreases n,
{
    if n >= base {
        if k == 1 {
            assert(pow_of(base, 1) == base * pow_of(base, 0));
        } else {
            let p = pow_of(base, (k - 1) as nat);
            assert(n / base < p) by (nonlinear_arith)
                requires n < base * p, base > 0;
            lemma_digits_len_bound(n / base, (k - 1) as nat, base);
        }
    }
}

proof fn lemma_hex_len_bound(n: nat)
    requires
        n < 0x1_0000_0000_0000_0000,
    ensures
        hex_digits(n).len() <= 16,
{
    reveal_with_fuel(pow_of, 17);
    assert(pow_of(16, 16) == 0x1_0000_0000_0000_0000);
    lemma_digits_len_bound(n, 16, 16);
}

proof fn lemma_dec_len_bound(n: nat)
    requires
        n < 0x1_0000_0000_0000_0000,
    ensures
        dec_digits(n).len() <= 20,
{
    reveal_with_fuel(pow_of, 21);
    assert(pow_of(10, 20) == 100_000_000_000_000_000_000);
    lemma_digits_len_bound(n, 20, 10);
}

/// The number of decimal digits of `n`.
pub fn dec_len(n: u64) -> (r: usize)
    ensures
        r == dec_digits(n as nat).len(),
        1 <= r <= 20,
    decreases n,
{
    if n < 10 {
        1
    } else {
        let r = dec_len(n / 10);
        proof { lemma_dec_len_bound(n as nat); }
        r + 1
    }
}

/// Appends `count` copies of `c`.
pub fn push_fill(out: &mut String, c: char, count: usize)
    ensures
        final(out)@ == old(out)@ + fill(c, count as int),
{
    let mut i: usize = 0;
    while i < count
        invariant
            i <= count,
            out@ == old(out)@ + fill(c, i as int),
        decreases count - i,
    {
        push_char(out, c);
        i = i + 1;
        assert(out@ =~= old(out)@ + fill(c, i as int));
    }
}

/// Appends `s` unchanged.
pub fn push_str(out: &mut String, s: &str)
    ensures
        final(out)@ == old(out)@ + s@,
{
    out.append(s);
}

/// Appends `s` left-aligned in a field of `width` characters (`{:<width}`).
pub fn push_str_left(out: &mut String, s: &str, width: usize)
    ensures
        final(out)@ == old(out)@ + pad_right(s@, width as int),
{
    let n = s.unicode_len();
    out.append(s);
    if n < width {
        push_fill(out, ' ', width - n);
    } else {
        push_fill(out, ' ', 0);
    }
    assert(final(out)@ =~= old(out)@ + pad_right(s@, width as int));
}

/// Appends `s` right-aligned in a field of `width` characters (`{:>width}`).
pub fn push_str_right(out: &mut String, s: &str, width: usize)
    ensures
        final(out)@ == old(out)@ + pad_left(s@, width as int),
{
    let n = s.unicode_len();
    if n < width {
        push_fill(out, ' ', width - n);
    } else {
        push_fill(out, ' ', 0);
    }
    out.append(s);
    assert(final(out)@ =~= old(out)@ + pad_left(s@, width as int));
}

/// Appends the hexadecimal digits of `n` zero-padded to `width`
/// (`{:0width$X}`).
pub fn push_hex_zero_padded(out: &mut String, n: u64, width: usize)
    ensures
        final(out)@ == old(out)@ + hex_zero_padded(n as nat, width as int),
{
    let len = hex_len(n);
    if len < width {
        push_fill(out, '0', width - len);
    } else {
        push_fill(out, '0', 0);
    }
    push_hex(out, n);
    assert(final(out)@ =~= old(out)@ + hex_zero_padded(n as nat, width as int));
}

/// Appends `0x` and the hexadecimal digits of `n`, zero-padded so that the
/// whole takes `width` characters (`{:#0width$X}`).
pub fn push_hex_prefixed(out: &mut String, n: u64, width: usize)
    ensures
        final(out)@ == old(out)@ + hex_prefixed(n as nat, width as int),
{
    push_char(out, '0');
    push_char(out, 'x');
    let w = if width >= 2 { width - 2 } else { 0 };
    push_hex_zero_padded(out, n, w);
    assert(fill('0', w - hex_digits(n as nat).len()) =~= fill('0', width - 2 - hex_digits(n as nat).len()));
    assert(final(out)@ =~= old(out)@ + hex_prefixed(n as nat, width as int));
}

/// Appends a signed decimal number (`{}`).
pub fn push_signed(out: &mut String, n: i64)
    ensures
        final(out)@ == old(out)@ + signed_digits(n as int),
{
    if n < 0 {
        push_char(out, '-');
        let m: u64 = if n == i64::MIN { 0x8000_0000_0000_0000u64 } else { (-n) as u64 };
        push_dec(out, m);
    } else {
        push_dec(out, n as u64);
    }
    assert(final(out)@ =~= old(out)@ + signed_digits(n as int));
}

/// The number of characters of a signed decimal number.
pub fn signed_len(n: i64) -> (r: usize)
    ensures
        r == signed_digits(n as int).len(),
        r <= 21,
{
    if n < 0 {
        let m: u64 = if n == i64::MIN { 0x8000_0000_0000_0000u64 } else { (-n) as u64 };
        dec_len(m) + 1
    } else {
        dec_len(n as u64)
    }
}

/// Appends a signed decimal number right-aligned in `width` characters
/// (`{:width}` or `{:>width}`).
pub fn push_signed_right(out: &mut String, n: i64, width: usize)
    ensures
        final(out)@ == old(out)@ + pad_left(signed_digits(n as int), width as int),
{
    let len = signed_len(n);
    if len < width {
        push_fill(out, ' ', width - len);
    } else {
        push_fill(out, ' ', 0);
    }
    push_signed(out, n);
    assert(final(out)@ =~= old(out)@ + pad_left(signed_digits(n as int), width as int));
}

/// Appends a signed decimal number left-aligned in `width` characters
/// (`{:<width}`).
pub fn push_signed_left(out: &mut String, n: i64, width: usize)
    ensures
        final(out)@ == old(out)@ + pad_right(signed_digits(n as int), width as int),
{
    let len = signed_len(n);
    push_signed(out, n);
    if len < width {
        push_fill(out, ' ', width - len);
    } else {
        push_fill(out, ' ', 0);
    }
    assert(final(out)@ =~= old(out)@ + pad_right(signed_digits(n as int), width as int));
}

/// The upper-case hexadecimal text of a number (`{:X}`).
pub fn format_hex(n: u32) -> (s: String)
    ensures
        s@ == hex_digits(n as nat),
{
    let mut s = String::new();
    push_hex(&mut s, n as u64);
    assert(s@ =~= hex_digits(n as nat));
    s
}

/// The decimal text of a number (`{}`).
pub fn format_signed(n: i64) -> (s: String)
    ensures
        s@ == signed_digits(n as int),
{
    let mut s = String::new();
    push_signed(&mut s, n);
    assert(s@ =~= signed_digits(n as int));
    s
}

/// The character of a digit has that digit's value.
pub proof fn lemma_digit_char_roundtrip(d: nat)
    requires
        d < 16,
    ensures
        char_digit(digit_char(d)) == d,
{
    if d < 10 {
        assert((48 + d) as char as int == 48 + d);
    } else {
        assert((55 + d) as char as int == 55 + d);
    }
}

/// Hexadecimal text reads back as the number it was written from.
pub proof fn lemma_hex_digits_value(n: nat)
    ensures
        digits_value(hex_digits(n), 16) == n,
    decreases n,
{
    let d = n % 16;
    lemma_digit_char_roundtrip(d);
    let s = hex_digits(n);
    if n >= 16 {
        lemma_hex_digits_value(n / 16);
        assert(s.drop_last() =~= hex_digits(n / 16));
        assert(s.last() == digit_char(d));
        assert(digits_value(s, 16) == digits_value(s.drop_last(), 16) * 16 + char_digit(s.last()));
        assert((n / 16) * 16 + n % 16 == n) by (nonlinear_arith);
    } else {
        assert(s.drop_last() =~= Seq::<char>::empty());
        assert(digits_value(s.drop_last(), 16) == 0);
        assert(s.last() == digit_char(d));
        assert(digits_value(s, 16) == digits_value(s.drop_last(), 16) * 16 + char_digit(s.last()));
    }
}

/// Decimal text reads back as the number it was written from.
pub proof fn lemma_dec_digits_value(n: nat)
    ensures
        digits_value(dec_digits(n), 10) == n,
    decreases n,
{
    let d = n % 10;
    lemma_digit_char_roundtrip(d);
    let s = dec_digits(n);
    if n >= 10 {
        lemma_dec_digits_value(n / 10);
        assert(s.drop_last() =~= dec_digits(n / 10));
        assert(s.last() == digit_char(d));
        assert(digits_value(s, 10) == digits_value(s.drop_last(), 10) * 10 + char_digit(s.last()));
        assert((n / 10) * 10 + n % 10 == n) by (nonlinear_arith);
    } else {
        assert(s.drop_last() =~= Seq::<char>::empty());
        assert(digits_value(s.drop_last(), 10) == 0);
        assert(s.last() == digit_char(d));
        assert(digits_value(s, 10) == digits_value(s.drop_last(), 10) * 10 + char_digit(s.last()));
    }
}

} // verus!
