//! Wide (UTF-16) text as the window system takes and gives it.
use vstd::prelude::*;
use vstd::string::StrSliceExecFns;
use crate::fmt::push_char;

verus! {

/// The replacement character, which stands for a unit that is not part of
/// a valid UTF-16 sequence.
pub const REPLACEMENT: char = '\u{FFFD}';

pub open spec fn is_high_surrogate(u: u16) -> bool {
    0xD800 <= u <= 0xDBFF
}

pub open spec fn is_low_surrogate(u: u16) -> bool {
    0xDC00 <= u <= 0xDFFF
}

pub open spec fn is_surrogate(u: u16) -> bool {
    0xD800 <= u <= 0xDFFF
}

/// The UTF-16 units of one character.
pub open spec fn char_units(c: char) -> Seq<u16> {
    let v = c as int;
    if v < 0x10000 {
        seq![v as u16]
    } else {
        seq![(0xD800 + (v - 0x10000) / 1024) as u16, (0xDC00 + (v - 0x10000) % 1024) as u16]
    }
}

/// The UTF-16 encoding of a text.
pub open spec fn utf16(s: Seq<char>) -> Seq<u16>
    decreases s.len(),
{
    if s.len() == 0 {
        seq![]
    } else {
        char_units(s[0]) + utf16(s.drop_first())
    }
}

/// The character that a surrogate pair stands for.
pub open spec fn pair_char(hi: u16, lo: u16) -> char {
    (0x10000 + (hi - 0xD800) * 1024 + (lo - 0xDC00)) as char
}

/// UTF-16 decoded, each unit that is not part of a valid sequence
/// replaced by `REPLACEMENT`.
pub open spec fn decode_lossy(u: Seq<u16>) -> Seq<char>
    decreases u.len(),
{
    if u.len() == 0 {
        seq![]
    } else if is_high_surrogate(u[0]) && u.len() >= 2 && is_low_surrogate(u[1]) {
        seq![pair_char(u[0], u[1])] + decode_lossy(u.subrange(2, u.len() as int))
    } else if is_surrogate(u[0]) {
        seq![REPLACEMENT] + decode_lossy(u.drop_first())
    } else {
        seq![u[0] as char] + decode_lossy(u.drop_first())
    }
}

/// The position of the first zero unit, or the length if there is none.
pub open spec fn nul_pos(u: Seq<u16>) -> int
    decreases u.len(),
{
    if u.len() == 0 || u[0] == 0 {
        0
    } else {
        1 + nul_pos(u.drop_first())
    }
}

/// The text of a zero-terminated wide string: the units before the first
/// zero, decoded.
pub open spec fn wide_text(u: Seq<u16>) -> Seq<char> {
    decode_lossy(u.take(nul_pos(u)))
}

/// `char::from_u32`: the character with this code, if the code is a
/// Unicode scalar value (at most `0x10FFFF` and not a surrogate).
pub assume_specification[ char::from_u32 ](i: u32) -> (r: Option<char>)
    ensures
        r == (if i <= 0x10FFFF && !(0xD800 <= i <= 0xDFFF) { Some(i as char) } else { None::<char> }),
;

/// A character's code is a Unicode scalar value.
pub proof fn lemma_char_range(c: char)
    ensures
        0 <= c as int <= 0x10FFFF,
        !(0xD800 <= c as int <= 0xDFFF),
        (c as int) as char == c,
{
}

proof fn lemma_utf16_push(s: Seq<char>, c: char)
    ensures
        utf16(s.push(c)) == utf16(s) + char_units(c),
    decreases s.len(),
{
    if s.len() == 0 {
        assert(s.push(c).drop_first() =~= Seq::<char>::empty());
        assert(utf16(Seq::<char>::empty()) =~= Seq::<u16>::empty());
        assert(s.push(c)[0] == c);
        assert(utf16(s) =~= Seq::<u16>::empty());
        assert(utf16(s.push(c)) =~= char_units(c));
    } else {
        lemma_utf16_push(s.drop_first(), c);
        assert(s.push(c).drop_first() =~= s.drop_first().push(c));
        assert(utf16(s.push(c)) =~= utf16(s) + char_units(c));
    }
}

/// The units of one character, appended.
fn push_char_units(out: &mut Vec<u16>, c: char)
    ensures
        final(out)@ == old(out)@ + char_units(c),
{
    let v = c as u32;
    if v < 0x10000 {
        out.push(v as u16);
    } else {
        let w = v - 0x10000;
        out.push((0xD800 + w / 1024) as u16);
        out.push((0xDC00 + w % 1024) as u16);
    }
    assert(final(out)@ =~= old(out)@ + char_units(c));
}

/// A text as a zero-terminated wide string: its UTF-16 units and a zero.
pub fn to_wide_chars(s: &str) -> (r: Vec<u16>)
    ensures
        r@ == utf16(s@).push(0),
{
    let n = s.unicode_len();
    let mut out: Vec<u16> = Vec::new();
    let mut i: usize = 0;
    while i < n
        invariant
            n == s@.len(),
            i <= n,
            out@ == utf16(s@.take(i as int)),
        decreases n - i,
    {
        let c = s.get_char(i);
        proof {
            lemma_utf16_push(s@.take(i as int), c);
            assert(s@.take(i as int).push(c) =~= s@.take(i + 1));
        }
        push_char_units(&mut out, c);
        i = i + 1;
    }
    assert(s@.take(n as int) =~= s@);
    out.push(0);
    out
}

proof fn lemma_nul_pos(u: Seq<u16>, k: int)
    requires
        0 <= k <= u.len(),
        forall|j: int| 0 <= j < k ==> u[j] != 0,
        k == u.len() || u[k] == 0,
    ensures
        nul_pos(u) == k,
    decreases k,
{
    if k > 0 {
        lemma_nul_pos(u.drop_first(), k - 1);
    }
}

/// The text of a zero-terminated wide string: the units before the first
/// zero (all of them if there is none), decoded; a unit that is not part
/// of a valid UTF-16 sequence becomes `REPLACEMENT`.
pub fn from_wide(units: &[u16]) -> (s: String)
    ensures
        s@ == wide_text(units@),
{
    let len = units.len();
    let mut n: usize = 0;
    while n < len && units[n] != 0
        invariant
            len == units@.len(),
            n <= len,
            forall|j: int| 0 <= j < n ==> units@[j] != 0,
        decreases len - n,
    {
        n = n + 1;
    }
    proof { lemma_nul_pos(units@, n as int); }
    let ghost text = units@.take(n as int);
    let mut out = String::new();
    let mut i: usize = 0;
    assert(text.subrange(0, n as int) =~= text);
    while i < n
        invariant
            n <= len,
            len == units@.len(),
            text == units@.take(n as int),
            i <= n,
            out@ + decode_lossy(text.subrange(i as int, n as int)) == decode_lossy(text),
        decreases n - i,
    {
        let ghost rest = text.subrange(i as int, n as int);
        let u = units[i];
        if 0xD800 <= u && u <= 0xDBFF && i + 1 < n && 0xDC00 <= units[i + 1] && units[i + 1] <= 0xDFFF {
            let lo = units[i + 1];
            let v: u32 = 0x10000 + ((u - 0xD800) as u32) * 1024 + ((lo - 0xDC00) as u32);
            match char::from_u32(v) {
                Some(c) => push_char(&mut out, c),
                None => push_char(&mut out, REPLACEMENT),
            }
            proof {
                assert(rest[0] == u && rest[1] == lo);
                assert(rest.subrange(2, rest.len() as int) =~= text.subrange(i + 2, n as int));
            }
            i = i + 2;
        } else {
            if 0xD800 <= u && u <= 0xDFFF {
                push_char(&mut out, REPLACEMENT);
            } else {
                match char::from_u32(u as u32) {
                    Some(c) => push_char(&mut out, c),
                    None => push_char(&mut out, REPLACEMENT),
                }
            }
            proof {
                assert(rest[0] == u);
                assert(rest.drop_first() =~= text.subrange(i + 1, n as int));
            }
            i = i + 1;
        }
    }
    assert(text.subrange(0, n as int) =~= text);
    out
}

proof fn lemma_units_nonzero(s: Seq<char>)
    requires
        forall|i: int| 0 <= i < s.len() ==> s[i] != '\0',
    ensures
        forall|j: int| 0 <= j < utf16(s).len() ==> utf16(s)[j] != 0,
    decreases s.len(),
{
    if s.len() > 0 {
        lemma_units_nonzero(s.drop_first());
        let a = char_units(s[0]);
        let b = utf16(s.drop_first());
        assert(s[0] != '\0');
        lemma_char_range(s[0]);
        assert forall|i: int| 0 <= i < s.drop_first().len() implies s.drop_first()[i] != '\0' by {
            assert(s.drop_first()[i] == s[i + 1]);
        }
        assert forall|j: int| 0 <= j < (a + b).len() implies (a + b)[j] != 0 by {
            if j >= a.len() {
                assert((a + b)[j] == b[j - a.len()]);
            }
        }
    }
}

/// Decoding gives back an encoded text.
pub proof fn lemma_decode_utf16(s: Seq<char>)
    ensures
        decode_lossy(utf16(s)) == s,
    decreases s.len(),
{
    if s.len() > 0 {
        let c = s[0];
        let rest = utf16(s.drop_first());
        lemma_decode_utf16(s.drop_first());
        let u = char_units(c) + rest;
        let v = c as int;
        lemma_char_range(c);
        if v < 0x10000 {
            assert(!(0xD800 <= v <= 0xDFFF));
            assert(u[0] == v as u16);
            assert(u.drop_first() =~= rest);
            assert((v as u16) as char == c);
        } else {
            let w = v - 0x10000;
            assert(w / 1024 < 1024);
            assert(u[0] == (0xD800 + w / 1024) as u16);
            assert(u[1] == (0xDC00 + w % 1024) as u16);
            assert(u.subrange(2, u.len() as int) =~= rest);
            assert(0x10000 + (w / 1024) * 1024 + w % 1024 == v);
            assert(pair_char(u[0], u[1]) == c);
        }
        assert(decode_lossy(u) =~= s);
    }
}

/// A text without zero characters comes back unchanged from a wide
/// string: `from_wide(to_wide_chars(s))` is `s`.
pub proof fn law_wide_round_trip(s: Seq<char>)
    requires
        forall|i: int| 0 <= i < s.len() ==> s[i] != '\0',
    ensures
        wide_text(utf16(s).push(0)) == s,
{
    let u = utf16(s).push(0);
    lemma_units_nonzero(s);
    lemma_nul_pos(u, utf16(s).len() as int);
    assert(u.take(utf16(s).len() as int) =~= utf16(s));
    lemma_decode_utf16(s);
}

} // verus!
