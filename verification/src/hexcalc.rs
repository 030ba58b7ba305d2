//! The hexadecimal calculator: its key decoding, its arithmetic, and the
//! state that it keeps between key strokes.
use vstd::prelude::*;
use crate::fmt::{digits_value, hex_digits, format_hex, char_digit};
use vstd::arithmetic::power::{pow, lemma_pow_increases};

verus! {

/// Virtual key codes and characters the calculator gives a meaning to.
pub const VK_BACK: u8 = 0x08;
pub const VK_RETURN: u8 = 0x0D;
pub const VK_ESCAPE: u8 = 0x1B;
pub const VK_LEFT: u8 = 0x25;
/// The largest 32-bit value, shown when dividing by zero.
pub const MAXDWORD: u32 = 0xFFFF_FFFF;

/// Which window message brought a key to the calculator.
#[derive(Clone, Copy, PartialEq, Eq, Structural, Debug)]
pub enum KeySource {
    KeyDown,
    Char,
    Command,
}

/// The calculator's memory between key strokes.
#[derive(Clone, Copy, PartialEq, Eq, Structural, Debug)]
pub struct HexCalc {
    /// The next digit starts a new number.
    pub new_number: bool,
    /// The pending operation, as a character code.
    pub operation: u8,
    /// The number on display.
    pub number: u32,
    /// The left operand of the pending operation.
    pub first_num: u32,
}

/// What the window should do after a key.
#[derive(Clone, Copy, PartialEq, Eq, Structural, Debug)]
pub enum CalcAction {
    Nothing,
    /// Show this number on the display.
    Show(u32),
    /// Beep: the number cannot take another digit.
    Beep,
}

/// The calculator's whole answer to one message.
#[derive(Clone, Copy, PartialEq, Eq, Structural, Debug)]
pub struct CalcReply {
    /// Press and release the button of the key (a typed key that has one).
    pub flash_button: bool,
    /// Beep and leave the message to the default window procedure (a
    /// typed key that has no button).
    pub unhandled: bool,
    pub action: CalcAction,
}

pub open spec fn spec_ascii_upper(b: u8) -> u8 {
    if 97 <= b <= 122 { (b - 32) as u8 } else { b }
}

pub open spec fn is_dec_digit(b: u8) -> bool {
    48 <= b <= 57
}

pub open spec fn is_hex_digit(b: u8) -> bool {
    is_dec_digit(b) || (65 <= b <= 70) || (97 <= b <= 102)
}

/// The value of a hexadecimal digit key as the calculator computes it.
pub open spec fn key_value(b: u8) -> int {
    if is_dec_digit(b) { b - 48 } else { b - 55 }
}

/// The key code that a message carries, after the calculator's
/// translations: upper case, Left arrow as Backspace, Enter as `=`.
pub open spec fn spec_key_code(source: KeySource, wparam: usize) -> u8 {
    let k = spec_ascii_upper((wparam % 256) as u8);
    if source == KeySource::KeyDown && k == VK_LEFT {
        VK_BACK
    } else if source == KeySource::Char && k == VK_RETURN {
        '=' as u8
    } else {
        k
    }
}

/// The result of applying `operation` to the two operands.
pub open spec fn calc_value(first_num: u32, operation: u8, num: u32) -> int {
    if operation == '=' as u8 {
        num as int
    } else if operation == '+' as u8 {
        (first_num + num) % 0x1_0000_0000
    } else if operation == '-' as u8 {
        (first_num - num) % 0x1_0000_0000
    } else if operation == '*' as u8 {
        (first_num * num) % 0x1_0000_0000
    } else if operation == '&' as u8 {
        (first_num & num) as int
    } else if operation == '|' as u8 {
        (first_num | num) as int
    } else if operation == '^' as u8 {
        (first_num ^ num) as int
    } else if operation == '<' as u8 {
        (first_num << num) as int
    } else if operation == '>' as u8 {
        (first_num >> num) as int
    } else if operation == '/' as u8 {
        if num != 0 { (first_num / num) as int } else { MAXDWORD as int }
    } else if operation == '%' as u8 {
        if num != 0 { (first_num % num) as int } else { MAXDWORD as int }
    } else {
        0
    }
}

/// A shift by 32 or more places, which the calculator does not survive.
pub open spec fn shift_faults(operation: u8, num: u32) -> bool {
    (operation == '<' as u8 || operation == '>' as u8) && num >= 32
}

/// The key is neither Backspace, Escape nor a digit: it completes the
/// pending operation.
pub open spec fn is_operator_key(k: u8) -> bool {
    k != VK_BACK && k != VK_ESCAPE && !is_hex_digit(k)
}

/// The calculator would fault on this key.
pub open spec fn key_faults(s: HexCalc, k: u8) -> bool {
    is_operator_key(k) && !s.new_number && shift_faults(s.operation, s.number)
}

/// The calculator after key `k`.
pub open spec fn next(s: HexCalc, k: u8) -> HexCalc {
    if k == VK_BACK {
        HexCalc { number: s.number / 16, ..s }
    } else if k == VK_ESCAPE {
        HexCalc { number: 0, ..s }
    } else if is_hex_digit(k) {
        let first = if s.new_number { s.number } else { s.first_num };
        let cur = if s.new_number { 0u32 } else { s.number };
        if cur <= 0x0FFF_FFFF {
            HexCalc { new_number: false, first_num: first, number: (16 * cur + key_value(k)) as u32, ..s }
        } else {
            HexCalc { new_number: false, first_num: first, number: cur, ..s }
        }
    } else if !s.new_number {
        HexCalc {
            number: calc_value(s.first_num, s.operation, s.number) as u32,
            new_number: true,
            operation: k,
            ..s
        }
    } else {
        s
    }
}

/// What the window does after key `k`.
pub open spec fn next_action(s: HexCalc, k: u8) -> CalcAction {
    if k == VK_BACK || k == VK_ESCAPE {
        CalcAction::Show(next(s, k).number)
    } else if is_hex_digit(k) {
        let cur = if s.new_number { 0u32 } else { s.number };
        if cur <= 0x0FFF_FFFF { CalcAction::Show(next(s, k).number) } else { CalcAction::Beep }
    } else if !s.new_number {
        CalcAction::Show(next(s, k).number)
    } else {
        CalcAction::Nothing
    }
}

/// The calculator after a sequence of keys.
pub open spec fn run(s: HexCalc, keys: Seq<u8>) -> HexCalc
    decreases keys.len(),
{
    if keys.len() == 0 {
        s
    } else {
        next(run(s, keys.drop_last()), keys.last())
    }
}

/// ASCII upper-casing of a byte (`u8::to_ascii_uppercase`).
pub fn ascii_upper(b: u8) -> (r: u8)
    ensures
        r == spec_ascii_upper(b),
{
    if 97 <= b && b <= 122 { b - 32 } else { b }
}

/// The key code a message carries (`wparam` truncated to a byte,
/// upper-cased; Left arrow means Backspace and Enter means `=`).
pub fn key_code(source: KeySource, wparam: usize) -> (k: u8)
    ensures
        k == spec_key_code(source, wparam),
{
    let b = (wparam % 256) as u8;
    let k = ascii_upper(b);
    if source == KeySource::KeyDown && k == VK_LEFT {
        VK_BACK
    } else if source == KeySource::Char && k == VK_RETURN {
        '=' as u8
    } else {
        k
    }
}

/// Whether a byte is a hexadecimal digit (`u8::is_ascii_hexdigit`).
pub fn is_hexdigit(b: u8) -> (r: bool)
    ensures
        r == is_hex_digit(b),
{
    (48 <= b && b <= 57) || (65 <= b && b <= 70) || (97 <= b && b <= 102)
}

/// Applies `operation` to the two operands: wrapping arithmetic, bitwise
/// operations, shifts, and division and remainder that give `MAXDWORD` for
/// a zero divisor. An unknown operation gives 0.
pub fn calc_it(first_num: u32, operation: u8, num: u32) -> (r: u32)
    requires
        !shift_faults(operation, num),
    ensures
        r == calc_value(first_num, operation, num),
{
    if operation == '=' as u8 {
        num
    } else if operation == '+' as u8 {
        first_num.wrapping_add(num)
    } else if operation == '-' as u8 {
        first_num.wrapping_sub(num)
    } else if operation == '*' as u8 {
        first_num.wrapping_mul(num)
    } else if operation == '&' as u8 {
        first_num & num
    } else if operation == '|' as u8 {
        first_num | num
    } else if operation == '^' as u8 {
        first_num ^ num
    } else if operation == '<' as u8 {
        first_num << num
    } else if operation == '>' as u8 {
        first_num >> num
    } else if operation == '/' as u8 {
        if num != 0 { first_num / num } else { MAXDWORD }
    } else if operation == '%' as u8 {
        if num != 0 { first_num % num } else { MAXDWORD }
    } else {
        0
    }
}

impl HexCalc {
    /// A fresh calculator: 0 on display, `=` pending.
    pub fn new() -> (s: HexCalc)
        ensures
            s.new_number,
            s.operation == '=' as u8,
            s.number == 0,
            s.first_num == 0,
    {
        HexCalc { new_number: true, operation: '=' as u8, number: 0, first_num: 0 }
    }

    /// Whether key `k` would make the calculator shift by 32 places or
    /// more, on which it faults.
    pub fn faults_on(&self, k: u8) -> (r: bool)
        ensures
            r == key_faults(*self, k),
    {
        k != VK_BACK && k != VK_ESCAPE && !is_hexdigit(k) && !self.new_number
            && (self.operation == '<' as u8 || self.operation == '>' as u8) && self.number >= 32
    }

    /// Applies one key code, as `key_code` translates it (upper-cased).
    pub fn press(&mut self, k: u8) -> (a: CalcAction)
        requires
            k == spec_ascii_upper(k),
            !key_faults(*old(self), k),
        ensures
            *final(self) == next(*old(self), k),
            a == next_action(*old(self), k),
    {
        if k == VK_BACK {
            self.number = self.number / 16;
            CalcAction::Show(self.number)
        } else if k == VK_ESCAPE {
            self.number = 0;
            CalcAction::Show(self.number)
        } else if is_hexdigit(k) {
            if self.new_number {
                self.first_num = self.number;
                self.number = 0;
            }
            self.new_number = false;
            if self.number <= 0x0FFF_FFFF {
                let d: u32 = if 48 <= k && k <= 57 { (k - 48) as u32 } else { (k - 55) as u32 };
                self.number = 16 * self.number + d;
                CalcAction::Show(self.number)
            } else {
                CalcAction::Beep
            }
        } else {
            if !self.new_number {
                self.number = calc_it(self.first_num, self.operation, self.number);
                self.new_number = true;
                self.operation = k;
                CalcAction::Show(self.number)
            } else {
                CalcAction::Nothing
            }
        }
    }

    /// Handles a key message. A typed key (`Char`) is taken only when the
    /// dialog has a button with the character's code (`has_button`); it is
    /// then flashed. Otherwise the window beeps and passes the message on.
    pub fn handle(&mut self, source: KeySource, wparam: usize, has_button: bool) -> (r: CalcReply)
        requires
            !(source == KeySource::Char && !has_button)
                ==> !key_faults(*old(self), spec_key_code(source, wparam)),
        ensures
            source == KeySource::Char && !has_button ==> {
                &&& *final(self) == *old(self)
                &&& r == (CalcReply { flash_button: false, unhandled: true, action: CalcAction::Beep })
            },
            !(source == KeySource::Char && !has_button) ==> {
                &&& *final(self) == next(*old(self), spec_key_code(source, wparam))
                &&& r == (CalcReply {
                    flash_button: source == KeySource::Char,
                    unhandled: false,
                    action: next_action(*old(self), spec_key_code(source, wparam)),
                })
            },
    {
        if source == KeySource::Char && !has_button {
            return CalcReply { flash_button: false, unhandled: true, action: CalcAction::Beep };
        }
        let k = key_code(source, wparam);
        let action = self.press(k);
        CalcReply { flash_button: source == KeySource::Char, unhandled: false, action }
    }
}

/// The display text of a number: upper-case hexadecimal without leading
/// zeros.
pub fn display_text(number: u32) -> (s: String)
    ensures
        s@ == hex_digits(number as nat),
{
    format_hex(number)
}

/// The characters of a sequence of key codes.
pub open spec fn key_chars(keys: Seq<u8>) -> Seq<char> {
    keys.map_values(|k: u8| k as char)
}

/// Every key is an upper-case hexadecimal digit.
pub open spec fn all_upper_hex(keys: Seq<u8>) -> bool {
    forall|i: int| 0 <= i < keys.len() ==> #[trigger] is_hex_digit(keys[i]) && keys[i] == spec_ascii_upper(keys[i])
}

/// Backspace takes back the digit just typed: typing a digit into a number
/// with room for it, then Backspace, leaves the number as it was.
pub proof fn law_backspace_undoes_digit(s: HexCalc, k: u8)
    requires
        is_hex_digit(k),
        k == spec_ascii_upper(k),
        !s.new_number,
        s.number <= 0x0FFF_FFFF,
    ensures
        next(next(s, k), VK_BACK).number == s.number,
{
    let n = s.number as int;
    let d = key_value(k);
    assert(0 <= d < 16);
    assert((16 * n + d) / 16 == n) by (nonlinear_arith)
        requires 0 <= d < 16;
}

/// Escape clears the display and keeps the pending operation.
pub proof fn law_escape_clears(s: HexCalc)
    ensures
        next(s, VK_ESCAPE).number == 0,
        next(s, VK_ESCAPE).operation == s.operation,
        next(s, VK_ESCAPE).first_num == s.first_num,
        next(s, VK_ESCAPE).new_number == s.new_number,
{
}

/// An operator key completes the pending operation on the number being
/// typed, shows its result, and becomes the pending operation; while no
/// number is being typed, an operator key changes nothing.
pub proof fn law_operator_completes(s: HexCalc, k: u8)
    requires
        is_operator_key(k),
    ensures
        !s.new_number ==> {
            &&& next(s, k).number == calc_value(s.first_num, s.operation, s.number) as u32
            &&& next(s, k).new_number
            &&& next(s, k).operation == k
            &&& next_action(s, k) == CalcAction::Show(next(s, k).number)
        },
        s.new_number ==> next(s, k) == s && next_action(s, k) == CalcAction::Nothing,
{
}

proof fn lemma_value_bound(cs: Seq<char>)
    requires
        forall|i: int| 0 <= i < cs.len() ==> 0 <= #[trigger] char_digit(cs[i]) < 16,
    ensures
        0 <= digits_value(cs, 16) < pow(16, cs.len()),
    decreases cs.len(),
{
    reveal(pow);
    if cs.len() > 0 {
        let p = cs.drop_last();
        assert forall|i: int| 0 <= i < p.len() implies 0 <= #[trigger] char_digit(p[i]) < 16 by {
            assert(p[i] == cs[i]);
        }
        lemma_value_bound(p);
        let v = digits_value(p, 16);
        let d = char_digit(cs.last());
        assert(0 <= char_digit(cs[cs.len() - 1]) < 16);
        let q = pow(16, p.len());
        assert(pow(16, cs.len()) == 16 * q);
        assert(0 <= v * 16 + d < 16 * q) by (nonlinear_arith)
            requires 0 <= v < q, 0 <= d < 16;
    }
}

/// Typing up to eight hexadecimal digits after an operation (or at the
/// start) enters the number that they spell; the number shown before
/// becomes the left operand.
pub proof fn law_typed_number(s: HexCalc, keys: Seq<u8>)
    requires
        s.new_number,
        1 <= keys.len() <= 8,
        all_upper_hex(keys),
    ensures
        run(s, keys).number == digits_value(key_chars(keys), 16),
        run(s, keys).first_num == s.number,
        run(s, keys).operation == s.operation,
        !run(s, keys).new_number,
    decreases keys.len(),
{
    let cs = key_chars(keys);
    let k = keys.last();
    assert(is_hex_digit(keys[keys.len() - 1]));
    assert((k as char) as int == k as int);
    if keys.len() == 1 {
        assert(keys.drop_last() =~= Seq::<u8>::empty());
        assert(cs.drop_last() =~= Seq::<char>::empty());
        assert(digits_value(cs.drop_last(), 16) == 0);
        assert(run(s, keys.drop_last()) == s);
        assert(cs.last() == k as char);
        assert(char_digit(k as char) == key_value(k));
        assert(digits_value(cs, 16) == digits_value(cs.drop_last(), 16) * 16 + char_digit(cs.last()));
        assert(run(s, keys) == next(s, k));
    } else {
        let p = keys.drop_last();
        assert forall|i: int| 0 <= i < p.len() implies #[trigger] is_hex_digit(p[i]) && p[i] == spec_ascii_upper(p[i]) by {
            assert(p[i] == keys[i]);
            assert(is_hex_digit(keys[i]));
        }
        law_typed_number(s, p);
        let pc = key_chars(p);
        assert(cs.drop_last() =~= pc);
        assert forall|i: int| 0 <= i < pc.len() implies 0 <= #[trigger] char_digit(pc[i]) < 16 by {
            assert(is_hex_digit(p[i]));
            assert((p[i] as char) as int == p[i] as int);
        }
        lemma_value_bound(pc);
        reveal_with_fuel(pow, 8);
        assert(pow(16, 7) == 0x1000_0000);
        lemma_pow_increases(16, pc.len(), 7);
        let r = run(s, p);
        assert(r.number <= 0x0FFF_FFFF);
        assert(run(s, keys) == next(r, k));
        assert(cs.last() == k as char);
        assert(char_digit(k as char) == key_value(k));
        assert(digits_value(cs, 16) == digits_value(pc, 16) * 16 + char_digit(cs.last()));
    }
}

/// The arithmetic keys compute what their symbols say, on 32-bit numbers
/// that wrap around: `+` and `-` add and subtract (borrowing 2^32 when the
/// difference is negative), `*` gives the product's low 32 bits, `/` the
/// quotient rounded down and `%` the remainder (both 0xFFFFFFFF for a zero
/// divisor), and `=` the number typed.
pub proof fn law_calc_arithmetic(a: u32, b: u32)
    ensures
        calc_value(a, '+' as u8, b) == (if a + b < 0x1_0000_0000 { a + b } else { a + b - 0x1_0000_0000 }),
        calc_value(a, '-' as u8, b) == (if a >= b { a - b } else { a - b + 0x1_0000_0000 }),
        0 <= calc_value(a, '*' as u8, b) < 0x1_0000_0000,
        (a * b - calc_value(a, '*' as u8, b)) % 0x1_0000_0000 == 0,
        b != 0 ==> calc_value(a, '/' as u8, b) * b <= a < (calc_value(a, '/' as u8, b) + 1) * b,
        b != 0 ==> 0 <= calc_value(a, '%' as u8, b) < b && (a - calc_value(a, '%' as u8, b)) % (b as int) == 0,
        b == 0 ==> calc_value(a, '/' as u8, b) == 0xFFFF_FFFF && calc_value(a, '%' as u8, b) == 0xFFFF_FFFF,
        calc_value(a, '=' as u8, b) == b,
{
    let m: int = 0x1_0000_0000;
    let p: int = a * b;
    vstd::arithmetic::div_mod::lemma_fundamental_div_mod(p, m);
    vstd::arithmetic::div_mod::lemma_mod_multiples_basic(p / m, m);
    assert(p - p % m == (p / m) * m) by (nonlinear_arith)
        requires p == m * (p / m) + (p % m);
    if b != 0 {
        let bi: int = b as int;
        let ai: int = a as int;
        let q: int = ai / bi;
        let r: int = ai % bi;
        vstd::arithmetic::div_mod::lemma_fundamental_div_mod(ai, bi);
        assert(0 <= r < bi);
        assert(q * bi <= ai < (q + 1) * bi) by (nonlinear_arith)
            requires ai == bi * q + r, 0 <= r < bi;
        vstd::arithmetic::div_mod::lemma_mod_multiples_basic(q, bi);
        assert(ai - r == q * bi) by (nonlinear_arith)
            requires ai == bi * q + r;
        assert((a / b) as int == q);
        assert((a % b) as int == r);
    }
}

} // verus!
