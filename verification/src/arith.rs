//! Integer division as Rust defines it for signed numbers: the quotient
//! rounds toward zero and the remainder takes the sign of the dividend.
use vstd::prelude::*;

verus! {

pub open spec fn abs(a: int) -> int {
    if a < 0 { -a } else { a }
}

/// `a / b` for signed integers: rounded toward zero.
pub open spec fn trunc_div(a: int, b: int) -> int {
    if (a >= 0) == (b > 0) { abs(a) / abs(b) } else { -(abs(a) / abs(b)) }
}

/// `a % b` for signed integers: the sign of `a`.
pub open spec fn trunc_rem(a: int, b: int) -> int {
    if a >= 0 { abs(a) % abs(b) } else { -(abs(a) % abs(b)) }
}

/// `a / b` on `i32` (which faults for a zero divisor and for
/// `i32::MIN / -1`).
pub fn div_i32(a: i32, b: i32) -> (r: i32)
    requires
        b != 0,
        !(a == i32::MIN && b == -1),
    ensures
        r == trunc_div(a as int, b as int),
{
    let ua: u64 = if a < 0 { (-(a as i64)) as u64 } else { a as u64 };
    let ub: u64 = if b < 0 { (-(b as i64)) as u64 } else { b as u64 };
    let q: u64 = ua / ub;
    proof {
        assert(q <= ua) by (nonlinear_arith)
            requires q == ua / ub, ub >= 1;
        if ub >= 2 {
            assert(q <= ua / 2) by (nonlinear_arith)
                requires q == ua / ub, ub >= 2;
        }
    }
    if (a >= 0) == (b > 0) {
        assert(q <= 0x7fff_ffff);
        q as i32
    } else {
        assert(q <= 0x8000_0000);
        (-(q as i64)) as i32
    }
}

/// `a % b` on `i32` (which faults for a zero divisor and for
/// `i32::MIN % -1`).
pub fn rem_i32(a: i32, b: i32) -> (r: i32)
    requires
        b != 0,
        !(a == i32::MIN && b == -1),
    ensures
        r == trunc_rem(a as int, b as int),
        abs(r as int) < abs(b as int),
{
    let ua: u64 = if a < 0 { (-(a as i64)) as u64 } else { a as u64 };
    let ub: u64 = if b < 0 { (-(b as i64)) as u64 } else { b as u64 };
    let m: u64 = ua % ub;
    if a >= 0 {
        m as i32
    } else {
        (-(m as i64)) as i32
    }
}

} // verus!
