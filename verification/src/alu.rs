//! Value-based arithmetic shared by CPU cores. Operand types select the arithmetic width;
//! register writeback, mode selection, and bus timing belong to the caller.
//!
//! Every operation is specified over the widened operand (`u32`) and the width mask `m`
//! (`0xff` for 8-bit operands, `0xffff` for 16-bit operands).
use vstd::prelude::*;

use crate::psr;

verus! {

/// Decimal arithmetic behavior, independent of operand width and bus timing.
#[derive(Clone, Copy, Debug, PartialEq, Eq, Structural)]
pub enum DecimalSemantics {
    /// Decimal mode is ignored (Ricoh 2A03/2A07): arithmetic is always binary.
    Binary,
    /// Original NMOS decimal adjustment and flag behavior.
    Nmos6502,
    /// 65C02 decimal adjustment and flag behavior.
    Cmos65C02,
    /// 65816 decimal subtraction uses digit-wise borrows and intermediate overflow.
    Wdc65C816,
}

// ---------------------------------------------------------------------------------------------
// Operand widths
// ---------------------------------------------------------------------------------------------
/// The supported operand widths. Intermediates use `u32` to retain carry.
/// CPU mode bits select the operand type before calling the ALU.
pub trait AluWord: Copy + Sized {
    /// All bits of this width set (`0xff` or `0xffff`).
    spec fn spec_mask() -> u32;

    /// The operand as an unsigned number.
    spec fn spec_widen(self) -> u32;

    /// The operand holding the low bits of `value`.
    spec fn spec_truncate(value: u32) -> Self;

    fn mask() -> (r: u32)
        ensures
            r == Self::spec_mask(),
    ;

    fn widen(self) -> (r: u32)
        ensures
            r == self.spec_widen(),
    ;

    /// Keep only the low bits belonging to this operand width.
    fn truncate(value: u32) -> (r: Self)
        ensures
            r == Self::spec_truncate(value),
    ;

    /// Facts every width satisfies.
    proof fn lemma_word(x: Self, v: u32)
        ensures
            Self::spec_mask() == 0xff || Self::spec_mask() == 0xffff,
            x.spec_widen() <= Self::spec_mask(),
            Self::spec_truncate(v).spec_widen() == wrap(Self::spec_mask(), v as int),
            Self::spec_truncate(x.spec_widen()) == x,
    ;
}

impl AluWord for u8 {
    open spec fn spec_mask() -> u32 {
        0xff
    }

    open spec fn spec_widen(self) -> u32 {
        self as u32
    }

    open spec fn spec_truncate(value: u32) -> u8 {
        (value % 256) as u8
    }

    fn mask() -> (r: u32) {
        0xff
    }

    fn widen(self) -> (r: u32) {
        self as u32
    }

    fn truncate(value: u32) -> (r: u8) {
        (value % 256) as u8
    }

    proof fn lemma_word(x: u8, v: u32) {
    }
}

impl AluWord for u16 {
    open spec fn spec_mask() -> u32 {
        0xffff
    }

    open spec fn spec_widen(self) -> u32 {
        self as u32
    }

    open spec fn spec_truncate(value: u32) -> u16 {
        (value % 65536) as u16
    }

    fn mask() -> (r: u32) {
        0xffff
    }

    fn widen(self) -> (r: u32) {
        self as u32
    }

    fn truncate(value: u32) -> (r: u16) {
        (value % 65536) as u16
    }

    proof fn lemma_word(x: u16, v: u32) {
    }
}

// ---------------------------------------------------------------------------------------------
// Flag bytes
// ---------------------------------------------------------------------------------------------
/// `x` reduced into the range of a width with mask `m`.
pub open spec fn wrap(m: u32, x: int) -> int {
    x % (m as int + 1)
}

/// The sign bit of a width with mask `m`.
pub open spec fn sign_of(m: u32) -> u32 {
    (m / 2 + 1) as u32
}

/// Whether the bit of weight `s` (a power of two) is set in `x`.
pub open spec fn bit_set(x: int, s: int) -> bool {
    (x / s) % 2 == 1
}

/// A status byte holding exactly the given N, V, Z and C bits.
pub open spec fn flag_byte(n: bool, v: bool, z: bool, c: bool) -> u8 {
    ((if n { 0x80int } else { 0 }) + (if v { 0x40int } else { 0 }) + (if z { 2int } else { 0 })
        + (if c { 1int } else { 0 })) as u8
}

/// The status byte `p` after replacing the bits selected by `mask` with those of `flags`.
pub open spec fn spec_apply_flags(p: u8, flags: u8, mask: u8) -> u8 {
    (p & !mask) | (flags & mask)
}

fn flags_of(n: bool, v: bool, z: bool, c: bool) -> (r: u8)
    ensures
        r == flag_byte(n, v, z, c),
{
    let mut f: u8 = 0;
    if n {
        f = f + psr::N;
    }
    if v {
        f = f + psr::V;
    }
    if z {
        f = f + psr::Z;
    }
    if c {
        f = f + psr::C;
    }
    f
}

/// A result from the ALU and appropriate flags to set. `apply()` applies the flags and
/// returns the value.
///
/// Only flags selected by `flag_mask` are replaced when the result is applied.
#[derive(Clone, Copy, Debug)]
pub struct AluResult<T> {
    pub value: T,
    pub flags: u8,
    pub flag_mask: u8,
}

impl<T: Copy> AluResult<T> {
    /// Write the selected flags into `p` and hand back the value.
    pub fn apply(self, p: &mut u8) -> (r: T)
        ensures
            r == self.value,
            *final(p) == spec_apply_flags(*old(p), self.flags, self.flag_mask),
    {
        *p = (*p & !self.flag_mask) | (self.flags & self.flag_mask);
        self.value
    }
}

/// Applying a result replaces exactly the flags selected by its mask and keeps every other
/// bit of the status byte.
pub proof fn lemma_apply_flags_selects(p: u8, flags: u8, mask: u8)
    ensures
        spec_apply_flags(p, flags, mask) & mask == flags & mask,
        spec_apply_flags(p, flags, mask) & !mask == p & !mask,
{
    assert(((p & !mask) | (flags & mask)) & mask == flags & mask) by (bit_vector);
    assert(((p & !mask) | (flags & mask)) & !mask == p & !mask) by (bit_vector);
}

/// Set (`value == true`) or clear the bits of `mask` in `p`.
pub fn set_flag(p: &mut u8, mask: u8, value: bool)
    ensures
        *final(p) == (if value { *old(p) | mask } else { *old(p) & !mask }),
{
    if value {
        *p = *p | mask;
    } else {
        *p = *p & !mask;
    }
}

// ---------------------------------------------------------------------------------------------
// Logic, shifts and increments
// ---------------------------------------------------------------------------------------------
/// The N and Z flags of a result `v` of width `m`.
pub open spec fn zn_flags(m: u32, v: u32) -> u8 {
    flag_byte(v >= sign_of(m), false, v == 0, false)
}

/// Set Z and N from `value`.
pub fn zn<T: AluWord>(value: T) -> (r: AluResult<T>)
    ensures
        r.value == value,
        r.flags == zn_flags(T::spec_mask(), value.spec_widen()),
        r.flag_mask == psr::N | psr::Z,
{
    proof {
        T::lemma_word(value, 0);
    }
    let w = value.widen();
    let sign = T::mask() / 2 + 1;
    assert(psr::N | psr::Z == 0x82) by (bit_vector);
    AluResult { value, flags: flags_of(w >= sign, false, w == 0, false), flag_mask: psr::N + psr::Z }
}

fn with_shift_flags<T: AluWord>(value: T, carry: bool) -> (r: AluResult<T>)
    ensures
        r.value == value,
        r.flags == flag_byte(
            value.spec_widen() >= sign_of(T::spec_mask()),
            false,
            value.spec_widen() == 0,
            carry,
        ),
        r.flag_mask == psr::N | psr::Z | psr::C,
{
    proof {
        T::lemma_word(value, 0);
    }
    let w = value.widen();
    let sign = T::mask() / 2 + 1;
    assert(psr::N | psr::Z | psr::C == 0x83) by (bit_vector);
    AluResult {
        value,
        flags: flags_of(w >= sign, false, w == 0, carry),
        flag_mask: psr::N + psr::Z + psr::C,
    }
}

/// The flags of a shift or rotate whose result is `v` and whose shifted-out bit is `carry`.
pub open spec fn shift_flags(m: u32, v: u32, carry: bool) -> u8 {
    flag_byte(v >= sign_of(m), false, v == 0, carry)
}

/// Arithmetic shift left: bit 7 (or 15) moves into C, a zero enters bit 0.
pub fn asl<T: AluWord>(value: T) -> (r: AluResult<T>)
    ensures
        r.value.spec_widen() == wrap(T::spec_mask(), value.spec_widen() * 2),
        r.flags == shift_flags(
            T::spec_mask(),
            r.value.spec_widen(),
            value.spec_widen() >= sign_of(T::spec_mask()),
        ),
        r.flag_mask == psr::N | psr::Z | psr::C,
{
    let w = value.widen();
    let sign = T::mask() / 2 + 1;
    proof {
        T::lemma_word(value, (w * 2) as u32);
    }
    with_shift_flags(T::truncate(w * 2), w >= sign)
}

/// Logical shift right: bit 0 moves into C, a zero enters the top bit.
pub fn lsr<T: AluWord>(value: T) -> (r: AluResult<T>)
    ensures
        r.value.spec_widen() == value.spec_widen() / 2,
        r.flags == shift_flags(T::spec_mask(), r.value.spec_widen(), value.spec_widen() % 2 == 1),
        r.flag_mask == psr::N | psr::Z | psr::C,
{
    let w = value.widen();
    proof {
        T::lemma_word(value, (w / 2) as u32);
        vstd::arithmetic::div_mod::lemma_small_mod((w / 2) as nat, (T::spec_mask() + 1) as nat);
    }
    with_shift_flags(T::truncate(w / 2), w % 2 == 1)
}

/// Rotate left through carry.
pub fn rol<T: AluWord>(value: T, carry: bool) -> (r: AluResult<T>)
    ensures
        r.value.spec_widen() == wrap(T::spec_mask(), value.spec_widen() * 2 + (if carry { 1int } else { 0 })),
        r.flags == shift_flags(
            T::spec_mask(),
            r.value.spec_widen(),
            value.spec_widen() >= sign_of(T::spec_mask()),
        ),
        r.flag_mask == psr::N | psr::Z | psr::C,
{
    let w = value.widen();
    let sign = T::mask() / 2 + 1;
    let c: u32 = if carry {
        1
    } else {
        0
    };
    proof {
        T::lemma_word(value, (w * 2 + c) as u32);
    }
    with_shift_flags(T::truncate(w * 2 + c), w >= sign)
}

/// Rotate right through carry.
pub fn ror<T: AluWord>(value: T, carry: bool) -> (r: AluResult<T>)
    ensures
        r.value.spec_widen() == value.spec_widen() / 2 + (if carry {
            sign_of(T::spec_mask()) as int
        } else {
            0
        }),
        r.flags == shift_flags(T::spec_mask(), r.value.spec_widen(), value.spec_widen() % 2 == 1),
        r.flag_mask == psr::N | psr::Z | psr::C,
{
    let w = value.widen();
    let sign = T::mask() / 2 + 1;
    let top: u32 = if carry {
        sign
    } else {
        0
    };
    proof {
        T::lemma_word(value, (w / 2 + top) as u32);
        vstd::arithmetic::div_mod::lemma_small_mod((w / 2 + top) as nat, (T::spec_mask() + 1) as nat);
    }
    with_shift_flags(T::truncate(w / 2 + top), w % 2 == 1)
}

/// Increment, wrapping within the width.
pub fn inc<T: AluWord>(value: T) -> (r: AluResult<T>)
    ensures
        r.value.spec_widen() == wrap(T::spec_mask(), value.spec_widen() + 1),
        r.flags == zn_flags(T::spec_mask(), r.value.spec_widen()),
        r.flag_mask == psr::N | psr::Z,
{
    let w = value.widen();
    proof {
        T::lemma_word(value, (w + 1) as u32);
    }
    zn(T::truncate(w + 1))
}

/// Decrement, wrapping within the width.
pub fn dec<T: AluWord>(value: T) -> (r: AluResult<T>)
    ensures
        r.value.spec_widen() == wrap(T::spec_mask(), value.spec_widen() + T::spec_mask()),
        r.flags == zn_flags(T::spec_mask(), r.value.spec_widen()),
        r.flag_mask == psr::N | psr::Z,
{
    let w = value.widen();
    proof {
        T::lemma_word(value, (w + T::spec_mask()) as u32);
    }
    zn(T::truncate(w + T::mask()))
}

proof fn lemma_or_and_in_width(x: u32, y: u32, m: u32)
    requires
        m == 0xff || m == 0xffff,
        x <= m,
        y <= m,
    ensures
        x | y <= m,
        x & !y <= m,
        x & !y <= x,
{
    assert(m == 0xff || m == 0xffff ==> (x <= m && y <= m ==> x | y <= m)) by (bit_vector);
    assert(x & !y <= x) by (bit_vector);
}

/// Test and set bits: the value ORed with `a`; Z set when `a & value == 0`.
pub fn tsb<T: AluWord>(a: T, value: T) -> (r: AluResult<T>)
    ensures
        r.value.spec_widen() == value.spec_widen() | a.spec_widen(),
        r.flags == flag_byte(false, false, a.spec_widen() & value.spec_widen() == 0, false),
        r.flag_mask == psr::Z,
{
    let aw = a.widen();
    let w = value.widen();
    proof {
        T::lemma_word(a, w | aw);
        T::lemma_word(value, 0);
        lemma_or_and_in_width(w, aw, T::spec_mask());
        vstd::arithmetic::div_mod::lemma_small_mod((w | aw) as nat, (T::spec_mask() + 1) as nat);
    }
    AluResult { value: T::truncate(w | aw), flags: flags_of(false, false, aw & w == 0, false), flag_mask: psr::Z }
}

/// Test and reset bits: the value with the bits of `a` cleared; Z set when `a & value == 0`.
pub fn trb<T: AluWord>(a: T, value: T) -> (r: AluResult<T>)
    ensures
        r.value.spec_widen() == value.spec_widen() & !a.spec_widen(),
        r.flags == flag_byte(false, false, a.spec_widen() & value.spec_widen() == 0, false),
        r.flag_mask == psr::Z,
{
    let aw = a.widen();
    let w = value.widen();
    proof {
        T::lemma_word(a, w & !aw);
        T::lemma_word(value, 0);
        lemma_or_and_in_width(w, aw, T::spec_mask());
        vstd::arithmetic::div_mod::lemma_small_mod((w & !aw) as nat, (T::spec_mask() + 1) as nat);
    }
    AluResult { value: T::truncate(w & !aw), flags: flags_of(false, false, aw & w == 0, false), flag_mask: psr::Z }
}

// ---------------------------------------------------------------------------------------------
// Addition and subtraction
// ---------------------------------------------------------------------------------------------
/// `16^n`.
pub open spec fn pow16(n: nat) -> nat
    decreases n,
{
    if n == 0 {
        1
    } else {
        16 * pow16((n - 1) as nat)
    }
}

/// Number of 4-bit digits in a width with mask `m`.
pub open spec fn digits_of(m: u32) -> nat {
    if m == 0xff {
        2
    } else {
        4
    }
}

/// Signed overflow of an addition `a + b (+ carry) = r`, read off the sign bits: both operands
/// have the same sign and the result's sign differs.
pub open spec fn add_overflow(s: u32, a: int, b: int, r: int) -> bool {
    bit_set(a, s as int) == bit_set(b, s as int) && bit_set(a, s as int) != bit_set(r, s as int)
}

/// Signed overflow of a subtraction `a - b (- borrow) = r`, read off the sign bits: the
/// operands have different signs and the result's sign differs from `a`.
pub open spec fn sub_overflow(s: u32, a: int, b: int, r: int) -> bool {
    bit_set(a, s as int) != bit_set(b, s as int) && bit_set(a, s as int) != bit_set(r, s as int)
}

/// The carry flag of `p` as a number.
pub open spec fn carry_in(p: u8) -> nat {
    if p & psr::C != 0 {
        1
    } else {
        0
    }
}

/// Whether decimal arithmetic applies for status `p` under `sem`.
pub open spec fn decimal_active(p: u8, sem: DecimalSemantics) -> bool {
    p & psr::D != 0 && sem != DecimalSemantics::Binary
}

/// Digit-serial decimal addition of the low `n` digits of `a` and `b` with carry `c`.
/// Each digit sum above 9 is corrected by adding 6 and carries into the next digit.
/// Returns the corrected digits, the final carry, and the value before the top digit's
/// correction (whose sign bit the NMOS N and the V flag are taken from).
pub open spec fn bcd_add(a: nat, b: nat, c: nat, n: nat) -> (nat, nat, nat)
    decreases n,
{
    if n == 0 {
        (0, c, 0)
    } else {
        let nib = a % 16 + b % 16 + c;
        let c1: nat = if nib > 9 {
            1
        } else {
            0
        };
        let fixed = (if nib > 9 {
            nib + 6
        } else {
            nib
        }) % 16;
        let r = bcd_add(a / 16, b / 16, c1, (n - 1) as nat);
        (
            (fixed + 16 * r.0) as nat,
            r.1,
            if n == 1 {
                nib
            } else {
                (fixed + 16 * r.2) as nat
            },
        )
    }
}

/// Digit-serial decimal subtraction of the low `n` digits of `b` from `a` with borrow `w`.
/// A negative digit difference is corrected by subtracting 6 (keeping 4 bits) and borrows
/// from the next digit. Returns the corrected digits, the final borrow, and the value whose
/// top digit is the uncorrected difference (modulo 16).
pub open spec fn bcd_sub(a: nat, b: nat, w: nat, n: nat) -> (nat, nat, nat)
    decreases n,
{
    if n == 0 {
        (0, w, 0)
    } else {
        let nib: int = (a % 16) as int - (b % 16) as int - w as int;
        let w1: nat = if nib < 0 {
            1
        } else {
            0
        };
        let fixed: nat = ((if nib < 0 {
            nib - 6
        } else {
            nib
        }) % 16) as nat;
        let r = bcd_sub(a / 16, b / 16, w1, (n - 1) as nat);
        (
            (fixed + 16 * r.0) as nat,
            r.1,
            if n == 1 {
                (nib % 16) as nat
            } else {
                (fixed + 16 * r.2) as nat
            },
        )
    }
}

/// The 65C02 decimal subtraction correction: the sum of `16^j` over every digit `j` among the
/// low `k` whose prefix `a mod 16^(j+1) - b mod 16^(j+1) - w` borrows.
pub open spec fn cmos_borrows(a: nat, b: nat, w: nat, k: nat) -> nat
    decreases k,
{
    if k == 0 {
        0
    } else {
        let diff: int = (a % pow16(k)) as int - (b % pow16(k)) as int - w as int;
        cmos_borrows(a, b, w, (k - 1) as nat) + (if diff < 0 {
            pow16((k - 1) as nat)
        } else {
            0
        })
    }
}

/// The value of ADC.
pub open spec fn spec_adc_value(m: u32, a: u32, b: u32, p: u8, sem: DecimalSemantics) -> int {
    if !decimal_active(p, sem) {
        wrap(m, a + b + carry_in(p))
    } else {
        bcd_add(a as nat, b as nat, carry_in(p), digits_of(m)).0 as int
    }
}

/// The N, V, Z and C flags of ADC.
pub open spec fn spec_adc_flags(m: u32, a: u32, b: u32, p: u8, sem: DecimalSemantics) -> u8 {
    let s = sign_of(m);
    let sum = a + b + carry_in(p);
    if !decimal_active(p, sem) {
        let v = wrap(m, sum);
        flag_byte(v >= s, add_overflow(s, a as int, b as int, sum), v == 0, sum > m)
    } else {
        let d = bcd_add(a as nat, b as nat, carry_in(p), digits_of(m));
        if sem == DecimalSemantics::Nmos6502 {
            // NMOS Z comes from the binary sum; N precedes the top-digit correction.
            flag_byte(
                bit_set(d.2 as int, s as int),
                add_overflow(s, a as int, b as int, d.2 as int),
                wrap(m, sum) == 0,
                d.1 == 1,
            )
        } else {
            flag_byte(d.0 >= s, add_overflow(s, a as int, b as int, d.2 as int), d.0 == 0, d.1 == 1)
        }
    }
}

/// The binary difference `a - b - borrow` of SBC, reduced into the width.
pub open spec fn sbc_binary(m: u32, a: u32, b: u32, p: u8) -> int {
    wrap(m, a + (m - b) + carry_in(p))
}

/// The value of SBC.
pub open spec fn spec_sbc_value(m: u32, a: u32, b: u32, p: u8, sem: DecimalSemantics) -> int {
    let bin = sbc_binary(m, a, b, p);
    let w: nat = (1 - carry_in(p)) as nat;
    if !decimal_active(p, sem) {
        bin
    } else if sem == DecimalSemantics::Cmos65C02 {
        (bin - 6 * cmos_borrows(a as nat, b as nat, w, digits_of(m))) % (m as int + 1)
    } else {
        bcd_sub(a as nat, b as nat, w, digits_of(m)).0 as int
    }
}

/// The N, V, Z and C flags of SBC.
pub open spec fn spec_sbc_flags(m: u32, a: u32, b: u32, p: u8, sem: DecimalSemantics) -> u8 {
    let s = sign_of(m);
    let sum = a + (m - b) + carry_in(p);
    let bin = sbc_binary(m, a, b, p);
    let binary_flags = flag_byte(bin >= s, sub_overflow(s, a as int, b as int, bin), bin == 0, sum > m);
    let w: nat = (1 - carry_in(p)) as nat;
    if !decimal_active(p, sem) || sem == DecimalSemantics::Nmos6502 {
        // NMOS keeps all arithmetic flags from the binary subtraction
        binary_flags
    } else if sem == DecimalSemantics::Cmos65C02 {
        let v = spec_sbc_value(m, a, b, p, sem);
        flag_byte(v >= s, sub_overflow(s, a as int, b as int, bin), v == 0, sum > m)
    } else {
        let d = bcd_sub(a as nat, b as nat, w, digits_of(m));
        flag_byte(d.0 >= s, sub_overflow(s, a as int, b as int, d.2 as int), d.0 == 0, d.1 == 0)
    }
}

fn bit_of(x: u32, s: u32) -> (r: bool)
    requires
        s > 0,
    ensures
        r == bit_set(x as int, s as int),
{
    (x / s) % 2 == 1
}

fn bcd_add_digits(a: u32, b: u32, c: u32, n: u32) -> (r: (u32, u32, u32))
    requires
        n <= 4,
        c <= 1,
    ensures
        r.0 == bcd_add(a as nat, b as nat, c as nat, n as nat).0,
        r.1 == bcd_add(a as nat, b as nat, c as nat, n as nat).1,
        r.2 == bcd_add(a as nat, b as nat, c as nat, n as nat).2,
        r.0 < pow16(n as nat),
        r.1 <= 1,
        r.2 < 2 * pow16(n as nat),
    decreases n,
{
    if n == 0 {
        return (0, c, 0);
    }
    let nib = a % 16 + b % 16 + c;
    let c1: u32 = if nib > 9 {
        1
    } else {
        0
    };
    let fixed = (if nib > 9 {
        nib + 6
    } else {
        nib
    }) % 16;
    let rest = bcd_add_digits(a / 16, b / 16, c1, n - 1);
    proof {
        assert(pow16(n as nat) == 16 * pow16((n - 1) as nat));
        assert(pow16((n - 1) as nat) <= 4096) by {
            assert(pow16(0) == 1);
            assert(pow16(1) == 16);
            assert(pow16(2) == 256);
            assert(pow16(3) == 4096);
        }
    }
    let pre = if n == 1 {
        nib
    } else {
        fixed + 16 * rest.2
    };
    (fixed + 16 * rest.0, rest.1, pre)
}

#[verifier::rlimit(40)]
fn bcd_sub_digits(a: u32, b: u32, w: u32, n: u32) -> (r: (u32, u32, u32))
    requires
        n <= 4,
        w <= 1,
    ensures
        r.0 == bcd_sub(a as nat, b as nat, w as nat, n as nat).0,
        r.1 == bcd_sub(a as nat, b as nat, w as nat, n as nat).1,
        r.2 == bcd_sub(a as nat, b as nat, w as nat, n as nat).2,
        r.0 < pow16(n as nat),
        r.1 <= 1,
        r.2 < pow16(n as nat),
    decreases n,
{
    if n == 0 {
        return (0, w, 0);
    }
    let nib: i32 = (a % 16) as i32 - (b % 16) as i32 - w as i32;
    let w1: u32 = if nib < 0 {
        1
    } else {
        0
    };
    let fx: i32 = if nib < 0 {
        nib - 6
    } else {
        nib
    };
    let fixed: u32 = if fx >= 0 {
        fx as u32
    } else if fx >= -16 {
        (fx + 16) as u32
    } else {
        (fx + 32) as u32
    };
    let rest = bcd_sub_digits(a / 16, b / 16, w1, n - 1);
    proof {
        assert(pow16(n as nat) == 16 * pow16((n - 1) as nat));
        assert(pow16((n - 1) as nat) <= 4096) by {
            assert(pow16(0) == 1);
            assert(pow16(1) == 16);
            assert(pow16(2) == 256);
            assert(pow16(3) == 4096);
        }
    }
    let top: u32 = if nib >= 0 {
        nib as u32
    } else {
        (nib + 16) as u32
    };
    let pre = if n == 1 {
        top
    } else {
        fixed + 16 * rest.2
    };
    (fixed + 16 * rest.0, rest.1, pre)
}

/// The 65C02 decimal correction `cmos_borrows` for `n` digits.
fn cmos_borrow_total(a: u32, b: u32, w: u32, n: u32) -> (r: u32)
    requires
        n <= 4,
        w <= 1,
    ensures
        r == cmos_borrows(a as nat, b as nat, w as nat, n as nat),
        15 * r + 1 <= pow16(n as nat),
{
    let mut total: u32 = 0;
    let mut scale: u32 = 1;
    let mut k: u32 = 0;
    while k < n
        invariant
            k <= n <= 4,
            w <= 1,
            scale == pow16(k as nat),
            total == cmos_borrows(a as nat, b as nat, w as nat, k as nat),
            15 * total + 1 <= pow16(k as nat),
        decreases n - k,
    {
        proof {
            assert(pow16(0) == 1);
            assert(pow16(1) == 16);
            assert(pow16(2) == 256);
            assert(pow16(3) == 4096);
            assert(pow16(4) == 65536);
            assert(pow16((k + 1) as nat) == 16 * pow16(k as nat));
        }
        let pm = scale * 16;
        if ((a % pm) as i64) - ((b % pm) as i64) - (w as i64) < 0 {
            total = total + scale;
        }
        scale = pm;
        k = k + 1;
    }
    total
}

fn with_arith_flags<T: AluWord>(value: T, carry: bool, overflow: bool) -> (r: AluResult<T>)
    ensures
        r.value == value,
        r.flags == flag_byte(
            value.spec_widen() >= sign_of(T::spec_mask()),
            overflow,
            value.spec_widen() == 0,
            carry,
        ),
        r.flag_mask == psr::N | psr::Z | psr::C | psr::V,
{
    proof {
        T::lemma_word(value, 0);
    }
    let w = value.widen();
    let sign = T::mask() / 2 + 1;
    assert(psr::N | psr::Z | psr::C | psr::V == 0xC3) by (bit_vector);
    AluResult {
        value,
        flags: flags_of(w >= sign, overflow, w == 0, carry),
        flag_mask: psr::N + psr::V + psr::Z + psr::C,
    }
}

proof fn lemma_digit_powers(m: u32)
    requires
        m == 0xff || m == 0xffff,
    ensures
        pow16(digits_of(m)) == m as int + 1,
{
    assert(pow16(0) == 1);
    assert(pow16(1) == 16);
    assert(pow16(2) == 256);
    assert(pow16(3) == 4096);
    assert(pow16(4) == 65536);
}

/// Add with carry. In decimal mode (D set and decimal supported), each digit is corrected
/// to BCD; NMOS parts take Z from the binary sum and N from the uncorrected top digit.
pub fn adc<T: AluWord>(acc: T, operand: T, p: u8, semantics: DecimalSemantics) -> (r: AluResult<T>)
    ensures
        r.value.spec_widen() == spec_adc_value(
            T::spec_mask(),
            acc.spec_widen(),
            operand.spec_widen(),
            p,
            semantics,
        ),
        r.flags == spec_adc_flags(
            T::spec_mask(),
            acc.spec_widen(),
            operand.spec_widen(),
            p,
            semantics,
        ),
        r.flag_mask == psr::N | psr::Z | psr::C | psr::V,
{
    let a = acc.widen();
    let b = operand.widen();
    let m = T::mask();
    let sign = m / 2 + 1;
    proof {
        T::lemma_word(acc, 0);
        T::lemma_word(operand, 0);
    }
    let carry: u32 = if p & psr::C != 0 {
        1
    } else {
        0
    };
    let sum = a + b + carry;
    if p & psr::D == 0 || matches!(semantics, DecimalSemantics::Binary) {
        // Either can't or don't want decimal ADC, return binary result
        let value = T::truncate(sum);
        proof {
            T::lemma_word(acc, sum);
        }
        let overflow = bit_of(a, sign) == bit_of(b, sign) && bit_of(a, sign) != bit_of(sum, sign);
        return with_arith_flags(value, sum > m, overflow);
    }
    let nibbles: u32 = if m == 0xff {
        2
    } else {
        4
    };
    let (value, carry_out, pre_high) = bcd_add_digits(a, b, carry, nibbles);
    proof {
        lemma_digit_powers(m);
        T::lemma_word(acc, value);
        vstd::arithmetic::div_mod::lemma_small_mod(value as nat, (m + 1) as nat);
        T::lemma_word(acc, sum);
    }
    let overflow = bit_of(a, sign) == bit_of(b, sign) && bit_of(a, sign) != bit_of(pre_high, sign);
    let result = with_arith_flags(T::truncate(value), carry_out != 0, overflow);
    if matches!(semantics, DecimalSemantics::Nmos6502) {
        // NMOS Z comes from the binary sum; N precedes the top-digit correction.
        let binary = T::truncate(sum).widen();
        return AluResult {
            value: result.value,
            flags: flags_of(bit_of(pre_high, sign), overflow, binary == 0, carry_out != 0),
            flag_mask: result.flag_mask,
        };
    }
    result
}

/// Subtract with borrow (carry clear means borrow). In decimal mode the 65C02 corrects the
/// binary difference digit by digit; NMOS and 65816 parts subtract digit-serially with BCD
/// borrows. NMOS parts keep the binary subtraction's flags.
pub fn sbc<T: AluWord>(acc: T, operand: T, p: u8, semantics: DecimalSemantics) -> (r: AluResult<T>)
    ensures
        r.value.spec_widen() == spec_sbc_value(
            T::spec_mask(),
            acc.spec_widen(),
            operand.spec_widen(),
            p,
            semantics,
        ),
        r.flags == spec_sbc_flags(
            T::spec_mask(),
            acc.spec_widen(),
            operand.spec_widen(),
            p,
            semantics,
        ),
        r.flag_mask == psr::N | psr::Z | psr::C | psr::V,
{
    let a = acc.widen();
    let b = operand.widen();
    let m = T::mask();
    let sign = m / 2 + 1;
    proof {
        T::lemma_word(acc, 0);
        T::lemma_word(operand, 0);
    }
    let borrow_in: u32 = if p & psr::C == 0 {
        1
    } else {
        0
    };
    let sum = a + (m - b) + (1 - borrow_in);
    let binary_word = T::truncate(sum);
    proof {
        T::lemma_word(acc, sum);
    }
    let binary = binary_word.widen();
    let carry = sum > m;
    let overflow = bit_of(a, sign) != bit_of(b, sign) && bit_of(a, sign) != bit_of(binary, sign);
    if p & psr::D == 0 || matches!(semantics, DecimalSemantics::Binary) {
        // Either can't or don't want decimal SBC, return binary result
        return with_arith_flags(binary_word, carry, overflow);
    }
    let nibbles: u32 = if m == 0xff {
        2
    } else {
        4
    };
    proof {
        lemma_digit_powers(m);
    }
    if matches!(semantics, DecimalSemantics::Cmos65C02) {
        // Preserve the 65C02's binary-borrow correction, including invalid BCD:
        // each prefix determines whether its most significant digit borrows
        let total = cmos_borrow_total(a, b, borrow_in, nibbles);
        let adjust = 6 * total;
        let value = if binary >= adjust {
            binary - adjust
        } else {
            binary + (m - adjust) + 1
        };
        let value_word = T::truncate(value);
        proof {
            T::lemma_word(acc, value);
            vstd::arithmetic::div_mod::lemma_small_mod(value as nat, (m + 1) as nat);
            let x = binary - 6 * cmos_borrows(a as nat, b as nat, borrow_in as nat, digits_of(m));
            if binary < adjust {
                vstd::arithmetic::div_mod::lemma_mod_add_multiples_vanish(x, m + 1);
            } else {
                vstd::arithmetic::div_mod::lemma_small_mod(x as nat, (m + 1) as nat);
            }
        }
        return with_arith_flags(value_word, carry, overflow);
    }
    // NMOS and 816 propagate a borrow between corrected digits. Keeping each
    // corrected digit to four bits also preserves behavior on non-BCD operands
    let (value, borrow, pre_high) = bcd_sub_digits(a, b, borrow_in, nibbles);
    let value_word = T::truncate(value);
    proof {
        T::lemma_word(acc, value);
        vstd::arithmetic::div_mod::lemma_small_mod(value as nat, (m + 1) as nat);
    }
    if matches!(semantics, DecimalSemantics::Nmos6502) {
        // NMOS keeps all arithmetic flags from the binary subtraction
        let binary_flags = with_arith_flags(binary_word, carry, overflow);
        return AluResult { value: value_word, flags: binary_flags.flags, flag_mask: binary_flags.flag_mask };
    }
    let pre_overflow = bit_of(a, sign) != bit_of(b, sign) && bit_of(a, sign) != bit_of(pre_high, sign);
    with_arith_flags(value_word, borrow == 0, pre_overflow)
}

// ---------------------------------------------------------------------------------------------
// Laws
// ---------------------------------------------------------------------------------------------
/// `10^n`.
pub open spec fn pow10(n: nat) -> nat
    decreases n,
{
    if n == 0 {
        1
    } else {
        10 * pow10((n - 1) as nat)
    }
}

/// Every one of the low `n` digits of `x` is a decimal digit.
pub open spec fn bcd_valid(x: nat, n: nat) -> bool
    decreases n,
{
    n == 0 || (x % 16 <= 9 && bcd_valid(x / 16, (n - 1) as nat))
}

/// The decimal number written by the low `n` BCD digits of `x`.
pub open spec fn bcd_value(x: nat, n: nat) -> nat
    decreases n,
{
    if n == 0 {
        0
    } else {
        x % 16 + 10 * bcd_value(x / 16, (n - 1) as nat)
    }
}

/// The low `n` decimal digits of `d`, written in BCD.
pub open spec fn to_bcd(d: nat, n: nat) -> nat
    decreases n,
{
    if n == 0 {
        0
    } else {
        d % 10 + 16 * to_bcd(d / 10, (n - 1) as nat)
    }
}

/// The two's-complement reading of a value `x` of width `m`.
pub open spec fn signed(m: u32, x: int) -> int {
    if x >= sign_of(m) {
        x - (m + 1)
    } else {
        x
    }
}

proof fn lemma_pow10_pos(n: nat)
    ensures
        pow10(n) >= 1,
    decreases n,
{
    if n > 0 {
        lemma_pow10_pos((n - 1) as nat);
    }
}

proof fn lemma_bcd_value_bound(x: nat, n: nat)
    requires
        bcd_valid(x, n),
    ensures
        bcd_value(x, n) < pow10(n),
    decreases n,
{
    if n > 0 {
        lemma_bcd_value_bound(x / 16, (n - 1) as nat);
    }
}

/// Decimal addition of valid BCD operands yields the BCD digits of the decimal sum, and
/// carries exactly when the sum needs another digit.
pub proof fn lemma_bcd_add_is_decimal_sum(a: nat, b: nat, c: nat, n: nat)
    requires
        bcd_valid(a, n),
        bcd_valid(b, n),
        c <= 1,
    ensures
        bcd_add(a, b, c, n).0 == to_bcd(
            (bcd_value(a, n) + bcd_value(b, n) + c) % pow10(n),
            n,
        ),
        bcd_add(a, b, c, n).1 == (if bcd_value(a, n) + bcd_value(b, n) + c >= pow10(n) {
            1nat
        } else {
            0
        }),
    decreases n,
{
    if n > 0 {
        let n1 = (n - 1) as nat;
        let nib = a % 16 + b % 16 + c;
        let c1: nat = if nib > 9 {
            1
        } else {
            0
        };
        let k = bcd_value(a / 16, n1) + bcd_value(b / 16, n1);
        let s = bcd_value(a, n) + bcd_value(b, n) + c;
        let p1 = pow10(n1);
        lemma_bcd_add_is_decimal_sum(a / 16, b / 16, c1, n1);
        lemma_pow10_pos(n1);
        assert(s == 10 * k + nib);
        let r = (nib % 10) as int;
        assert(nib == 10 * c1 + r);
        vstd::arithmetic::div_mod::lemma_fundamental_div_mod_converse(s as int, 10, (k + c1) as int, r);
        vstd::arithmetic::div_mod::lemma_mod_mod(s as int, 10, p1 as int);
        vstd::arithmetic::div_mod::lemma_mod_breakdown(s as int, 10, p1 as int);
        let x = (s % pow10(n)) as int;
        let q = ((k + c1) % p1) as int;
        assert(x == 10 * q + r);
        vstd::arithmetic::div_mod::lemma_fundamental_div_mod_converse(x, 10, q, r);
    }
}

/// Decimal subtraction of valid BCD operands yields the BCD digits of the difference modulo
/// the digit count, and borrows exactly when the difference is negative.
pub proof fn lemma_bcd_sub_is_decimal_difference(a: nat, b: nat, w: nat, n: nat)
    requires
        bcd_valid(a, n),
        bcd_valid(b, n),
        w <= 1,
    ensures
        bcd_sub(a, b, w, n).0 == to_bcd(
            ((bcd_value(a, n) - bcd_value(b, n) - w) % (pow10(n) as int)) as nat,
            n,
        ),
        bcd_sub(a, b, w, n).1 == (if bcd_value(a, n) - bcd_value(b, n) - w < 0 {
            1nat
        } else {
            0
        }),
    decreases n,
{
    if n > 0 {
        let n1 = (n - 1) as nat;
        let nib: int = (a % 16) as int - (b % 16) as int - w as int;
        let w1: nat = if nib < 0 {
            1
        } else {
            0
        };
        let k: int = bcd_value(a / 16, n1) - bcd_value(b / 16, n1) - w1;
        let d: int = bcd_value(a, n) - bcd_value(b, n) - w;
        let p1 = pow10(n1) as int;
        lemma_bcd_sub_is_decimal_difference(a / 16, b / 16, w1, n1);
        lemma_pow10_pos(n1);
        lemma_bcd_value_bound(a, n);
        lemma_bcd_value_bound(b, n);
        lemma_bcd_value_bound(a / 16, n1);
        lemma_bcd_value_bound(b / 16, n1);
        let r: int = nib + 10 * w1;
        assert(0 <= r < 10);
        assert(d == 10 * k + r);
        vstd::arithmetic::div_mod::lemma_fundamental_div_mod_converse(d, 10, k, r);
        // shift into the naturals: d + 10^n is non-negative
        let e: int = d + 10 * p1;
        assert(e >= 0);
        assert(e == 10 * (k + p1) + r);
        vstd::arithmetic::div_mod::lemma_fundamental_div_mod_converse(e, 10, k + p1, r);
        vstd::arithmetic::div_mod::lemma_mod_breakdown(e, 10, p1);
        vstd::arithmetic::div_mod::lemma_mod_add_multiples_vanish(d, 10 * p1);
        vstd::arithmetic::div_mod::lemma_mod_add_multiples_vanish(k, p1);
        let x: int = d % (10 * p1);
        let q: int = k % p1;
        assert(x == 10 * q + r);
        vstd::arithmetic::div_mod::lemma_fundamental_div_mod_converse(x, 10, q, r);
        assert(pow10(n) == 10 * p1);
    }
}

/// For valid BCD operands, decimal ADC produces the BCD digits of the decimal sum and sets C
/// exactly on decimal overflow, on every part that supports decimal mode.
pub proof fn lemma_decimal_adc(m: u32, a: u32, b: u32, p: u8, sem: DecimalSemantics)
    requires
        m == 0xff || m == 0xffff,
        decimal_active(p, sem),
        bcd_valid(a as nat, digits_of(m)),
        bcd_valid(b as nat, digits_of(m)),
    ensures
        spec_adc_value(m, a, b, p, sem) == to_bcd(
            (bcd_value(a as nat, digits_of(m)) + bcd_value(b as nat, digits_of(m)) + carry_in(p))
                % pow10(digits_of(m)),
            digits_of(m),
        ),
        (spec_adc_flags(m, a, b, p, sem) & psr::C != 0) == (bcd_value(a as nat, digits_of(m))
            + bcd_value(b as nat, digits_of(m)) + carry_in(p) >= pow10(digits_of(m))),
{
    lemma_bcd_add_is_decimal_sum(a as nat, b as nat, carry_in(p), digits_of(m));
    let d = bcd_add(a as nat, b as nat, carry_in(p), digits_of(m));
    let s = sign_of(m);
    let sum = a + b + carry_in(p);
    if sem == DecimalSemantics::Nmos6502 {
        lemma_flag_byte_bits(
            bit_set(d.2 as int, s as int),
            add_overflow(s, a as int, b as int, d.2 as int),
            wrap(m, sum) == 0,
            d.1 == 1,
        );
    } else {
        lemma_flag_byte_bits(
            d.0 >= s,
            add_overflow(s, a as int, b as int, d.2 as int),
            d.0 == 0,
            d.1 == 1,
        );
    }
}

/// For valid BCD operands, NMOS and 65816 decimal SBC produce the BCD digits of the decimal
/// difference (modulo the digit count) and clear C exactly when the difference is negative.
pub proof fn lemma_decimal_sbc(m: u32, a: u32, b: u32, p: u8, sem: DecimalSemantics)
    requires
        m == 0xff || m == 0xffff,
        decimal_active(p, sem),
        sem != DecimalSemantics::Cmos65C02,
        bcd_valid(a as nat, digits_of(m)),
        bcd_valid(b as nat, digits_of(m)),
    ensures
        spec_sbc_value(m, a, b, p, sem) == to_bcd(
            ((bcd_value(a as nat, digits_of(m)) - bcd_value(b as nat, digits_of(m)) - (1
                - carry_in(p))) % (pow10(digits_of(m)) as int)) as nat,
            digits_of(m),
        ),
{
    lemma_bcd_sub_is_decimal_difference(a as nat, b as nat, (1 - carry_in(p)) as nat, digits_of(m));
}

/// Whether the low `k` digits of `a`, less those of `b`, less the borrow `w`, are negative.
pub open spec fn prefix_borrows(a: nat, b: nat, w: nat, k: nat) -> bool {
    (a % pow16(k)) as int - (b % pow16(k)) as int - (w as int) < 0
}

proof fn lemma_pow16_pos(n: nat)
    ensures
        pow16(n) >= 1,
    decreases n,
{
    if n > 0 {
        lemma_pow16_pos((n - 1) as nat);
    }
}

/// `x mod 16^k1` (with `k1 = k + 1`) is the low digit of `x` plus sixteen times
/// `(x / 16) mod 16^k`.
proof fn lemma_mod_pow16_split(x: nat, k: nat, k1: nat)
    requires
        k1 == k + 1,
    ensures
        x % pow16(k1) == 16 * ((x / 16) % pow16(k)) + x % 16,
        pow16(k1) == 16 * pow16(k),
{
    lemma_pow16_pos(k);
    assert(pow16(k1) == 16 * pow16(k));
    vstd::arithmetic::div_mod::lemma_mod_breakdown(x as int, 16, pow16(k) as int);
}

/// A prefix of `k + 1` digits borrows exactly when the `k`-digit prefix of the upper digits
/// borrows given the low digit's borrow.
proof fn lemma_prefix_borrow_shift(a: nat, b: nat, w: nat, k: nat, k1: nat)
    requires
        w <= 1,
        k1 == k + 1,
    ensures
        prefix_borrows(a, b, w, k1) == prefix_borrows(
            a / 16,
            b / 16,
            if (a % 16) as int - (b % 16) as int - w < 0 {
                1nat
            } else {
                0
            },
            k,
        ),
{
    lemma_mod_pow16_split(a, k, k1);
    lemma_mod_pow16_split(b, k, k1);
    lemma_borrow_digit_shift(
        a % pow16(k1),
        b % pow16(k1),
        (a / 16) % pow16(k),
        (b / 16) % pow16(k),
        a % 16,
        b % 16,
        w,
    );
}

/// Two numbers written as sixteen times an upper part plus a low digit: their difference less
/// `w` is negative exactly when the upper parts' difference less the low digits' borrow is.
proof fn lemma_borrow_digit_shift(ya: nat, yb: nat, xa: nat, xb: nat, da: nat, db: nat, w: nat)
    requires
        ya == 16 * xa + da,
        yb == 16 * xb + db,
        da < 16,
        db < 16,
        w <= 1,
    ensures
        (ya - yb - w < 0) == (xa - xb - (if da - db - w < 0 {
            1int
        } else {
            0
        }) < 0),
{
}

/// The 65C02 correction counts, from the low digit up, the borrows of the digit-serial
/// subtraction.
proof fn lemma_cmos_borrows_from_low_digit(a: nat, b: nat, w: nat, k: nat)
    requires
        w <= 1,
        k >= 1,
    ensures
        ({
            let w1: nat = if (a % 16) as int - (b % 16) as int - w < 0 {
                1
            } else {
                0
            };
            cmos_borrows(a, b, w, k) == w1 + 16 * cmos_borrows(a / 16, b / 16, w1, (k - 1) as nat)
        }),
    decreases k,
{
    let w1: nat = if (a % 16) as int - (b % 16) as int - w < 0 {
        1
    } else {
        0
    };
    if k == 1 {
        assert(pow16(1) == 16);
        assert(prefix_borrows(a, b, w, 1) == (w1 == 1));
        assert(cmos_borrows(a, b, w, 1) == cmos_borrows(a, b, w, 0) + (if prefix_borrows(a, b, w, 1) {
            pow16(0)
        } else {
            0
        }));
    } else {
        let k1 = (k - 1) as nat;
        let k2 = (k1 - 1) as nat;
        lemma_cmos_borrows_from_low_digit(a, b, w, k1);
        lemma_prefix_borrow_shift(a, b, w, k1, k);
        assert(pow16(k1) == 16 * pow16(k2));
        let hi: nat = cmos_borrows(a / 16, b / 16, w1, k2);
        let pb: bool = prefix_borrows(a / 16, b / 16, w1, k1);
        assert(cmos_borrows(a, b, w, k) == cmos_borrows(a, b, w, k1) + (if prefix_borrows(a, b, w, k) {
            pow16(k1)
        } else {
            0
        }));
        assert(cmos_borrows(a / 16, b / 16, w1, k1) == hi + (if pb {
            pow16(k2)
        } else {
            0
        }));
        assert(cmos_borrows(a, b, w, k1) == w1 + 16 * hi);
    }
}

/// For valid BCD operands, the 65C02's corrected binary difference equals the digit-serial
/// decimal difference, less one `16^n` per final borrow.
proof fn lemma_cmos_correction_is_digit_serial(a: nat, b: nat, w: nat, n: nat)
    requires
        bcd_valid(a, n),
        bcd_valid(b, n),
        w <= 1,
    ensures
        a % pow16(n) + bcd_sub(a, b, w, n).1 * pow16(n) == bcd_sub(a, b, w, n).0 + b % pow16(n) + w
            + 6 * cmos_borrows(a, b, w, n),
        bcd_sub(a, b, w, n).0 < pow16(n),
        bcd_sub(a, b, w, n).1 <= 1,
    decreases n,
{
    if n > 0 {
        let n1 = (n - 1) as nat;
        let nib: int = (a % 16) as int - (b % 16) as int - w as int;
        let w1: nat = if nib < 0 {
            1
        } else {
            0
        };
        lemma_cmos_correction_is_digit_serial(a / 16, b / 16, w1, n1);
        lemma_cmos_borrows_from_low_digit(a, b, w, n);
        lemma_mod_pow16_split(a, n1, n);
        lemma_mod_pow16_split(b, n1, n);
        lemma_pow16_pos(n1);
        let r = bcd_sub(a / 16, b / 16, w1, n1);
        let fixed: nat = ((if nib < 0 {
            nib - 6
        } else {
            nib
        }) % 16) as nat;
        assert(fixed == nib + 10 * w1);
        assert(pow16(n) == 16 * pow16(n1));
        assert(bcd_sub(a, b, w, n).0 == fixed + 16 * r.0);
        assert(bcd_sub(a, b, w, n).1 == r.1);
        let dp: int = ((a / 16) % pow16(n1)) as int - ((b / 16) % pow16(n1)) as int - w1 as int;
        assert((a % pow16(n)) as int - (b % pow16(n)) as int - w as int == 16 * (dp + w1) + nib);
        assert(r.1 * pow16(n) == 16 * (r.1 * pow16(n1))) by (nonlinear_arith)
            requires
                pow16(n) == 16 * pow16(n1),
        ;
        assert(fixed + 16 * r.0 < pow16(n)) by (nonlinear_arith)
            requires
                fixed < 16,
                r.0 < pow16(n1),
                pow16(n) == 16 * pow16(n1),
        ;
        let cbp: int = cmos_borrows(a / 16, b / 16, w1, n1) as int;
        let rb: int = (r.1 * pow16(n1)) as int;
        assert(dp + rb - 6 * cbp == r.0 as int);
        assert(cmos_borrows(a, b, w, n) as int == w1 + 16 * cbp);
        let lhs: int = (a % pow16(n)) as int - (b % pow16(n)) as int - w as int + r.1 * pow16(n) - 6
            * cmos_borrows(a, b, w, n);
        assert(lhs == 16 * (dp + w1) + nib + 16 * rb - 6 * (w1 + 16 * cbp));
        assert(lhs == 16 * (dp + rb - 6 * cbp) + nib + 10 * w1);
        assert(lhs == 16 * r.0 + fixed);
        assert(lhs == bcd_sub(a, b, w, n).0 as int);
        assert(bcd_sub(a, b, w, n).1 * pow16(n) == r.1 * pow16(n));
        let am: nat = a % pow16(n);
        let bm: nat = b % pow16(n);
        assert(am - bm - w + r.1 * pow16(n) - 6 * cmos_borrows(a, b, w, n) == lhs);
        assert(a % pow16(n) + bcd_sub(a, b, w, n).1 * pow16(n) == bcd_sub(a, b, w, n).0 + b % pow16(n) + w
            + 6 * cmos_borrows(a, b, w, n));
    } else {
        vstd::arithmetic::div_mod::lemma_fundamental_div_mod_converse(a as int, 1, a as int, 0);
        vstd::arithmetic::div_mod::lemma_fundamental_div_mod_converse(b as int, 1, b as int, 0);
        assert(a % pow16(n) == 0);
        assert(bcd_sub(a, b, w, n).1 == w);
        assert(a % pow16(n) + bcd_sub(a, b, w, n).1 * pow16(n) == bcd_sub(a, b, w, n).0 + b % pow16(n) + w
            + 6 * cmos_borrows(a, b, w, n));
    }
}

/// For valid BCD operands, the 65C02's decimal subtraction gives the same result as the NMOS
/// one (their flags differ).
#[verifier::spinoff_prover]
#[verifier::rlimit(40)]
pub proof fn lemma_cmos_decimal_sbc_matches_nmos(m: u32, a: u32, b: u32, p: u8)
    requires
        m == 0xff || m == 0xffff,
        a <= m,
        b <= m,
        bcd_valid(a as nat, digits_of(m)),
        bcd_valid(b as nat, digits_of(m)),
    ensures
        spec_sbc_value(m, a, b, p, DecimalSemantics::Cmos65C02) == spec_sbc_value(
            m,
            a,
            b,
            p,
            DecimalSemantics::Nmos6502,
        ),
{
    if decimal_active(p, DecimalSemantics::Cmos65C02) {
        let n = digits_of(m);
        let w: nat = (1 - carry_in(p)) as nat;
        let q: int = m as int + 1;
        lemma_digit_powers(m);
        lemma_cmos_correction_is_digit_serial(a as nat, b as nat, w, n);
        vstd::arithmetic::div_mod::lemma_small_mod(a as nat, q as nat);
        vstd::arithmetic::div_mod::lemma_small_mod(b as nat, q as nat);
        let d: int = a as int - b as int - w as int;
        let cb: int = cmos_borrows(a as nat, b as nat, w, n) as int;
        let res: int = bcd_sub(a as nat, b as nat, w, n).0 as int;
        let bor: int = bcd_sub(a as nat, b as nat, w, n).1 as int;
        assert(d + bor * q - 6 * cb == res);
        // the binary difference is d modulo q
        assert(sbc_binary(m, a, b, p) == (d + q) % q);
        vstd::arithmetic::div_mod::lemma_mod_add_multiples_vanish(d, q);
        // subtracting the correction commutes with the reduction
        vstd::arithmetic::div_mod::lemma_sub_mod_noop(d, 6 * cb, q);
        vstd::arithmetic::div_mod::lemma_mod_twice(d, q);
        vstd::arithmetic::div_mod::lemma_mod_multiples_vanish(bor, res, q);
        assert(res + bor * q - bor * q == res);
        vstd::arithmetic::div_mod::lemma_small_mod(res as nat, q as nat);
    }
}

/// Each flag of a flag byte reads back as given.
pub proof fn lemma_flag_byte_bits(n: bool, v: bool, z: bool, c: bool)
    ensures
        (flag_byte(n, v, z, c) & psr::N != 0) == n,
        (flag_byte(n, v, z, c) & psr::V != 0) == v,
        (flag_byte(n, v, z, c) & psr::Z != 0) == z,
        (flag_byte(n, v, z, c) & psr::C != 0) == c,
        flag_byte(n, v, z, c) & (psr::D | psr::I | psr::B_6502 | psr::U_6502) == 0,
{
    let f = flag_byte(n, v, z, c);
    let nn: u8 = if n { 0x80 } else { 0 };
    let vv: u8 = if v { 0x40 } else { 0 };
    let zz: u8 = if z { 2 } else { 0 };
    let cc: u8 = if c { 1 } else { 0 };
    assert(f == nn + vv + zz + cc);
    assert((nn == 0 || nn == 0x80) && (vv == 0 || vv == 0x40) && (zz == 0 || zz == 2) && (cc == 0
        || cc == 1) ==> {
        &&& ((nn + vv + zz + cc) as u8 & 0x80 != 0) == (nn == 0x80)
        &&& ((nn + vv + zz + cc) as u8 & 0x40 != 0) == (vv == 0x40)
        &&& ((nn + vv + zz + cc) as u8 & 2 != 0) == (zz == 2)
        &&& ((nn + vv + zz + cc) as u8 & 1 != 0) == (cc == 1)
        &&& (nn + vv + zz + cc) as u8 & 0x3c == 0
    }) by (bit_vector);
    assert(psr::D | psr::I | psr::B_6502 | psr::U_6502 == 0x3c) by (bit_vector);
}

/// Rotating left and then right through carry restores the operand and the carry.
pub proof fn lemma_ror_undoes_rol(m: u32, w: u32, c: bool)
    requires
        m == 0xff || m == 0xffff,
        w <= m,
    ensures
        ({
            let rolled = wrap(m, w * 2 + (if c { 1int } else { 0 }));
            let carry = w >= sign_of(m);
            &&& rolled / 2 + (if carry { sign_of(m) as int } else { 0 }) == w
            &&& (rolled % 2 == 1) == c
        }),
{
    let s = sign_of(m) as int;
    let n = m as int + 1;
    assert(n == 2 * s);
    let cc: int = if c {
        1
    } else {
        0
    };
    let x: int = w * 2 + cc;
    let q: int = if w >= s {
        1
    } else {
        0
    };
    let rolled: int = x - q * n;
    vstd::arithmetic::div_mod::lemma_fundamental_div_mod_converse(x, n, q, rolled);
    let h: int = if w >= s {
        w - s
    } else {
        w as int
    };
    assert(rolled == 2 * h + cc);
    vstd::arithmetic::div_mod::lemma_fundamental_div_mod_converse(rolled, 2, h, cc);
}

/// Rotating right and then left through carry restores the operand and the carry.
pub proof fn lemma_rol_undoes_ror(m: u32, w: u32, c: bool)
    requires
        m == 0xff || m == 0xffff,
        w <= m,
    ensures
        ({
            let rotated = w / 2 + (if c { sign_of(m) as int } else { 0 });
            let carry = w % 2 == 1;
            &&& wrap(m, rotated * 2 + (if carry { 1int } else { 0 })) == w
            &&& (rotated >= sign_of(m)) == c
        }),
{
}

/// Decrementing undoes incrementing, and incrementing undoes decrementing.
pub proof fn lemma_inc_dec_inverse(m: u32, w: u32)
    requires
        m == 0xff || m == 0xffff,
        w <= m,
    ensures
        wrap(m, wrap(m, w + 1) + m) == w,
        wrap(m, wrap(m, w + m) + 1) == w,
{
    let n = m as int + 1;
    if w == m {
        assert((w + 1) % n == 0) by {
            vstd::arithmetic::div_mod::lemma_mod_self_0(n);
        }
        assert((w + m) % n == w - 1) by {
            vstd::arithmetic::div_mod::lemma_fundamental_div_mod_converse(w + m, n, 1, w - 1);
        }
        vstd::arithmetic::div_mod::lemma_small_mod(m as nat, n as nat);
    } else {
        vstd::arithmetic::div_mod::lemma_small_mod((w + 1) as nat, n as nat);
        assert((w + 1 + m) % n == w) by {
            vstd::arithmetic::div_mod::lemma_fundamental_div_mod_converse(w + 1 + m, n, 1, w as int);
        }
        if w == 0 {
            vstd::arithmetic::div_mod::lemma_small_mod(m as nat, n as nat);
            assert((m + 1) % n == 0) by {
                vstd::arithmetic::div_mod::lemma_mod_self_0(n);
            }
        } else {
            assert((w + m) % n == w - 1) by {
                vstd::arithmetic::div_mod::lemma_fundamental_div_mod_converse(w + m, n, 1, w - 1);
            }
            vstd::arithmetic::div_mod::lemma_small_mod(w as nat, n as nat);
        }
    }
}

proof fn lemma_sign_bit_small(m: u32, x: int)
    requires
        m == 0xff || m == 0xffff,
        0 <= x < 4 * sign_of(m),
    ensures
        bit_set(x, sign_of(m) as int) == (sign_of(m) <= x < 2 * sign_of(m) || 3 * sign_of(m) <= x),
{
    let s = sign_of(m) as int;
    let q: int = if x < s {
        0
    } else if x < 2 * s {
        1
    } else if x < 3 * s {
        2
    } else {
        3
    };
    vstd::arithmetic::div_mod::lemma_fundamental_div_mod_converse(x, s, q, x - q * s);
}

/// The binary V flag of ADC is two's-complement overflow: the signed sum of the operands and
/// the carry does not fit the width.
pub proof fn lemma_adc_overflow_is_signed_overflow(m: u32, a: u32, b: u32, c: nat)
    requires
        m == 0xff || m == 0xffff,
        a <= m,
        b <= m,
        c <= 1,
    ensures
        add_overflow(sign_of(m), a as int, b as int, a + b + c) == !(-(sign_of(m) as int) <= signed(
            m,
            a as int,
        ) + signed(m, b as int) + c < sign_of(m)),
{
    lemma_sign_bit_small(m, a as int);
    lemma_sign_bit_small(m, b as int);
    lemma_sign_bit_small(m, a + b + c);
}

/// In binary mode SBC is ADC of the one's complement of the operand: same value, same flags.
pub proof fn lemma_binary_sbc_is_adc_of_complement(
    m: u32,
    a: u32,
    b: u32,
    p: u8,
    sem: DecimalSemantics,
)
    requires
        m == 0xff || m == 0xffff,
        a <= m,
        b <= m,
        !decimal_active(p, sem),
    ensures
        spec_sbc_value(m, a, b, p, sem) == spec_adc_value(m, a, (m - b) as u32, p, sem),
        spec_sbc_flags(m, a, b, p, sem) == spec_adc_flags(m, a, (m - b) as u32, p, sem),
{
    let sum = a + (m - b) + carry_in(p);
    lemma_sign_bit_small(m, a as int);
    lemma_sign_bit_small(m, b as int);
    lemma_sign_bit_small(m, (m - b) as int);
    lemma_sign_bit_small(m, sum);
    lemma_sign_bit_small(m, wrap(m, sum));
}

} // verus!
