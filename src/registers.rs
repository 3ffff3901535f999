use vstd::prelude::*;

use crate::flags::FlagsRegister;

verus! {

/// An 8-bit register that instructions name as an operand.
#[derive(Clone, Copy, Debug, PartialEq, Eq, Structural)]
pub enum Reg {
    A,
    B,
    C,
    D,
    E,
    H,
    L,
}

/// A 16-bit register: one of the three pairs, or the stack pointer.
#[derive(Clone, Copy, Debug, PartialEq, Eq, Structural)]
pub enum Pair {
    BC,
    DE,
    HL,
    SP,
}

/// The register file as plain values, flags as their packed byte.
pub struct RegisterState {
    pub a: u8,
    pub b: u8,
    pub c: u8,
    pub d: u8,
    pub e: u8,
    pub h: u8,
    pub l: u8,
    pub f: u8,
    pub pc: u16,
    pub sp: u16,
}

/// The 16-bit value whose upper byte is `hi` and lower byte is `lo`.
pub open spec fn pair_value(hi: u8, lo: u8) -> u16 {
    (hi as int * 256 + lo as int) as u16
}

/// The upper byte of a 16-bit value.
pub open spec fn high_byte(v: u16) -> u8 {
    (v as int / 256) as u8
}

/// The lower byte of a 16-bit value.
pub open spec fn low_byte(v: u16) -> u8 {
    (v as int % 256) as u8
}

/// The value of an 8-bit register.
pub open spec fn reg_of(s: RegisterState, r: Reg) -> u8 {
    match r {
        Reg::A => s.a,
        Reg::B => s.b,
        Reg::C => s.c,
        Reg::D => s.d,
        Reg::E => s.e,
        Reg::H => s.h,
        Reg::L => s.l,
    }
}

/// The state with one 8-bit register replaced.
pub open spec fn with_reg(s: RegisterState, r: Reg, v: u8) -> RegisterState {
    match r {
        Reg::A => RegisterState { a: v, ..s },
        Reg::B => RegisterState { b: v, ..s },
        Reg::C => RegisterState { c: v, ..s },
        Reg::D => RegisterState { d: v, ..s },
        Reg::E => RegisterState { e: v, ..s },
        Reg::H => RegisterState { h: v, ..s },
        Reg::L => RegisterState { l: v, ..s },
    }
}

/// The value of a 16-bit register.
pub open spec fn pair_of(s: RegisterState, p: Pair) -> u16 {
    match p {
        Pair::BC => pair_value(s.b, s.c),
        Pair::DE => pair_value(s.d, s.e),
        Pair::HL => pair_value(s.h, s.l),
        Pair::SP => s.sp,
    }
}

/// The state with one 16-bit register replaced; a pair is written as both halves.
pub open spec fn with_pair(s: RegisterState, p: Pair, v: u16) -> RegisterState {
    match p {
        Pair::BC => RegisterState { b: high_byte(v), c: low_byte(v), ..s },
        Pair::DE => RegisterState { d: high_byte(v), e: low_byte(v), ..s },
        Pair::HL => RegisterState { h: high_byte(v), l: low_byte(v), ..s },
        Pair::SP => RegisterState { sp: v, ..s },
    }
}

/// The register file: eight 8-bit registers, `sp` and `pc`.
#[derive(Debug)]
pub struct Registers {
    pub a: u8,
    pub b: u8,
    pub c: u8,
    pub d: u8,
    pub e: u8,
    pub h: u8,
    pub l: u8,
    pub pc: u16,
    pub sp: u16,
    pub f: FlagsRegister,
}

impl View for Registers {
    type V = RegisterState;

    open spec fn view(&self) -> RegisterState {
        RegisterState {
            a: self.a,
            b: self.b,
            c: self.c,
            d: self.d,
            e: self.e,
            h: self.h,
            l: self.l,
            f: self.f@,
            pc: self.pc,
            sp: self.sp,
        }
    }
}

/// Joins two bytes into a 16-bit value, upper byte first.
pub(crate) fn join(hi: u8, lo: u8) -> (r: u16)
    ensures
        r == pair_value(hi, lo),
{
    let r = (hi as u16) << 8 | (lo as u16);
    assert(((hi as u16) << 8 | (lo as u16)) == (hi as u16) * 256 + (lo as u16)) by (bit_vector);
    r
}

/// Splits a 16-bit value into its upper and lower bytes.
fn split(v: u16) -> (r: (u8, u8))
    ensures
        r.0 == high_byte(v),
        r.1 == low_byte(v),
{
    assert((v >> 8) == v / 256) by (bit_vector);
    ((v >> 8) as u8, (v % 256) as u8)
}

impl Registers {
    /// All registers zero, all flags cleared.
    pub fn new() -> (r: Self)
        ensures
            r@ == (RegisterState { a: 0, b: 0, c: 0, d: 0, e: 0, h: 0, l: 0, f: 0, pc: 0, sp: 0 }),
    {
        Registers { a: 0, b: 0, c: 0, d: 0, e: 0, h: 0, l: 0, pc: 0, sp: 0, f: FlagsRegister::new() }
    }

    /// The pair `bc`, with `b` as the upper byte.
    pub fn bc(&self) -> (r: u16)
        ensures
            r == pair_value(self.b, self.c),
    {
        join(self.b, self.c)
    }

    /// The pair `de`, with `d` as the upper byte.
    pub fn de(&self) -> (r: u16)
        ensures
            r == pair_value(self.d, self.e),
    {
        join(self.d, self.e)
    }

    /// The pair `hl`, with `h` as the upper byte.
    pub fn hl(&self) -> (r: u16)
        ensures
            r == pair_value(self.h, self.l),
    {
        join(self.h, self.l)
    }

    /// Writes `value` to `b` (upper byte) and `c` (lower byte).
    pub fn set_bc(&mut self, value: u16)
        ensures
            final(self)@ == with_pair(old(self)@, Pair::BC, value),
    {
        let (hi, lo) = split(value);
        self.b = hi;
        self.c = lo;
    }

    /// Writes `value` to `d` (upper byte) and `e` (lower byte).
    pub fn set_de(&mut self, value: u16)
        ensures
            final(self)@ == with_pair(old(self)@, Pair::DE, value),
    {
        let (hi, lo) = split(value);
        self.d = hi;
        self.e = lo;
    }

    /// Writes `value` to `h` (upper byte) and `l` (lower byte).
    pub fn set_hl(&mut self, value: u16)
        ensures
            final(self)@ == with_pair(old(self)@, Pair::HL, value),
    {
        let (hi, lo) = split(value);
        self.h = hi;
        self.l = lo;
    }

    /// The value of an 8-bit register.
    pub fn get_reg(&self, r: Reg) -> (v: u8)
        ensures
            v == reg_of(self@, r),
    {
        match r {
            Reg::A => self.a,
            Reg::B => self.b,
            Reg::C => self.c,
            Reg::D => self.d,
            Reg::E => self.e,
            Reg::H => self.h,
            Reg::L => self.l,
        }
    }

    /// Writes an 8-bit register.
    pub fn set_reg(&mut self, r: Reg, v: u8)
        ensures
            final(self)@ == with_reg(old(self)@, r, v),
    {
        match r {
            Reg::A => self.a = v,
            Reg::B => self.b = v,
            Reg::C => self.c = v,
            Reg::D => self.d = v,
            Reg::E => self.e = v,
            Reg::H => self.h = v,
            Reg::L => self.l = v,
        }
    }

    /// The value of a 16-bit register.
    pub fn get_pair(&self, p: Pair) -> (v: u16)
        ensures
            v == pair_of(self@, p),
    {
        match p {
            Pair::BC => self.bc(),
            Pair::DE => self.de(),
            Pair::HL => self.hl(),
            Pair::SP => self.sp,
        }
    }

    /// Writes a 16-bit register.
    pub fn set_pair(&mut self, p: Pair, v: u16)
        ensures
            final(self)@ == with_pair(old(self)@, p, v),
    {
        match p {
            Pair::BC => self.set_bc(v),
            Pair::DE => self.set_de(v),
            Pair::HL => self.set_hl(v),
            Pair::SP => self.sp = v,
        }
    }
}

/// Splitting a 16-bit value into bytes and joining them gives the value back.
pub proof fn lemma_split_join(v: u16)
    ensures
        pair_value(high_byte(v), low_byte(v)) == v,
{
}

/// Writing a 16-bit register and reading it back gives the value written, and
/// writing a pair changes no register outside it.
pub proof fn lemma_pair_round_trip(s: RegisterState, p: Pair, v: u16)
    ensures
        pair_of(with_pair(s, p, v), p) == v,
        with_pair(s, p, v).a == s.a,
        with_pair(s, p, v).f == s.f,
        with_pair(s, p, v).pc == s.pc,
        forall|q: Pair| q != p ==> pair_of(with_pair(s, p, v), q) == pair_of(s, q),
{
    lemma_split_join(v);
}

} // verus!
