use vstd::prelude::*;

verus! {

/// One of the four condition flags held in the upper nibble of `f`.
#[derive(Clone, Copy, Debug, PartialEq, Eq, Structural)]
pub enum Flag {
    /// Z, bit 7: the result was zero.
    Zero,
    /// N, bit 6: the operation was a subtraction.
    Subtract,
    /// H, bit 5: carry out of (or borrow into) bit 3.
    HalfCarry,
    /// C, bit 4: carry out of (or borrow into) bit 7.
    Carry,
}

/// The bit that a flag occupies in the packed byte.
pub open spec fn flag_mask(kind: Flag) -> u8 {
    match kind {
        Flag::Zero => 0x80,
        Flag::Subtract => 0x40,
        Flag::HalfCarry => 0x20,
        Flag::Carry => 0x10,
    }
}

/// Whether `kind` is set in the packed byte.
pub open spec fn flag_of(byte: u8, kind: Flag) -> bool {
    byte & flag_mask(kind) != 0
}

/// The packed byte with exactly the bit of `kind` set or cleared.
pub open spec fn with_flag(byte: u8, kind: Flag, value: bool) -> u8 {
    if value {
        byte | flag_mask(kind)
    } else {
        byte & !flag_mask(kind)
    }
}

/// The packed byte holding the four given flags, reserved nibble zero.
pub open spec fn pack_flags(z: bool, n: bool, h: bool, c: bool) -> u8 {
    (if z { 0x80u8 } else { 0u8 }) | (if n { 0x40u8 } else { 0u8 }) | (if h { 0x20u8 } else { 0u8 })
        | (if c { 0x10u8 } else { 0u8 })
}

impl Flag {
    /// The bit this flag occupies in the packed byte.
    pub fn mask(self) -> (m: u8)
        ensures
            m == flag_mask(self),
    {
        match self {
            Flag::Zero => 0x80,
            Flag::Subtract => 0x40,
            Flag::HalfCarry => 0x20,
            Flag::Carry => 0x10,
        }
    }
}

/// The flags register `f`: Z, N, H, C in bits 7 to 4 of one byte, whose
/// low nibble is always zero.
#[derive(Clone, Copy, Debug)]
pub struct FlagsRegister {
    bits: u8,
}

impl View for FlagsRegister {
    type V = u8;

    closed spec fn view(&self) -> u8 {
        self.bits
    }
}

impl FlagsRegister {
    #[verifier::type_invariant]
    spec fn reserved_clear(&self) -> bool {
        self.bits & 0x0F == 0
    }

    /// All four flags cleared.
    pub fn new() -> (r: Self)
        ensures
            r@ == 0,
    {
        assert(0u8 & 0x0F == 0) by (bit_vector);
        FlagsRegister { bits: 0 }
    }

    /// The register as it is seen by a byte-wide transfer (`push af`).
    pub fn to_byte(&self) -> (r: u8)
        ensures
            r == self@,
            r & 0x0F == 0,
    {
        proof {
            use_type_invariant(self);
        }
        self.bits
    }

    /// The register loaded from a byte (`pop af`): the reserved nibble is dropped.
    pub fn from_byte(byte: u8) -> (r: Self)
        ensures
            r@ == byte & 0xF0,
    {
        assert((byte & 0xF0) & 0x0F == 0) by (bit_vector);
        FlagsRegister { bits: byte & 0xF0 }
    }

    /// The register holding exactly the four given flags.
    pub fn from_flags(z: bool, n: bool, h: bool, c: bool) -> (r: Self)
        ensures
            r@ == pack_flags(z, n, h, c),
    {
        let bits: u8 = (if z { 0x80u8 } else { 0u8 }) | (if n { 0x40u8 } else { 0u8 }) | (if h {
            0x20u8
        } else {
            0u8
        }) | (if c { 0x10u8 } else { 0u8 });
        proof {
            lemma_pack_reserved_clear(z, n, h, c);
        }
        FlagsRegister { bits }
    }

    /// Whether the flag `kind` is set.
    pub fn get_flag(&self, kind: Flag) -> (r: bool)
        ensures
            r == flag_of(self@, kind),
    {
        self.bits & kind.mask() != 0
    }

    /// Sets or clears the flag `kind`, leaving every other bit as it was.
    pub fn set_flag(&mut self, kind: Flag, value: bool)
        ensures
            final(self)@ == with_flag(old(self)@, kind, value),
    {
        proof {
            use_type_invariant(&*self);
            lemma_flag_isolation(self@, kind, kind, value);
        }
        let m = kind.mask();
        if value {
            self.bits = self.bits | m;
        } else {
            self.bits = self.bits & !m;
        }
    }

    /// Whether Z is set.
    pub fn zero(&self) -> (r: bool)
        ensures
            r == flag_of(self@, Flag::Zero),
    {
        self.get_flag(Flag::Zero)
    }

    /// Whether N is set.
    pub fn subtract(&self) -> (r: bool)
        ensures
            r == flag_of(self@, Flag::Subtract),
    {
        self.get_flag(Flag::Subtract)
    }

    /// Whether H is set.
    pub fn half_carry(&self) -> (r: bool)
        ensures
            r == flag_of(self@, Flag::HalfCarry),
    {
        self.get_flag(Flag::HalfCarry)
    }

    /// Whether C is set.
    pub fn carry(&self) -> (r: bool)
        ensures
            r == flag_of(self@, Flag::Carry),
    {
        self.get_flag(Flag::Carry)
    }
}

/// A packed flag byte has its reserved nibble clear.
pub proof fn lemma_pack_reserved_clear(z: bool, n: bool, h: bool, c: bool)
    ensures
        pack_flags(z, n, h, c) & 0x0F == 0,
{
    let a: u8 = if z { 0x80u8 } else { 0u8 };
    let b: u8 = if n { 0x40u8 } else { 0u8 };
    let d: u8 = if h { 0x20u8 } else { 0u8 };
    let e: u8 = if c { 0x10u8 } else { 0u8 };
    assert((a == 0x80 || a == 0) && (b == 0x40 || b == 0) && (d == 0x20 || d == 0) && (e == 0x10
        || e == 0) ==> (a | b | d | e) & 0x0F == 0) by (bit_vector);
}

/// A flags byte as `to_byte` gives it (reserved nibble clear) is loaded back
/// unchanged by `from_byte`, so flags survive a byte-wide save and restore.
pub proof fn lemma_flags_byte_round_trip(byte: u8)
    requires
        byte & 0x0F == 0,
    ensures
        byte & 0xF0 == byte,
{
    assert(byte & 0x0F == 0 ==> byte & 0xF0 == byte) by (bit_vector);
}

/// Setting or clearing one flag gives it the new value and leaves the other
/// three flags and the reserved nibble unchanged.
pub proof fn lemma_flag_isolation(byte: u8, kind: Flag, other: Flag, value: bool)
    ensures
        flag_of(with_flag(byte, kind, value), kind) == value,
        other != kind ==> flag_of(with_flag(byte, kind, value), other) == flag_of(byte, other),
        with_flag(byte, kind, value) & 0x0F == byte & 0x0F,
{
    let m = flag_mask(kind);
    let o = flag_mask(other);
    assert(m == 0x80 || m == 0x40 || m == 0x20 || m == 0x10);
    assert(o == 0x80 || o == 0x40 || o == 0x20 || o == 0x10);
    assert(other != kind ==> m != o);
    assert((m == 0x80 || m == 0x40 || m == 0x20 || m == 0x10) && (o == 0x80 || o == 0x40 || o
        == 0x20 || o == 0x10) ==> ((byte | m) & m != 0 && (byte & !m) & m == 0 && (byte | m)
        & 0x0F == byte & 0x0F && (byte & !m) & 0x0F == byte & 0x0F && (m != o ==> (((byte | m)
        & o != 0) == (byte & o != 0) && ((byte & !m) & o != 0) == (byte & o != 0)))))
        by (bit_vector);
}

} // verus!
